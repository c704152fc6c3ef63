//! The factory system: renderer information, the factory trait, the mock
//! renderer and its factory, and the reference renderer's configuration and
//! factory.
use vstd::prelude::*;
use vstd::string::StrSliceExecFns;
use vstd::utf8::encode_utf8;
pub use crate::parameters::{parse_parameters, ParameterMap};
use crate::parameters::{
    keys_distinct, lemma_distinct_drop_last, lemma_insert_new_key, lemma_lookup_last,
    lemma_parsed_entries_rejoinable, lookup, parse_parameters_spec, EntryView,
};
use crate::renderer::{
    next_frame_count, precision_debug, DataPrecision, ReferenceRenderer, Renderer, RendererError,
};
use crate::text::{
    chars_of, concat, contains_seq, decimal_seq, owned, parse_bool_spec, parse_bool_str,
    parse_u32_str, parse_unsigned_spec, parse_usize_str, push_decimal, push_str, same_chars, split_seq,
    split_spans, str_contains, str_eq, string_from_chars, trim_bounds, trim_seq, TextValue,
};

verus! {

broadcast use vstd::seq::group_seq_axioms;

/// The identifier of the type `T` (`TypeId::of`). Nothing is stated of the
/// value, which the compiler chooses; the library only carries it and
/// compares it with `same_type_id`.
#[verifier::external_body]
pub(crate) fn type_id_of<T: ?Sized + 'static>() -> std::any::TypeId {
    std::any::TypeId::of::<T>()
}

/// The number of logical CPUs of the machine (`num_cpus::get`), which the crate
/// documents to be at least 1.
#[verifier::external_body]
pub(crate) fn cpu_count() -> (n: usize)
    ensures
        n >= 1,
{
    num_cpus::get()
}

/// The capability names that a list of comma-separated pieces names: each
/// piece trimmed, blank pieces left out.
pub open spec fn capabilities_of_pieces(ps: Seq<Seq<char>>) -> Seq<Seq<char>>
    decreases ps.len(),
{
    if ps.len() == 0 {
        Seq::empty()
    } else {
        let r = capabilities_of_pieces(ps.drop_last());
        let t = trim_seq(ps.last());
        if t.len() > 0 {
            r.push(t)
        } else {
            r
        }
    }
}

/// The capability names of a comma-separated capability text.
pub open spec fn capability_list(s: Seq<char>) -> Seq<Seq<char>> {
    capabilities_of_pieces(split_seq(s, ','))
}

/// Information about a renderer factory: its name, its comma-separated
/// capabilities, the parameters it takes with their descriptions, and how long
/// its operations may take.
#[derive(Debug)]
pub struct RendererInfo {
    /// Type identifier, set by the `RendererManager` during registration.
    pub id: std::any::TypeId,
    /// Human-readable name of the renderer.
    pub name: String,
    /// Comma-separated list of capabilities.
    pub capabilities: String,
    /// Parameter names and their descriptions.
    pub parameters: ParameterMap,
    /// Maximum time in microseconds allowed for renderer creation.
    pub timeout_microseconds: u64,
}

impl Clone for RendererInfo {
    fn clone(&self) -> (r: Self)
        ensures
            r.id == self.id,
            r.name@ == self.name@,
            r.capabilities@ == self.capabilities@,
            r.parameters@ == self.parameters@,
            r.timeout_microseconds == self.timeout_microseconds,
    {
        RendererInfo {
            id: self.id,
            name: self.name.clone(),
            capabilities: self.capabilities.clone(),
            parameters: self.parameters.clone(),
            timeout_microseconds: self.timeout_microseconds,
        }
    }
}

/// Collects the non-blank trimmed pieces of `caps` that lie in the spans.
fn capability_spans(v: &Vec<char>) -> (r: Vec<(usize, usize)>)
    ensures
        r.len() == capability_list(v@).len(),
        forall|k: int|
            0 <= k < r.len() ==> (#[trigger] r[k]).0 <= r[k].1 <= v.len() && v@.subrange(
                r[k].0 as int,
                r[k].1 as int,
            ) == capability_list(v@)[k],
{
    let spans = split_spans(v, 0, v.len(), ',');
    let ghost pieces = split_seq(v@.subrange(0, v.len() as int), ',');
    assert(v@.subrange(0, v.len() as int) =~= v@);
    let mut out: Vec<(usize, usize)> = Vec::new();
    let mut s: usize = 0;
    while s < spans.len()
        invariant
            s <= spans.len(),
            spans.len() == pieces.len(),
            pieces == split_seq(v@, ','),
            forall|k: int|
                0 <= k < spans.len() ==> (#[trigger] spans[k]).0 <= spans[k].1 <= v.len()
                    && v@.subrange(spans[k].0 as int, spans[k].1 as int) == pieces[k],
            out.len() == capabilities_of_pieces(pieces.subrange(0, s as int)).len(),
            forall|k: int|
                0 <= k < out.len() ==> (#[trigger] out[k]).0 <= out[k].1 <= v.len()
                    && v@.subrange(out[k].0 as int, out[k].1 as int) == capabilities_of_pieces(
                    pieces.subrange(0, s as int),
                )[k],
        decreases spans.len() - s,
    {
        let (lo, hi) = spans[s];
        assert(pieces.subrange(0, s + 1).drop_last() =~= pieces.subrange(0, s as int));
        assert(pieces.subrange(0, s + 1).last() == pieces[s as int]);
        let (a, b) = trim_bounds(v, lo, hi);
        if a < b {
            out.push((a, b));
        }
        s = s + 1;
    }
    assert(pieces.subrange(0, spans.len() as int) =~= pieces);
    out
}

impl RendererInfo {
    /// A renderer description; the identifier is a placeholder until a
    /// `RendererManager` registers the factory.
    pub fn new(
        name: String,
        capabilities: String,
        parameters: ParameterMap,
        timeout_microseconds: u64,
    ) -> (r: Self)
        ensures
            r.name == name,
            r.capabilities == capabilities,
            r.parameters@ == parameters@,
            r.timeout_microseconds == timeout_microseconds,
    {
        RendererInfo {
            id: type_id_of::<()>(),
            name,
            capabilities,
            parameters,
            timeout_microseconds,
        }
    }

    /// The capability names: the comma-separated pieces of `capabilities`,
    /// trimmed, with blank ones left out.
    pub fn get_capabilities(&self) -> (r: Vec<&str>)
        ensures
            r.len() == capability_list(self.capabilities@).len(),
            forall|k: int|
                0 <= k < r.len() ==> (#[trigger] r[k])@ == capability_list(self.capabilities@)[k],
    {
        let text = self.capabilities.as_str();
        let v = chars_of(text);
        let spans = capability_spans(&v);
        let mut out: Vec<&str> = Vec::new();
        let mut i: usize = 0;
        while i < spans.len()
            invariant
                i <= spans.len(),
                v@ == text@,
                text@ == self.capabilities@,
                spans.len() == capability_list(v@).len(),
                forall|k: int|
                    0 <= k < spans.len() ==> (#[trigger] spans[k]).0 <= spans[k].1 <= v.len()
                        && v@.subrange(spans[k].0 as int, spans[k].1 as int) == capability_list(
                        v@,
                    )[k],
                out.len() == i,
                forall|k: int| 0 <= k < i ==> (#[trigger] out[k])@ == capability_list(v@)[k],
            decreases spans.len() - i,
        {
            let (a, b) = spans[i];
            out.push(text.substring_char(a, b));
            i = i + 1;
        }
        out
    }

    /// Whether one of the capability names equals the trimmed `capability`;
    /// the comparison is case-sensitive.
    pub fn has_capability(&self, capability: &str) -> (r: bool)
        ensures
            r == capability_list(self.capabilities@).contains(trim_seq(capability@)),
    {
        let v = chars_of(self.capabilities.as_str());
        let spans = capability_spans(&v);
        let c = chars_of(capability);
        let (c0, c1) = trim_bounds(&c, 0, c.len());
        assert(c@.subrange(0, c.len() as int) =~= capability@);
        let ghost list = capability_list(self.capabilities@);
        let ghost target = trim_seq(capability@);
        let mut i: usize = 0;
        while i < spans.len()
            invariant
                i <= spans.len(),
                v@ == self.capabilities@,
                list == capability_list(v@),
                list == capability_list(self.capabilities@),
                target == trim_seq(capability@),
                spans.len() == list.len(),
                forall|k: int|
                    0 <= k < spans.len() ==> (#[trigger] spans[k]).0 <= spans[k].1 <= v.len()
                        && v@.subrange(spans[k].0 as int, spans[k].1 as int) == list[k],
                c0 <= c1 <= c.len(),
                c@.subrange(c0 as int, c1 as int) == target,
                forall|k: int| 0 <= k < i ==> #[trigger] list[k] != target,
            decreases spans.len() - i,
        {
            let (a, b) = spans[i];
            if same_chars(&v, a, b, &c, c0, c1) {
                assert(list[i as int] == target);
                assert(list.contains(target));
                return true;
            }
            i = i + 1;
        }
        false
    }

    /// Sets the type identifier.
    pub fn set_id(&mut self, id: std::any::TypeId)
        ensures
            final(self).id == id,
            final(self).name == old(self).name,
            final(self).capabilities == old(self).capabilities,
            final(self).parameters == old(self).parameters,
            final(self).timeout_microseconds == old(self).timeout_microseconds,
    {
        self.id = id;
    }

    /// The parameter names and their descriptions.
    pub fn get_parameters(&self) -> (r: &ParameterMap)
        ensures
            r@ == self.parameters@,
    {
        &self.parameters
    }

    /// Whether the renderer takes the parameter `param_name`.
    pub fn has_parameter(&self, param_name: &str) -> (r: bool)
        ensures
            r == (crate::parameters::lookup(self.parameters@, param_name@) is Some),
    {
        self.parameters.contains_key(param_name)
    }

    /// The description of the parameter `param_name`.
    pub fn get_parameter_description(&self, param_name: &str) -> (r: Option<&String>)
        ensures
            match r {
                Some(d) => crate::parameters::lookup(self.parameters@, param_name@) == Some(d@),
                None => crate::parameters::lookup(self.parameters@, param_name@) is None,
            },
    {
        self.parameters.get(param_name)
    }
}

/// A factory of renderers. Implementations validate the requested precision
/// and parameters; validation and creation agree on every input.
pub trait RendererFactory: Send + Sync + 'static {
    /// Whether creation succeeds for the precision and parameter text. Each
    /// factory of this crate defines it; for others it is left unspecified.
    open spec fn accepts(&self, precision: DataPrecision, parameters: Seq<char>) -> bool {
        arbitrary()
    }

    /// The timeout in this factory's information; unspecified unless the
    /// factory defines it.
    open spec fn info_timeout(&self) -> u64 {
        arbitrary()
    }

    /// Whether creation is refused for want of support for the precision;
    /// unspecified unless the factory defines it.
    open spec fn rejects_precision(&self, precision: DataPrecision, parameters: Seq<char>) -> bool {
        arbitrary()
    }

    /// The name in this factory's information; unspecified unless the factory
    /// defines it.
    open spec fn info_name(&self) -> Seq<char> {
        arbitrary()
    }

    /// The parameter names and descriptions in this factory's information;
    /// unspecified unless the factory defines it.
    open spec fn info_parameters(&self) -> Seq<EntryView> {
        arbitrary()
    }

    /// The capability text in this factory's information; unspecified unless
    /// the factory defines it.
    open spec fn info_capabilities(&self) -> Seq<char> {
        arbitrary()
    }

    /// The name of the renderer that creation gives; unspecified unless the
    /// factory defines it.
    open spec fn created_name(&self, precision: DataPrecision, parameters: Seq<char>) -> Seq<char> {
        arbitrary()
    }

    /// The message of the parameter error that checking or creating with
    /// these arguments gives; unspecified unless the factory defines it.
    open spec fn parameter_error(&self, precision: DataPrecision, parameters: Seq<char>) -> Seq<char> {
        arbitrary()
    }

    /// Whether creation with these arguments fails for a reason other than the
    /// precision or the parameters; unspecified unless the factory defines it.
    open spec fn creation_failed(&self, precision: DataPrecision, parameters: Seq<char>) -> bool {
        arbitrary()
    }

    /// Creates a renderer computing in `precision`, configured by `parameters`.
    fn create(&self, precision: DataPrecision, parameters: &str) -> (r: Result<
        Box<dyn Renderer>,
        RendererError,
    >)
        ensures
            r is Ok <==> self.accepts(precision, parameters@),
            (r is Err && r->Err_0 is UnsupportedPrecision) <==> self.rejects_precision(
                precision,
                parameters@,
            ),
            r matches Ok(b) ==> b.precision_spec() == precision && !b.running_spec()
                && b.frames_spec() == 0 && b.name_spec() == self.created_name(precision, parameters@),
            r matches Err(RendererError::UnsupportedPrecision(q)) ==> q == precision,
            r matches Err(e) ==> (e is UnsupportedPrecision || e is InvalidParameters
                || e is CreationFailed),
            (r is Err && r->Err_0 is CreationFailed) <==> self.creation_failed(
                precision,
                parameters@,
            ),
            r matches Err(RendererError::InvalidParameters(m)) ==> m@ == self.parameter_error(
                precision,
                parameters@,
            ),
            r matches Err(RendererError::CreationFailed(m)) ==> m@ == self.parameter_error(
                precision,
                parameters@,
            ),
    ;

    /// Information about this factory.
    fn get_info(&self) -> (r: RendererInfo)
        ensures
            r.name@ == self.info_name(),
            r.capabilities@ == self.info_capabilities(),
            r.parameters@ == self.info_parameters(),
            r.timeout_microseconds == self.info_timeout(),
    ;

    /// The identifier of the factory's own type, by which a manager tells
    /// factories apart.
    fn factory_type_id(&self) -> std::any::TypeId {
        type_id_of::<Self>()
    }

    /// Checks the precision and parameters without creating a renderer.
    fn validate_parameters(&self, precision: DataPrecision, parameters: &str) -> (r: Result<
        (),
        RendererError,
    >)
        ensures
            r is Ok <==> self.accepts(precision, parameters@),
            (r is Err && r->Err_0 is UnsupportedPrecision) <==> self.rejects_precision(
                precision,
                parameters@,
            ),
            r matches Err(RendererError::UnsupportedPrecision(q)) ==> q == precision,
            r matches Err(e) ==> (e is UnsupportedPrecision || e is InvalidParameters),
            r matches Err(RendererError::InvalidParameters(m)) ==> m@ == self.parameter_error(
                precision,
                parameters@,
            ),
    ;
}

impl core::fmt::Debug for dyn RendererFactory {
    /// Writes `RendererFactory` (`Formatter::write_str`); nothing is stated of
    /// the outcome.
    #[verifier::external_body]
    fn fmt(&self, f: &mut core::fmt::Formatter<'_>) -> core::fmt::Result {
        f.write_str("RendererFactory")
    }
}

/// A renderer for tests that records whether it was started.
#[derive(Debug)]
pub struct MockRenderer {
    id: u64,
    name: &'static str,
    started: bool,
    precision: DataPrecision,
    frame_count: u64,
}

impl MockRenderer {
    /// A stopped mock renderer with the given name and precision.
    pub fn new(name: &'static str, precision: DataPrecision) -> (r: Self)
        ensures
            r.name_spec() == name@,
            r.precision_spec() == precision,
            !r.running_spec(),
            r.frames_spec() == 0,
            r.id_spec() == 0,
    {
        MockRenderer { id: 0, name, started: false, precision, frame_count: 0 }
    }

    /// The precision of the renderer.
    pub fn precision(&self) -> (r: DataPrecision)
        ensures
            r == self.precision_spec(),
    {
        self.precision
    }

    /// Whether the renderer was started and not stopped since.
    pub fn is_started(&self) -> (r: bool)
        ensures
            r == self.running_spec(),
    {
        self.started
    }
}

impl Renderer for MockRenderer {
    closed spec fn running_spec(&self) -> bool {
        self.started
    }

    closed spec fn frames_spec(&self) -> u64 {
        self.frame_count
    }

    closed spec fn precision_spec(&self) -> DataPrecision {
        self.precision
    }

    closed spec fn id_spec(&self) -> u64 {
        self.id
    }

    closed spec fn name_spec(&self) -> Seq<char> {
        self.name@
    }

    open spec fn shutdown_timeout_spec(&self) -> u64 {
        1000
    }

    open spec fn start_refused(&self) -> bool {
        false
    }

    fn set_data_precision(&mut self, precision: DataPrecision) -> (r: Result<DataPrecision, String>)
        ensures
            r == Ok::<DataPrecision, String>(precision),
    {
        self.precision = precision;
        Ok(precision)
    }

    fn get_data_precision(&self) -> (r: DataPrecision) {
        self.precision
    }

    fn is_running(&self) -> (r: bool) {
        self.started
    }

    fn get_frame_count(&self) -> (r: u64) {
        self.frame_count
    }

    fn start(&mut self) -> (r: Result<(), String>)
        ensures
            r is Ok <==> !old(self).running_spec(),
            r is Err ==> r->Err_0@ == "Renderer is already started"@,
    {
        if self.started {
            Err(owned("Renderer is already started"))
        } else {
            self.started = true;
            Ok(())
        }
    }

    fn stop(&mut self) {
        self.started = false;
    }

    fn name(&self) -> (r: &'static str)
        ensures
            r@ == self.name_spec(),
    {
        self.name
    }

    fn render_frame(&mut self) -> (r: Result<(), String>)
        ensures
            r is Err ==> r->Err_0@ == "Renderer is not running"@,
    {
        if !self.started {
            return Err(owned("Renderer is not running"));
        }
        self.frame_count = self.frame_count.wrapping_add(1);
        Ok(())
    }

    fn unique_id(&self) -> (r: u64) {
        self.id
    }

    fn assign_unique_id(&mut self, id: u64) {
        self.id = id;
    }

    fn shutdown_timeout_ms(&self) -> (r: u64)
        ensures
            r == 1000,
    {
        1000
    }
}

/// What a mock factory decides about a parameter text, whatever the precision:
/// the text may not contain `invalid`, may hold at most 100 bytes, and may
/// set `custom_name` only to `true`.
pub open spec fn mock_parameter_error(parameters: Seq<char>) -> Option<Seq<char>> {
    if contains_seq(parameters, "invalid"@) {
        Some("Parameters cannot contain 'invalid'"@)
    } else if encode_utf8(parameters).len() as usize > 100 {
        Some("Parameters too long (max 100 characters)"@)
    } else if contains_seq(parameters, "custom_name="@) && !contains_seq(
        parameters,
        "custom_name=true"@,
    ) {
        Some("custom_name parameter must be 'true' if specified"@)
    } else {
        None
    }
}

/// A configurable factory of mock renderers.
#[derive(Debug)]
pub struct MockRendererFactory {
    factory_name: String,
    supported_precisions: Vec<DataPrecision>,
    capabilities: String,
    timeout_microseconds: u64,
}

impl MockRendererFactory {
    /// The precisions the factory supports.
    pub closed spec fn supported_spec(&self) -> Seq<DataPrecision> {
        self.supported_precisions@
    }

    /// The timeout the factory reports.
    pub closed spec fn timeout_spec(&self) -> u64 {
        self.timeout_microseconds
    }

    /// A mock factory supporting F32 and F64, with the capabilities
    /// `testing,mock,basic_rendering` and a 5000 µs timeout.
    pub fn new<N: TextValue>(factory_name: N) -> (r: Self)
        ensures
            r.info_name() == factory_name.text(),
            r.supported_spec() == seq![DataPrecision::F32, DataPrecision::F64],
            r.info_capabilities() == "testing,mock,basic_rendering"@,
            r.timeout_spec() == 5000,
    {
        let r = MockRendererFactory {
            factory_name: factory_name.into_string(),
            supported_precisions: vec![DataPrecision::F32, DataPrecision::F64],
            capabilities: owned("testing,mock,basic_rendering"),
            timeout_microseconds: 5000,
        };
        assert(r.supported_spec() =~= seq![DataPrecision::F32, DataPrecision::F64]);
        r
    }

    /// A mock factory supporting the given precisions, with the capabilities
    /// `testing,mock,configurable_precision` and a 3000 µs timeout.
    pub fn new_with_precisions<N: TextValue>(
        factory_name: N,
        supported_precisions: Vec<DataPrecision>,
    ) -> (r: Self)
        ensures
            r.info_name() == factory_name.text(),
            r.supported_spec() == supported_precisions@,
            r.info_capabilities() == "testing,mock,configurable_precision"@,
            r.timeout_spec() == 3000,
    {
        MockRendererFactory {
            factory_name: factory_name.into_string(),
            supported_precisions,
            capabilities: owned("testing,mock,configurable_precision"),
            timeout_microseconds: 3000,
        }
    }

    /// A mock factory with every property given.
    pub fn new_full<N: TextValue, C: TextValue>(
        factory_name: N,
        supported_precisions: Vec<DataPrecision>,
        capabilities: C,
        timeout_microseconds: u64,
    ) -> (r: Self)
        ensures
            r.info_name() == factory_name.text(),
            r.supported_spec() == supported_precisions@,
            r.info_capabilities() == capabilities.text(),
            r.timeout_spec() == timeout_microseconds,
    {
        MockRendererFactory {
            factory_name: factory_name.into_string(),
            supported_precisions,
            capabilities: capabilities.into_string(),
            timeout_microseconds,
        }
    }

    fn supports(&self, precision: DataPrecision) -> (r: bool)
        ensures
            r == self.supported_spec().contains(precision),
    {
        let mut i: usize = 0;
        while i < self.supported_precisions.len()
            invariant
                i <= self.supported_precisions.len(),
                forall|j: int| 0 <= j < i ==> self.supported_precisions@[j] != precision,
            decreases self.supported_precisions.len() - i,
        {
            if self.supported_precisions[i] == precision {
                assert(self.supported_precisions@[i as int] == precision);
                return true;
            }
            i = i + 1;
        }
        false
    }

    fn check_parameters(&self, parameters: &str) -> (r: Result<(), RendererError>)
        ensures
            match mock_parameter_error(parameters@) {
                Some(m) => r matches Err(RendererError::InvalidParameters(e)) && e@ == m,
                None => r is Ok,
            },
    {
        if str_contains(parameters, "invalid") {
            return Err(RendererError::InvalidParameters(owned("Parameters cannot contain 'invalid'")));
        }
        if parameters.len() > 100 {
            return Err(
                RendererError::InvalidParameters(owned("Parameters too long (max 100 characters)")),
            );
        }
        if str_contains(parameters, "custom_name=") && !str_contains(parameters, "custom_name=true") {
            return Err(
                RendererError::InvalidParameters(
                    owned("custom_name parameter must be 'true' if specified"),
                ),
            );
        }
        Ok(())
    }
}

impl RendererFactory for MockRendererFactory {
    open spec fn accepts(&self, precision: DataPrecision, parameters: Seq<char>) -> bool {
        self.supported_spec().contains(precision) && mock_parameter_error(parameters) is None
    }

    open spec fn rejects_precision(&self, precision: DataPrecision, parameters: Seq<char>) -> bool {
        !self.supported_spec().contains(precision)
    }

    closed spec fn info_name(&self) -> Seq<char> {
        self.factory_name@
    }

    open spec fn created_name(&self, precision: DataPrecision, parameters: Seq<char>) -> Seq<char> {
        if contains_seq(parameters, "custom_name="@) {
            "CustomMock"@
        } else {
            "Mock"@
        }
    }

    open spec fn parameter_error(&self, precision: DataPrecision, parameters: Seq<char>) -> Seq<char> {
        match mock_parameter_error(parameters) {
            Some(m) => m,
            None => Seq::empty(),
        }
    }

    open spec fn creation_failed(&self, precision: DataPrecision, parameters: Seq<char>) -> bool {
        false
    }

    closed spec fn info_capabilities(&self) -> Seq<char> {
        self.capabilities@
    }

    fn create(&self, precision: DataPrecision, parameters: &str) -> (r: Result<
        Box<dyn Renderer>,
        RendererError,
    >)
        ensures
            !self.supported_spec().contains(precision) ==> (r matches Err(
                RendererError::UnsupportedPrecision(p),
            ) && p == precision),
            self.supported_spec().contains(precision) ==> match mock_parameter_error(parameters@) {
                Some(m) => r matches Err(RendererError::InvalidParameters(e)) && e@ == m,
                None => r matches Ok(b) && b.precision_spec() == precision && !b.running_spec()
                    && b.frames_spec() == 0,
            },
    {
        self.validate_parameters(precision, parameters)?;
        let name = if str_contains(parameters, "custom_name=") {
            "CustomMock"
        } else {
            "Mock"
        };
        Ok(Box::new(MockRenderer::new(name, precision)))
    }

    open spec fn info_timeout(&self) -> u64 {
        self.timeout_spec()
    }

    open spec fn info_parameters(&self) -> Seq<EntryView> {
        seq![
            ("custom_name"@, "Set to 'true' to use CustomMock renderer name"@),
            ("test_mode"@, "Enable test mode for debugging"@),
        ]
    }

    fn get_info(&self) -> (r: RendererInfo)
        ensures
            r.timeout_microseconds == self.timeout_spec(),
    {
        let mut parameters = ParameterMap::new();
        proof {
            reveal_strlit("custom_name");
            reveal_strlit("test_mode");
        }
        proof {
            lemma_insert_new_key(
                parameters@,
                "custom_name"@,
                "Set to 'true' to use CustomMock renderer name"@,
            );
        }
        parameters.insert(
            owned("custom_name"),
            owned("Set to 'true' to use CustomMock renderer name"),
        );
        proof {
            assert forall|j: int| 0 <= j < parameters@.len() implies (#[trigger] parameters@[j]).0
                != "test_mode"@ by {
                if j == 0 {
                    assert("custom_name"@.len() != "test_mode"@.len());
                }
            }
            lemma_insert_new_key(
                parameters@,
                "test_mode"@,
                "Enable test mode for debugging"@,
            );
        }
        parameters.insert(owned("test_mode"), owned("Enable test mode for debugging"));
        assert(parameters@ =~= seq![
                ("custom_name"@, "Set to 'true' to use CustomMock renderer name"@),
                ("test_mode"@, "Enable test mode for debugging"@),
            ]);
        RendererInfo::new(
            self.factory_name.clone(),
            self.capabilities.clone(),
            parameters,
            self.timeout_microseconds,
        )
    }

    fn validate_parameters(&self, precision: DataPrecision, parameters: &str) -> (r: Result<
        (),
        RendererError,
    >)
        ensures
            !self.supported_spec().contains(precision) ==> (r matches Err(
                RendererError::UnsupportedPrecision(p),
            ) && p == precision),
            self.supported_spec().contains(precision) ==> match mock_parameter_error(parameters@) {
                Some(m) => r matches Err(RendererError::InvalidParameters(e)) && e@ == m,
                None => r is Ok,
            },
    {
        if !self.supports(precision) {
            return Err(RendererError::UnsupportedPrecision(precision));
        }
        self.check_parameters(parameters)
    }
}

/// The quality levels a configuration may name.
pub open spec fn quality_valid(q: Seq<char>) -> bool {
    q == "low"@ || q == "medium"@ || q == "high"@ || q == "ultra"@
}

/// Whether `q` names a quality level: `low`, `medium`, `high` or `ultra`.
pub fn is_quality(q: &str) -> (r: bool)
    ensures
        r == quality_valid(q@),
{
    str_eq(q, "low") || str_eq(q, "medium") || str_eq(q, "high") || str_eq(q, "ultra")
}

/// The settings of a reference renderer configuration that its parameters
/// can change.
pub ghost struct ReferenceSettings {
    pub threads: nat,
    pub quality: Seq<char>,
    pub debug: bool,
    pub max_splat_count: nat,
    pub viewport_size: (u32, u32),
}

pub open spec fn quality_error(q: Seq<char>) -> Seq<char> {
    "Invalid quality value: "@ + q + ". Must be one of: low, medium, high, ultra"@
}

/// One parameter applied to reference renderer settings; unknown names are
/// ignored.
pub open spec fn reference_apply(s: ReferenceSettings, k: Seq<char>, v: Seq<char>) -> Result<
    ReferenceSettings,
    Seq<char>,
> {
    if k == "max_splat_count"@ {
        match parse_unsigned_spec(v, usize::MAX as nat) {
            Some(n) => Ok(ReferenceSettings { max_splat_count: n, ..s }),
            None => Err("Invalid max_splat_count: "@ + v),
        }
    } else if k == "threads"@ {
        match parse_unsigned_spec(v, usize::MAX as nat) {
            Some(n) => if n == 0 {
                Err("threads must be greater than 0"@)
            } else {
                Ok(ReferenceSettings { threads: n, ..s })
            },
            None => Err("Invalid threads value: "@ + v),
        }
    } else if k == "quality"@ {
        if quality_valid(v) {
            Ok(ReferenceSettings { quality: v, ..s })
        } else {
            Err(quality_error(v))
        }
    } else if k == "debug"@ {
        match parse_bool_spec(v) {
            Some(b) => Ok(ReferenceSettings { debug: b, ..s }),
            None => Err("Invalid debug value: "@ + v),
        }
    } else if k == "viewport_size"@ {
        let parts = split_seq(v, 'x');
        if parts.len() == 2 {
            match parse_unsigned_spec(parts[0], u32::MAX as nat) {
                None => Err("Invalid viewport width: "@ + parts[0]),
                Some(w) => match parse_unsigned_spec(parts[1], u32::MAX as nat) {
                    None => Err("Invalid viewport height: "@ + parts[1]),
                    Some(h) => Ok(ReferenceSettings { viewport_size: (w as u32, h as u32), ..s }),
                },
            }
        } else {
            Err(
                "Invalid viewport_size format: "@ + v
                    + ". Expected format: 'widthxheight' (e.g., '1920x1080')"@,
            )
        }
    } else {
        Ok(s)
    }
}

/// The parameters applied in order, stopping at the first refused one.
pub open spec fn reference_apply_all(s: ReferenceSettings, es: Seq<EntryView>) -> Result<
    ReferenceSettings,
    Seq<char>,
>
    decreases es.len(),
{
    if es.len() == 0 {
        Ok(s)
    } else {
        match reference_apply_all(s, es.drop_last()) {
            Ok(t) => reference_apply(t, es.last().0, es.last().1),
            Err(m) => Err(m),
        }
    }
}

/// Parses `w` as `WIDTHxHEIGHT`, with the errors of the reference renderer's
/// `viewport_size` parameter.
pub fn parse_viewport(value: &str) -> (r: Result<(u32, u32), String>)
    ensures
        ({
            let parts = split_seq(value@, 'x');
            if parts.len() == 2 {
                match parse_unsigned_spec(parts[0], u32::MAX as nat) {
                    None => r matches Err(e) && e@ == "Invalid viewport width: "@ + parts[0],
                    Some(w) => match parse_unsigned_spec(parts[1], u32::MAX as nat) {
                        None => r matches Err(e) && e@ == "Invalid viewport height: "@ + parts[1],
                        Some(h) => r == Ok::<(u32, u32), String>((w as u32, h as u32)),
                    },
                }
            } else {
                r matches Err(e) && e@ == "Invalid viewport_size format: "@ + value@
                    + ". Expected format: 'widthxheight' (e.g., '1920x1080')"@
            }
        }),
{
    let v = chars_of(value);
    let spans = split_spans(&v, 0, v.len(), 'x');
    assert(v@.subrange(0, v.len() as int) =~= value@);
    if spans.len() == 2 {
        let (a0, b0) = spans[0];
        let (a1, b1) = spans[1];
        let width_text = string_from_chars(&v, a0, b0);
        let height_text = string_from_chars(&v, a1, b1);
        match parse_u32_str(width_text.as_str()) {
            None => Err(concat(owned("Invalid viewport width: "), width_text.as_str())),
            Some(w) => match parse_u32_str(height_text.as_str()) {
                None => Err(concat(owned("Invalid viewport height: "), height_text.as_str())),
                Some(h) => Ok((w, h)),
            },
        }
    } else {
        Err(
            concat(
                concat(owned("Invalid viewport_size format: "), value),
                ". Expected format: 'widthxheight' (e.g., '1920x1080')",
            ),
        )
    }
}

/// Configuration of the reference renderer.
#[derive(Debug)]
pub struct ReferenceRendererConfig {
    pub threads: usize,
    pub quality: String,
    pub debug: bool,
    /// Preferred data precision for vertex data
    pub precision: DataPrecision,
    /// Maximum number of Gaussian splats to render
    pub max_splat_count: usize,
    /// Supported data precisions
    pub supported_precisions: Vec<DataPrecision>,
    /// Viewport dimensions (width, height)
    pub viewport_size: (u32, u32),
}

impl ReferenceRendererConfig {
    /// The settings that parameters can change.
    pub open spec fn settings(&self) -> ReferenceSettings {
        ReferenceSettings {
            threads: self.threads as nat,
            quality: self.quality@,
            debug: self.debug,
            max_splat_count: self.max_splat_count as nat,
            viewport_size: self.viewport_size,
        }
    }

    /// The defaults, with `threads` as given.
    pub open spec fn default_settings(threads: nat) -> ReferenceSettings {
        ReferenceSettings {
            threads,
            quality: "medium"@,
            debug: false,
            max_splat_count: 1_000_000,
            viewport_size: (1920, 1080),
        }
    }
}

impl Default for ReferenceRendererConfig {
    /// One thread per logical CPU, medium quality, no debug output, F32, one
    /// million splats, F16 and F32 supported, a 1920x1080 viewport.
    fn default() -> (r: Self)
        ensures
            r.threads >= 1,
            r.settings() == ReferenceRendererConfig::default_settings(r.threads as nat),
            r.precision == DataPrecision::F32,
            r.supported_precisions@ == seq![DataPrecision::F16, DataPrecision::F32],
    {
        let r = ReferenceRendererConfig {
            threads: cpu_count(),
            quality: owned("medium"),
            debug: false,
            precision: DataPrecision::F32,
            max_splat_count: 1_000_000,
            supported_precisions: vec![DataPrecision::F16, DataPrecision::F32],
            viewport_size: (1920, 1080),
        };
        assert(r.supported_precisions@ =~= seq![DataPrecision::F16, DataPrecision::F32]);
        r
    }
}

/// The text of a `bool` as `{}` prints it.
pub open spec fn bool_text(b: bool) -> Seq<char> {
    if b {
        "true"@
    } else {
        "false"@
    }
}

/// Whether settings have at least one thread and a known quality level.
pub open spec fn reference_settings_in_range(s: ReferenceSettings) -> bool {
    s.threads > 0 && quality_valid(s.quality)
}

proof fn lemma_reference_apply_all_in_range(s: ReferenceSettings, es: Seq<EntryView>)
    requires
        reference_settings_in_range(s),
    ensures
        reference_apply_all(s, es) matches Ok(t) ==> reference_settings_in_range(t),
    decreases es.len(),
{
    if es.len() > 0 {
        lemma_reference_apply_all_in_range(s, es.drop_last());
    }
}

/// Every reference configuration that parameters give, whatever the default
/// thread count, has at least one thread and a quality of `low`, `medium`,
/// `high` or `ultra`.
pub proof fn law_reference_config_in_range(parameters: Seq<char>, threads: nat, c: ReferenceRendererConfig)
    requires
        threads >= 1,
        reference_apply_all(
            ReferenceRendererConfig::default_settings(threads),
            parse_parameters_spec(parameters),
        ) == Ok::<ReferenceSettings, Seq<char>>(c.settings()),
    ensures
        c.threads > 0,
        quality_valid(c.quality@),
{
    lemma_reference_apply_all_in_range(
        ReferenceRendererConfig::default_settings(threads),
        parse_parameters_spec(parameters),
    );
}

/// Whether `t` holds what the entries give its thread count, quality, debug
/// flag and splat count, and otherwise what `s` holds.
pub open spec fn reference_stores(s: ReferenceSettings, es: Seq<EntryView>, t: ReferenceSettings) -> bool {
    &&& match lookup(es, "threads"@) {
        Some(v) => parse_unsigned_spec(v, usize::MAX as nat) == Some(t.threads),
        None => t.threads == s.threads,
    }
    &&& match lookup(es, "quality"@) {
        Some(v) => t.quality == v,
        None => t.quality == s.quality,
    }
    &&& match lookup(es, "debug"@) {
        Some(v) => parse_bool_spec(v) == Some(t.debug),
        None => t.debug == s.debug,
    }
    &&& match lookup(es, "max_splat_count"@) {
        Some(v) => parse_unsigned_spec(v, usize::MAX as nat) == Some(t.max_splat_count),
        None => t.max_splat_count == s.max_splat_count,
    }
}

proof fn lemma_reference_stores(s: ReferenceSettings, es: Seq<EntryView>, t: ReferenceSettings)
    requires
        keys_distinct(es),
        reference_apply_all(s, es) == Ok::<ReferenceSettings, Seq<char>>(t),
    ensures
        reference_stores(s, es, t),
    decreases es.len(),
{
    reveal_strlit("threads");
    reveal_strlit("quality");
    reveal_strlit("debug");
    reveal_strlit("max_splat_count");
    reveal_strlit("viewport_size");
    if es.len() > 0 {
        let es1 = es.drop_last();
        lemma_distinct_drop_last(es);
        let t1 = reference_apply_all(s, es1)->Ok_0;
        lemma_reference_stores(s, es1, t1);
        lemma_lookup_last(es, "threads"@);
        lemma_lookup_last(es, "quality"@);
        lemma_lookup_last(es, "debug"@);
        lemma_lookup_last(es, "max_splat_count"@);
        let e = es.last();
        assert(("threads"@)[0] != ("quality"@)[0]);
        assert(("threads"@).len() != ("max_splat_count"@).len());
        assert(("quality"@).len() != ("max_splat_count"@).len());
        assert(("debug"@).len() != ("max_splat_count"@).len());
        assert(("debug"@).len() != ("threads"@).len());
        assert(("debug"@).len() != ("quality"@).len());
        assert(reference_apply(t1, e.0, e.1) == Ok::<ReferenceSettings, Seq<char>>(t));
        if e.0 == "threads"@ {
            assert(parse_unsigned_spec(e.1, usize::MAX as nat) == Some(t.threads));
        } else if e.0 == "quality"@ {
            assert(t.quality == e.1);
        } else if e.0 == "debug"@ {
            assert(parse_bool_spec(e.1) == Some(t.debug));
        } else if e.0 == "max_splat_count"@ {
            assert(parse_unsigned_spec(e.1, usize::MAX as nat) == Some(t.max_splat_count));
        } else {
            assert(t.threads == t1.threads);
            assert(t.quality == t1.quality);
            assert(t.debug == t1.debug);
            assert(t.max_splat_count == t1.max_splat_count);
        }
    }
}

/// What a parameter text says of the thread count, the quality, the debug
/// flag and the splat count is what the reference configuration holds: the
/// quality is the very level given and the others the parsed values of their
/// entries, or the defaults (the default thread count, `medium`, off, one
/// million) when the text has none.
pub proof fn law_reference_parameters_stored(parameters: Seq<char>, threads: nat, c: ReferenceRendererConfig)
    requires
        reference_apply_all(
            ReferenceRendererConfig::default_settings(threads),
            parse_parameters_spec(parameters),
        ) == Ok::<ReferenceSettings, Seq<char>>(c.settings()),
    ensures
        ({
            let es = parse_parameters_spec(parameters);
            &&& match lookup(es, "threads"@) {
                Some(v) => parse_unsigned_spec(v, usize::MAX as nat) == Some(c.threads as nat),
                None => c.threads == threads,
            }
            &&& match lookup(es, "quality"@) {
                Some(v) => c.quality@ == v,
                None => c.quality@ == "medium"@,
            }
            &&& match lookup(es, "debug"@) {
                Some(v) => parse_bool_spec(v) == Some(c.debug),
                None => !c.debug,
            }
            &&& match lookup(es, "max_splat_count"@) {
                Some(v) => parse_unsigned_spec(v, usize::MAX as nat) == Some(c.max_splat_count as nat),
                None => c.max_splat_count == 1_000_000,
            }
        }),
{
    lemma_parsed_entries_rejoinable(parameters);
    lemma_reference_stores(
        ReferenceRendererConfig::default_settings(threads),
        parse_parameters_spec(parameters),
        c.settings(),
    );
}

proof fn lemma_reference_error_persists(s: ReferenceSettings, es: Seq<EntryView>, j: int)
    requires
        0 <= j <= es.len(),
        reference_apply_all(s, es.subrange(0, j)) is Err,
    ensures
        reference_apply_all(s, es) == reference_apply_all(s, es.subrange(0, j)),
    decreases es.len(),
{
    if j == es.len() {
        assert(es.subrange(0, j) =~= es);
    } else {
        assert(es.drop_last().subrange(0, j) =~= es.subrange(0, j));
        lemma_reference_error_persists(s, es.drop_last(), j);
    }
}

impl ReferenceRendererConfig {
    /// Applies one parameter to the configuration.
    fn apply_parameter(&mut self, key: &str, value: &str) -> (r: Result<(), String>)
        ensures
            match reference_apply(old(self).settings(), key@, value@) {
                Ok(t) => r is Ok && final(self).settings() == t,
                Err(m) => r matches Err(e) && e@ == m,
            },
            final(self).precision == old(self).precision,
            final(self).supported_precisions@ == old(self).supported_precisions@,
    {
        if str_eq(key, "max_splat_count") {
            match parse_usize_str(value) {
                Some(n) => {
                    self.max_splat_count = n;
                },
                None => {
                    return Err(concat(owned("Invalid max_splat_count: "), value));
                },
            }
        } else if str_eq(key, "threads") {
            match parse_usize_str(value) {
                Some(n) => {
                    if n == 0 {
                        return Err(owned("threads must be greater than 0"));
                    }
                    self.threads = n;
                },
                None => {
                    return Err(concat(owned("Invalid threads value: "), value));
                },
            }
        } else if str_eq(key, "quality") {
            if !is_quality(value) {
                return Err(
                    concat(
                        concat(owned("Invalid quality value: "), value),
                        ". Must be one of: low, medium, high, ultra",
                    ),
                );
            }
            self.quality = owned(value);
        } else if str_eq(key, "debug") {
            match parse_bool_str(value) {
                Some(b) => {
                    self.debug = b;
                },
                None => {
                    return Err(concat(owned("Invalid debug value: "), value));
                },
            }
        } else if str_eq(key, "viewport_size") {
            match parse_viewport(value) {
                Ok(size) => {
                    self.viewport_size = size;
                },
                Err(e) => {
                    return Err(e);
                },
            }
        }
        Ok(())
    }

    /// The configuration for `precision` with `parameters` applied in order to
    /// the defaults; names other than `max_splat_count`, `threads`, `quality`,
    /// `debug` and `viewport_size` are ignored. The default thread count is
    /// the number of logical CPUs.
    pub fn from_parameters(precision: DataPrecision, parameters: &str) -> (r: Result<Self, String>)
        ensures
            match r {
                Ok(c) => c.precision == precision && c.supported_precisions@ == seq![
                    DataPrecision::F16,
                    DataPrecision::F32,
                ] && exists|t: nat|
                    t >= 1 && reference_apply_all(
                        #[trigger] ReferenceRendererConfig::default_settings(t),
                        parse_parameters_spec(parameters@),
                    ) == Ok::<ReferenceSettings, Seq<char>>(c.settings()),
                Err(m) => exists|t: nat|
                    t >= 1 && reference_apply_all(
                        #[trigger] ReferenceRendererConfig::default_settings(t),
                        parse_parameters_spec(parameters@),
                    ) == Err::<ReferenceSettings, Seq<char>>(m@),
            },
    {
        let mut config = Self::default();
        config.precision = precision;
        let ghost t0 = config.threads as nat;
        let params = parse_parameters(parameters);
        let ghost es = params@;
        assert(ReferenceRendererConfig::default_settings(t0) == config.settings());
        assert(es.subrange(0, 0) =~= Seq::<EntryView>::empty());
        let mut i: usize = 0;
        while i < params.len()
            invariant
                i <= params@.len(),
                es == params@,
                es == parse_parameters_spec(parameters@),
                t0 >= 1,
                reference_apply_all(
                    ReferenceRendererConfig::default_settings(t0),
                    es.subrange(0, i as int),
                ) == Ok::<ReferenceSettings, Seq<char>>(config.settings()),
                config.precision == precision,
                config.supported_precisions@ == seq![DataPrecision::F16, DataPrecision::F32],
            decreases params@.len() - i,
        {
            let (key, value) = params.entry(i);
            assert(es.subrange(0, i + 1).drop_last() =~= es.subrange(0, i as int));
            assert(es.subrange(0, i + 1).last() == es[i as int]);
            match config.apply_parameter(key.as_str(), value.as_str()) {
                Ok(()) => {},
                Err(e) => {
                    proof {
                        lemma_reference_error_persists(
                            ReferenceRendererConfig::default_settings(t0),
                            es,
                            i + 1,
                        );
                    }
                    return Err(e);
                },
            }
            i = i + 1;
        }
        assert(es.subrange(0, params@.len() as int) =~= es);
        Ok(config)
    }

    /// Checks that the configuration is usable: threads, splat count and both
    /// viewport sides are positive and the quality is a known level.
    pub fn validate(&self) -> (r: Result<(), String>)
        ensures
            self.threads == 0 ==> (r matches Err(e) && e@ == "threads must be greater than 0"@),
            self.threads != 0 && self.max_splat_count == 0 ==> (r matches Err(e) && e@
                == "max_splat_count must be greater than 0"@),
            self.threads != 0 && self.max_splat_count != 0 && (self.viewport_size.0 == 0
                || self.viewport_size.1 == 0) ==> (r matches Err(e) && e@
                == "viewport_size width and height must be greater than 0"@),
            self.threads != 0 && self.max_splat_count != 0 && self.viewport_size.0 != 0
                && self.viewport_size.1 != 0 ==> if quality_valid(self.quality@) {
                r is Ok
            } else {
                r matches Err(e) && e@ == "Invalid quality: "@ + self.quality@
                    + ". Must be one of: low, medium, high, ultra"@
            },
    {
        if self.threads == 0 {
            return Err(owned("threads must be greater than 0"));
        }
        if self.max_splat_count == 0 {
            return Err(owned("max_splat_count must be greater than 0"));
        }
        if self.viewport_size.0 == 0 || self.viewport_size.1 == 0 {
            return Err(owned("viewport_size width and height must be greater than 0"));
        }
        if !is_quality(self.quality.as_str()) {
            return Err(
                concat(
                    concat(owned("Invalid quality: "), self.quality.as_str()),
                    ". Must be one of: low, medium, high, ultra",
                ),
            );
        }
        Ok(())
    }

    /// A one-line description of the configuration.
    pub fn description(&self) -> (r: String)
        ensures
            r@ == "ReferenceRenderer Config: "@ + decimal_seq(self.viewport_size.0 as nat) + "x"@
                + decimal_seq(self.viewport_size.1 as nat) + " viewport, "@ + decimal_seq(
                self.threads as nat,
            ) + " threads, "@ + self.quality@ + " quality, precision: "@ + precision_debug(
                self.precision,
            ) + ", max_splats: "@ + decimal_seq(self.max_splat_count as nat) + ", debug: "@
                + bool_text(self.debug),
    {
        let mut out: Vec<char> = Vec::new();
        push_str(&mut out, "ReferenceRenderer Config: ");
        push_decimal(&mut out, self.viewport_size.0 as u64);
        push_str(&mut out, "x");
        push_decimal(&mut out, self.viewport_size.1 as u64);
        push_str(&mut out, " viewport, ");
        push_decimal(&mut out, self.threads as u64);
        push_str(&mut out, " threads, ");
        push_str(&mut out, self.quality.as_str());
        push_str(&mut out, " quality, precision: ");
        push_str(&mut out, self.precision.debug_str());
        push_str(&mut out, ", max_splats: ");
        push_decimal(&mut out, self.max_splat_count as u64);
        push_str(&mut out, ", debug: ");
        push_str(&mut out, if self.debug { "true" } else { "false" });
        string_from_chars(&out, 0, out.len())
    }
}

/// The parameter names the reference renderer's factory accepts.
pub open spec fn only_precision_parameters(es: Seq<EntryView>) -> bool {
    forall|i: int| 0 <= i < es.len() ==> (#[trigger] es[i]).0 == "precision"@
}

/// The first key of the entries other than `precision`; empty when there is
/// none.
pub open spec fn first_non_precision_key(es: Seq<EntryView>) -> Seq<char>
    decreases es.len(),
{
    if es.len() == 0 {
        Seq::empty()
    } else if es[0].0 != "precision"@ {
        es[0].0
    } else {
        first_non_precision_key(es.drop_first())
    }
}

/// When the first `i` keys are `precision` and key `i` is not, key `i` is the
/// first key other than `precision`.
proof fn lemma_first_non_precision_key(es: Seq<EntryView>, i: int)
    requires
        0 <= i < es.len(),
        forall|j: int| 0 <= j < i ==> (#[trigger] es[j]).0 == "precision"@,
        es[i].0 != "precision"@,
    ensures
        first_non_precision_key(es) == es[i].0,
    decreases i,
{
    if i > 0 {
        assert forall|j: int| 0 <= j < i - 1 implies (#[trigger] es.drop_first()[j]).0 == "precision"@ by {
            assert(es.drop_first()[j] == es[j + 1]);
        }
        lemma_first_non_precision_key(es.drop_first(), i - 1);
    }
}

/// The first index at or before `i` whose key is not `precision`.
proof fn first_other_key_index(es: Seq<EntryView>, i: int) -> (j: int)
    requires
        0 <= i < es.len(),
        es[i].0 != "precision"@,
    ensures
        0 <= j <= i,
        es[j].0 != "precision"@,
        forall|l: int| 0 <= l < j ==> (#[trigger] es[l]).0 == "precision"@,
    decreases i,
{
    if forall|l: int| 0 <= l < i ==> (#[trigger] es[l]).0 == "precision"@ {
        i
    } else {
        let l = choose|l: int| 0 <= l < i && (#[trigger] es[l]).0 != "precision"@;
        first_other_key_index(es, l)
    }
}

/// The reference factory refuses every parameter but `precision`: when any
/// parsed key is another name, checking (or creating) gives an
/// invalid-parameters error naming the first such key, whatever keys come
/// before or after it.
pub proof fn law_reference_factory_refuses_other_keys(
    f: ReferenceRendererFactory,
    precision: DataPrecision,
    parameters: Seq<char>,
    i: int,
    r: Result<(), RendererError>,
)
    requires
        0 <= i < parse_parameters_spec(parameters).len(),
        parse_parameters_spec(parameters)[i].0 != "precision"@,
        r is Ok <==> f.accepts(precision, parameters),
        (r is Err && r->Err_0 is UnsupportedPrecision) <==> f.rejects_precision(precision, parameters),
        r matches Err(e) ==> (e is UnsupportedPrecision || e is InvalidParameters),
        r matches Err(RendererError::InvalidParameters(m)) ==> m@ == f.parameter_error(
            precision,
            parameters,
        ),
    ensures
        !f.accepts(precision, parameters),
        exists|j: int|
            0 <= j <= i && (#[trigger] parse_parameters_spec(parameters)[j]).0 != "precision"@
                && (r matches Err(RendererError::InvalidParameters(m)) && m@
                == "Unknown parameter for ReferenceRenderer: "@ + parse_parameters_spec(
                parameters,
            )[j].0),
{
    let es = parse_parameters_spec(parameters);
    let j = first_other_key_index(es, i);
    lemma_first_non_precision_key(es, j);
    assert(es[j].0 != "precision"@);
}

/// The reference factory accepts a text whose parsed keys are all
/// `precision`, whatever their values.
pub proof fn law_reference_factory_accepts_precision_only(
    f: ReferenceRendererFactory,
    precision: DataPrecision,
    parameters: Seq<char>,
)
    requires
        forall|i: int|
            0 <= i < parse_parameters_spec(parameters).len() ==> (
            #[trigger] parse_parameters_spec(parameters)[i]).0 == "precision"@,
    ensures
        f.accepts(precision, parameters),
{
}

/// Factory of reference renderers; the only parameter it takes is `precision`.
#[derive(Debug)]
pub struct ReferenceRendererFactory {
    factory_name: String,
}

impl ReferenceRendererFactory {
    /// The factory, named `ReferenceRenderer`.
    pub fn new() -> (r: Self)
        ensures
            r.info_name() == "ReferenceRenderer"@,
    {
        ReferenceRendererFactory { factory_name: owned("ReferenceRenderer") }
    }

    fn check_parameters(&self, parameters: &str) -> (r: Result<(), RendererError>)
        ensures
            r is Ok <==> only_precision_parameters(parse_parameters_spec(parameters@)),
            r matches Err(e) ==> e is InvalidParameters,
            r matches Err(RendererError::InvalidParameters(m)) ==> m@
                == "Unknown parameter for ReferenceRenderer: "@ + first_non_precision_key(
                parse_parameters_spec(parameters@),
            ),
    {
        if parameters.is_empty() {
            assert(parse_parameters_spec(parameters@) =~= Seq::<EntryView>::empty()) by {
                assert(parameters@ =~= Seq::<char>::empty());
                reveal_with_fuel(split_seq, 2);
                reveal_with_fuel(crate::parameters::entries_of_pieces, 2);
                assert(trim_seq(Seq::<char>::empty()) =~= Seq::<char>::empty());
            }
            return Ok(());
        }
        let params = parse_parameters(parameters);
        let mut i: usize = 0;
        while i < params.len()
            invariant
                i <= params@.len(),
                params@ == parse_parameters_spec(parameters@),
                forall|j: int| 0 <= j < i ==> (#[trigger] params@[j]).0 == "precision"@,
            decreases params@.len() - i,
        {
            let (key, _) = params.entry(i);
            if !str_eq(key.as_str(), "precision") {
                proof {
                    lemma_first_non_precision_key(params@, i as int);
                }
                return Err(
                    RendererError::InvalidParameters(
                        concat(owned("Unknown parameter for ReferenceRenderer: "), key.as_str()),
                    ),
                );
            }
            i = i + 1;
        }
        Ok(())
    }
}

impl RendererFactory for ReferenceRendererFactory {
    open spec fn created_name(&self, precision: DataPrecision, parameters: Seq<char>) -> Seq<char> {
        "ReferenceRenderer"@
    }

    open spec fn parameter_error(&self, precision: DataPrecision, parameters: Seq<char>) -> Seq<char> {
        "Unknown parameter for ReferenceRenderer: "@ + first_non_precision_key(
            parse_parameters_spec(parameters),
        )
    }

    open spec fn creation_failed(&self, precision: DataPrecision, parameters: Seq<char>) -> bool {
        false
    }

    open spec fn accepts(&self, precision: DataPrecision, parameters: Seq<char>) -> bool {
        only_precision_parameters(parse_parameters_spec(parameters))
    }

    open spec fn rejects_precision(&self, precision: DataPrecision, parameters: Seq<char>) -> bool {
        false
    }

    closed spec fn info_name(&self) -> Seq<char> {
        self.factory_name@
    }

    open spec fn info_capabilities(&self) -> Seq<char> {
        "reference,cpu,basic_rendering,all_precisions"@
    }

    fn create(&self, precision: DataPrecision, parameters: &str) -> (r: Result<
        Box<dyn Renderer>,
        RendererError,
    >)
        ensures
            r matches Ok(b) ==> b.precision_spec() == precision && !b.running_spec()
                && b.frames_spec() == 0,
            r matches Err(e) ==> e is InvalidParameters,
    {
        self.check_parameters(parameters)?;
        Ok(Box::new(ReferenceRenderer::with_precision(precision)))
    }

    open spec fn info_timeout(&self) -> u64 {
        1000
    }

    open spec fn info_parameters(&self) -> Seq<EntryView> {
        seq![
            ("precision"@, "Data precision for rendering (f16, f32, f64, bfloat16)"@),
        ]
    }

    fn get_info(&self) -> (r: RendererInfo)
        ensures
            r.timeout_microseconds == 1000,
    {
        let mut parameters = ParameterMap::new();
        proof {
            reveal_strlit("precision");
        }
        proof {
            lemma_insert_new_key(
                parameters@,
                "precision"@,
                "Data precision for rendering (f16, f32, f64, bfloat16)"@,
            );
        }
        parameters.insert(
            owned("precision"),
            owned("Data precision for rendering (f16, f32, f64, bfloat16)"),
        );
        assert(parameters@ =~= seq![
                ("precision"@, "Data precision for rendering (f16, f32, f64, bfloat16)"@),
            ]);
        RendererInfo::new(
            self.factory_name.clone(),
            owned("reference,cpu,basic_rendering,all_precisions"),
            parameters,
            1000,
        )
    }

    fn validate_parameters(&self, precision: DataPrecision, parameters: &str) -> (r: Result<
        (),
        RendererError,
    >)
        ensures
            r matches Err(e) ==> e is InvalidParameters,
    {
        self.check_parameters(parameters)
    }
}

} // verus!
