//! CPU reference renderer: its configuration, the renderer and its factory.
use vstd::prelude::*;
use crate::parameters::{lemma_insert_new_key, lookup, parse_parameters, parse_parameters_spec, EntryView, ParameterMap};
use crate::renderer::factory::{cpu_count, is_quality, quality_valid, RendererFactory, RendererInfo};
use crate::renderer::{next_frame_count, DataPrecision, Renderer, RendererError};
use crate::text::{concat, owned, parse_bool_spec, parse_bool_str, parse_unsigned_spec, parse_usize_str, str_eq};

verus! {

broadcast use vstd::seq::group_seq_axioms;

/// The settings of a CPU reference configuration that parameters can change.
pub ghost struct CpuSettings {
    pub threads: nat,
    pub quality: Seq<char>,
    pub debug: bool,
}

/// Whether `k` is a parameter name the CPU reference renderer takes.
pub open spec fn cpu_parameter_name(k: Seq<char>) -> bool {
    k == "threads"@ || k == "quality"@ || k == "debug"@
}

/// The first key of `es` that is not a CPU reference parameter.
pub open spec fn first_unknown_cpu_key(es: Seq<EntryView>) -> Option<Seq<char>>
    decreases es.len(),
{
    if es.len() == 0 {
        None
    } else {
        match first_unknown_cpu_key(es.drop_last()) {
            Some(k) => Some(k),
            None => if cpu_parameter_name(es.last().0) {
                None
            } else {
                Some(es.last().0)
            },
        }
    }
}

/// The outcome of configuring a CPU reference renderer with the entries `es`
/// when the machine has `cpus` logical CPUs: `threads` is checked first, then
/// `quality`, then `debug`, then the names of all entries.
pub open spec fn cpu_outcome(cpus: nat, es: Seq<EntryView>) -> Result<CpuSettings, Seq<char>> {
    let threads = match lookup(es, "threads"@) {
        None => Ok(cpus),
        Some(t) => match parse_unsigned_spec(t, usize::MAX as nat) {
            None => Err("Invalid threads value: "@ + t),
            Some(n) => if n == 0 {
                Err("threads must be greater than 0"@)
            } else {
                Ok(n)
            },
        },
    };
    let quality = match lookup(es, "quality"@) {
        None => Ok("medium"@),
        Some(q) => if quality_valid(q) {
            Ok(q)
        } else {
            Err("Invalid quality value: "@ + q + ". Must be one of: low, medium, high, ultra"@)
        },
    };
    let debug = match lookup(es, "debug"@) {
        None => Ok(false),
        Some(d) => match parse_bool_spec(d) {
            None => Err("Invalid debug value: "@ + d),
            Some(b) => Ok(b),
        },
    };
    match threads {
        Err(m) => Err(m),
        Ok(t) => match quality {
            Err(m) => Err(m),
            Ok(q) => match debug {
                Err(m) => Err(m),
                Ok(d) => match first_unknown_cpu_key(es) {
                    Some(k) => Err("Unsupported parameter: "@ + k),
                    None => Ok(CpuSettings { threads: t, quality: q, debug: d }),
                },
            },
        },
    }
}

/// An accepted CPU reference configuration has at least one thread and a
/// known quality level; a configuration is refused exactly when a key is not
/// a CPU reference parameter, the thread count is unreadable or 0, the quality
/// is not `low`, `medium`, `high` or `ultra`, or the debug flag is not
/// `true` or `false`.
pub proof fn law_cpu_settings_valid(cpus: nat, es: Seq<EntryView>)
    requires
        cpus >= 1,
    ensures
        cpu_outcome(cpus, es) matches Ok(c) ==> c.threads >= 1 && quality_valid(c.quality),
        cpu_outcome(cpus, es) is Err <==> (first_unknown_cpu_key(es) is Some || (lookup(es, "threads"@) matches Some(
            t,
        ) && (parse_unsigned_spec(t, usize::MAX as nat) is None || parse_unsigned_spec(
            t,
            usize::MAX as nat,
        )->Some_0 == 0)) || (lookup(es, "quality"@) matches Some(q) && !quality_valid(q)) || (lookup(
            es,
            "debug"@,
        ) matches Some(d) && parse_bool_spec(d) is None)),
{
    reveal_strlit("medium");
}

/// What a parameter text says of the thread count, quality and debug flag is
/// what an accepted CPU reference configuration holds: the parsed value of the
/// key's entry (the very quality level given), or the default (the default
/// thread count, `medium`, off) when the text has none.
pub proof fn law_cpu_parameters_stored(parameters: Seq<char>, cpus: nat, c: CpuReferenceConfig)
    requires
        cpu_outcome(cpus, parse_parameters_spec(parameters)) == Ok::<CpuSettings, Seq<char>>(
            c.settings(),
        ),
    ensures
        ({
            let es = parse_parameters_spec(parameters);
            &&& match lookup(es, "threads"@) {
                Some(v) => parse_unsigned_spec(v, usize::MAX as nat) == Some(c.threads as nat),
                None => c.threads == cpus,
            }
            &&& match lookup(es, "quality"@) {
                Some(v) => c.quality@ == v,
                None => c.quality@ == "medium"@,
            }
            &&& match lookup(es, "debug"@) {
                Some(v) => parse_bool_spec(v) == Some(c.debug),
                None => !c.debug,
            }
        }),
{
}

/// Configuration for the CPU reference renderer.
#[derive(Debug, PartialEq)]
pub struct CpuReferenceConfig {
    pub threads: usize,
    pub quality: String,
    pub debug: bool,
    pub precision: DataPrecision,
}

impl CpuReferenceConfig {
    /// The settings that parameters can change.
    pub open spec fn settings(&self) -> CpuSettings {
        CpuSettings { threads: self.threads as nat, quality: self.quality@, debug: self.debug }
    }
}

impl Clone for CpuReferenceConfig {
    fn clone(&self) -> (r: Self)
        ensures
            r.threads == self.threads,
            r.quality@ == self.quality@,
            r.debug == self.debug,
            r.precision == self.precision,
    {
        CpuReferenceConfig {
            threads: self.threads,
            quality: self.quality.clone(),
            debug: self.debug,
            precision: self.precision,
        }
    }
}

impl Default for CpuReferenceConfig {
    /// One thread per logical CPU, medium quality, no debug output, F32.
    fn default() -> (r: Self)
        ensures
            r.threads >= 1,
            r.quality@ == "medium"@,
            !r.debug,
            r.precision == DataPrecision::F32,
    {
        CpuReferenceConfig {
            threads: cpu_count(),
            quality: owned("medium"),
            debug: false,
            precision: DataPrecision::F32,
        }
    }
}

fn first_unknown_key(params: &ParameterMap) -> (r: Option<&String>)
    ensures
        match first_unknown_cpu_key(params@) {
            Some(k) => r matches Some(s) && s@ == k,
            None => r is None,
        },
{
    let mut i: usize = 0;
    while i < params.len()
        invariant
            i <= params@.len(),
            first_unknown_cpu_key(params@.subrange(0, i as int)) is None,
        decreases params@.len() - i,
    {
        let (key, _) = params.entry(i);
        assert(params@.subrange(0, i + 1).drop_last() =~= params@.subrange(0, i as int));
        let k = key.as_str();
        if !(str_eq(k, "threads") || str_eq(k, "quality") || str_eq(k, "debug")) {
            proof {
                lemma_unknown_key_persists(params@, i + 1);
            }
            return Some(key);
        }
        i = i + 1;
    }
    assert(params@.subrange(0, params@.len() as int) =~= params@);
    None
}

proof fn lemma_unknown_key_persists(es: Seq<EntryView>, j: int)
    requires
        0 <= j <= es.len(),
        first_unknown_cpu_key(es.subrange(0, j)) is Some,
    ensures
        first_unknown_cpu_key(es) == first_unknown_cpu_key(es.subrange(0, j)),
    decreases es.len(),
{
    if j == es.len() {
        assert(es.subrange(0, j) =~= es);
    } else {
        assert(es.drop_last().subrange(0, j) =~= es.subrange(0, j));
        lemma_unknown_key_persists(es.drop_last(), j);
    }
}

impl CpuReferenceConfig {
    /// The configuration for `precision` that the parameter string gives: the
    /// recognized parameters are `threads` (a positive integer), `quality`
    /// (`low`, `medium`, `high` or `ultra`) and `debug` (`true` or `false`);
    /// any other name is refused. The default thread count is the number of
    /// logical CPUs.
    pub fn from_parameters(precision: DataPrecision, parameters: &str) -> (r: Result<
        Self,
        RendererError,
    >)
        ensures
            match r {
                Ok(c) => c.precision == precision && exists|t: nat|
                    t >= 1 && #[trigger] cpu_outcome(t, parse_parameters_spec(parameters@)) == Ok::<
                        CpuSettings,
                        Seq<char>,
                    >(c.settings()),
                Err(RendererError::InvalidParameters(m)) => exists|t: nat|
                    t >= 1 && #[trigger] cpu_outcome(t, parse_parameters_spec(parameters@)) == Err::<
                        CpuSettings,
                        Seq<char>,
                    >(m@),
                Err(_) => false,
            },
    {
        let params = parse_parameters(parameters);
        let mut config = CpuReferenceConfig::default();
        config.precision = precision;
        let ghost t0 = config.threads as nat;
        let ghost es = params@;
        if let Some(threads_text) = params.get("threads") {
            match parse_usize_str(threads_text.as_str()) {
                Some(n) => {
                    if n == 0 {
                        assert(cpu_outcome(t0, es) == Err::<CpuSettings, Seq<char>>(
                            "threads must be greater than 0"@,
                        ));
                        return Err(
                            RendererError::InvalidParameters(owned("threads must be greater than 0")),
                        );
                    }
                    config.threads = n;
                },
                None => {
                    let m = concat(owned("Invalid threads value: "), threads_text.as_str());
                    assert(cpu_outcome(t0, es) == Err::<CpuSettings, Seq<char>>(m@));
                    return Err(RendererError::InvalidParameters(m));
                },
            }
        }
        if let Some(quality) = params.get("quality") {
            if is_quality(quality.as_str()) {
                config.quality = quality.clone();
            } else {
                let m = concat(
                    concat(owned("Invalid quality value: "), quality.as_str()),
                    ". Must be one of: low, medium, high, ultra",
                );
                assert(cpu_outcome(t0, es) == Err::<CpuSettings, Seq<char>>(m@));
                return Err(RendererError::InvalidParameters(m));
            }
        }
        if let Some(debug_text) = params.get("debug") {
            match parse_bool_str(debug_text.as_str()) {
                Some(b) => {
                    config.debug = b;
                },
                None => {
                    let m = concat(owned("Invalid debug value: "), debug_text.as_str());
                    assert(cpu_outcome(t0, es) == Err::<CpuSettings, Seq<char>>(m@));
                    return Err(RendererError::InvalidParameters(m));
                },
            }
        }
        if let Some(key) = first_unknown_key(&params) {
            let m = concat(owned("Unsupported parameter: "), key.as_str());
            assert(cpu_outcome(t0, es) == Err::<CpuSettings, Seq<char>>(m@));
            return Err(RendererError::InvalidParameters(m));
        }
        assert(cpu_outcome(t0, es) == Ok::<CpuSettings, Seq<char>>(config.settings()));
        Ok(config)
    }
}

/// Marker for single-precision arithmetic in a CPU reference renderer.
#[derive(Debug, Clone, Copy, Default)]
pub struct SinglePrecision;

/// Marker for double-precision arithmetic in a CPU reference renderer.
#[derive(Debug, Clone, Copy, Default)]
pub struct DoublePrecision;

/// A CPU-based reference renderer for 3D Gaussian Splatting; `NumberType` is
/// the numeric type of its calculations.
#[derive(Debug)]
pub struct CpuReferenceRenderer<NumberType> {
    config: CpuReferenceConfig,
    is_running: bool,
    frame_count: u64,
    id: u64,
    _phantom: std::marker::PhantomData<NumberType>,
}

impl<NumberType: Send + Sync> CpuReferenceRenderer<NumberType> {
    /// The configuration of the renderer.
    pub closed spec fn config_spec(&self) -> &CpuReferenceConfig {
        &self.config
    }

    /// A stopped renderer with the default configuration and no frames.
    pub fn new() -> (r: Self)
        ensures
            !r.running_spec(),
            r.frames_spec() == 0,
            r.config_spec().quality@ == "medium"@,
            r.config_spec().precision == DataPrecision::F32,
    {
        Self::with_config(CpuReferenceConfig::default())
    }

    /// A stopped renderer with the given configuration and no frames.
    pub fn with_config(config: CpuReferenceConfig) -> (r: Self)
        ensures
            !r.running_spec(),
            r.frames_spec() == 0,
            r.id_spec() == 0,
            *r.config_spec() == config,
            r.precision_spec() == config.precision,
    {
        CpuReferenceRenderer {
            config,
            is_running: false,
            frame_count: 0,
            id: 0,
            _phantom: std::marker::PhantomData,
        }
    }

    /// The number of frames rendered since creation or the last reset.
    pub fn get_frame_count(&self) -> (r: u64)
        ensures
            r == self.frames_spec(),
    {
        self.frame_count
    }

    /// Sets the frame counter to zero.
    pub fn reset_frame_count(&mut self)
        ensures
            final(self).frames_spec() == 0,
            final(self).running_spec() == old(self).running_spec(),
            final(self).config_spec() == old(self).config_spec(),
    {
        self.frame_count = 0;
    }

    /// The renderer's configuration.
    pub fn get_config(&self) -> (r: &CpuReferenceConfig)
        ensures
            r == self.config_spec(),
    {
        &self.config
    }

    /// Whether the renderer runs.
    pub fn is_running(&self) -> (r: bool)
        ensures
            r == self.running_spec(),
    {
        self.is_running
    }

    /// Renders one frame; only a running renderer renders.
    pub fn render_frame(&mut self) -> (r: Result<(), String>)
        ensures
            r is Ok <==> old(self).running_spec(),
            r is Ok ==> final(self).frames_spec() == next_frame_count(old(self).frames_spec()),
            r matches Err(e) ==> e@ == "CpuReferenceRenderer is not running"@,
            r is Err ==> final(self).frames_spec() == old(self).frames_spec(),
            final(self).running_spec() == old(self).running_spec(),
            final(self).config_spec() == old(self).config_spec(),
    {
        if !self.is_running {
            return Err(owned("CpuReferenceRenderer is not running"));
        }
        self.frame_count = self.frame_count.wrapping_add(1);
        Ok(())
    }
}

impl<NumberType: Send + Sync> Clone for CpuReferenceRenderer<NumberType> {
    fn clone(&self) -> (r: Self)
        ensures
            r.running_spec() == self.running_spec(),
            r.frames_spec() == self.frames_spec(),
            r.config_spec().threads == self.config_spec().threads,
            r.config_spec().quality@ == self.config_spec().quality@,
            r.config_spec().debug == self.config_spec().debug,
            r.config_spec().precision == self.config_spec().precision,
    {
        CpuReferenceRenderer {
            config: self.config.clone(),
            is_running: self.is_running,
            frame_count: self.frame_count,
            id: self.id,
            _phantom: std::marker::PhantomData,
        }
    }
}

impl<NumberType: Send + Sync> Default for CpuReferenceRenderer<NumberType> {
    fn default() -> (r: Self)
        ensures
            !r.running_spec(),
            r.frames_spec() == 0,
    {
        Self::new()
    }
}

impl<NumberType: Send + Sync> Renderer for CpuReferenceRenderer<NumberType> {
    closed spec fn running_spec(&self) -> bool {
        self.is_running
    }

    closed spec fn frames_spec(&self) -> u64 {
        self.frame_count
    }

    closed spec fn precision_spec(&self) -> DataPrecision {
        self.config.precision
    }

    closed spec fn id_spec(&self) -> u64 {
        self.id
    }

    open spec fn name_spec(&self) -> Seq<char> {
        "CpuReference"@
    }

    open spec fn shutdown_timeout_spec(&self) -> u64 {
        1000
    }

    open spec fn start_refused(&self) -> bool {
        false
    }

    /// F32 and F64 are supported.
    fn set_data_precision(&mut self, precision: DataPrecision) -> (r: Result<DataPrecision, String>)
        ensures
            r is Ok <==> (precision == DataPrecision::F32 || precision == DataPrecision::F64),
    {
        match precision {
            DataPrecision::F32 | DataPrecision::F64 => {
                self.config.precision = precision;
                Ok(precision)
            },
            _ => Err(concat(owned("Unsupported precision: "), precision.display_str())),
        }
    }

    fn get_data_precision(&self) -> (r: DataPrecision) {
        self.config.precision
    }

    fn is_running(&self) -> (r: bool) {
        self.is_running
    }

    fn get_frame_count(&self) -> (r: u64) {
        self.frame_count
    }

    fn start(&mut self) -> (r: Result<(), String>)
        ensures
            r is Ok <==> !old(self).running_spec(),
            r matches Err(e) ==> e@ == "CpuReferenceRenderer is already running"@,
    {
        if self.is_running {
            return Err(owned("CpuReferenceRenderer is already running"));
        }
        self.is_running = true;
        Ok(())
    }

    fn stop(&mut self) {
        self.is_running = false;
    }

    fn name(&self) -> (r: &'static str)
        ensures
            r@ == "CpuReference"@,
    {
        "CpuReference"
    }

    fn render_frame(&mut self) -> (r: Result<(), String>)
        ensures
            r matches Err(e) ==> e@ == "CpuReferenceRenderer is not running"@,
    {
        if !self.is_running {
            return Err(owned("CpuReferenceRenderer is not running"));
        }
        self.frame_count = self.frame_count.wrapping_add(1);
        Ok(())
    }

    fn unique_id(&self) -> (r: u64) {
        self.id
    }

    fn assign_unique_id(&mut self, id: u64) {
        self.id = id;
    }

    fn shutdown_timeout_ms(&self) -> (r: u64)
        ensures
            r == 1000,
    {
        1000
    }
}

/// Whether the CPU reference renderer computes in `p`: F32 and F64.
pub open spec fn cpu_precision(p: DataPrecision) -> bool {
    p == DataPrecision::F32 || p == DataPrecision::F64
}

/// Factory of CPU reference renderers.
#[derive(Debug)]
pub struct CpuReferenceRendererFactory {
    name: String,
}

impl CpuReferenceRendererFactory {
    /// The factory, named `CpuReferenceRendererFactory`.
    pub fn new() -> (r: Self)
        ensures
            r.info_name() == "CpuReferenceRendererFactory"@,
    {
        CpuReferenceRendererFactory { name: owned("CpuReferenceRendererFactory") }
    }
}

impl Default for CpuReferenceRendererFactory {
    fn default() -> (r: Self)
        ensures
            r.info_name() == "CpuReferenceRendererFactory"@,
    {
        Self::new()
    }
}

impl RendererFactory for CpuReferenceRendererFactory {
    open spec fn created_name(&self, precision: DataPrecision, parameters: Seq<char>) -> Seq<char> {
        "CpuReference"@
    }

    open spec fn parameter_error(&self, precision: DataPrecision, parameters: Seq<char>) -> Seq<char> {
        match cpu_outcome(1, parse_parameters_spec(parameters)) {
            Err(m) => m,
            Ok(_) => Seq::empty(),
        }
    }

    open spec fn creation_failed(&self, precision: DataPrecision, parameters: Seq<char>) -> bool {
        false
    }

    open spec fn accepts(&self, precision: DataPrecision, parameters: Seq<char>) -> bool {
        cpu_precision(precision) && exists|t: nat|
            t >= 1 && #[trigger] cpu_outcome(t, parse_parameters_spec(parameters)) is Ok
    }

    open spec fn rejects_precision(&self, precision: DataPrecision, parameters: Seq<char>) -> bool {
        !cpu_precision(precision)
    }

    closed spec fn info_name(&self) -> Seq<char> {
        self.name@
    }

    open spec fn info_capabilities(&self) -> Seq<char> {
        "software,reference,debugging,cpu"@
    }

    fn create(&self, precision: DataPrecision, parameters: &str) -> (r: Result<
        Box<dyn Renderer>,
        RendererError,
    >)
        ensures
            r matches Ok(b) ==> b.precision_spec() == precision && !b.running_spec()
                && b.frames_spec() == 0,
    {
        match precision {
            DataPrecision::F32 | DataPrecision::F64 => {},
            _ => {
                return Err(RendererError::UnsupportedPrecision(precision));
            },
        }
        let config = match CpuReferenceConfig::from_parameters(precision, parameters) {
            Ok(c) => c,
            Err(e) => {
                proof {
                    lemma_cpu_outcome_error_for_all(parse_parameters_spec(parameters@));
                }
                return Err(e);
            },
        };
        if precision == DataPrecision::F32 {
            let renderer = CpuReferenceRenderer::<SinglePrecision>::with_config(config);
            Ok(Box::new(renderer))
        } else {
            let renderer = CpuReferenceRenderer::<DoublePrecision>::with_config(config);
            Ok(Box::new(renderer))
        }
    }

    open spec fn info_timeout(&self) -> u64 {
        1000
    }

    open spec fn info_parameters(&self) -> Seq<EntryView> {
        seq![
            ("threads"@, "Number of CPU threads to use (default: number of CPU cores)"@),
            ("quality"@, "Rendering quality: low, medium, high, ultra (default: medium)"@),
            ("debug"@, "Enable debug output: true/false (default: false)"@),
        ]
    }

    fn get_info(&self) -> (r: RendererInfo)
        ensures
            r.timeout_microseconds == 1000,
    {
        let mut parameters = ParameterMap::new();
        proof {
            reveal_strlit("threads");
            reveal_strlit("quality");
            reveal_strlit("debug");
        }
        proof {
            lemma_insert_new_key(
                parameters@,
                "threads"@,
                "Number of CPU threads to use (default: number of CPU cores)"@,
            );
        }
        parameters.insert(
            owned("threads"),
            owned("Number of CPU threads to use (default: number of CPU cores)"),
        );
        proof {
            assert forall|j: int| 0 <= j < parameters@.len() implies (#[trigger] parameters@[j]).0
                != "quality"@ by {
                if j == 0 {
                    assert("threads"@[0] != "quality"@[0]);
                }
            }
            lemma_insert_new_key(
                parameters@,
                "quality"@,
                "Rendering quality: low, medium, high, ultra (default: medium)"@,
            );
        }
        parameters.insert(
            owned("quality"),
            owned("Rendering quality: low, medium, high, ultra (default: medium)"),
        );
        proof {
            assert forall|j: int| 0 <= j < parameters@.len() implies (#[trigger] parameters@[j]).0
                != "debug"@ by {
                if j == 0 {
                    assert("threads"@.len() != "debug"@.len());
                } else if j == 1 {
                    assert("quality"@.len() != "debug"@.len());
                }
            }
            lemma_insert_new_key(
                parameters@,
                "debug"@,
                "Enable debug output: true/false (default: false)"@,
            );
        }
        parameters.insert(owned("debug"), owned("Enable debug output: true/false (default: false)"));
        assert(parameters@ =~= seq![
                ("threads"@, "Number of CPU threads to use (default: number of CPU cores)"@),
                ("quality"@, "Rendering quality: low, medium, high, ultra (default: medium)"@),
                ("debug"@, "Enable debug output: true/false (default: false)"@),
            ]);
        RendererInfo::new(
            self.name.clone(),
            owned("software,reference,debugging,cpu"),
            parameters,
            1000,
        )
    }

    fn validate_parameters(&self, precision: DataPrecision, parameters: &str) -> (r: Result<
        (),
        RendererError,
    >) {
        match precision {
            DataPrecision::F32 | DataPrecision::F64 => {},
            _ => {
                return Err(RendererError::UnsupportedPrecision(precision));
            },
        }
        match CpuReferenceConfig::from_parameters(precision, parameters) {
            Ok(_) => Ok(()),
            Err(e) => {
                proof {
                    lemma_cpu_outcome_error_for_all(parse_parameters_spec(parameters@));
                }
                Err(e)
            },
        }
    }
}

/// Whether and how the entries are refused does not depend on the number of
/// CPUs.
proof fn lemma_cpu_outcome_error_for_all(es: Seq<EntryView>)
    ensures
        forall|t: nat, u: nat|
            t >= 1 && u >= 1 && #[trigger] cpu_outcome(t, es) is Err ==> #[trigger] cpu_outcome(
                u,
                es,
            ) == cpu_outcome(t, es),
{
}

} // verus!
