//! GPU renderer: its configuration, the renderer, its factory, and the GPU
//! backend initializer of a build without GPU support.
use vstd::prelude::*;
use crate::parameters::{lemma_insert_new_key, lookup, parse_parameters, parse_parameters_spec, EntryView, ParameterMap};
use crate::renderer::factory::{RendererFactory, RendererInfo};
use crate::renderer::{next_frame_count, DataPrecision, Renderer, RendererError};
use crate::text::{
    chars_of, concat, owned, parse_u64_str, parse_unsigned_spec, str_eq, string_from_chars,
};

verus! {

broadcast use vstd::seq::group_seq_axioms;

/// Initializes the GPU backend. This build has no GPU support, so it refuses.
pub fn initialize_gpu_backend() -> (r: Result<(), String>)
    ensures
        r matches Err(e) && e@ == "gpu feature not enabled"@,
{
    inner_initialize_gpu_backend()
}

fn inner_initialize_gpu_backend() -> (r: Result<(), String>)
    ensures
        r matches Err(e) && e@ == "gpu feature not enabled"@,
{
    Err(owned("gpu feature not enabled"))
}

/// One gibibyte.
pub const GIB: u64 = 1073741824;

/// One mebibyte.
pub const MIB: u64 = 1048576;

/// The settings of a GPU configuration.
pub ghost struct GpuSettings {
    pub device: Seq<char>,
    pub memory_limit: nat,
}

/// Whether a device name is accepted: `auto` or `cuda:` followed by anything.
pub open spec fn device_valid(d: Seq<char>) -> bool {
    d == "auto"@ || (d.len() >= 5 && d.subrange(0, 5) == "cuda:"@)
}

/// Whether `s` ends with `suffix`.
pub open spec fn ends_with(s: Seq<char>, suffix: Seq<char>) -> bool {
    s.len() >= suffix.len() && s.subrange(s.len() - suffix.len(), s.len() as int) == suffix
}

/// The number of bytes a memory limit text denotes: a count of gibibytes with
/// the suffix `GB`, of mebibytes with `MB`, or of bytes otherwise; nothing
/// when the count does not parse or the bytes do not fit in a `u64`.
pub open spec fn memory_limit_bytes(m: Seq<char>) -> Option<nat> {
    let (digits, unit) = if ends_with(m, "GB"@) {
        (m.subrange(0, m.len() - 2), GIB as nat)
    } else if ends_with(m, "MB"@) {
        (m.subrange(0, m.len() - 2), MIB as nat)
    } else {
        (m, 1nat)
    };
    match parse_unsigned_spec(digits, u64::MAX as nat) {
        Some(n) => if n * unit <= u64::MAX {
            Some(n * unit)
        } else {
            None
        },
        None => None,
    }
}

/// Whether `k` is a parameter name the GPU renderer takes.
pub open spec fn gpu_parameter_name(k: Seq<char>) -> bool {
    k == "device"@ || k == "memory_limit"@
}

/// The first key of `es` that is not a GPU parameter.
pub open spec fn first_unknown_gpu_key(es: Seq<EntryView>) -> Option<Seq<char>>
    decreases es.len(),
{
    if es.len() == 0 {
        None
    } else {
        match first_unknown_gpu_key(es.drop_last()) {
            Some(k) => Some(k),
            None => if gpu_parameter_name(es.last().0) {
                None
            } else {
                Some(es.last().0)
            },
        }
    }
}

/// The outcome of configuring the GPU renderer with the entries `es`: the
/// device is checked first, then the memory limit, then the names.
pub open spec fn gpu_outcome(es: Seq<EntryView>) -> Result<GpuSettings, Seq<char>> {
    let device = match lookup(es, "device"@) {
        None => Ok("auto"@),
        Some(d) => if device_valid(d) {
            Ok(d)
        } else {
            Err("Invalid device: "@ + d + ". Must be 'auto' or 'cuda:N'"@)
        },
    };
    let memory = match lookup(es, "memory_limit"@) {
        None => Ok(GIB as nat),
        Some(m) => match memory_limit_bytes(m) {
            None => Err("Invalid memory_limit value: "@ + m),
            Some(n) => if n < 64 * MIB {
                Err("memory_limit must be at least 64MB"@)
            } else {
                Ok(n)
            },
        },
    };
    match device {
        Err(e) => Err(e),
        Ok(d) => match memory {
            Err(e) => Err(e),
            Ok(n) => match first_unknown_gpu_key(es) {
                Some(k) => Err("Unsupported parameter: "@ + k),
                None => Ok(GpuSettings { device: d, memory_limit: n }),
            },
        },
    }
}

/// An accepted GPU configuration names a valid device (`auto` or `cuda:`
/// followed by anything) and at least 64 MiB; a configuration is refused
/// exactly when a key is not a GPU parameter, the device is not valid, or the
/// memory limit cannot be read or is under 64 MiB.
pub proof fn law_gpu_settings_valid(es: Seq<EntryView>)
    ensures
        gpu_outcome(es) matches Ok(g) ==> device_valid(g.device) && g.memory_limit >= 64 * MIB,
        gpu_outcome(es) is Err <==> (first_unknown_gpu_key(es) is Some || (lookup(es, "device"@) matches Some(
            d,
        ) && !device_valid(d)) || (lookup(es, "memory_limit"@) matches Some(m) && (memory_limit_bytes(
            m,
        ) is None || memory_limit_bytes(m)->Some_0 < 64 * MIB))),
{
    reveal_strlit("auto");
}

/// Configuration of the GPU renderer.
#[derive(Debug, PartialEq)]
pub struct GpuRendererConfig {
    pub device: String,
    /// Memory limit in bytes
    pub memory_limit: u64,
    pub precision: DataPrecision,
}

impl GpuRendererConfig {
    /// The device and memory limit.
    pub open spec fn settings(&self) -> GpuSettings {
        GpuSettings { device: self.device@, memory_limit: self.memory_limit as nat }
    }
}

impl Clone for GpuRendererConfig {
    fn clone(&self) -> (r: Self)
        ensures
            r.settings() == self.settings(),
            r.precision == self.precision,
    {
        GpuRendererConfig {
            device: self.device.clone(),
            memory_limit: self.memory_limit,
            precision: self.precision,
        }
    }
}

impl Default for GpuRendererConfig {
    /// Device `auto`, a 1 GiB memory limit, F32.
    fn default() -> (r: Self)
        ensures
            r.device@ == "auto"@,
            r.memory_limit == GIB,
            r.precision == DataPrecision::F32,
    {
        GpuRendererConfig { device: owned("auto"), memory_limit: GIB, precision: DataPrecision::F32 }
    }
}

fn is_valid_device(d: &str) -> (r: bool)
    ensures
        r == device_valid(d@),
{
    if str_eq(d, "auto") {
        return true;
    }
    let v = chars_of(d);
    if v.len() < 5 {
        return false;
    }
    let prefix = string_from_chars(&v, 0, 5);
    str_eq(prefix.as_str(), "cuda:")
}

fn text_ends_with(v: &Vec<char>, a: char, b: char) -> (r: bool)
    ensures
        r == ends_with(v@, seq![a, b]),
{
    if v.len() < 2 {
        return false;
    }
    let n = v.len();
    let r = v[n - 2] == a && v[n - 1] == b;
    assert(v@.subrange(n - 2, n as int) =~= seq![v@[n - 2], v@[n - 1]]);
    r
}

fn parse_memory_limit(m: &str) -> (r: Option<u64>)
    ensures
        match memory_limit_bytes(m@) {
            Some(n) => r == Some(n as u64),
            None => r is None,
        },
{
    let v = chars_of(m);
    proof {
        reveal_strlit("GB");
        reveal_strlit("MB");
    }
    let (end, unit) = if text_ends_with(&v, 'G', 'B') {
        assert(seq!['G', 'B'] =~= "GB"@);
        (v.len() - 2, GIB)
    } else if text_ends_with(&v, 'M', 'B') {
        assert(seq!['G', 'B'] =~= "GB"@);
        assert(seq!['M', 'B'] =~= "MB"@);
        (v.len() - 2, MIB)
    } else {
        assert(seq!['G', 'B'] =~= "GB"@);
        assert(seq!['M', 'B'] =~= "MB"@);
        assert(v@.subrange(0, v.len() as int) =~= v@);
        (v.len(), 1)
    };
    let digits = string_from_chars(&v, 0, end);
    match parse_u64_str(digits.as_str()) {
        Some(n) => n.checked_mul(unit),
        None => None,
    }
}

fn first_unknown_key(params: &ParameterMap) -> (r: Option<&String>)
    ensures
        match first_unknown_gpu_key(params@) {
            Some(k) => r matches Some(s) && s@ == k,
            None => r is None,
        },
{
    let mut i: usize = 0;
    while i < params.len()
        invariant
            i <= params@.len(),
            first_unknown_gpu_key(params@.subrange(0, i as int)) is None,
        decreases params@.len() - i,
    {
        let (key, _) = params.entry(i);
        assert(params@.subrange(0, i + 1).drop_last() =~= params@.subrange(0, i as int));
        let k = key.as_str();
        if !(str_eq(k, "device") || str_eq(k, "memory_limit")) {
            proof {
                lemma_unknown_key_persists(params@, i + 1);
            }
            return Some(key);
        }
        i = i + 1;
    }
    assert(params@.subrange(0, params@.len() as int) =~= params@);
    None
}

proof fn lemma_unknown_key_persists(es: Seq<EntryView>, j: int)
    requires
        0 <= j <= es.len(),
        first_unknown_gpu_key(es.subrange(0, j)) is Some,
    ensures
        first_unknown_gpu_key(es) == first_unknown_gpu_key(es.subrange(0, j)),
    decreases es.len(),
{
    if j == es.len() {
        assert(es.subrange(0, j) =~= es);
    } else {
        assert(es.drop_last().subrange(0, j) =~= es.subrange(0, j));
        lemma_unknown_key_persists(es.drop_last(), j);
    }
}

impl GpuRendererConfig {
    /// The configuration that the parameters give: only F32 is supported;
    /// `device` is `auto` or `cuda:N`; `memory_limit` is a byte count, or a
    /// count with the suffix `MB` or `GB`, of at least 64 MiB; other names are
    /// refused.
    pub fn from_parameters(precision: DataPrecision, parameters: &str) -> (r: Result<
        Self,
        RendererError,
    >)
        ensures
            precision != DataPrecision::F32 ==> (r matches Err(RendererError::UnsupportedPrecision(
                p,
            )) && p == precision),
            precision == DataPrecision::F32 ==> match gpu_outcome(
                parse_parameters_spec(parameters@),
            ) {
                Ok(s) => r matches Ok(c) && c.settings() == s && c.precision == precision,
                Err(m) => r matches Err(RendererError::InvalidParameters(e)) && e@ == m,
            },
    {
        if precision != DataPrecision::F32 {
            return Err(RendererError::UnsupportedPrecision(precision));
        }
        let params = parse_parameters(parameters);
        let ghost es = params@;
        let mut config = GpuRendererConfig::default();
        config.precision = precision;
        if let Some(device) = params.get("device") {
            if is_valid_device(device.as_str()) {
                config.device = device.clone();
            } else {
                return Err(
                    RendererError::InvalidParameters(
                        concat(
                            concat(owned("Invalid device: "), device.as_str()),
                            ". Must be 'auto' or 'cuda:N'",
                        ),
                    ),
                );
            }
        }
        if let Some(memory) = params.get("memory_limit") {
            match parse_memory_limit(memory.as_str()) {
                Some(n) => {
                    if n < 64 * MIB {
                        return Err(
                            RendererError::InvalidParameters(
                                owned("memory_limit must be at least 64MB"),
                            ),
                        );
                    }
                    config.memory_limit = n;
                },
                None => {
                    return Err(
                        RendererError::InvalidParameters(
                            concat(owned("Invalid memory_limit value: "), memory.as_str()),
                        ),
                    );
                },
            }
        }
        if let Some(key) = first_unknown_key(&params) {
            return Err(
                RendererError::InvalidParameters(
                    concat(owned("Unsupported parameter: "), key.as_str()),
                ),
            );
        }
        Ok(config)
    }
}

/// A GPU renderer. This build has no GPU support, so it never starts.
#[derive(Debug)]
pub struct GpuOptionalRenderer {
    config: GpuRendererConfig,
    running: bool,
    frame_count: u64,
    id: u64,
}

impl GpuOptionalRenderer {
    /// The renderer's configuration.
    pub closed spec fn config_spec(&self) -> GpuRendererConfig {
        self.config
    }

    /// A stopped renderer with the default configuration.
    pub fn new() -> (r: Self)
        ensures
            r.config_spec().device@ == "auto"@,
            r.config_spec().memory_limit == GIB,
            !r.running_spec(),
            r.frames_spec() == 0,
    {
        Self::with_config(GpuRendererConfig::default())
    }

    /// A stopped renderer with the given configuration.
    pub fn with_config(config: GpuRendererConfig) -> (r: Self)
        ensures
            r.config_spec() == config,
            r.precision_spec() == config.precision,
            !r.running_spec(),
            r.frames_spec() == 0,
            r.id_spec() == 0,
    {
        GpuOptionalRenderer { config, running: false, frame_count: 0, id: 0 }
    }

    /// The renderer's configuration.
    pub fn get_config(&self) -> (r: &GpuRendererConfig)
        ensures
            *r == self.config_spec(),
    {
        &self.config
    }

    /// The number of frames rendered.
    pub fn get_frame_count(&self) -> (r: u64)
        ensures
            r == self.frames_spec(),
    {
        self.frame_count
    }

    /// Sets the frame counter to zero.
    pub fn reset_frame_count(&mut self)
        ensures
            final(self).frames_spec() == 0,
            final(self).running_spec() == old(self).running_spec(),
            final(self).config_spec() == old(self).config_spec(),
    {
        self.frame_count = 0;
    }

    /// Whether the renderer runs.
    pub fn is_running(&self) -> (r: bool)
        ensures
            r == self.running_spec(),
    {
        self.running
    }

    /// Renders one frame; only a running renderer renders.
    pub fn render_frame(&mut self) -> (r: Result<(), String>)
        ensures
            r is Ok <==> old(self).running_spec(),
            r is Ok ==> final(self).frames_spec() == next_frame_count(old(self).frames_spec()),
            r is Err ==> final(self).frames_spec() == old(self).frames_spec(),
            r matches Err(e) ==> e@ == "GpuOptionalRenderer is not running"@,
            final(self).running_spec() == old(self).running_spec(),
    {
        if !self.running {
            return Err(owned("GpuOptionalRenderer is not running"));
        }
        self.frame_count = self.frame_count.wrapping_add(1);
        Ok(())
    }
}

impl Clone for GpuOptionalRenderer {
    fn clone(&self) -> (r: Self)
        ensures
            r.config_spec().settings() == self.config_spec().settings(),
            r.running_spec() == self.running_spec(),
            r.frames_spec() == self.frames_spec(),
    {
        GpuOptionalRenderer {
            config: self.config.clone(),
            running: self.running,
            frame_count: self.frame_count,
            id: self.id,
        }
    }
}

impl Default for GpuOptionalRenderer {
    fn default() -> (r: Self)
        ensures
            !r.running_spec(),
            r.frames_spec() == 0,
    {
        Self::new()
    }
}

impl Renderer for GpuOptionalRenderer {
    closed spec fn running_spec(&self) -> bool {
        self.running
    }

    closed spec fn frames_spec(&self) -> u64 {
        self.frame_count
    }

    closed spec fn precision_spec(&self) -> DataPrecision {
        self.config.precision
    }

    closed spec fn id_spec(&self) -> u64 {
        self.id
    }

    open spec fn name_spec(&self) -> Seq<char> {
        "GpuOptional"@
    }

    open spec fn shutdown_timeout_spec(&self) -> u64 {
        1000
    }

    open spec fn start_refused(&self) -> bool {
        true
    }

    /// Only F32 is supported.
    fn set_data_precision(&mut self, precision: DataPrecision) -> (r: Result<DataPrecision, String>)
        ensures
            r is Ok <==> precision == DataPrecision::F32,
    {
        if precision == DataPrecision::F32 {
            self.config.precision = precision;
            Ok(precision)
        } else {
            Err(concat(owned("Unsupported precision: "), precision.display_str()))
        }
    }

    fn get_data_precision(&self) -> (r: DataPrecision) {
        self.config.precision
    }

    fn is_running(&self) -> (r: bool) {
        self.running
    }

    fn get_frame_count(&self) -> (r: u64) {
        self.frame_count
    }

    /// Without GPU support the renderer refuses to start.
    fn start(&mut self) -> (r: Result<(), String>)
        ensures
            r matches Err(e) && e@ == "gpu feature not enabled"@,
            final(self).running_spec() == old(self).running_spec(),
    {
        Err(owned("gpu feature not enabled"))
    }

    fn stop(&mut self) {
        self.running = false;
    }

    fn name(&self) -> (r: &'static str)
        ensures
            r@ == "GpuOptional"@,
    {
        "GpuOptional"
    }

    fn render_frame(&mut self) -> (r: Result<(), String>)
        ensures
            r matches Err(e) ==> e@ == "GpuOptionalRenderer is not running"@,
    {
        if !self.running {
            return Err(owned("GpuOptionalRenderer is not running"));
        }
        self.frame_count = self.frame_count.wrapping_add(1);
        Ok(())
    }

    fn unique_id(&self) -> (r: u64) {
        self.id
    }

    fn assign_unique_id(&mut self, id: u64) {
        self.id = id;
    }

    fn shutdown_timeout_ms(&self) -> (r: u64)
        ensures
            r == 1000,
    {
        1000
    }
}

/// Factory of GPU renderers.
#[derive(Debug)]
pub struct GpuRendererFactory {
    name: String,
}

impl GpuRendererFactory {
    /// The factory, named `GpuRendererFactory`.
    pub fn new() -> (r: Self)
        ensures
            r.info_name() == "GpuRendererFactory"@,
    {
        GpuRendererFactory { name: owned("GpuRendererFactory") }
    }
}

impl Default for GpuRendererFactory {
    fn default() -> (r: Self)
        ensures
            r.info_name() == "GpuRendererFactory"@,
    {
        Self::new()
    }
}

impl RendererFactory for GpuRendererFactory {
    open spec fn created_name(&self, precision: DataPrecision, parameters: Seq<char>) -> Seq<char> {
        "GpuOptional"@
    }

    open spec fn parameter_error(&self, precision: DataPrecision, parameters: Seq<char>) -> Seq<char> {
        match gpu_outcome(parse_parameters_spec(parameters)) {
            Err(m) => m,
            Ok(_) => Seq::empty(),
        }
    }

    open spec fn creation_failed(&self, precision: DataPrecision, parameters: Seq<char>) -> bool {
        false
    }

    open spec fn accepts(&self, precision: DataPrecision, parameters: Seq<char>) -> bool {
        precision == DataPrecision::F32 && gpu_outcome(parse_parameters_spec(parameters)) is Ok
    }

    open spec fn rejects_precision(&self, precision: DataPrecision, parameters: Seq<char>) -> bool {
        precision != DataPrecision::F32
    }

    closed spec fn info_name(&self) -> Seq<char> {
        self.name@
    }

    open spec fn info_capabilities(&self) -> Seq<char> {
        "gpu,cuda,fast,realtime"@
    }

    fn create(&self, precision: DataPrecision, parameters: &str) -> (r: Result<
        Box<dyn Renderer>,
        RendererError,
    >)
        ensures
            r matches Ok(b) ==> b.precision_spec() == precision && !b.running_spec()
                && b.frames_spec() == 0,
            r matches Err(RendererError::InvalidParameters(m)) ==> gpu_outcome(
                parse_parameters_spec(parameters@),
            ) == Err::<GpuSettings, Seq<char>>(m@),
    {
        if precision != DataPrecision::F32 {
            return Err(RendererError::UnsupportedPrecision(precision));
        }
        let config = GpuRendererConfig::from_parameters(precision, parameters)?;
        let renderer = GpuOptionalRenderer::with_config(config);
        Ok(Box::new(renderer))
    }

    open spec fn info_timeout(&self) -> u64 {
        50000
    }

    open spec fn info_parameters(&self) -> Seq<EntryView> {
        seq![
            ("device"@, "GPU device to use: 'auto' or 'cuda:N' (default: auto)"@),
            ("memory_limit"@, "GPU memory limit in bytes, MB, or GB (default: 1GB)"@),
        ]
    }

    fn get_info(&self) -> (r: RendererInfo)
        ensures
            r.timeout_microseconds == 50000,
    {
        let mut parameters = ParameterMap::new();
        proof {
            reveal_strlit("device");
            reveal_strlit("memory_limit");
        }
        proof {
            lemma_insert_new_key(
                parameters@,
                "device"@,
                "GPU device to use: 'auto' or 'cuda:N' (default: auto)"@,
            );
        }
        parameters.insert(
            owned("device"),
            owned("GPU device to use: 'auto' or 'cuda:N' (default: auto)"),
        );
        proof {
            assert forall|j: int| 0 <= j < parameters@.len() implies (#[trigger] parameters@[j]).0
                != "memory_limit"@ by {
                if j == 0 {
                    assert("device"@.len() != "memory_limit"@.len());
                }
            }
            lemma_insert_new_key(
                parameters@,
                "memory_limit"@,
                "GPU memory limit in bytes, MB, or GB (default: 1GB)"@,
            );
        }
        parameters.insert(
            owned("memory_limit"),
            owned("GPU memory limit in bytes, MB, or GB (default: 1GB)"),
        );
        assert(parameters@ =~= seq![
                ("device"@, "GPU device to use: 'auto' or 'cuda:N' (default: auto)"@),
                ("memory_limit"@, "GPU memory limit in bytes, MB, or GB (default: 1GB)"@),
            ]);
        RendererInfo::new(self.name.clone(), owned("gpu,cuda,fast,realtime"), parameters, 50000)
    }

    fn validate_parameters(&self, precision: DataPrecision, parameters: &str) -> (r: Result<
        (),
        RendererError,
    >)
        ensures
            r matches Err(RendererError::InvalidParameters(m)) ==> gpu_outcome(
                parse_parameters_spec(parameters@),
            ) == Err::<GpuSettings, Seq<char>>(m@),
    {
        if precision != DataPrecision::F32 {
            return Err(RendererError::UnsupportedPrecision(precision));
        }
        GpuRendererConfig::from_parameters(precision, parameters)?;
        Ok(())
    }
}

} // verus!
