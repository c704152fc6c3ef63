//! Renderer module: data precisions, renderer errors and events, the
//! capability and renderer traits, and the reference renderer.
use vstd::prelude::*;
use crate::text::{concat, owned};

pub mod capabilities;
pub mod factory;
pub mod cpu_reference;
pub mod opengl3;
pub mod opengl;
pub mod gpu_optional;
pub mod manager;
pub mod event_buffer;
pub mod channel_config;
pub mod world;

pub use factory::{
    MockRenderer, MockRendererFactory, ReferenceRendererFactory, RendererFactory, RendererInfo,
};
pub use manager::RendererManager;

verus! {

#[verifier::external_type_specification]
#[verifier::external_body]
pub struct ExTypeId(std::any::TypeId);

/// Precision types supported by the renderer factory system.
#[derive(Debug, Clone, Copy, PartialEq, Eq, Hash, Ord, PartialOrd, Structural)]
pub enum DataPrecision {
    /// Half precision floating point (16-bit)
    F16,
    /// Single precision floating point (32-bit)
    F32,
    /// Double precision floating point (64-bit)
    F64,
    /// Brain floating point format (16-bit)
    BFloat16,
}

/// The name under which a precision is displayed.
pub open spec fn precision_display(p: DataPrecision) -> Seq<char> {
    match p {
        DataPrecision::F16 => "f16"@,
        DataPrecision::F32 => "f32"@,
        DataPrecision::F64 => "f64"@,
        DataPrecision::BFloat16 => "bfloat16"@,
    }
}

/// The name of a precision's variant, as `{:?}` prints it.
pub open spec fn precision_debug(p: DataPrecision) -> Seq<char> {
    match p {
        DataPrecision::F16 => "F16"@,
        DataPrecision::F32 => "F32"@,
        DataPrecision::F64 => "F64"@,
        DataPrecision::BFloat16 => "BFloat16"@,
    }
}

/// All four precisions, in declaration order.
pub open spec fn all_precisions() -> Seq<DataPrecision> {
    seq![DataPrecision::F16, DataPrecision::F32, DataPrecision::F64, DataPrecision::BFloat16]
}

impl DataPrecision {
    /// The displayed name: `f16`, `f32`, `f64` or `bfloat16`.
    pub fn display_str(&self) -> (r: &'static str)
        ensures
            r@ == precision_display(*self),
    {
        match self {
            DataPrecision::F16 => "f16",
            DataPrecision::F32 => "f32",
            DataPrecision::F64 => "f64",
            DataPrecision::BFloat16 => "bfloat16",
        }
    }

    /// The displayed name as an owned string.
    pub fn to_display_string(&self) -> (r: String)
        ensures
            r@ == precision_display(*self),
    {
        owned(self.display_str())
    }

    /// The variant's name: `F16`, `F32`, `F64` or `BFloat16`.
    pub fn debug_str(&self) -> (r: &'static str)
        ensures
            r@ == precision_debug(*self),
    {
        match self {
            DataPrecision::F16 => "F16",
            DataPrecision::F32 => "F32",
            DataPrecision::F64 => "F64",
            DataPrecision::BFloat16 => "BFloat16",
        }
    }
}

/// The identity of a renderer instance.
#[derive(Debug, Clone, Copy, PartialEq, Eq, Hash, Structural)]
pub struct RendererId(pub u64);

/// Events emitted by renderer components.
#[derive(Debug, Clone)]
pub enum RendererEvent {
    /// A renderer has been created.
    RendererCreated { renderer_name: String, precision: DataPrecision },
    /// A renderer has been destroyed.
    Destroyed(RendererId),
    /// A renderer has been started.
    Started(RendererId),
    /// A renderer has been stopped.
    Stopped(RendererId),
    /// The data precision for computations has been changed.
    DataPrecisionChanged { old_precision: DataPrecision, new_precision: DataPrecision },
    /// The active renderer has been switched; `None` when no renderer is active.
    Switched(Option<RendererId>),
    /// Viewport has been resized.
    ViewportResized { id: RendererId, width: u32, height: u32 },
    /// Splat data has been updated.
    SplatDataUpdated { id: RendererId, splat_count: usize },
    /// A frame has been rendered.
    FrameRendered {
        id: RendererId,
        frame_number: u64,
        frame_time_microseconds: u64,
        render_time_ns: u64,
    },
    /// An error occurred.
    RendererError { id: RendererId, message: String },
}

/// Errors of renderer creation, registration and lookup.
#[derive(Debug)]
pub enum RendererError {
    /// The specified data precision is not supported by this renderer.
    UnsupportedPrecision(DataPrecision),
    /// Invalid parameters were provided during renderer creation.
    InvalidParameters(String),
    /// Renderer creation failed for an implementation-specific reason.
    CreationFailed(String),
    /// No renderer factory is registered under the type identifier.
    RendererNotFound(std::any::TypeId),
    /// No renderer factory was found with the specified name.
    RendererNotFoundByName(String),
    /// A factory is already registered for the type identifier.
    FactoryAlreadyRegistered(std::any::TypeId),
}

impl Clone for RendererError {
    fn clone(&self) -> (r: Self)
        ensures
            match (self, r) {
                (RendererError::UnsupportedPrecision(a), RendererError::UnsupportedPrecision(b)) => a
                    == b,
                (RendererError::InvalidParameters(a), RendererError::InvalidParameters(b)) => a@
                    == b@,
                (RendererError::CreationFailed(a), RendererError::CreationFailed(b)) => a@ == b@,
                (RendererError::RendererNotFound(a), RendererError::RendererNotFound(b)) => a == b,
                (
                    RendererError::RendererNotFoundByName(a),
                    RendererError::RendererNotFoundByName(b),
                ) => a@ == b@,
                (
                    RendererError::FactoryAlreadyRegistered(a),
                    RendererError::FactoryAlreadyRegistered(b),
                ) => a == b,
                _ => false,
            },
    {
        match self {
            RendererError::UnsupportedPrecision(p) => RendererError::UnsupportedPrecision(*p),
            RendererError::InvalidParameters(m) => RendererError::InvalidParameters(m.clone()),
            RendererError::CreationFailed(m) => RendererError::CreationFailed(m.clone()),
            RendererError::RendererNotFound(t) => RendererError::RendererNotFound(*t),
            RendererError::RendererNotFoundByName(n) => RendererError::RendererNotFoundByName(
                n.clone(),
            ),
            RendererError::FactoryAlreadyRegistered(t) => RendererError::FactoryAlreadyRegistered(
                *t,
            ),
        }
    }
}

/// The `Debug` text of a type identifier (`format!` with `{:?}`). Nothing is
/// stated of the text, which depends on the value the compiler chose.
#[verifier::external_body]
fn type_id_text(id: &std::any::TypeId) -> String {
    format!("{:?}", id)
}

impl RendererError {
    /// The message that describes the error.
    pub fn to_display_string(&self) -> (r: String)
        ensures
            match self {
                RendererError::UnsupportedPrecision(p) => r@ == "Unsupported data precision: "@
                    + precision_display(*p),
                RendererError::InvalidParameters(m) => r@ == "Invalid parameters: "@ + m@,
                RendererError::CreationFailed(m) => r@ == "Renderer creation failed: "@ + m@,
                RendererError::RendererNotFound(_) => r@.len() >= "Renderer not found for type: "@.len()
                    && r@.subrange(0, "Renderer not found for type: "@.len() as int)
                    == "Renderer not found for type: "@,
                RendererError::RendererNotFoundByName(n) => r@
                    == "Renderer factory not found with name: "@ + n@,
                RendererError::FactoryAlreadyRegistered(_) => r@.len()
                    >= "Factory already registered for type: "@.len() && r@.subrange(
                    0,
                    "Factory already registered for type: "@.len() as int,
                ) == "Factory already registered for type: "@,
            },
    {
        match self {
            RendererError::UnsupportedPrecision(p) => concat(
                owned("Unsupported data precision: "),
                p.display_str(),
            ),
            RendererError::InvalidParameters(m) => concat(
                owned("Invalid parameters: "),
                m.as_str(),
            ),
            RendererError::CreationFailed(m) => concat(
                owned("Renderer creation failed: "),
                m.as_str(),
            ),
            RendererError::RendererNotFound(id) => {
                let t = type_id_text(id);
                let r = concat(owned("Renderer not found for type: "), t.as_str());
                assert(r@.subrange(0, "Renderer not found for type: "@.len() as int)
                    =~= "Renderer not found for type: "@);
                r
            },
            RendererError::RendererNotFoundByName(n) => concat(
                owned("Renderer factory not found with name: "),
                n.as_str(),
            ),
            RendererError::FactoryAlreadyRegistered(id) => {
                let t = type_id_text(id);
                let r = concat(owned("Factory already registered for type: "), t.as_str());
                assert(r@.subrange(0, "Factory already registered for type: "@.len() as int)
                    =~= "Factory already registered for type: "@);
                r
            },
        }
    }
}

/// Base trait for all capabilities in the rendering system.
pub trait Capability {
    /// The identifier of this capability.
    fn capability_name(&self) -> &'static str;

    /// An optional description of what this capability does; none unless the
    /// capability gives one.
    fn description(&self) -> (r: Option<&'static str>)
        default_ensures
            r is None,
    {
        None
    }
}

/// Components that process data in one of several precisions.
pub trait ProcessingUnitCapability: Capability {
    /// The precisions this unit supports.
    spec fn supported_spec(&self) -> Seq<DataPrecision>;

    /// Whether this unit supports `precision`.
    fn supports_precision(&self, precision: DataPrecision) -> (r: bool)
        ensures
            r == self.supported_spec().contains(precision),
    ;

    /// All precisions this unit supports.
    fn supported_precisions(&self) -> (r: Vec<DataPrecision>)
        ensures
            r@ == self.supported_spec(),
    ;

    /// The preferred precision of this unit, if it has one.
    fn preferred_precision(&self) -> Option<DataPrecision>;
}

/// The frame count after one more frame: the counter wraps at `u64::MAX`.
pub open spec fn next_frame_count(n: u64) -> u64 {
    if n == u64::MAX {
        0
    } else {
        (n + 1) as u64
    }
}

/// A renderer: a component that can be started and stopped, renders frames
/// while it runs, and computes in one data precision at a time.
pub trait Renderer: Send + Sync {
    /// Whether the renderer runs.
    spec fn running_spec(&self) -> bool;

    /// The number of frames rendered.
    spec fn frames_spec(&self) -> u64;

    /// The data precision in use.
    spec fn precision_spec(&self) -> DataPrecision;

    /// The identity assigned to this renderer.
    spec fn id_spec(&self) -> u64;

    /// The renderer's name.
    spec fn name_spec(&self) -> Seq<char>;

    /// How long, in milliseconds, a shutdown of this renderer may take.
    spec fn shutdown_timeout_spec(&self) -> u64;

    /// Whether this renderer refuses to start even when stopped (a renderer
    /// whose backend is missing).
    spec fn start_refused(&self) -> bool;

    /// Sets the data precision. On success the precision in use is the one asked for.
    fn set_data_precision(&mut self, precision: DataPrecision) -> (r: Result<DataPrecision, String>)
        ensures
            final(self).name_spec() == old(self).name_spec(),
            final(self).shutdown_timeout_spec() == old(self).shutdown_timeout_spec(),
            !old(self).start_refused() ==> !final(self).start_refused(),
            r is Ok ==> r->Ok_0 == precision && final(self).precision_spec() == precision,
            r is Err ==> final(self).precision_spec() == old(self).precision_spec(),
            final(self).running_spec() == old(self).running_spec(),
            final(self).frames_spec() == old(self).frames_spec(),
            final(self).id_spec() == old(self).id_spec(),
    ;

    /// The data precision in use.
    fn get_data_precision(&self) -> (r: DataPrecision)
        ensures
            r == self.precision_spec(),
    ;

    /// Whether the renderer runs.
    fn is_running(&self) -> (r: bool)
        ensures
            r == self.running_spec(),
    ;

    /// The number of frames rendered.
    fn get_frame_count(&self) -> (r: u64)
        ensures
            r == self.frames_spec(),
    ;

    /// Starts the renderer; a running renderer refuses to start again.
    fn start(&mut self) -> (r: Result<(), String>)
        ensures
            final(self).name_spec() == old(self).name_spec(),
            final(self).shutdown_timeout_spec() == old(self).shutdown_timeout_spec(),
            !old(self).start_refused() ==> !final(self).start_refused(),
            r is Err <==> (old(self).running_spec() || old(self).start_refused()),
            r is Ok ==> final(self).running_spec(),
            r is Err ==> final(self).running_spec() == old(self).running_spec(),
            final(self).frames_spec() == old(self).frames_spec(),
            final(self).precision_spec() == old(self).precision_spec(),
            final(self).id_spec() == old(self).id_spec(),
    ;

    /// Stops the renderer.
    fn stop(&mut self)
        ensures
            final(self).name_spec() == old(self).name_spec(),
            final(self).shutdown_timeout_spec() == old(self).shutdown_timeout_spec(),
            !old(self).start_refused() ==> !final(self).start_refused(),
            !final(self).running_spec(),
            final(self).frames_spec() == old(self).frames_spec(),
            final(self).precision_spec() == old(self).precision_spec(),
            final(self).id_spec() == old(self).id_spec(),
    ;

    /// The renderer's name.
    fn name(&self) -> (r: &'static str)
        ensures
            r@ == self.name_spec(),
    ;

    /// Renders one frame; only a running renderer renders.
    fn render_frame(&mut self) -> (r: Result<(), String>)
        ensures
            final(self).name_spec() == old(self).name_spec(),
            final(self).shutdown_timeout_spec() == old(self).shutdown_timeout_spec(),
            !old(self).start_refused() ==> !final(self).start_refused(),
            r is Ok <==> old(self).running_spec(),
            r is Ok ==> final(self).frames_spec() == next_frame_count(old(self).frames_spec()),
            r is Err ==> final(self).frames_spec() == old(self).frames_spec(),
            final(self).running_spec() == old(self).running_spec(),
            final(self).precision_spec() == old(self).precision_spec(),
            final(self).id_spec() == old(self).id_spec(),
    ;

    /// The identity assigned to this renderer.
    fn unique_id(&self) -> (r: u64)
        ensures
            r == self.id_spec(),
    ;

    /// Assigns the renderer's identity.
    fn assign_unique_id(&mut self, id: u64)
        ensures
            final(self).name_spec() == old(self).name_spec(),
            final(self).shutdown_timeout_spec() == old(self).shutdown_timeout_spec(),
            !old(self).start_refused() ==> !final(self).start_refused(),
            final(self).id_spec() == id,
            final(self).running_spec() == old(self).running_spec(),
            final(self).frames_spec() == old(self).frames_spec(),
            final(self).precision_spec() == old(self).precision_spec(),
    ;

    /// How long, in milliseconds, a shutdown of this renderer may take.
    fn shutdown_timeout_ms(&self) -> (r: u64)
        ensures
            r == self.shutdown_timeout_spec(),
    ;
}

#[verifier::external_type_specification]
#[verifier::external_body]
pub struct ExFormatter<'a>(core::fmt::Formatter<'a>);

#[verifier::external_type_specification]
#[verifier::external_body]
pub struct ExFmtError(core::fmt::Error);

impl core::fmt::Debug for dyn Renderer {
    /// Writes `Renderer` (`Formatter::write_str`); nothing is stated of the
    /// outcome.
    #[verifier::external_body]
    fn fmt(&self, f: &mut core::fmt::Formatter<'_>) -> core::fmt::Result {
        f.write_str("Renderer")
    }
}

/// Whether an event ends a renderer's event loop.
pub open spec fn ends_event_loop(event: RendererEvent) -> bool {
    event is Destroyed
}

/// Applies one event of a renderer's event loop to the renderer: `Destroyed`
/// stops it and ends the loop, `Started` starts it (a refusal is ignored),
/// `Stopped` stops it, and every other event leaves it as it is. Returns whether
/// the loop goes on.
pub fn apply_event(renderer: &mut dyn Renderer, event: &RendererEvent) -> (go_on: bool)
    ensures
        go_on == !ends_event_loop(*event),
        (event is Destroyed || event is Stopped) ==> !final(renderer).running_spec(),
        event is Started ==> final(renderer).running_spec() == (old(renderer).running_spec()
            || !old(renderer).start_refused()),
        !(event is Destroyed || event is Stopped || event is Started) ==> final(renderer).running_spec()
            == old(renderer).running_spec(),
        final(renderer).frames_spec() == old(renderer).frames_spec(),
        final(renderer).precision_spec() == old(renderer).precision_spec(),
{
    match event {
        RendererEvent::Destroyed(_) => {
            renderer.stop();
            false
        },
        RendererEvent::Started(_) => {
            if !renderer.is_running() {
                let _ = renderer.start();
            }
            true
        },
        RendererEvent::Stopped(_) => {
            renderer.stop();
            true
        },
        _ => true,
    }
}

/// A baseline renderer that supports all standard data precisions.
#[derive(Debug)]
pub struct ReferenceRenderer {
    id: u64,
    precision: DataPrecision,
    is_running: bool,
    frame_count: u64,
}

impl ReferenceRenderer {
    /// A stopped reference renderer computing in F32.
    pub fn new() -> (r: Self)
        ensures
            r.precision_spec() == DataPrecision::F32,
            !r.running_spec(),
            r.frames_spec() == 0,
            r.id_spec() == 0,
    {
        ReferenceRenderer { id: 0, precision: DataPrecision::F32, is_running: false, frame_count: 0 }
    }

    /// A stopped reference renderer computing in `precision`.
    pub fn with_precision(precision: DataPrecision) -> (r: Self)
        ensures
            r.precision_spec() == precision,
            !r.running_spec(),
            r.frames_spec() == 0,
            r.id_spec() == 0,
    {
        ReferenceRenderer { id: 0, precision, is_running: false, frame_count: 0 }
    }
}

impl Capability for ReferenceRenderer {
    fn capability_name(&self) -> (r: &'static str)
        ensures
            r@ == "reference_renderer"@,
    {
        "reference_renderer"
    }

    fn description(&self) -> (r: Option<&'static str>)
        ensures
            r matches Some(d) && d@
                == "Basic reference renderer implementation supporting all standard data precisions"@,
    {
        Some("Basic reference renderer implementation supporting all standard data precisions")
    }
}

impl ProcessingUnitCapability for ReferenceRenderer {
    open spec fn supported_spec(&self) -> Seq<DataPrecision> {
        seq![DataPrecision::F16, DataPrecision::BFloat16, DataPrecision::F32, DataPrecision::F64]
    }

    fn supports_precision(&self, precision: DataPrecision) -> (r: bool) {
        assert(self.supported_spec()[0] == DataPrecision::F16);
        assert(self.supported_spec()[1] == DataPrecision::BFloat16);
        assert(self.supported_spec()[2] == DataPrecision::F32);
        assert(self.supported_spec()[3] == DataPrecision::F64);
        true
    }

    fn supported_precisions(&self) -> (r: Vec<DataPrecision>) {
        let r = vec![DataPrecision::F16, DataPrecision::BFloat16, DataPrecision::F32, DataPrecision::F64];
        assert(r@ =~= self.supported_spec());
        r
    }

    fn preferred_precision(&self) -> (r: Option<DataPrecision>)
        ensures
            r == Some(DataPrecision::F32),
    {
        Some(DataPrecision::F32)
    }
}

impl Renderer for ReferenceRenderer {
    closed spec fn running_spec(&self) -> bool {
        self.is_running
    }

    closed spec fn frames_spec(&self) -> u64 {
        self.frame_count
    }

    closed spec fn precision_spec(&self) -> DataPrecision {
        self.precision
    }

    closed spec fn id_spec(&self) -> u64 {
        self.id
    }

    open spec fn name_spec(&self) -> Seq<char> {
        "ReferenceRenderer"@
    }

    open spec fn shutdown_timeout_spec(&self) -> u64 {
        1000
    }

    open spec fn start_refused(&self) -> bool {
        false
    }

    fn set_data_precision(&mut self, precision: DataPrecision) -> (r: Result<DataPrecision, String>)
        ensures
            r == Ok::<DataPrecision, String>(precision),
    {
        self.precision = precision;
        Ok(precision)
    }

    fn get_data_precision(&self) -> (r: DataPrecision) {
        self.precision
    }

    fn is_running(&self) -> (r: bool) {
        self.is_running
    }

    fn get_frame_count(&self) -> (r: u64) {
        self.frame_count
    }

    fn start(&mut self) -> (r: Result<(), String>)
        ensures
            r is Err ==> r->Err_0@ == "Renderer is already running"@,
            r is Ok <==> !old(self).running_spec(),
    {
        if self.is_running {
            Err(owned("Renderer is already running"))
        } else {
            self.is_running = true;
            Ok(())
        }
    }

    fn stop(&mut self) {
        self.is_running = false;
    }

    fn name(&self) -> (r: &'static str)
        ensures
            r@ == "ReferenceRenderer"@,
    {
        "ReferenceRenderer"
    }

    fn render_frame(&mut self) -> (r: Result<(), String>)
        ensures
            r is Err ==> r->Err_0@ == "Renderer is not running"@,
    {
        if !self.is_running {
            return Err(owned("Renderer is not running"));
        }
        self.frame_count = self.frame_count.wrapping_add(1);
        Ok(())
    }

    fn unique_id(&self) -> (r: u64) {
        self.id
    }

    fn assign_unique_id(&mut self, id: u64) {
        self.id = id;
    }

    fn shutdown_timeout_ms(&self) -> (r: u64)
        ensures
            r == 1000,
    {
        1000
    }
}

} // verus!
