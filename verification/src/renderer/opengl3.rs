//! OpenGL 3.x renderer: its configuration, factory, renderer and builder.
use vstd::prelude::*;
use crate::parameters::{
    keys_distinct, lemma_distinct_drop_last, lemma_insert_new_key, lemma_lookup_last,
    lemma_parsed_entries_rejoinable, insert_entry, lookup, parse_parameters, parse_parameters_spec,
    EntryView, ParameterMap,
};
use crate::renderer::factory::{RendererFactory, RendererInfo};
use crate::renderer::{
    next_frame_count, precision_debug, precision_display, Capability, DataPrecision,
    ProcessingUnitCapability, Renderer, RendererError,
};
use crate::text::{
    chars_of, concat, owned, parse_bool_spec, parse_bool_str, parse_u32_str, parse_unsigned_spec,
    parse_usize_str, split_seq, split_spans, str_eq, string_from_chars, TextValue,
};

verus! {

broadcast use vstd::seq::group_seq_axioms;

/// The settings of an OpenGL 3 configuration that parameters can change.
pub ghost struct OpenGL3Settings {
    pub opengl_version: (u32, u32),
    pub max_splat_count: nat,
    pub msaa_samples: u32,
    pub depth_testing: bool,
    pub alpha_blending: bool,
    pub viewport_size: (u32, u32),
    pub opengl_parameters: Seq<EntryView>,
}

/// Whether a version is at least OpenGL 3.3.
pub open spec fn version_supported(major: nat, minor: nat) -> bool {
    !(major < 3 || (major == 3 && minor < 3))
}

/// The MSAA sample counts that are allowed: 0, 2, 4, 8 and 16.
pub open spec fn msaa_valid(samples: nat) -> bool {
    samples == 0 || samples == 2 || samples == 4 || samples == 8 || samples == 16
}

/// One parameter applied to OpenGL 3 settings; names the renderer does not
/// know are kept as OpenGL parameters. A version or viewport value that does
/// not have two parts is ignored.
pub open spec fn opengl3_apply(s: OpenGL3Settings, k: Seq<char>, v: Seq<char>) -> Result<
    OpenGL3Settings,
    Seq<char>,
> {
    if k == "opengl_version"@ {
        let parts = split_seq(v, '.');
        if parts.len() == 2 {
            match parse_unsigned_spec(parts[0], u32::MAX as nat) {
                None => Err("Invalid OpenGL major version: "@ + parts[0]),
                Some(major) => match parse_unsigned_spec(parts[1], u32::MAX as nat) {
                    None => Err("Invalid OpenGL minor version: "@ + parts[1]),
                    Some(minor) => if !version_supported(major, minor) {
                        Err("OpenGL 3.3 or higher required"@)
                    } else {
                        Ok(OpenGL3Settings { opengl_version: (major as u32, minor as u32), ..s })
                    },
                },
            }
        } else {
            Ok(s)
        }
    } else if k == "max_splat_count"@ {
        match parse_unsigned_spec(v, usize::MAX as nat) {
            None => Err("Invalid max_splat_count: "@ + v),
            Some(n) => Ok(OpenGL3Settings { max_splat_count: n, ..s }),
        }
    } else if k == "msaa_samples"@ {
        match parse_unsigned_spec(v, u32::MAX as nat) {
            None => Err("Invalid MSAA samples: "@ + v),
            Some(n) => if !msaa_valid(n) {
                Err("MSAA samples must be 0, 2, 4, 8, or 16"@)
            } else {
                Ok(OpenGL3Settings { msaa_samples: n as u32, ..s })
            },
        }
    } else if k == "viewport_size"@ {
        let parts = split_seq(v, 'x');
        if parts.len() == 2 {
            match parse_unsigned_spec(parts[0], u32::MAX as nat) {
                None => Err("Invalid viewport width: "@ + parts[0]),
                Some(w) => match parse_unsigned_spec(parts[1], u32::MAX as nat) {
                    None => Err("Invalid viewport height: "@ + parts[1]),
                    Some(h) => Ok(OpenGL3Settings { viewport_size: (w as u32, h as u32), ..s }),
                },
            }
        } else {
            Ok(s)
        }
    } else if k == "depth_testing"@ {
        match parse_bool_spec(v) {
            None => Err("Invalid depth_testing value: "@ + v),
            Some(b) => Ok(OpenGL3Settings { depth_testing: b, ..s }),
        }
    } else if k == "alpha_blending"@ {
        match parse_bool_spec(v) {
            None => Err("Invalid alpha_blending value: "@ + v),
            Some(b) => Ok(OpenGL3Settings { alpha_blending: b, ..s }),
        }
    } else {
        Ok(OpenGL3Settings { opengl_parameters: insert_entry(s.opengl_parameters, k, v), ..s })
    }
}

/// The parameters applied in order, stopping at the first refused one.
pub open spec fn opengl3_apply_all(s: OpenGL3Settings, es: Seq<EntryView>) -> Result<
    OpenGL3Settings,
    Seq<char>,
>
    decreases es.len(),
{
    if es.len() == 0 {
        Ok(s)
    } else {
        match opengl3_apply_all(s, es.drop_last()) {
            Ok(t) => opengl3_apply(t, es.last().0, es.last().1),
            Err(m) => Err(m),
        }
    }
}

proof fn lemma_opengl3_error_persists(s: OpenGL3Settings, es: Seq<EntryView>, j: int)
    requires
        0 <= j <= es.len(),
        opengl3_apply_all(s, es.subrange(0, j)) is Err,
    ensures
        opengl3_apply_all(s, es) == opengl3_apply_all(s, es.subrange(0, j)),
    decreases es.len(),
{
    if j == es.len() {
        assert(es.subrange(0, j) =~= es);
    } else {
        assert(es.drop_last().subrange(0, j) =~= es.subrange(0, j));
        lemma_opengl3_error_persists(s, es.drop_last(), j);
    }
}

/// Whether settings hold an allowed sample count and a version of at least 3.3.
pub open spec fn opengl3_settings_in_range(s: OpenGL3Settings) -> bool {
    &&& msaa_valid(s.msaa_samples as nat)
    &&& version_supported(s.opengl_version.0 as nat, s.opengl_version.1 as nat)
}

proof fn lemma_opengl3_apply_all_in_range(s: OpenGL3Settings, es: Seq<EntryView>)
    requires
        opengl3_settings_in_range(s),
    ensures
        opengl3_apply_all(s, es) matches Ok(t) ==> opengl3_settings_in_range(t),
    decreases es.len(),
{
    if es.len() > 0 {
        lemma_opengl3_apply_all_in_range(s, es.drop_last());
    }
}

/// Whether `t` holds what the entries give its flags and counts, and
/// otherwise what `s` holds.
pub open spec fn opengl3_stores(s: OpenGL3Settings, es: Seq<EntryView>, t: OpenGL3Settings) -> bool {
    &&& match lookup(es, "depth_testing"@) {
        Some(v) => parse_bool_spec(v) == Some(t.depth_testing),
        None => t.depth_testing == s.depth_testing,
    }
    &&& match lookup(es, "alpha_blending"@) {
        Some(v) => parse_bool_spec(v) == Some(t.alpha_blending),
        None => t.alpha_blending == s.alpha_blending,
    }
    &&& match lookup(es, "max_splat_count"@) {
        Some(v) => parse_unsigned_spec(v, usize::MAX as nat) == Some(t.max_splat_count),
        None => t.max_splat_count == s.max_splat_count,
    }
    &&& match lookup(es, "msaa_samples"@) {
        Some(v) => parse_unsigned_spec(v, u32::MAX as nat) == Some(t.msaa_samples as nat),
        None => t.msaa_samples == s.msaa_samples,
    }
}

proof fn lemma_opengl3_stores(s: OpenGL3Settings, es: Seq<EntryView>, t: OpenGL3Settings)
    requires
        keys_distinct(es),
        opengl3_apply_all(s, es) == Ok::<OpenGL3Settings, Seq<char>>(t),
    ensures
        opengl3_stores(s, es, t),
    decreases es.len(),
{
    reveal_strlit("opengl_version");
    reveal_strlit("max_splat_count");
    reveal_strlit("msaa_samples");
    reveal_strlit("viewport_size");
    reveal_strlit("depth_testing");
    reveal_strlit("alpha_blending");
    if es.len() == 0 {
    } else {
        let es1 = es.drop_last();
        lemma_distinct_drop_last(es);
        let t1 = opengl3_apply_all(s, es1)->Ok_0;
        lemma_opengl3_stores(s, es1, t1);
        lemma_lookup_last(es, "depth_testing"@);
        lemma_lookup_last(es, "alpha_blending"@);
        lemma_lookup_last(es, "max_splat_count"@);
        lemma_lookup_last(es, "msaa_samples"@);
        let e = es.last();
        assert(("depth_testing"@)[0] != ("viewport_size"@)[0]);
        assert(("alpha_blending"@)[0] != ("opengl_version"@)[0]);
        assert(("depth_testing"@).len() != ("opengl_version"@).len());
        assert(("depth_testing"@).len() != ("max_splat_count"@).len());
        assert(("depth_testing"@).len() != ("msaa_samples"@).len());
        assert(("alpha_blending"@).len() != ("max_splat_count"@).len());
        assert(("alpha_blending"@).len() != ("msaa_samples"@).len());
        assert(("alpha_blending"@).len() != ("viewport_size"@).len());
        assert(("alpha_blending"@).len() != ("depth_testing"@).len());
        assert(opengl3_apply(t1, e.0, e.1) == Ok::<OpenGL3Settings, Seq<char>>(t));
        if e.0 == "depth_testing"@ {
            assert(parse_bool_spec(e.1) == Some(t.depth_testing));
        } else if e.0 == "alpha_blending"@ {
            assert(parse_bool_spec(e.1) == Some(t.alpha_blending));
        } else if e.0 == "max_splat_count"@ {
            assert(parse_unsigned_spec(e.1, usize::MAX as nat) == Some(t.max_splat_count));
        } else if e.0 == "msaa_samples"@ {
            assert(parse_unsigned_spec(e.1, u32::MAX as nat) == Some(t.msaa_samples as nat));
        } else {
            assert(t.depth_testing == t1.depth_testing);
            assert(t.alpha_blending == t1.alpha_blending);
            assert(t.max_splat_count == t1.max_splat_count);
            assert(t.msaa_samples == t1.msaa_samples);
        }
    }
}

/// What a parameter text says of depth testing, alpha blending, the splat
/// count and the sample count is what the configuration holds: the parsed
/// value of the key's entry, or the default (on, on, one million, 4) when the
/// text has none.
pub proof fn law_opengl3_parameters_stored(parameters: Seq<char>, c: OpenGL3RendererConfig)
    requires
        opengl3_outcome(parameters) == Ok::<OpenGL3Settings, Seq<char>>(c.settings()),
    ensures
        ({
            let es = parse_parameters_spec(parameters);
            &&& match lookup(es, "depth_testing"@) {
                Some(v) => parse_bool_spec(v) == Some(c.depth_testing),
                None => c.depth_testing,
            }
            &&& match lookup(es, "alpha_blending"@) {
                Some(v) => parse_bool_spec(v) == Some(c.alpha_blending),
                None => c.alpha_blending,
            }
            &&& match lookup(es, "max_splat_count"@) {
                Some(v) => parse_unsigned_spec(v, usize::MAX as nat) == Some(c.max_splat_count as nat),
                None => c.max_splat_count == 1_000_000,
            }
            &&& match lookup(es, "msaa_samples"@) {
                Some(v) => parse_unsigned_spec(v, u32::MAX as nat) == Some(c.msaa_samples as nat),
                None => c.msaa_samples == 4,
            }
        }),
{
    lemma_parsed_entries_rejoinable(parameters);
    lemma_opengl3_stores(
        opengl3_default_settings(),
        parse_parameters_spec(parameters),
        c.settings(),
    );
}

/// The OpenGL parameters of the default configuration.
pub open spec fn default_opengl_parameters() -> Seq<EntryView> {
    seq![("gl_major_version"@, "3"@), ("gl_minor_version"@, "3"@), ("gl_profile"@, "core"@)]
}

/// The settings of the default configuration.
pub open spec fn opengl3_default_settings() -> OpenGL3Settings {
    OpenGL3Settings {
        opengl_version: (3, 3),
        max_splat_count: 1_000_000,
        msaa_samples: 4,
        depth_testing: true,
        alpha_blending: true,
        viewport_size: (1920, 1080),
        opengl_parameters: default_opengl_parameters(),
    }
}

/// The outcome of configuring an OpenGL 3 renderer with a parameter text.
pub open spec fn opengl3_outcome(parameters: Seq<char>) -> Result<OpenGL3Settings, Seq<char>> {
    opengl3_apply_all(opengl3_default_settings(), parse_parameters_spec(parameters))
}

/// Configuration for the OpenGL 3.x renderer.
#[derive(Debug)]
pub struct OpenGL3RendererConfig {
    /// OpenGL context version (major, minor)
    pub opengl_version: (u32, u32),
    /// Vertex shader source or path
    pub vertex_shader: String,
    /// Fragment shader source or path
    pub fragment_shader: String,
    /// Optional geometry shader source or path
    pub geometry_shader: Option<String>,
    /// Maximum number of Gaussian splats to render
    pub max_splat_count: usize,
    /// Multisampling anti-aliasing sample count
    pub msaa_samples: u32,
    /// Preferred data precision for vertex data
    pub preferred_precision: DataPrecision,
    /// Supported data precisions
    pub supported_precisions: Vec<DataPrecision>,
    /// Enable depth testing
    pub depth_testing: bool,
    /// Enable alpha blending
    pub alpha_blending: bool,
    /// Viewport dimensions (width, height)
    pub viewport_size: (u32, u32),
    /// Additional OpenGL-specific parameters
    pub opengl_parameters: ParameterMap,
}

impl OpenGL3RendererConfig {
    /// The settings that parameters can change.
    pub open spec fn settings(&self) -> OpenGL3Settings {
        OpenGL3Settings {
            opengl_version: self.opengl_version,
            max_splat_count: self.max_splat_count as nat,
            msaa_samples: self.msaa_samples,
            depth_testing: self.depth_testing,
            alpha_blending: self.alpha_blending,
            viewport_size: self.viewport_size,
            opengl_parameters: self.opengl_parameters@,
        }
    }

    /// Whether two configurations hold the same values.
    pub open spec fn same_as(&self, other: &Self) -> bool {
        &&& self.settings() == other.settings()
        &&& self.vertex_shader@ == other.vertex_shader@
        &&& self.fragment_shader@ == other.fragment_shader@
        &&& match (self.geometry_shader, other.geometry_shader) {
            (Some(a), Some(b)) => a@ == b@,
            (None, None) => true,
            _ => false,
        }
        &&& self.preferred_precision == other.preferred_precision
        &&& self.supported_precisions@ == other.supported_precisions@
    }
}

fn clone_optional_string(s: &Option<String>) -> (r: Option<String>)
    ensures
        match (*s, r) {
            (Some(a), Some(b)) => a@ == b@,
            (None, None) => true,
            _ => false,
        },
{
    match s {
        Some(t) => Some(t.clone()),
        None => None,
    }
}

fn clone_precisions(v: &Vec<DataPrecision>) -> (r: Vec<DataPrecision>)
    ensures
        r@ == v@,
{
    let mut out: Vec<DataPrecision> = Vec::new();
    let mut i: usize = 0;
    while i < v.len()
        invariant
            i <= v.len(),
            out@ == v@.subrange(0, i as int),
        decreases v.len() - i,
    {
        out.push(v[i]);
        assert(v@.subrange(0, i + 1) =~= v@.subrange(0, i as int).push(v@[i as int]));
        i = i + 1;
    }
    assert(v@.subrange(0, v.len() as int) =~= v@);
    out
}

impl Clone for OpenGL3RendererConfig {
    fn clone(&self) -> (r: Self)
        ensures
            r.same_as(self),
    {
        OpenGL3RendererConfig {
            opengl_version: self.opengl_version,
            vertex_shader: self.vertex_shader.clone(),
            fragment_shader: self.fragment_shader.clone(),
            geometry_shader: clone_optional_string(&self.geometry_shader),
            max_splat_count: self.max_splat_count,
            msaa_samples: self.msaa_samples,
            preferred_precision: self.preferred_precision,
            supported_precisions: clone_precisions(&self.supported_precisions),
            depth_testing: self.depth_testing,
            alpha_blending: self.alpha_blending,
            viewport_size: self.viewport_size,
            opengl_parameters: self.opengl_parameters.clone(),
        }
    }
}

/// The default vertex shader for Gaussian splatting.
pub open spec fn default_vertex_shader_text() -> Seq<char> {
    r#"#version 330 core
layout (location = 0) in vec3 position;
layout (location = 1) in vec4 color;
layout (location = 2) in mat3 covariance;
layout (location = 5) in float opacity;

uniform mat4 view;
uniform mat4 projection;
uniform vec2 viewport;

out vec4 frag_color;
out vec2 splat_coord;
out float splat_opacity;

void main() {
    // Transform position to view space
    vec4 view_pos = view * vec4(position, 1.0);

    // Project to screen space
    gl_Position = projection * view_pos;

    // Calculate splat size based on covariance
    vec3 cov_diag = vec3(covariance[0][0], covariance[1][1], covariance[2][2]);
    float splat_size = max(max(cov_diag.x, cov_diag.y), cov_diag.z);
    gl_PointSize = splat_size * viewport.y / (view_pos.z * 2.0);

    frag_color = color;
    splat_coord = gl_Position.xy / gl_Position.w;
    splat_opacity = opacity;
}"#@
}

/// The default fragment shader for Gaussian splatting.
pub open spec fn default_fragment_shader_text() -> Seq<char> {
    r#"#version 330 core
in vec4 frag_color;
in vec2 splat_coord;
in float splat_opacity;

out vec4 output_color;

void main() {
    // Calculate distance from center of point sprite
    vec2 coord = gl_PointCoord - vec2(0.5);
    float dist = length(coord);

    // Gaussian falloff
    float gaussian = exp(-4.0 * dist * dist);

    // Alpha blending with opacity
    float alpha = gaussian * splat_opacity * frag_color.a;

    output_color = vec4(frag_color.rgb, alpha);

    // Discard fragments with very low alpha
    if (alpha < 0.01) {
        discard;
    }
}"#@
}

impl Default for OpenGL3RendererConfig {
    /// OpenGL 3.3 core profile, the default shaders, one million splats, 4x
    /// MSAA, F32 preferred with F16 and F32 supported, depth testing and alpha
    /// blending on, a 1920x1080 viewport.
    fn default() -> (r: Self)
        ensures
            r.settings() == opengl3_default_settings(),
            r.vertex_shader@ == default_vertex_shader_text(),
            r.fragment_shader@ == default_fragment_shader_text(),
            r.geometry_shader is None,
            r.preferred_precision == DataPrecision::F32,
            r.supported_precisions@ == seq![DataPrecision::F16, DataPrecision::F32],
    {
        let mut opengl_parameters = ParameterMap::new();
        proof {
            reveal_strlit("gl_major_version");
            reveal_strlit("gl_minor_version");
            reveal_strlit("gl_profile");
        }
        opengl_parameters.insert(owned("gl_major_version"), owned("3"));
        assert(opengl_parameters@ =~= seq![("gl_major_version"@, "3"@)]);
        opengl_parameters.insert(owned("gl_minor_version"), owned("3"));
        assert("gl_minor_version"@ != "gl_major_version"@) by {
            assert("gl_minor_version"@[4] != "gl_major_version"@[4]);
        }
        assert(crate::parameters::key_index(seq![("gl_major_version"@, "3"@)], "gl_minor_version"@)
            == -1) by {
            reveal_with_fuel(crate::parameters::key_index, 2);
        }
        assert(opengl_parameters@ =~= seq![
            ("gl_major_version"@, "3"@),
            ("gl_minor_version"@, "3"@),
        ]);
        opengl_parameters.insert(owned("gl_profile"), owned("core"));
        assert("gl_profile"@ != "gl_major_version"@ && "gl_profile"@ != "gl_minor_version"@) by {
            assert("gl_profile"@.len() != "gl_major_version"@.len());
            assert("gl_profile"@.len() != "gl_minor_version"@.len());
        }
        assert(crate::parameters::key_index(
            seq![("gl_major_version"@, "3"@), ("gl_minor_version"@, "3"@)],
            "gl_profile"@,
        ) == -1) by {
            reveal_with_fuel(crate::parameters::key_index, 3);
            assert(seq![("gl_major_version"@, "3"@), ("gl_minor_version"@, "3"@)].drop_last()
                =~= seq![("gl_major_version"@, "3"@)]);
        }
        assert(opengl_parameters@ =~= default_opengl_parameters());
        let r = OpenGL3RendererConfig {
            opengl_version: (3, 3),
            vertex_shader: owned(Self::default_vertex_shader()),
            fragment_shader: owned(Self::default_fragment_shader()),
            geometry_shader: None,
            max_splat_count: 1_000_000,
            msaa_samples: 4,
            preferred_precision: DataPrecision::F32,
            supported_precisions: vec![DataPrecision::F16, DataPrecision::F32],
            depth_testing: true,
            alpha_blending: true,
            viewport_size: (1920, 1080),
            opengl_parameters,
        };
        assert(r.supported_precisions@ =~= seq![DataPrecision::F16, DataPrecision::F32]);
        r
    }
}

impl OpenGL3RendererConfig {
    /// The default vertex shader source for Gaussian splatting.
    pub fn default_vertex_shader() -> (r: &'static str)
        ensures
            r@ == default_vertex_shader_text(),
    {
        r#"#version 330 core
layout (location = 0) in vec3 position;
layout (location = 1) in vec4 color;
layout (location = 2) in mat3 covariance;
layout (location = 5) in float opacity;

uniform mat4 view;
uniform mat4 projection;
uniform vec2 viewport;

out vec4 frag_color;
out vec2 splat_coord;
out float splat_opacity;

void main() {
    // Transform position to view space
    vec4 view_pos = view * vec4(position, 1.0);

    // Project to screen space
    gl_Position = projection * view_pos;

    // Calculate splat size based on covariance
    vec3 cov_diag = vec3(covariance[0][0], covariance[1][1], covariance[2][2]);
    float splat_size = max(max(cov_diag.x, cov_diag.y), cov_diag.z);
    gl_PointSize = splat_size * viewport.y / (view_pos.z * 2.0);

    frag_color = color;
    splat_coord = gl_Position.xy / gl_Position.w;
    splat_opacity = opacity;
}"#
    }

    /// The default fragment shader source for Gaussian splatting.
    pub fn default_fragment_shader() -> (r: &'static str)
        ensures
            r@ == default_fragment_shader_text(),
    {
        r#"#version 330 core
in vec4 frag_color;
in vec2 splat_coord;
in float splat_opacity;

out vec4 output_color;

void main() {
    // Calculate distance from center of point sprite
    vec2 coord = gl_PointCoord - vec2(0.5);
    float dist = length(coord);

    // Gaussian falloff
    float gaussian = exp(-4.0 * dist * dist);

    // Alpha blending with opacity
    float alpha = gaussian * splat_opacity * frag_color.a;

    output_color = vec4(frag_color.rgb, alpha);

    // Discard fragments with very low alpha
    if (alpha < 0.01) {
        discard;
    }
}"#
    }

    fn apply_parameter(&mut self, key: &String, value: &String) -> (r: Result<(), String>)
        ensures
            match opengl3_apply(old(self).settings(), key@, value@) {
                Ok(t) => r is Ok && final(self).settings() == t,
                Err(m) => r matches Err(e) && e@ == m,
            },
            final(self).preferred_precision == old(self).preferred_precision,
            final(self).supported_precisions@ == old(self).supported_precisions@,
            final(self).vertex_shader@ == old(self).vertex_shader@,
            final(self).fragment_shader@ == old(self).fragment_shader@,
            final(self).geometry_shader == old(self).geometry_shader,
    {
        let k = key.as_str();
        let v = value.as_str();
        if str_eq(k, "opengl_version") {
            let chars = chars_of(v);
            let spans = split_spans(&chars, 0, chars.len(), '.');
            assert(chars@.subrange(0, chars.len() as int) =~= v@);
            if spans.len() == 2 {
                let major_text = string_from_chars(&chars, spans[0].0, spans[0].1);
                let minor_text = string_from_chars(&chars, spans[1].0, spans[1].1);
                let major = match parse_u32_str(major_text.as_str()) {
                    Some(n) => n,
                    None => {
                        return Err(concat(owned("Invalid OpenGL major version: "), major_text.as_str()));
                    },
                };
                let minor = match parse_u32_str(minor_text.as_str()) {
                    Some(n) => n,
                    None => {
                        return Err(concat(owned("Invalid OpenGL minor version: "), minor_text.as_str()));
                    },
                };
                if major < 3 || (major == 3 && minor < 3) {
                    return Err(owned("OpenGL 3.3 or higher required"));
                }
                self.opengl_version = (major, minor);
            }
        } else if str_eq(k, "max_splat_count") {
            match parse_usize_str(v) {
                Some(n) => {
                    self.max_splat_count = n;
                },
                None => {
                    return Err(concat(owned("Invalid max_splat_count: "), v));
                },
            }
        } else if str_eq(k, "msaa_samples") {
            match parse_u32_str(v) {
                Some(n) => {
                    if !(n == 0 || n == 2 || n == 4 || n == 8 || n == 16) {
                        return Err(owned("MSAA samples must be 0, 2, 4, 8, or 16"));
                    }
                    self.msaa_samples = n;
                },
                None => {
                    return Err(concat(owned("Invalid MSAA samples: "), v));
                },
            }
        } else if str_eq(k, "viewport_size") {
            let chars = chars_of(v);
            let spans = split_spans(&chars, 0, chars.len(), 'x');
            assert(chars@.subrange(0, chars.len() as int) =~= v@);
            if spans.len() == 2 {
                let width_text = string_from_chars(&chars, spans[0].0, spans[0].1);
                let height_text = string_from_chars(&chars, spans[1].0, spans[1].1);
                let width = match parse_u32_str(width_text.as_str()) {
                    Some(n) => n,
                    None => {
                        return Err(concat(owned("Invalid viewport width: "), width_text.as_str()));
                    },
                };
                let height = match parse_u32_str(height_text.as_str()) {
                    Some(n) => n,
                    None => {
                        return Err(concat(owned("Invalid viewport height: "), height_text.as_str()));
                    },
                };
                self.viewport_size = (width, height);
            }
        } else if str_eq(k, "depth_testing") {
            match parse_bool_str(v) {
                Some(b) => {
                    self.depth_testing = b;
                },
                None => {
                    return Err(concat(owned("Invalid depth_testing value: "), v));
                },
            }
        } else if str_eq(k, "alpha_blending") {
            match parse_bool_str(v) {
                Some(b) => {
                    self.alpha_blending = b;
                },
                None => {
                    return Err(concat(owned("Invalid alpha_blending value: "), v));
                },
            }
        } else {
            self.opengl_parameters.insert(key.clone(), value.clone());
        }
        Ok(())
    }

    /// The configuration for `precision` with `parameters` applied in order to
    /// the defaults; unknown names are kept as OpenGL parameters.
    pub fn from_parameters(precision: DataPrecision, parameters: &str) -> (r: Result<Self, String>)
        ensures
            match r {
                Ok(c) => opengl3_outcome(parameters@) == Ok::<OpenGL3Settings, Seq<char>>(
                    c.settings(),
                ) && c.preferred_precision == precision && c.supported_precisions@ == seq![
                    DataPrecision::F16,
                    DataPrecision::F32,
                ] && c.vertex_shader@ == default_vertex_shader_text() && c.fragment_shader@
                    == default_fragment_shader_text() && c.geometry_shader is None,
                Err(m) => opengl3_outcome(parameters@) == Err::<OpenGL3Settings, Seq<char>>(m@),
            },
    {
        let mut config = Self::default();
        config.preferred_precision = precision;
        let params = parse_parameters(parameters);
        let ghost es = params@;
        assert(es.subrange(0, 0) =~= Seq::<EntryView>::empty());
        let mut i: usize = 0;
        while i < params.len()
            invariant
                i <= params@.len(),
                es == params@,
                es == parse_parameters_spec(parameters@),
                opengl3_apply_all(opengl3_default_settings(), es.subrange(0, i as int)) == Ok::<
                    OpenGL3Settings,
                    Seq<char>,
                >(config.settings()),
                config.preferred_precision == precision,
                config.supported_precisions@ == seq![DataPrecision::F16, DataPrecision::F32],
                config.vertex_shader@ == default_vertex_shader_text(),
                config.fragment_shader@ == default_fragment_shader_text(),
                config.geometry_shader is None,
            decreases params@.len() - i,
        {
            let (key, value) = params.entry(i);
            assert(es.subrange(0, i + 1).drop_last() =~= es.subrange(0, i as int));
            assert(es.subrange(0, i + 1).last() == es[i as int]);
            match config.apply_parameter(key, value) {
                Ok(()) => {},
                Err(e) => {
                    proof {
                        lemma_opengl3_error_persists(opengl3_default_settings(), es, i + 1);
                    }
                    return Err(e);
                },
            }
            i = i + 1;
        }
        assert(es.subrange(0, params@.len() as int) =~= es);
        Ok(config)
    }
}

/// Every configuration that parameters give has a sample count of 0, 2, 4, 8
/// or 16 and an OpenGL version of at least 3.3; it prefers the precision asked
/// for, supports F16 and F32, and has no geometry shader.
pub proof fn law_opengl3_config_in_range(
    precision: DataPrecision,
    parameters: Seq<char>,
    c: OpenGL3RendererConfig,
)
    requires
        opengl3_outcome(parameters) == Ok::<OpenGL3Settings, Seq<char>>(c.settings()),
        c.preferred_precision == precision,
        c.supported_precisions@ == seq![DataPrecision::F16, DataPrecision::F32],
        c.geometry_shader is None,
    ensures
        c.msaa_samples == 0 || c.msaa_samples == 2 || c.msaa_samples == 4 || c.msaa_samples == 8
            || c.msaa_samples == 16,
        c.opengl_version.0 > 3 || (c.opengl_version.0 == 3 && c.opengl_version.1 >= 3),
        c.preferred_precision == precision,
        c.supported_precisions@ == seq![DataPrecision::F16, DataPrecision::F32],
        c.geometry_shader is None,
{
    lemma_opengl3_apply_all_in_range(
        opengl3_default_settings(),
        parse_parameters_spec(parameters),
    );
}

/// Whether the OpenGL 3 renderer computes in `p`: F16 and F32.
pub open spec fn opengl3_precision(p: DataPrecision) -> bool {
    p == DataPrecision::F16 || p == DataPrecision::F32
}

fn is_opengl3_precision(p: DataPrecision) -> (r: bool)
    ensures
        r == opengl3_precision(p),
{
    p == DataPrecision::F16 || p == DataPrecision::F32
}

/// The text of a list of precisions as `{:?}` prints it.
pub open spec fn precision_list_text(s: Seq<DataPrecision>) -> Seq<char>
    decreases s.len(),
{
    if s.len() == 0 {
        Seq::empty()
    } else if s.len() == 1 {
        precision_debug(s[0])
    } else {
        precision_list_text(s.drop_last()) + ", "@ + precision_debug(s.last())
    }
}

fn precision_list_string(v: &Vec<DataPrecision>) -> (r: String)
    ensures
        r@ == "["@ + precision_list_text(v@) + "]"@,
{
    let mut out = owned("");
    let mut i: usize = 0;
    proof {
        reveal_strlit("");
        assert(v@.subrange(0, 0) =~= Seq::<DataPrecision>::empty());
    }
    while i < v.len()
        invariant
            i <= v.len(),
            out@ == precision_list_text(v@.subrange(0, i as int)),
        decreases v.len() - i,
    {
        assert(v@.subrange(0, i + 1).drop_last() =~= v@.subrange(0, i as int));
        if i > 0 {
            out = concat(out, ", ");
        }
        out = concat(out, v[i].debug_str());
        proof {
            if i == 0 {
                assert(out@ =~= precision_debug(v@[0]));
            }
        }
        i = i + 1;
    }
    assert(v@.subrange(0, v.len() as int) =~= v@);
    concat(concat(owned("["), out.as_str()), "]")
}

/// OpenGL 3.x-based renderer for 3D Gaussian Splatting.
#[derive(Debug)]
pub struct OpenGL3Renderer {
    id: u64,
    /// The renderer's configuration.
    pub config: OpenGL3RendererConfig,
    current_precision: DataPrecision,
    is_running: bool,
    frame_count: u64,
    gl_context_initialized: bool,
    vertex_array_object: u32,
    vertex_buffer_object: u32,
    shader_program: u32,
}

impl OpenGL3Renderer {
    /// The renderer's configuration.
    pub closed spec fn config_spec(&self) -> OpenGL3RendererConfig {
        self.config
    }

    /// Whether the OpenGL context is set up.
    pub closed spec fn context_spec(&self) -> bool {
        self.gl_context_initialized
    }

    /// A stopped renderer with the given configuration, computing in its
    /// preferred precision, with no OpenGL context yet.
    pub fn new(config: OpenGL3RendererConfig) -> (r: Self)
        ensures
            r.config_spec() == config,
            r.precision_spec() == config.preferred_precision,
            !r.running_spec(),
            !r.context_spec(),
            !r.start_refused(),
            r.frames_spec() == 0,
            r.id_spec() == 0,
    {
        let current_precision = config.preferred_precision;
        OpenGL3Renderer {
            id: 0,
            config,
            current_precision,
            is_running: false,
            frame_count: 0,
            gl_context_initialized: false,
            vertex_array_object: 0,
            vertex_buffer_object: 0,
            shader_program: 0,
        }
    }

    /// A stopped renderer with the default configuration.
    pub fn default() -> (r: Self)
        ensures
            r.config_spec().settings() == opengl3_default_settings(),
            r.config_spec().supported_precisions@ == seq![DataPrecision::F16, DataPrecision::F32],
            r.precision_spec() == DataPrecision::F32,
            !r.running_spec(),
            !r.context_spec(),
            !r.start_refused(),
            r.frames_spec() == 0,
    {
        Self::new(OpenGL3RendererConfig::default())
    }

    /// The renderer's configuration.
    pub fn config(&self) -> (r: &OpenGL3RendererConfig)
        ensures
            *r == self.config_spec(),
    {
        &self.config
    }

    /// Sets the viewport size.
    pub fn set_viewport_size(&mut self, width: u32, height: u32)
        ensures
            final(self).config_spec().viewport_size == (width, height),
            final(self).config_spec().settings() == (OpenGL3Settings {
                viewport_size: (width, height),
                ..old(self).config_spec().settings()
            }),
            final(self).running_spec() == old(self).running_spec(),
            final(self).frames_spec() == old(self).frames_spec(),
    {
        self.config.viewport_size = (width, height);
    }

    /// The viewport size.
    pub fn viewport_size(&self) -> (r: (u32, u32))
        ensures
            r == self.config_spec().viewport_size,
    {
        self.config.viewport_size
    }

    /// Sets the MSAA sample count: 0, 2, 4, 8 or 16.
    pub fn set_msaa_samples(&mut self, samples: u32) -> (r: Result<(), String>)
        ensures
            msaa_valid(samples as nat) ==> r is Ok && final(self).config_spec().msaa_samples == samples,
            !msaa_valid(samples as nat) ==> (r matches Err(e) && e@
                == "MSAA samples must be 0, 2, 4, 8, or 16"@) && final(self).config_spec().msaa_samples
                == old(self).config_spec().msaa_samples,
            final(self).config_spec().viewport_size == old(self).config_spec().viewport_size,
            final(self).running_spec() == old(self).running_spec(),
    {
        if !(samples == 0 || samples == 2 || samples == 4 || samples == 8 || samples == 16) {
            return Err(owned("MSAA samples must be 0, 2, 4, 8, or 16"));
        }
        self.config.msaa_samples = samples;
        Ok(())
    }

    /// The largest number of splats the renderer handles.
    pub fn max_splat_count(&self) -> (r: usize)
        ensures
            r == self.config_spec().max_splat_count,
    {
        self.config.max_splat_count
    }

    /// Whether the OpenGL context is set up.
    pub fn is_context_initialized(&self) -> (r: bool)
        ensures
            r == self.context_spec(),
    {
        self.gl_context_initialized
    }

    /// The OpenGL version the renderer requires.
    pub fn required_opengl_version(&self) -> (r: (u32, u32))
        ensures
            r == self.config_spec().opengl_version,
    {
        self.config.opengl_version
    }

    fn initialize_gl_context(&mut self)
        ensures
            final(self).context_spec(),
            final(self).is_running == old(self).is_running,
            final(self).frame_count == old(self).frame_count,
            final(self).current_precision == old(self).current_precision,
            final(self).id == old(self).id,
            final(self).config_spec() == old(self).config_spec(),
    {
        if self.gl_context_initialized {
            return;
        }
        self.vertex_array_object = 1;
        self.vertex_buffer_object = 2;
        self.shader_program = 3;
        self.gl_context_initialized = true;
    }

    fn cleanup_gl_context(&mut self)
        ensures
            !final(self).context_spec(),
            final(self).is_running == old(self).is_running,
            final(self).frame_count == old(self).frame_count,
            final(self).current_precision == old(self).current_precision,
            final(self).id == old(self).id,
            final(self).config_spec() == old(self).config_spec(),
    {
        if !self.gl_context_initialized {
            return;
        }
        self.vertex_array_object = 0;
        self.vertex_buffer_object = 0;
        self.shader_program = 0;
        self.gl_context_initialized = false;
    }
}

impl Capability for OpenGL3Renderer {
    fn capability_name(&self) -> (r: &'static str)
        ensures
            r@ == "opengl3_renderer"@,
    {
        "opengl3_renderer"
    }

    fn description(&self) -> (r: Option<&'static str>)
        ensures
            r matches Some(d) && d@
                == "High-performance OpenGL 3.x renderer for 3D Gaussian Splatting with hardware acceleration"@,
    {
        Some("High-performance OpenGL 3.x renderer for 3D Gaussian Splatting with hardware acceleration")
    }
}

impl ProcessingUnitCapability for OpenGL3Renderer {
    closed spec fn supported_spec(&self) -> Seq<DataPrecision> {
        self.config.supported_precisions@
    }

    fn supports_precision(&self, precision: DataPrecision) -> (r: bool) {
        let mut i: usize = 0;
        while i < self.config.supported_precisions.len()
            invariant
                i <= self.config.supported_precisions.len(),
                forall|j: int| 0 <= j < i ==> self.config.supported_precisions@[j] != precision,
            decreases self.config.supported_precisions.len() - i,
        {
            if self.config.supported_precisions[i] == precision {
                assert(self.config.supported_precisions@[i as int] == precision);
                return true;
            }
            i = i + 1;
        }
        false
    }

    fn supported_precisions(&self) -> (r: Vec<DataPrecision>) {
        clone_precisions(&self.config.supported_precisions)
    }

    fn preferred_precision(&self) -> (r: Option<DataPrecision>)
        ensures
            r == Some(self.config_spec().preferred_precision),
    {
        Some(self.config.preferred_precision)
    }
}

impl Renderer for OpenGL3Renderer {
    closed spec fn running_spec(&self) -> bool {
        self.is_running && self.gl_context_initialized
    }

    closed spec fn frames_spec(&self) -> u64 {
        self.frame_count
    }

    closed spec fn precision_spec(&self) -> DataPrecision {
        self.current_precision
    }

    closed spec fn id_spec(&self) -> u64 {
        self.id
    }

    open spec fn name_spec(&self) -> Seq<char> {
        "OpenGL3Renderer"@
    }

    open spec fn shutdown_timeout_spec(&self) -> u64 {
        1000
    }

    closed spec fn start_refused(&self) -> bool {
        self.is_running && !self.gl_context_initialized
    }

    /// A precision is accepted when the configuration lists it and OpenGL
    /// vertex attributes can hold it: F32 always, F16 from OpenGL 3.0 on.
    fn set_data_precision(&mut self, precision: DataPrecision) -> (r: Result<DataPrecision, String>)
        ensures
            !old(self).supported_spec().contains(precision) ==> (r matches Err(e) && e@
                == "Precision "@ + precision_display(precision)
                + " not supported by OpenGL3 renderer. Supported precisions: "@ + "["@
                + precision_list_text(old(self).config_spec().supported_precisions@) + "]"@),
            old(self).supported_spec().contains(precision) ==> (r is Ok <==> (precision
                == DataPrecision::F32 || (precision == DataPrecision::F16
                && old(self).config_spec().opengl_version.0 >= 3))),
            old(self).supported_spec().contains(precision) && precision == DataPrecision::F16
                && old(self).config_spec().opengl_version.0 < 3 ==> (r matches Err(e) && e@
                == "F16 precision requires OpenGL 3.0 or higher"@),
            old(self).supported_spec().contains(precision) && precision == DataPrecision::F64 ==> (
            r matches Err(e) && e@ == "F64 precision not supported by OpenGL vertex attributes"@),
            old(self).supported_spec().contains(precision) && precision
                == DataPrecision::BFloat16 ==> (r matches Err(e) && e@
                == "BFloat16 precision not supported by standard OpenGL"@),
            final(self).config_spec() == old(self).config_spec(),
    {
        if !self.supports_precision(precision) {
            let m = concat(
                concat(
                    concat(owned("Precision "), precision.display_str()),
                    " not supported by OpenGL3 renderer. Supported precisions: ",
                ),
                precision_list_string(&self.config.supported_precisions).as_str(),
            );
            return Err(m);
        }
        match precision {
            DataPrecision::F16 => {
                if self.config.opengl_version.0 < 3 {
                    return Err(owned("F16 precision requires OpenGL 3.0 or higher"));
                }
            },
            DataPrecision::F64 => {
                return Err(owned("F64 precision not supported by OpenGL vertex attributes"));
            },
            DataPrecision::BFloat16 => {
                return Err(owned("BFloat16 precision not supported by standard OpenGL"));
            },
            DataPrecision::F32 => {},
        }
        self.current_precision = precision;
        Ok(precision)
    }

    fn get_data_precision(&self) -> (r: DataPrecision) {
        self.current_precision
    }

    fn is_running(&self) -> (r: bool) {
        self.is_running && self.gl_context_initialized
    }

    fn get_frame_count(&self) -> (r: u64) {
        self.frame_count
    }

    fn start(&mut self) -> (r: Result<(), String>)
        ensures
            r is Ok ==> final(self).context_spec(),
            r matches Err(e) ==> e@ == "OpenGL3 renderer is already running"@,
            final(self).config_spec() == old(self).config_spec(),
    {
        if self.is_running {
            return Err(owned("OpenGL3 renderer is already running"));
        }
        self.initialize_gl_context();
        self.is_running = true;
        Ok(())
    }

    fn stop(&mut self)
        ensures
            old(self).running_spec() ==> !final(self).context_spec(),
            final(self).config_spec() == old(self).config_spec(),
    {
        if !self.is_running {
            return;
        }
        self.cleanup_gl_context();
        self.is_running = false;
    }

    fn name(&self) -> (r: &'static str)
        ensures
            r@ == "OpenGL3Renderer"@,
    {
        "OpenGL3Renderer"
    }

    fn render_frame(&mut self) -> (r: Result<(), String>)
        ensures
            final(self).config_spec() == old(self).config_spec(),
    {
        if !self.is_running {
            return Err(owned("OpenGL3 renderer is not running"));
        }
        if !self.gl_context_initialized {
            return Err(owned("OpenGL context not initialized"));
        }
        self.frame_count = self.frame_count.wrapping_add(1);
        Ok(())
    }

    fn unique_id(&self) -> (r: u64) {
        self.id
    }

    fn assign_unique_id(&mut self, id: u64) {
        self.id = id;
    }

    fn shutdown_timeout_ms(&self) -> (r: u64)
        ensures
            r == 1000,
    {
        1000
    }
}

/// Factory of OpenGL 3 renderers.
#[derive(Debug)]
pub struct OpenGL3RendererFactory {
    factory_name: String,
}

impl OpenGL3RendererFactory {
    /// The factory, named `OpenGL3Renderer`.
    pub fn new() -> (r: Self)
        ensures
            r.info_name() == "OpenGL3Renderer"@,
    {
        OpenGL3RendererFactory { factory_name: owned("OpenGL3Renderer") }
    }
}

impl Default for OpenGL3RendererFactory {
    fn default() -> (r: Self)
        ensures
            r.info_name() == "OpenGL3Renderer"@,
    {
        Self::new()
    }
}

impl RendererFactory for OpenGL3RendererFactory {
    open spec fn created_name(&self, precision: DataPrecision, parameters: Seq<char>) -> Seq<char> {
        "OpenGL3Renderer"@
    }

    open spec fn parameter_error(&self, precision: DataPrecision, parameters: Seq<char>) -> Seq<char> {
        match opengl3_outcome(parameters) {
            Err(m) => m,
            Ok(_) => Seq::empty(),
        }
    }

    open spec fn creation_failed(&self, precision: DataPrecision, parameters: Seq<char>) -> bool {
        false
    }

    open spec fn accepts(&self, precision: DataPrecision, parameters: Seq<char>) -> bool {
        opengl3_precision(precision) && opengl3_outcome(parameters) is Ok
    }

    open spec fn rejects_precision(&self, precision: DataPrecision, parameters: Seq<char>) -> bool {
        !opengl3_precision(precision)
    }

    closed spec fn info_name(&self) -> Seq<char> {
        self.factory_name@
    }

    open spec fn info_capabilities(&self) -> Seq<char> {
        "opengl3,gpu_acceleration,hardware_rendering,real_time,gaussian_splatting,msaa"@
    }

    fn create(&self, precision: DataPrecision, parameters: &str) -> (r: Result<
        Box<dyn Renderer>,
        RendererError,
    >)
        ensures
            r matches Ok(b) ==> b.precision_spec() == precision && !b.running_spec()
                && b.frames_spec() == 0,
            r matches Err(RendererError::InvalidParameters(m)) ==> opengl3_outcome(parameters@)
                == Err::<OpenGL3Settings, Seq<char>>(m@),
    {
        self.validate_parameters(precision, parameters)?;
        let config = match OpenGL3RendererConfig::from_parameters(precision, parameters) {
            Ok(c) => c,
            Err(e) => {
                return Err(RendererError::InvalidParameters(e));
            },
        };
        if !is_opengl3_precision(precision) {
            return Err(RendererError::UnsupportedPrecision(precision));
        }
        let renderer = OpenGL3Renderer::new(config);
        Ok(Box::new(renderer))
    }

    open spec fn info_timeout(&self) -> u64 {
        10000
    }

    open spec fn info_parameters(&self) -> Seq<EntryView> {
        seq![
            ("max_splat_count"@, "Maximum number of Gaussian splats (default: 1000000)"@),
            ("msaa_samples"@, "MSAA sample count (0, 2, 4, 8, 16)"@),
            ("viewport_size"@, "Viewport dimensions: 'WIDTHxHEIGHT'"@),
            ("depth_testing"@, "Enable depth testing (true/false)"@),
            ("alpha_blending"@, "Enable alpha blending (true/false)"@),
        ]
    }

    fn get_info(&self) -> (r: RendererInfo)
        ensures
            r.timeout_microseconds == 10000,
    {
        let mut parameters = ParameterMap::new();
        proof {
            reveal_strlit("max_splat_count");
            reveal_strlit("msaa_samples");
            reveal_strlit("viewport_size");
            reveal_strlit("depth_testing");
            reveal_strlit("alpha_blending");
        }
        proof {
            lemma_insert_new_key(
                parameters@,
                "max_splat_count"@,
                "Maximum number of Gaussian splats (default: 1000000)"@,
            );
        }
        parameters.insert(
            owned("max_splat_count"),
            owned("Maximum number of Gaussian splats (default: 1000000)"),
        );
        proof {
            assert forall|j: int| 0 <= j < parameters@.len() implies (#[trigger] parameters@[j]).0
                != "msaa_samples"@ by {
                if j == 0 {
                    assert("max_splat_count"@.len() != "msaa_samples"@.len());
                }
            }
            lemma_insert_new_key(
                parameters@,
                "msaa_samples"@,
                "MSAA sample count (0, 2, 4, 8, 16)"@,
            );
        }
        parameters.insert(owned("msaa_samples"), owned("MSAA sample count (0, 2, 4, 8, 16)"));
        proof {
            assert forall|j: int| 0 <= j < parameters@.len() implies (#[trigger] parameters@[j]).0
                != "viewport_size"@ by {
                if j == 0 {
                    assert("max_splat_count"@.len() != "viewport_size"@.len());
                } else if j == 1 {
                    assert("msaa_samples"@.len() != "viewport_size"@.len());
                }
            }
            lemma_insert_new_key(
                parameters@,
                "viewport_size"@,
                "Viewport dimensions: 'WIDTHxHEIGHT'"@,
            );
        }
        parameters.insert(owned("viewport_size"), owned("Viewport dimensions: 'WIDTHxHEIGHT'"));
        proof {
            assert forall|j: int| 0 <= j < parameters@.len() implies (#[trigger] parameters@[j]).0
                != "depth_testing"@ by {
                if j == 0 {
                    assert("max_splat_count"@.len() != "depth_testing"@.len());
                } else if j == 1 {
                    assert("msaa_samples"@.len() != "depth_testing"@.len());
                } else if j == 2 {
                    assert("viewport_size"@[0] != "depth_testing"@[0]);
                }
            }
            lemma_insert_new_key(
                parameters@,
                "depth_testing"@,
                "Enable depth testing (true/false)"@,
            );
        }
        parameters.insert(owned("depth_testing"), owned("Enable depth testing (true/false)"));
        proof {
            assert forall|j: int| 0 <= j < parameters@.len() implies (#[trigger] parameters@[j]).0
                != "alpha_blending"@ by {
                if j == 0 {
                    assert("max_splat_count"@.len() != "alpha_blending"@.len());
                } else if j == 1 {
                    assert("msaa_samples"@.len() != "alpha_blending"@.len());
                } else if j == 2 {
                    assert("viewport_size"@.len() != "alpha_blending"@.len());
                } else if j == 3 {
                    assert("depth_testing"@.len() != "alpha_blending"@.len());
                }
            }
            lemma_insert_new_key(
                parameters@,
                "alpha_blending"@,
                "Enable alpha blending (true/false)"@,
            );
        }
        parameters.insert(owned("alpha_blending"), owned("Enable alpha blending (true/false)"));
        assert(parameters@ =~= seq![
                ("max_splat_count"@, "Maximum number of Gaussian splats (default: 1000000)"@),
                ("msaa_samples"@, "MSAA sample count (0, 2, 4, 8, 16)"@),
                ("viewport_size"@, "Viewport dimensions: 'WIDTHxHEIGHT'"@),
                ("depth_testing"@, "Enable depth testing (true/false)"@),
                ("alpha_blending"@, "Enable alpha blending (true/false)"@),
            ]);
        RendererInfo::new(
            self.factory_name.clone(),
            owned("opengl3,gpu_acceleration,hardware_rendering,real_time,gaussian_splatting,msaa"),
            parameters,
            10000,
        )
    }

    fn validate_parameters(&self, precision: DataPrecision, parameters: &str) -> (r: Result<
        (),
        RendererError,
    >)
        ensures
            r matches Err(RendererError::InvalidParameters(m)) ==> opengl3_outcome(parameters@)
                == Err::<OpenGL3Settings, Seq<char>>(m@),
    {
        if !is_opengl3_precision(precision) {
            return Err(RendererError::UnsupportedPrecision(precision));
        }
        match OpenGL3RendererConfig::from_parameters(precision, parameters) {
            Ok(_) => Ok(()),
            Err(e) => Err(RendererError::InvalidParameters(e)),
        }
    }
}

/// The precisions of a list that OpenGL supports: F16 and F32, in order.
pub open spec fn opengl_precisions(s: Seq<DataPrecision>) -> Seq<DataPrecision>
    decreases s.len(),
{
    if s.len() == 0 {
        Seq::empty()
    } else if opengl3_precision(s.last()) {
        opengl_precisions(s.drop_last()).push(s.last())
    } else {
        opengl_precisions(s.drop_last())
    }
}

/// Builder of OpenGL 3 renderers.
#[derive(Debug)]
pub struct OpenGL3RendererBuilder {
    config: OpenGL3RendererConfig,
}

impl Clone for OpenGL3RendererBuilder {
    fn clone(&self) -> (r: Self)
        ensures
            r.config_spec().same_as(&self.config_spec()),
    {
        OpenGL3RendererBuilder { config: self.config.clone() }
    }
}

impl OpenGL3RendererBuilder {
    /// The configuration being built.
    pub closed spec fn config_spec(&self) -> OpenGL3RendererConfig {
        self.config
    }

    /// A builder holding the default configuration.
    pub fn new() -> (r: Self)
        ensures
            r.config_spec().settings() == opengl3_default_settings(),
            r.config_spec().preferred_precision == DataPrecision::F32,
            r.config_spec().supported_precisions@ == seq![DataPrecision::F16, DataPrecision::F32],
    {
        OpenGL3RendererBuilder { config: OpenGL3RendererConfig::default() }
    }

    /// Requires OpenGL `major.minor`, which must be at least 3.3.
    pub fn opengl_version(self, major: u32, minor: u32) -> (r: Result<Self, String>)
        ensures
            version_supported(major as nat, minor as nat) ==> (r matches Ok(b)
                && b.config_spec() == (OpenGL3RendererConfig {
                opengl_version: (major, minor),
                ..self.config_spec()
            })),
            !version_supported(major as nat, minor as nat) ==> (r matches Err(e) && e@
                == "OpenGL 3.3 or higher required"@),
    {
        if major < 3 || (major == 3 && minor < 3) {
            return Err(owned("OpenGL 3.3 or higher required"));
        }
        let mut b = self;
        b.config.opengl_version = (major, minor);
        Ok(b)
    }

    /// Sets the largest number of splats to support.
    pub fn max_splat_count(self, count: usize) -> (r: Self)
        ensures
            r.config_spec() == (OpenGL3RendererConfig { max_splat_count: count, ..self.config_spec() }),
    {
        let mut b = self;
        b.config.max_splat_count = count;
        b
    }

    /// Sets the MSAA sample count: 0, 2, 4, 8 or 16.
    pub fn msaa_samples(self, samples: u32) -> (r: Result<Self, String>)
        ensures
            msaa_valid(samples as nat) ==> (r matches Ok(b) && b.config_spec()
                == (OpenGL3RendererConfig { msaa_samples: samples, ..self.config_spec() })),
            !msaa_valid(samples as nat) ==> (r matches Err(e) && e@
                == "MSAA samples must be 0, 2, 4, 8, or 16"@),
    {
        if !(samples == 0 || samples == 2 || samples == 4 || samples == 8 || samples == 16) {
            return Err(owned("MSAA samples must be 0, 2, 4, 8, or 16"));
        }
        let mut b = self;
        b.config.msaa_samples = samples;
        Ok(b)
    }

    /// Sets the viewport size.
    pub fn viewport_size(self, width: u32, height: u32) -> (r: Self)
        ensures
            r.config_spec() == (OpenGL3RendererConfig {
                viewport_size: (width, height),
                ..self.config_spec()
            }),
    {
        let mut b = self;
        b.config.viewport_size = (width, height);
        b
    }

    /// Sets the supported precisions, keeping only those OpenGL supports.
    pub fn supported_precisions(self, precisions: Vec<DataPrecision>) -> (r: Self)
        ensures
            r.config_spec().supported_precisions@ == opengl_precisions(precisions@),
            r.config_spec().settings() == self.config_spec().settings(),
            r.config_spec().preferred_precision == self.config_spec().preferred_precision,
            r.config_spec().vertex_shader == self.config_spec().vertex_shader,
            r.config_spec().fragment_shader == self.config_spec().fragment_shader,
            r.config_spec().geometry_shader == self.config_spec().geometry_shader,
    {
        let mut kept: Vec<DataPrecision> = Vec::new();
        let mut i: usize = 0;
        assert(precisions@.subrange(0, 0) =~= Seq::<DataPrecision>::empty());
        while i < precisions.len()
            invariant
                i <= precisions.len(),
                kept@ == opengl_precisions(precisions@.subrange(0, i as int)),
            decreases precisions.len() - i,
        {
            assert(precisions@.subrange(0, i + 1).drop_last() =~= precisions@.subrange(0, i as int));
            let p = precisions[i];
            if is_opengl3_precision(p) {
                kept.push(p);
            }
            i = i + 1;
        }
        assert(precisions@.subrange(0, precisions.len() as int) =~= precisions@);
        let mut b = self;
        b.config.supported_precisions = kept;
        b
    }

    /// Sets the preferred precision.
    pub fn preferred_precision(self, precision: DataPrecision) -> (r: Self)
        ensures
            r.config_spec() == (OpenGL3RendererConfig {
                preferred_precision: precision,
                ..self.config_spec()
            }),
    {
        let mut b = self;
        b.config.preferred_precision = precision;
        b
    }

    /// Turns depth testing on or off.
    pub fn depth_testing(self, enabled: bool) -> (r: Self)
        ensures
            r.config_spec() == (OpenGL3RendererConfig { depth_testing: enabled, ..self.config_spec() }),
    {
        let mut b = self;
        b.config.depth_testing = enabled;
        b
    }

    /// Turns alpha blending on or off.
    pub fn alpha_blending(self, enabled: bool) -> (r: Self)
        ensures
            r.config_spec() == (OpenGL3RendererConfig {
                alpha_blending: enabled,
                ..self.config_spec()
            }),
    {
        let mut b = self;
        b.config.alpha_blending = enabled;
        b
    }

    /// Sets the vertex shader source.
    pub fn vertex_shader<S: TextValue>(self, source: S) -> (r: Self)
        ensures
            r.config_spec().vertex_shader@ == source.text(),
            r.config_spec().settings() == self.config_spec().settings(),
            r.config_spec().fragment_shader == self.config_spec().fragment_shader,
            r.config_spec().geometry_shader == self.config_spec().geometry_shader,
            r.config_spec().preferred_precision == self.config_spec().preferred_precision,
            r.config_spec().supported_precisions == self.config_spec().supported_precisions,
    {
        let mut b = self;
        b.config.vertex_shader = source.into_string();
        b
    }

    /// Sets the fragment shader source.
    pub fn fragment_shader<S: TextValue>(self, source: S) -> (r: Self)
        ensures
            r.config_spec().fragment_shader@ == source.text(),
            r.config_spec().settings() == self.config_spec().settings(),
            r.config_spec().vertex_shader == self.config_spec().vertex_shader,
            r.config_spec().geometry_shader == self.config_spec().geometry_shader,
            r.config_spec().preferred_precision == self.config_spec().preferred_precision,
            r.config_spec().supported_precisions == self.config_spec().supported_precisions,
    {
        let mut b = self;
        b.config.fragment_shader = source.into_string();
        b
    }

    /// Sets the optional geometry shader source.
    pub fn geometry_shader(self, source: Option<String>) -> (r: Self)
        ensures
            r.config_spec() == (OpenGL3RendererConfig { geometry_shader: source, ..self.config_spec() }),
    {
        let mut b = self;
        b.config.geometry_shader = source;
        b
    }

    /// Adds an OpenGL-specific parameter.
    pub fn opengl_parameter<K: TextValue, V: TextValue>(self, key: K, value: V) -> (r: Self)
        ensures
            r.config_spec().opengl_parameters@ == insert_entry(
                self.config_spec().opengl_parameters@,
                key.text(),
                value.text(),
            ),
            r.config_spec().opengl_version == self.config_spec().opengl_version,
            r.config_spec().max_splat_count == self.config_spec().max_splat_count,
            r.config_spec().msaa_samples == self.config_spec().msaa_samples,
            r.config_spec().depth_testing == self.config_spec().depth_testing,
            r.config_spec().alpha_blending == self.config_spec().alpha_blending,
            r.config_spec().viewport_size == self.config_spec().viewport_size,
            r.config_spec().vertex_shader == self.config_spec().vertex_shader,
            r.config_spec().fragment_shader == self.config_spec().fragment_shader,
            r.config_spec().geometry_shader == self.config_spec().geometry_shader,
            r.config_spec().preferred_precision == self.config_spec().preferred_precision,
            r.config_spec().supported_precisions == self.config_spec().supported_precisions,
    {
        let mut b = self;
        b.config.opengl_parameters.insert(key.into_string(), value.into_string());
        b
    }

    /// The renderer with the configured settings.
    pub fn build(self) -> (r: OpenGL3Renderer)
        ensures
            r.config_spec() == self.config_spec(),
            r.precision_spec() == self.config_spec().preferred_precision,
            !r.running_spec(),
            !r.start_refused(),
            r.frames_spec() == 0,
    {
        OpenGL3Renderer::new(self.config)
    }
}

impl Default for OpenGL3RendererBuilder {
    fn default() -> (r: Self)
        ensures
            r.config_spec().settings() == opengl3_default_settings(),
    {
        Self::new()
    }
}

} // verus!
