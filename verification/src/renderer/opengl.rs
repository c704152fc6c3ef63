//! Version-agnostic OpenGL renderer factory: it reads the OpenGL version from
//! the parameters and hands the rest to the factory of that version.
use vstd::prelude::*;
use crate::parameters::{
    entries_of_pieces, entry_rejoinable, insert_entry, key_index, keys_distinct,
    lemma_entry_text_reads_back, lemma_insert_new_key, lemma_parsed_entries_rejoinable, lookup,
    parse_parameters, parse_parameters_spec, piece_entry, EntryView, ParameterMap,
};
use crate::renderer::factory::{RendererFactory, RendererInfo};
use crate::renderer::opengl3::{opengl3_outcome, opengl3_precision, OpenGL3RendererFactory};
use crate::renderer::{DataPrecision, Renderer, RendererError};
use crate::text::{
    chars_of, concat, decimal_seq, lemma_split_joined, lemma_split_without_sep,
    lemma_trim_fixed, owned,
    parse_u32_str, parse_unsigned_spec, push_str, split_seq, split_spans, str_eq,
    string_from_chars, with_decimal,
};

verus! {

broadcast use vstd::seq::group_seq_axioms;

/// The OpenGL version that the entries ask for: `3.3` when none is given.
pub open spec fn version_text(es: Seq<EntryView>) -> Seq<char> {
    match lookup(es, "opengl_version"@) {
        Some(v) => v,
        None => "3.3"@,
    }
}

/// The entries other than `opengl_version`, written back as `key=value`
/// pairs separated by commas.
pub open spec fn remaining_text(es: Seq<EntryView>) -> Seq<char>
    decreases es.len(),
{
    if es.len() == 0 {
        Seq::empty()
    } else {
        let r = remaining_text(es.drop_last());
        let e = es.last();
        if e.0 == "opengl_version"@ {
            r
        } else if r.len() == 0 {
            e.0 + "="@ + e.1
        } else {
            r + ","@ + e.0 + "="@ + e.1
        }
    }
}

/// The entries whose key is not `k`, in their order.
pub open spec fn without_key(es: Seq<EntryView>, k: Seq<char>) -> Seq<EntryView>
    decreases es.len(),
{
    if es.len() == 0 {
        Seq::empty()
    } else {
        let r = without_key(es.drop_last(), k);
        if es.last().0 == k {
            r
        } else {
            r.push(es.last())
        }
    }
}

/// A key that no entry has, no entry without `k` has.
proof fn lemma_without_key_lacks(es: Seq<EntryView>, k: Seq<char>, x: Seq<char>)
    requires
        forall|j: int| 0 <= j < es.len() ==> (#[trigger] es[j]).0 != x,
    ensures
        forall|i: int| 0 <= i < without_key(es, k).len() ==> (#[trigger] without_key(es, k)[i]).0 != x,
    decreases es.len(),
{
    if es.len() > 0 {
        let es1 = es.drop_last();
        assert(forall|j: int| 0 <= j < es1.len() ==> es1[j] == es[j]);
        lemma_without_key_lacks(es1, k, x);
        let w = without_key(es, k);
        let w1 = without_key(es1, k);
        assert forall|i: int| 0 <= i < w.len() implies (#[trigger] w[i]).0 != x by {
            if i < w1.len() {
                assert(w[i] == w1[i]);
            } else {
                assert(w[i] == es[es.len() - 1]);
            }
        }
    }
}

/// Entries that read back as themselves stay so without `k`.
proof fn lemma_without_key_rejoinable(es: Seq<EntryView>, k: Seq<char>)
    requires
        forall|j: int| 0 <= j < es.len() ==> entry_rejoinable(#[trigger] es[j]),
    ensures
        forall|i: int|
            0 <= i < without_key(es, k).len() ==> entry_rejoinable(#[trigger] without_key(es, k)[i]),
    decreases es.len(),
{
    if es.len() > 0 {
        let es1 = es.drop_last();
        assert(forall|j: int| 0 <= j < es1.len() ==> es1[j] == es[j]);
        lemma_without_key_rejoinable(es1, k);
        let w = without_key(es, k);
        let w1 = without_key(es1, k);
        assert forall|i: int| 0 <= i < w.len() implies entry_rejoinable(#[trigger] w[i]) by {
            if i < w1.len() {
                assert(w[i] == w1[i]);
            } else {
                assert(w[i] == es[es.len() - 1]);
            }
        }
    }
}

/// The remaining text of entries with distinct keys, each of which reads back
/// as itself, parses to the entries other than `opengl_version`.
proof fn lemma_remaining_text_reparses(es: Seq<EntryView>)
    requires
        keys_distinct(es),
        forall|j: int| 0 <= j < es.len() ==> entry_rejoinable(#[trigger] es[j]),
    ensures
        parse_parameters_spec(remaining_text(es)) == without_key(es, "opengl_version"@),
        remaining_text(es).len() == 0 <==> without_key(es, "opengl_version"@).len() == 0,
    decreases es.len(),
{
    let ov = "opengl_version"@;
    if es.len() == 0 {
        let empty = Seq::<char>::empty();
        assert(remaining_text(es) == empty);
        assert(split_seq(empty, ',') == seq![empty]);
        assert(seq![empty].drop_last() =~= Seq::<Seq<char>>::empty());
        assert(seq![empty].last() == empty);
        lemma_trim_fixed(empty);
        assert(piece_entry(empty) is None);
        assert(entries_of_pieces(Seq::<Seq<char>>::empty()) == Seq::<EntryView>::empty());
        assert(entries_of_pieces(seq![empty]) == Seq::<EntryView>::empty());
    } else {
        let es1 = es.drop_last();
        let e = es.last();
        assert(forall|j: int| 0 <= j < es1.len() ==> es1[j] == es[j]);
        lemma_remaining_text_reparses(es1);
        if e.0 != ov {
            let r1 = remaining_text(es1);
            let w1 = without_key(es1, ov);
            let kv = e.0 + "="@ + e.1;
            assert(entry_rejoinable(es[es.len() - 1]));
            lemma_entry_text_reads_back(e);
            lemma_split_without_sep(kv, ',');
            assert(forall|j: int| 0 <= j < es1.len() ==> (#[trigger] es1[j]).0 != e.0) by {
                assert forall|j: int| 0 <= j < es1.len() implies (#[trigger] es1[j]).0 != e.0 by {
                    assert(es[j].0 != es[es.len() - 1].0);
                }
            }
            lemma_without_key_lacks(es1, ov, e.0);
            lemma_insert_new_key(w1, e.0, e.1);
            if r1.len() == 0 {
                assert(remaining_text(es) == kv);
                assert(seq![kv].drop_last() =~= Seq::<Seq<char>>::empty());
                assert(w1 =~= Seq::<EntryView>::empty());
                assert(seq![kv].last() == kv);
                assert(entries_of_pieces(Seq::<Seq<char>>::empty()) == Seq::<EntryView>::empty());
                assert(key_index(Seq::<EntryView>::empty(), e.0) == -1);
                assert(entries_of_pieces(seq![kv]) == insert_entry(
                    Seq::<EntryView>::empty(),
                    e.0,
                    e.1,
                ));
            } else {
                assert(remaining_text(es) =~= r1 + seq![','] + kv) by {
                    reveal_strlit(",");
                }
                lemma_split_joined(r1, kv, ',');
                let ps = split_seq(r1, ',') + seq![kv];
                assert(split_seq(remaining_text(es), ',') == ps);
                assert(ps.drop_last() =~= split_seq(r1, ','));
                assert(ps.last() == kv);
            }
            assert(kv.len() > 0);
        }
    }
}

/// The text of the remaining parameters that the version parse gives reads
/// back as exactly the parsed entries other than `opengl_version`, in order.
pub proof fn law_remaining_parameters_reparse(parameters: Seq<char>)
    ensures
        opengl_version_outcome(parameters) matches Ok((major, minor, rest)) ==> parse_parameters_spec(
            rest,
        ) == without_key(parse_parameters_spec(parameters), "opengl_version"@),
{
    lemma_parsed_entries_rejoinable(parameters);
    lemma_remaining_text_reparses(parse_parameters_spec(parameters));
}

/// The OpenGL version (major, minor) of a parameter text, with the text of
/// the remaining parameters, or the message that refuses the version.
pub open spec fn opengl_version_outcome(parameters: Seq<char>) -> Result<
    (nat, nat, Seq<char>),
    Seq<char>,
> {
    let es = parse_parameters_spec(parameters);
    let v = version_text(es);
    let parts = split_seq(v, '.');
    if parts.len() != 2 {
        Err(
            "Invalid OpenGL version format '"@ + v
                + "'. Expected format: 'major.minor' (e.g., '3.3')"@,
        )
    } else {
        match parse_unsigned_spec(parts[0], u32::MAX as nat) {
            None => Err("Invalid OpenGL major version: "@ + parts[0]),
            Some(major) => match parse_unsigned_spec(parts[1], u32::MAX as nat) {
                None => Err("Invalid OpenGL minor version: "@ + parts[1]),
                Some(minor) => Ok((major, minor, remaining_text(es))),
            },
        }
    }
}

/// Factory that dispatches on the `opengl_version` parameter: version 3 goes
/// to the OpenGL 3 factory, version 4 is not implemented, others are refused.
#[derive(Debug)]
pub struct OpenGLRendererFactory {
    factory_name: String,
}

impl OpenGLRendererFactory {
    /// The factory, named `OpenGLRenderer`.
    pub fn new() -> (r: Self)
        ensures
            r.info_name() == "OpenGLRenderer"@,
    {
        OpenGLRendererFactory { factory_name: owned("OpenGLRenderer") }
    }

    /// The OpenGL version of the parameters (`3.3` by default) and the
    /// remaining parameters as a `key=value` list.
    pub fn parse_opengl_version(&self, parameters: &str) -> (r: Result<(u32, u32, String), RendererError>)
        ensures
            match opengl_version_outcome(parameters@) {
                Ok((major, minor, rest)) => r matches Ok((a, b, s)) && a == major && b == minor
                    && s@ == rest,
                Err(m) => r matches Err(RendererError::InvalidParameters(e)) && e@ == m,
            },
    {
        let params = parse_parameters(parameters);
        let ghost es = params@;
        let version = match params.get("opengl_version") {
            Some(v) => v.clone(),
            None => owned("3.3"),
        };
        assert(version@ == version_text(es));
        let chars = chars_of(version.as_str());
        let spans = split_spans(&chars, 0, chars.len(), '.');
        assert(chars@.subrange(0, chars.len() as int) =~= version@);
        if spans.len() != 2 {
            return Err(
                RendererError::InvalidParameters(
                    concat(
                        concat(owned("Invalid OpenGL version format '"), version.as_str()),
                        "'. Expected format: 'major.minor' (e.g., '3.3')",
                    ),
                ),
            );
        }
        let major_text = string_from_chars(&chars, spans[0].0, spans[0].1);
        let minor_text = string_from_chars(&chars, spans[1].0, spans[1].1);
        let major = match parse_u32_str(major_text.as_str()) {
            Some(n) => n,
            None => {
                return Err(
                    RendererError::InvalidParameters(
                        concat(owned("Invalid OpenGL major version: "), major_text.as_str()),
                    ),
                );
            },
        };
        let minor = match parse_u32_str(minor_text.as_str()) {
            Some(n) => n,
            None => {
                return Err(
                    RendererError::InvalidParameters(
                        concat(owned("Invalid OpenGL minor version: "), minor_text.as_str()),
                    ),
                );
            },
        };
        let mut out: Vec<char> = Vec::new();
        let mut i: usize = 0;
        assert(es.subrange(0, 0) =~= Seq::<EntryView>::empty());
        while i < params.len()
            invariant
                i <= params@.len(),
                es == params@,
                out@ == remaining_text(es.subrange(0, i as int)),
            decreases params@.len() - i,
        {
            let (key, value) = params.entry(i);
            assert(es.subrange(0, i + 1).drop_last() =~= es.subrange(0, i as int));
            assert(es.subrange(0, i + 1).last() == es[i as int]);
            if !str_eq(key.as_str(), "opengl_version") {
                if out.len() > 0 {
                    push_str(&mut out, ",");
                }
                push_str(&mut out, key.as_str());
                push_str(&mut out, "=");
                push_str(&mut out, value.as_str());
            }
            i = i + 1;
        }
        assert(es.subrange(0, params@.len() as int) =~= es);
        let rest = string_from_chars(&out, 0, out.len());
        assert(out@.subrange(0, out.len() as int) =~= out@);
        Ok((major, minor, rest))
    }
}

impl Default for OpenGLRendererFactory {
    fn default() -> (r: Self)
        ensures
            r.info_name() == "OpenGLRenderer"@,
    {
        Self::new()
    }
}

/// The message that refuses an OpenGL version other than 3 and 4.
pub open spec fn unsupported_version_text(major: nat, minor: nat) -> Seq<char> {
    "Unsupported OpenGL version "@ + decimal_seq(major) + "."@ + decimal_seq(minor)
}

fn unsupported_version_message(major: u32, minor: u32) -> (r: String)
    ensures
        r@ == unsupported_version_text(major as nat, minor as nat),
{
    let a = with_decimal(owned("Unsupported OpenGL version "), major as u64);
    with_decimal(concat(a, "."), minor as u64)
}

impl RendererFactory for OpenGLRendererFactory {
    open spec fn created_name(&self, precision: DataPrecision, parameters: Seq<char>) -> Seq<char> {
        "OpenGL3Renderer"@
    }

    open spec fn parameter_error(&self, precision: DataPrecision, parameters: Seq<char>) -> Seq<char> {
        match opengl_version_outcome(parameters) {
            Err(m) => m,
            Ok((major, minor, rest)) => if major == 4 {
                "OpenGL 4.x renderer not yet implemented"@
            } else if major != 3 {
                unsupported_version_text(major, minor)
            } else {
                match opengl3_outcome(rest) {
                    Err(m) => m,
                    Ok(_) => Seq::empty(),
                }
            },
        }
    }

    open spec fn creation_failed(&self, precision: DataPrecision, parameters: Seq<char>) -> bool {
        match opengl_version_outcome(parameters) {
            Ok((major, _, _)) => major == 4,
            Err(_) => false,
        }
    }

    open spec fn accepts(&self, precision: DataPrecision, parameters: Seq<char>) -> bool {
        match opengl_version_outcome(parameters) {
            Ok((major, _, rest)) => major == 3 && opengl3_precision(precision) && opengl3_outcome(
                rest,
            ) is Ok,
            Err(_) => false,
        }
    }

    open spec fn rejects_precision(&self, precision: DataPrecision, parameters: Seq<char>) -> bool {
        match opengl_version_outcome(parameters) {
            Ok((major, _, _)) => major == 3 && !opengl3_precision(precision),
            Err(_) => false,
        }
    }

    closed spec fn info_name(&self) -> Seq<char> {
        self.factory_name@
    }

    open spec fn info_capabilities(&self) -> Seq<char> {
        "opengl,gpu_acceleration,hardware_rendering,version_agnostic,gaussian_splatting,real_time"@
    }

    fn create(&self, precision: DataPrecision, parameters: &str) -> (r: Result<
        Box<dyn Renderer>,
        RendererError,
    >)
        ensures
            match opengl_version_outcome(parameters@) {
                Ok((major, minor, _)) => if major == 4 {
                    r matches Err(RendererError::CreationFailed(m)) && m@
                        == "OpenGL 4.x renderer not yet implemented"@
                } else if major != 3 {
                    r matches Err(RendererError::InvalidParameters(m)) && m@
                        == unsupported_version_text(major, minor)
                } else {
                    true
                },
                Err(m) => r matches Err(RendererError::InvalidParameters(e)) && e@ == m,
            },
    {
        let (major, minor, remaining) = match self.parse_opengl_version(parameters) {
            Ok(v) => v,
            Err(e) => {
                return Err(e);
            },
        };
        if major == 3 {
            let factory = OpenGL3RendererFactory::new();
            factory.create(precision, remaining.as_str())
        } else if major == 4 {
            Err(RendererError::CreationFailed(owned("OpenGL 4.x renderer not yet implemented")))
        } else {
            Err(RendererError::InvalidParameters(unsupported_version_message(major, minor)))
        }
    }

    open spec fn info_timeout(&self) -> u64 {
        15000
    }

    open spec fn info_parameters(&self) -> Seq<EntryView> {
        seq![
            ("opengl_version"@, "OpenGL version (e.g., '3.3', '4.2') - determines which renderer to use"@),
            ("max_splat_count"@, "Maximum number of Gaussian splats to support"@),
            ("msaa_samples"@, "MSAA sample count (0, 2, 4, 8, 16)"@),
            ("viewport_size"@, "Viewport dimensions in WxH format (e.g., '1920x1080')"@),
            ("depth_testing"@, "Enable depth testing (true/false)"@),
            ("alpha_blending"@, "Enable alpha blending (true/false)"@),
        ]
    }

    fn get_info(&self) -> (r: RendererInfo)
        ensures
            r.timeout_microseconds == 15000,
    {
        let mut parameters = ParameterMap::new();
        proof {
            reveal_strlit("opengl_version");
            reveal_strlit("max_splat_count");
            reveal_strlit("msaa_samples");
            reveal_strlit("viewport_size");
            reveal_strlit("depth_testing");
            reveal_strlit("alpha_blending");
        }
        proof {
            lemma_insert_new_key(
                parameters@,
                "opengl_version"@,
                "OpenGL version (e.g., '3.3', '4.2') - determines which renderer to use"@,
            );
        }
        parameters.insert(
            owned("opengl_version"),
            owned("OpenGL version (e.g., '3.3', '4.2') - determines which renderer to use"),
        );
        proof {
            assert forall|j: int| 0 <= j < parameters@.len() implies (#[trigger] parameters@[j]).0
                != "max_splat_count"@ by {
                if j == 0 {
                    assert("opengl_version"@.len() != "max_splat_count"@.len());
                }
            }
            lemma_insert_new_key(
                parameters@,
                "max_splat_count"@,
                "Maximum number of Gaussian splats to support"@,
            );
        }
        parameters.insert(
            owned("max_splat_count"),
            owned("Maximum number of Gaussian splats to support"),
        );
        proof {
            assert forall|j: int| 0 <= j < parameters@.len() implies (#[trigger] parameters@[j]).0
                != "msaa_samples"@ by {
                if j == 0 {
                    assert("opengl_version"@.len() != "msaa_samples"@.len());
                } else if j == 1 {
                    assert("max_splat_count"@.len() != "msaa_samples"@.len());
                }
            }
            lemma_insert_new_key(
                parameters@,
                "msaa_samples"@,
                "MSAA sample count (0, 2, 4, 8, 16)"@,
            );
        }
        parameters.insert(owned("msaa_samples"), owned("MSAA sample count (0, 2, 4, 8, 16)"));
        proof {
            assert forall|j: int| 0 <= j < parameters@.len() implies (#[trigger] parameters@[j]).0
                != "viewport_size"@ by {
                if j == 0 {
                    assert("opengl_version"@.len() != "viewport_size"@.len());
                } else if j == 1 {
                    assert("max_splat_count"@.len() != "viewport_size"@.len());
                } else if j == 2 {
                    assert("msaa_samples"@.len() != "viewport_size"@.len());
                }
            }
            lemma_insert_new_key(
                parameters@,
                "viewport_size"@,
                "Viewport dimensions in WxH format (e.g., '1920x1080')"@,
            );
        }
        parameters.insert(
            owned("viewport_size"),
            owned("Viewport dimensions in WxH format (e.g., '1920x1080')"),
        );
        proof {
            assert forall|j: int| 0 <= j < parameters@.len() implies (#[trigger] parameters@[j]).0
                != "depth_testing"@ by {
                if j == 0 {
                    assert("opengl_version"@.len() != "depth_testing"@.len());
                } else if j == 1 {
                    assert("max_splat_count"@.len() != "depth_testing"@.len());
                } else if j == 2 {
                    assert("msaa_samples"@.len() != "depth_testing"@.len());
                } else if j == 3 {
                    assert("viewport_size"@[0] != "depth_testing"@[0]);
                }
            }
            lemma_insert_new_key(
                parameters@,
                "depth_testing"@,
                "Enable depth testing (true/false)"@,
            );
        }
        parameters.insert(owned("depth_testing"), owned("Enable depth testing (true/false)"));
        proof {
            assert forall|j: int| 0 <= j < parameters@.len() implies (#[trigger] parameters@[j]).0
                != "alpha_blending"@ by {
                if j == 0 {
                    assert("opengl_version"@[0] != "alpha_blending"@[0]);
                } else if j == 1 {
                    assert("max_splat_count"@.len() != "alpha_blending"@.len());
                } else if j == 2 {
                    assert("msaa_samples"@.len() != "alpha_blending"@.len());
                } else if j == 3 {
                    assert("viewport_size"@.len() != "alpha_blending"@.len());
                } else if j == 4 {
                    assert("depth_testing"@.len() != "alpha_blending"@.len());
                }
            }
            lemma_insert_new_key(
                parameters@,
                "alpha_blending"@,
                "Enable alpha blending (true/false)"@,
            );
        }
        parameters.insert(owned("alpha_blending"), owned("Enable alpha blending (true/false)"));
        assert(parameters@ =~= seq![
                ("opengl_version"@, "OpenGL version (e.g., '3.3', '4.2') - determines which renderer to use"@),
                ("max_splat_count"@, "Maximum number of Gaussian splats to support"@),
                ("msaa_samples"@, "MSAA sample count (0, 2, 4, 8, 16)"@),
                ("viewport_size"@, "Viewport dimensions in WxH format (e.g., '1920x1080')"@),
                ("depth_testing"@, "Enable depth testing (true/false)"@),
                ("alpha_blending"@, "Enable alpha blending (true/false)"@),
            ]);
        RendererInfo::new(
            self.factory_name.clone(),
            owned(
                "opengl,gpu_acceleration,hardware_rendering,version_agnostic,gaussian_splatting,real_time",
            ),
            parameters,
            15000,
        )
    }

    fn validate_parameters(&self, precision: DataPrecision, parameters: &str) -> (r: Result<
        (),
        RendererError,
    >)
        ensures
            match opengl_version_outcome(parameters@) {
                Ok((major, minor, _)) => if major == 4 {
                    r matches Err(RendererError::InvalidParameters(m)) && m@
                        == "OpenGL 4.x renderer not yet implemented"@
                } else if major != 3 {
                    r matches Err(RendererError::InvalidParameters(m)) && m@
                        == unsupported_version_text(major, minor)
                } else {
                    true
                },
                Err(m) => r matches Err(RendererError::InvalidParameters(e)) && e@ == m,
            },
    {
        let (major, minor, remaining) = match self.parse_opengl_version(parameters) {
            Ok(v) => v,
            Err(e) => {
                return Err(e);
            },
        };
        if major == 3 {
            let factory = OpenGL3RendererFactory::new();
            factory.validate_parameters(precision, remaining.as_str())
        } else if major == 4 {
            Err(RendererError::InvalidParameters(owned("OpenGL 4.x renderer not yet implemented")))
        } else {
            Err(RendererError::InvalidParameters(unsupported_version_message(major, minor)))
        }
    }
}

} // verus!
