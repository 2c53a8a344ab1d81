//! The typed interface: where it comes from, and the rules applied while
//! generating it from a header.
use vstd::prelude::*;
use crate::features::FeatureSet;
use crate::text::{contains_seq, contains_text, occurs_at};

verus! {

/// The file name of the interface in the build output directory.
pub const INTERFACE_FILE: &'static str = "bindgen.rs";

/// The text whose presence shows that the interface defines the deterministic-function flag.
pub const DETERMINISTIC_MARKER: &'static str = "pub const SQLITE_DETERMINISTIC";

/// The definition appended when the header lacks the deterministic-function flag.
pub const DETERMINISTIC_FALLBACK: &'static str = "\npub const SQLITE_DETERMINISTIC: i32 = 2048;\n";

/// The integer type given to a preprocessor integer constant.
#[derive(Clone, Copy, Debug, PartialEq, Eq, Structural)]
pub enum IntKind {
    /// A 32-bit signed integer.
    I32,
}

/// Whether `v` fits in a 32-bit signed integer.
pub open spec fn fits_i32(v: int) -> bool {
    i32::MIN <= v <= i32::MAX
}

/// The type of an integer macro of value `value`: 32-bit signed wherever it
/// fits, else left to the translator.
pub fn macro_int_kind(value: i64) -> (r: Option<IntKind>)
    ensures
        r == (if fits_i32(value as int) {
            Some(IntKind::I32)
        } else {
            None
        }),
{
    if i32::MIN as i64 <= value && value <= i32::MAX as i64 {
        Some(IntKind::I32)
    } else {
        None
    }
}

/// The generated interface with the deterministic-function flag defined: kept
/// as it is where it defines it, else with the fallback definition appended.
pub open spec fn spec_finish_interface(t: Seq<char>) -> Seq<char> {
    if contains_seq(t, DETERMINISTIC_MARKER@) {
        t
    } else {
        t + DETERMINISTIC_FALLBACK@
    }
}

/// Completes the translator's output: appends the deterministic-function flag
/// where the header lacked it.
pub fn finish_interface(generated: String) -> (r: String)
    ensures
        r@ == spec_finish_interface(generated@),
{
    if contains_text(generated.as_str(), DETERMINISTIC_MARKER) {
        generated
    } else {
        generated.concat(DETERMINISTIC_FALLBACK)
    }
}

/// Completing an interface that was already completed changes nothing, so a
/// second generation from the same translator output gives the same text.
pub proof fn lemma_finish_interface_idempotent(t: Seq<char>)
    ensures
        spec_finish_interface(spec_finish_interface(t)) == spec_finish_interface(t),
{
    let u = spec_finish_interface(t);
    if !contains_seq(t, DETERMINISTIC_MARKER@) {
        reveal_strlit("pub const SQLITE_DETERMINISTIC");
        reveal_strlit("\npub const SQLITE_DETERMINISTIC: i32 = 2048;\n");
        let i: int = t.len() as int + 1;
        assert(u.subrange(i, i + DETERMINISTIC_MARKER@.len() as int) =~= DETERMINISTIC_MARKER@);
        assert(occurs_at(u, DETERMINISTIC_MARKER@, i));
    }
}

/// Where the interface comes from.
#[derive(Clone, Debug, PartialEq, Eq)]
pub enum InterfaceSource {
    /// Copied verbatim from this pre-generated file.
    Prebuilt(String),
    /// Generated at build time from this header.
    Generate(String),
}

/// The pre-generated interface of the variant: the bundled tree's own for a
/// bundled build; else the SQLCipher interface, or the plain one.
pub open spec fn spec_prebuilt_interface(f: FeatureSet) -> Seq<char> {
    if f.encrypted {
        if f.bundled {
            "sqlcipher/bundled_sqlcipher.rs"@
        } else {
            "bindgen-bindings/bundled_sqlcipher.rs"@
        }
    } else {
        "sqlite3/bindgen_bundled_version.rs"@
    }
}

/// The pre-generated interface of the variant.
pub fn prebuilt_interface(f: &FeatureSet) -> (r: &'static str)
    ensures
        r@ == spec_prebuilt_interface(*f),
{
    if f.encrypted {
        if f.bundled {
            "sqlcipher/bundled_sqlcipher.rs"
        } else {
            "bindgen-bindings/bundled_sqlcipher.rs"
        }
    } else {
        "sqlite3/bindgen_bundled_version.rs"
    }
}

} // verus!
