//! Properties that hold of every build plan.
use vstd::prelude::*;
use crate::compile::{
    baseline_defines, encrypted_defines, optimize_defines, spec_compile_flags, spec_defines,
    CompileConfig, Define, SourceFile,
};
use crate::crypto::{spec_crypto_backend, spec_openssl_dir, CryptoBackend};
use crate::features::{BuildEnv, FeatureSet};
use crate::link::LinkKind;
use crate::plan::{is_compile_config, spec_bundled_directives};
use crate::text::{contains_seq, spec_join_path};

verus! {

proof fn lemma_concat_contains(a: Seq<Define>, b: Seq<Define>, x: Define)
    ensures
        (a + b).contains(x) <==> (a.contains(x) || b.contains(x)),
{
    if a.contains(x) {
        let i = choose|i: int| 0 <= i < a.len() && a[i] == x;
        assert((a + b)[i] == x);
    }
    if b.contains(x) {
        let j = choose|j: int| 0 <= j < b.len() && b[j] == x;
        assert((a + b)[a.len() + j] == x);
    }
    if (a + b).contains(x) {
        let k = choose|k: int| 0 <= k < (a + b).len() && (a + b)[k] == x;
        if k < a.len() {
            assert(a[k] == x);
        } else {
            assert(b[k - a.len()] == x);
        }
    }
}

/// A bundled build of the plain engine compiles the plain engine source exactly
/// once and never the encrypted one.
pub proof fn lemma_plain_build_compiles_plain_source(
    c: CompileConfig,
    f: FeatureSet,
    env: BuildEnv,
)
    requires
        f.bundled,
        !f.encrypted,
        is_compile_config(c, f, env),
    ensures
        c.sources@.len() == 1,
        c.sources@[0] == SourceFile::Plain,
        !c.sources@.contains(SourceFile::Encrypted),
{
}

/// A bundled encrypted build for an Apple target without an OpenSSL request
/// uses the native backend and links exactly the CoreFoundation and Security frameworks.
pub proof fn lemma_apple_native_backend(f: FeatureSet, env: BuildEnv)
    requires
        f.bundled,
        f.encrypted,
        contains_seq(env.target@, "apple"@),
        !f.use_openssl,
    ensures
        spec_crypto_backend(f, env.target@) == Some(CryptoBackend::AppleNative),
        spec_bundled_directives(f, env) == seq![
            (LinkKind::Framework, "CoreFoundation"@),
            (LinkKind::Framework, "Security"@),
        ],
        spec_defines(f, spec_crypto_backend(f, env.target@)).contains(Define::SQLCIPHER_CRYPTO_CC),
{
    let d = spec_defines(f, Some(CryptoBackend::AppleNative));
    assert(d[d.len() - 1] == Define::SQLCIPHER_CRYPTO_CC);
}

/// A bundled encrypted build that requests OpenSSL, or targets a platform other
/// than Apple, and does not request LibTomCrypt, uses OpenSSL. With an OpenSSL
/// directory it adds that directory's `include` to the compiler flags and its
/// `lib` as first link directive; without one it links the bare `crypto` library.
pub proof fn lemma_openssl_backend(f: FeatureSet, env: BuildEnv)
    requires
        f.bundled,
        f.encrypted,
        f.use_openssl || !contains_seq(env.target@, "apple"@),
        !f.use_tomcrypt,
    ensures
        spec_crypto_backend(f, env.target@) == Some(CryptoBackend::OpenSsl),
        spec_defines(f, spec_crypto_backend(f, env.target@)).contains(
            Define::SQLCIPHER_CRYPTO_OPENSSL,
        ),
        match spec_openssl_dir(env) {
            Some(d) => {
                &&& spec_compile_flags(f, env).contains("-I"@ + spec_join_path(d, "include"@))
                &&& spec_bundled_directives(f, env)[0] == (
                    LinkKind::SearchPath,
                    spec_join_path(d, "lib"@),
                )
            },
            None => spec_bundled_directives(f, env) == seq![(LinkKind::Library, "crypto"@)],
        },
{
    let d = spec_defines(f, Some(CryptoBackend::OpenSsl));
    assert(d[d.len() - 1] == Define::SQLCIPHER_CRYPTO_OPENSSL);
    if let Some(dir) = spec_openssl_dir(env) {
        let fl = spec_compile_flags(f, env);
        assert(fl[1] == "-I"@ + spec_join_path(dir, "include"@));
    }
}

/// Definitions are only ever added: turning on `optimize`, `secure_delete` or
/// `unlock_notify` keeps every definition the build had without it.
pub proof fn lemma_defines_additive(f: FeatureSet, g: FeatureSet, b: Option<CryptoBackend>, x: Define)
    requires
        f.encrypted == g.encrypted,
        f.optimize ==> g.optimize,
        f.secure_delete ==> g.secure_delete,
        f.unlock_notify ==> g.unlock_notify,
        spec_defines(f, b).contains(x),
    ensures
        spec_defines(g, b).contains(x),
{
    let opt = |h: FeatureSet| if h.optimize { optimize_defines() } else { Seq::empty() };
    let sec = |h: FeatureSet|
        if h.secure_delete { seq![Define::SQLITE_SECURE_DELETE] } else { Seq::empty() };
    let unl = |h: FeatureSet|
        if h.unlock_notify { seq![Define::SQLITE_ENABLE_UNLOCK_NOTIFY] } else { Seq::empty() };
    let enc = |h: FeatureSet|
        if h.encrypted { encrypted_defines(b) } else { Seq::empty() };
    assert(spec_defines(f, b) == baseline_defines() + opt(f) + sec(f) + unl(f) + enc(f));
    assert(spec_defines(g, b) == baseline_defines() + opt(g) + sec(g) + unl(g) + enc(g));
    lemma_concat_contains(baseline_defines() + opt(f) + sec(f) + unl(f), enc(f), x);
    lemma_concat_contains(baseline_defines() + opt(f) + sec(f), unl(f), x);
    lemma_concat_contains(baseline_defines() + opt(f), sec(f), x);
    lemma_concat_contains(baseline_defines(), opt(f), x);
    lemma_concat_contains(baseline_defines() + opt(g) + sec(g) + unl(g), enc(g), x);
    lemma_concat_contains(baseline_defines() + opt(g) + sec(g), unl(g), x);
    lemma_concat_contains(baseline_defines() + opt(g), sec(g), x);
    lemma_concat_contains(baseline_defines(), opt(g), x);
}

/// With both `optimize` and `secure_delete` on, the build has every baseline
/// definition, every optimization definition and the secure-delete definition.
pub proof fn lemma_optimize_with_secure_delete(f: FeatureSet, b: Option<CryptoBackend>)
    requires
        f.optimize,
        f.secure_delete,
    ensures
        forall|x: Define| #[trigger]
            baseline_defines().contains(x) ==> spec_defines(f, b).contains(x),
        forall|x: Define| #[trigger]
            optimize_defines().contains(x) ==> spec_defines(f, b).contains(x),
        spec_defines(f, b).contains(Define::SQLITE_SECURE_DELETE),
{
    let d = spec_defines(f, b);
    assert forall|x: Define| #[trigger] baseline_defines().contains(x) implies d.contains(x) by {
        let i = choose|i: int| 0 <= i < baseline_defines().len() && baseline_defines()[i] == x;
        assert(d[i] == x);
    }
    assert forall|x: Define| #[trigger] optimize_defines().contains(x) implies d.contains(x) by {
        let i = choose|i: int| 0 <= i < optimize_defines().len() && optimize_defines()[i] == x;
        assert(d[19 + i] == x);
    }
    assert(d[24] == Define::SQLITE_SECURE_DELETE);
}

} // verus!
