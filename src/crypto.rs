//! Choice of the crypto backend for a bundled encrypted build, and what it
//! asks of the compiler and the linker.
use vstd::prelude::*;
use crate::compile::Define;
use crate::features::{BuildEnv, FeatureSet};
use crate::link::{LinkDirective, LinkKind};
use crate::text::{contains_seq, contains_text, join_path, spec_join_path};

verus! {

/// The cryptographic library under the encrypted engine.
#[derive(Clone, Copy, Debug, PartialEq, Eq, Structural)]
pub enum CryptoBackend {
    /// Apple's CommonCrypto, with the Security framework.
    AppleNative,
    /// LibTomCrypt.
    LibTomCrypt,
    /// OpenSSL's libcrypto.
    OpenSsl,
}

/// The backend of a bundled build: none for the plain engine; on Apple targets
/// the native one unless OpenSSL is requested; else LibTomCrypt where requested;
/// else OpenSSL.
pub open spec fn spec_crypto_backend(f: FeatureSet, target: Seq<char>) -> Option<CryptoBackend> {
    if !f.encrypted {
        None
    } else if contains_seq(target, "apple"@) && !f.use_openssl {
        Some(CryptoBackend::AppleNative)
    } else if f.use_tomcrypt {
        Some(CryptoBackend::LibTomCrypt)
    } else {
        Some(CryptoBackend::OpenSsl)
    }
}

/// The OpenSSL directory in effect: `HOST_OPENSSL_DIR` when building for the
/// host and it is set, else `OPENSSL_DIR`.
pub open spec fn spec_openssl_dir(env: BuildEnv) -> Option<Seq<char>> {
    if env.target@ == env.host@ && env.host_openssl_dir is Some {
        env.host_openssl_dir.deep_view()
    } else {
        env.openssl_dir.deep_view()
    }
}

/// The definition that selects backend `b`.
pub open spec fn spec_crypto_define(b: CryptoBackend) -> Define {
    match b {
        CryptoBackend::AppleNative => Define::SQLCIPHER_CRYPTO_CC,
        CryptoBackend::LibTomCrypt => Define::SQLCIPHER_CRYPTO_LIBTOMCRYPT,
        CryptoBackend::OpenSsl => Define::SQLCIPHER_CRYPTO_OPENSSL,
    }
}

/// The extra compiler flags of backend `b`: the OpenSSL include directory, when known.
pub open spec fn spec_crypto_flags(b: CryptoBackend, ssl: Option<Seq<char>>) -> Seq<Seq<char>> {
    match (b, ssl) {
        (CryptoBackend::OpenSsl, Some(d)) => seq!["-I"@ + spec_join_path(d, "include"@)],
        _ => Seq::empty(),
    }
}

/// The link directives of backend `b` on `target`, with OpenSSL directory `ssl`.
pub open spec fn spec_crypto_directives(
    b: CryptoBackend,
    target: Seq<char>,
    ssl: Option<Seq<char>>,
) -> Seq<(LinkKind, Seq<char>)> {
    match b {
        CryptoBackend::AppleNative => seq![
            (LinkKind::Framework, "CoreFoundation"@),
            (LinkKind::Framework, "Security"@),
        ],
        CryptoBackend::LibTomCrypt => seq![(LinkKind::Library, "tomcrypt"@)],
        CryptoBackend::OpenSsl => match ssl {
            None => seq![(LinkKind::Library, "crypto"@)],
            Some(d) => seq![(LinkKind::SearchPath, spec_join_path(d, "lib"@))] + if contains_seq(
                target,
                "windows"@,
            ) {
                seq![(LinkKind::StaticLibrary, "crypto"@), (LinkKind::Library, "gdi32"@)] + if contains_seq(
                    target,
                    "msvc"@,
                ) {
                    seq![(LinkKind::Library, "user32"@), (LinkKind::Library, "crypt32"@)]
                } else {
                    Seq::empty()
                }
            } else {
                seq![(LinkKind::Library, "crypto"@)]
            },
        },
    }
}

/// The backend of a bundled build for `target`.
pub fn crypto_backend(f: &FeatureSet, target: &str) -> (r: Option<CryptoBackend>)
    ensures
        r == spec_crypto_backend(*f, target@),
{
    if !f.encrypted {
        None
    } else if contains_text(target, "apple") && !f.use_openssl {
        Some(CryptoBackend::AppleNative)
    } else if f.use_tomcrypt {
        Some(CryptoBackend::LibTomCrypt)
    } else {
        Some(CryptoBackend::OpenSsl)
    }
}

/// The OpenSSL directory in effect.
pub fn openssl_dir(env: &BuildEnv) -> (r: Option<String>)
    ensures
        r.deep_view() == spec_openssl_dir(*env),
{
    if env.target == env.host && env.host_openssl_dir.is_some() {
        env.host_openssl_dir.clone()
    } else {
        env.openssl_dir.clone()
    }
}

/// The definition that selects backend `b`.
pub fn crypto_define(b: CryptoBackend) -> (r: Define)
    ensures
        r == spec_crypto_define(b),
{
    match b {
        CryptoBackend::AppleNative => Define::SQLCIPHER_CRYPTO_CC,
        CryptoBackend::LibTomCrypt => Define::SQLCIPHER_CRYPTO_LIBTOMCRYPT,
        CryptoBackend::OpenSsl => Define::SQLCIPHER_CRYPTO_OPENSSL,
    }
}

/// The extra compiler flags of backend `b`.
pub fn crypto_flags(b: CryptoBackend, ssl: &Option<String>) -> (r: Vec<String>)
    ensures
        r.deep_view() == spec_crypto_flags(b, ssl.deep_view()),
{
    let mut r: Vec<String> = Vec::new();
    match (b, ssl) {
        (CryptoBackend::OpenSsl, Some(d)) => {
            let inc = join_path(d.as_str(), "include");
            r.push(String::from_str("-I").concat(inc.as_str()));
        },
        _ => {},
    }
    assert(r.deep_view() =~= spec_crypto_flags(b, ssl.deep_view()));
    r
}

/// The link directives of backend `b` on `target`.
pub fn crypto_directives(b: CryptoBackend, target: &str, ssl: &Option<String>) -> (r: Vec<
    LinkDirective,
>)
    ensures
        r.deep_view() == spec_crypto_directives(b, target@, ssl.deep_view()),
{
    let mut r: Vec<LinkDirective> = Vec::new();
    match b {
        CryptoBackend::AppleNative => {
            r.push(LinkDirective::new(LinkKind::Framework, "CoreFoundation"));
            r.push(LinkDirective::new(LinkKind::Framework, "Security"));
        },
        CryptoBackend::LibTomCrypt => {
            r.push(LinkDirective::new(LinkKind::Library, "tomcrypt"));
        },
        CryptoBackend::OpenSsl => match ssl {
            None => {
                r.push(LinkDirective::new(LinkKind::Library, "crypto"));
            },
            Some(d) => {
                let lib = join_path(d.as_str(), "lib");
                r.push(LinkDirective { kind: LinkKind::SearchPath, name: lib });
                if contains_text(target, "windows") {
                    r.push(LinkDirective::new(LinkKind::StaticLibrary, "crypto"));
                    r.push(LinkDirective::new(LinkKind::Library, "gdi32"));
                    if contains_text(target, "msvc") {
                        r.push(LinkDirective::new(LinkKind::Library, "user32"));
                        r.push(LinkDirective::new(LinkKind::Library, "crypt32"));
                    }
                } else {
                    r.push(LinkDirective::new(LinkKind::Library, "crypto"));
                }
            },
        },
    }
    assert(r.deep_view() =~= spec_crypto_directives(b, target@, ssl.deep_view()));
    r
}

} // verus!
