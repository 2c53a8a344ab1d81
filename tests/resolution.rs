use libsqlite3_sys::bindings::{InterfaceSource, INTERFACE_FILE};
use libsqlite3_sys::compile::{compile_config, Define, SourceFile};
use libsqlite3_sys::crypto::{crypto_backend, openssl_dir, CryptoBackend};
use libsqlite3_sys::error::BuildError;
use libsqlite3_sys::features::{BuildEnv, FeatureSet};
use libsqlite3_sys::header::{locate_header, plan_discovery, DiscoveryTool, HeaderLocation};
use libsqlite3_sys::link::{LinkDirective, LinkKind};
use libsqlite3_sys::plan::{bundled_build, plan_build, resolve_link_strategy, LinkStrategy};

fn features() -> FeatureSet {
    FeatureSet {
        bundled: false,
        encrypted: false,
        optimize: false,
        secure_delete: false,
        unlock_notify: false,
        buildtime_generate: false,
        use_openssl: false,
        use_tomcrypt: false,
        use_package_discovery: false,
    }
}

fn env(target: &str) -> BuildEnv {
    BuildEnv {
        target: target.to_string(),
        host: target.to_string(),
        openssl_dir: None,
        host_openssl_dir: None,
        include_dir: None,
        lib_dir: None,
    }
}

fn dir(kind: LinkKind, name: &str) -> LinkDirective {
    LinkDirective { kind, name: name.to_string() }
}

const LINUX: &str = "x86_64-unknown-linux-gnu";

#[test]
fn plain_bundled_build_compiles_plain_source_once() {
    let f = FeatureSet { bundled: true, ..features() };
    let c = compile_config(&f, &env(LINUX));
    assert_eq!(c.sources, vec![SourceFile::Plain]);
    assert!(!c.defines.contains(&Define::SQLITE_HAS_CODEC));
    assert_eq!(c.defines.len(), 19);
    assert_eq!(c.flags, vec!["-fvisibility=hidden".to_string()]);
    assert_eq!(SourceFile::Plain.path(), "sqlite3/sqlite3.c");
    assert_eq!(SourceFile::Encrypted.path(), "sqlcipher/sqlite3.c");
}

#[test]
fn apple_target_uses_native_backend() {
    let f = FeatureSet { bundled: true, encrypted: true, ..features() };
    let e = env("aarch64-apple-darwin");
    let b = bundled_build(&f, &e);
    assert_eq!(b.backend, Some(CryptoBackend::AppleNative));
    assert_eq!(
        b.directives,
        vec![dir(LinkKind::Framework, "CoreFoundation"), dir(LinkKind::Framework, "Security")]
    );
    assert!(b.config.defines.contains(&Define::SQLCIPHER_CRYPTO_CC));
    assert_eq!(b.config.sources, vec![SourceFile::Encrypted]);
}

#[test]
fn apple_target_with_openssl_request_uses_openssl() {
    let f = FeatureSet { bundled: true, encrypted: true, use_openssl: true, ..features() };
    let mut e = env("x86_64-apple-darwin");
    e.openssl_dir = Some("/usr/local/opt/openssl".to_string());
    let b = bundled_build(&f, &e);
    assert_eq!(b.backend, Some(CryptoBackend::OpenSsl));
    assert_eq!(
        b.directives,
        vec![dir(LinkKind::SearchPath, "/usr/local/opt/openssl/lib"), dir(LinkKind::Library, "crypto")]
    );
    assert!(b.config.flags.contains(&"-I/usr/local/opt/openssl/include".to_string()));
}

#[test]
fn openssl_without_directory_links_bare_crypto() {
    let f = FeatureSet { bundled: true, encrypted: true, ..features() };
    let b = bundled_build(&f, &env(LINUX));
    assert_eq!(b.backend, Some(CryptoBackend::OpenSsl));
    assert_eq!(b.directives, vec![dir(LinkKind::Library, "crypto")]);
    assert_eq!(b.config.flags, vec!["-fvisibility=hidden".to_string()]);
    assert!(b.config.defines.contains(&Define::SQLCIPHER_CRYPTO_OPENSSL));
}

#[test]
fn tomcrypt_request_wins_over_openssl() {
    let f = FeatureSet { bundled: true, encrypted: true, use_tomcrypt: true, use_openssl: true, ..features() };
    let b = bundled_build(&f, &env(LINUX));
    assert_eq!(b.backend, Some(CryptoBackend::LibTomCrypt));
    assert_eq!(b.directives, vec![dir(LinkKind::Library, "tomcrypt")]);
    assert!(b.config.defines.contains(&Define::SQLCIPHER_CRYPTO_LIBTOMCRYPT));
    assert!(!b.config.defines.contains(&Define::SQLCIPHER_CRYPTO_OPENSSL));
}

#[test]
fn windows_msvc_openssl_libraries() {
    let f = FeatureSet { bundled: true, encrypted: true, ..features() };
    let mut e = env("x86_64-pc-windows-msvc");
    e.openssl_dir = Some("C:/OpenSSL/".to_string());
    let b = bundled_build(&f, &e);
    assert_eq!(
        b.directives,
        vec![
            dir(LinkKind::SearchPath, "C:/OpenSSL/lib"),
            dir(LinkKind::StaticLibrary, "crypto"),
            dir(LinkKind::Library, "gdi32"),
            dir(LinkKind::Library, "user32"),
            dir(LinkKind::Library, "crypt32"),
        ]
    );
    assert!(b.config.flags.contains(&"-IC:/OpenSSL/include".to_string()));
}

#[test]
fn windows_gnu_openssl_libraries() {
    let f = FeatureSet { bundled: true, encrypted: true, ..features() };
    let mut e = env("x86_64-pc-windows-gnu");
    e.openssl_dir = Some("/mingw".to_string());
    let b = bundled_build(&f, &e);
    assert_eq!(
        b.directives,
        vec![
            dir(LinkKind::SearchPath, "/mingw/lib"),
            dir(LinkKind::StaticLibrary, "crypto"),
            dir(LinkKind::Library, "gdi32"),
        ]
    );
}

#[test]
fn host_openssl_dir_only_for_native_builds() {
    let mut e = env(LINUX);
    e.openssl_dir = Some("/target/ssl".to_string());
    e.host_openssl_dir = Some("/host/ssl".to_string());
    assert_eq!(openssl_dir(&e), Some("/host/ssl".to_string()));
    e.target = "aarch64-linux-android".to_string();
    assert_eq!(openssl_dir(&e), Some("/target/ssl".to_string()));
    e.host_openssl_dir = None;
    e.target = LINUX.to_string();
    assert_eq!(openssl_dir(&e), Some("/target/ssl".to_string()));
}

#[test]
fn plain_engine_has_no_backend() {
    assert_eq!(crypto_backend(&features(), "aarch64-apple-ios"), None);
    let f = FeatureSet { encrypted: true, ..features() };
    assert_eq!(crypto_backend(&f, "aarch64-apple-ios"), Some(CryptoBackend::AppleNative));
}

#[test]
fn optimize_and_secure_delete_are_additive() {
    let f = FeatureSet { bundled: true, optimize: true, secure_delete: true, ..features() };
    let c = compile_config(&f, &env(LINUX));
    for d in [
        Define::SQLITE_CORE,
        Define::SQLITE_THREADSAFE,
        Define::SQLITE_USE_URI,
        Define::SQLITE_OMIT_SHARED_CACHE,
        Define::SQLITE_DEFAULT_MEMSTATUS,
        Define::SQLITE_OMIT_PROGRESS_CALLBACK,
        Define::SQLITE_DEFAULT_WAL_SYNCHRONOUS,
        Define::SQLITE_ENABLE_UPDATE_DELETE_LIMIT,
        Define::SQLITE_SECURE_DELETE,
    ] {
        assert!(c.defines.contains(&d));
    }
    assert_eq!(c.defines.len(), 25);
    assert!(!c.defines.contains(&Define::SQLITE_ENABLE_UNLOCK_NOTIFY));
}

#[test]
fn unlock_notify_adds_its_definition() {
    let f = FeatureSet { bundled: true, unlock_notify: true, ..features() };
    let c = compile_config(&f, &env(LINUX));
    assert_eq!(c.defines.last(), Some(&Define::SQLITE_ENABLE_UNLOCK_NOTIFY));
    assert_eq!(c.defines.len(), 20);
}

#[test]
fn encrypted_linux_build_with_openssl_dir() {
    let f = FeatureSet { bundled: true, encrypted: true, ..features() };
    let mut e = env(LINUX);
    e.openssl_dir = Some("/opt/ssl".to_string());
    let b = bundled_build(&f, &e);
    assert_eq!(b.config.sources, vec![SourceFile::Encrypted]);
    assert!(b.config.defines.contains(&Define::SQLCIPHER_CRYPTO_OPENSSL));
    assert!(b.config.defines.contains(&Define::SQLITE_HAS_CODEC));
    assert!(b.config.defines.contains(&Define::SQLITE_TEMP_STORE));
    assert!(b.config.flags.contains(&"-I/opt/ssl/include".to_string()));
    assert_eq!(
        b.directives,
        vec![dir(LinkKind::SearchPath, "/opt/ssl/lib"), dir(LinkKind::Library, "crypto")]
    );
    let args = b.config.compiler_args();
    assert!(args.contains(&"-I/opt/ssl/include".to_string()));
    assert!(args.contains(&"-DSQLCIPHER_CRYPTO_OPENSSL".to_string()));
    assert!(args.contains(&"-DSQLITE_TEMP_STORE=2".to_string()));
}

#[test]
fn include_dir_without_lib_dir_is_config_error() {
    let f = FeatureSet { encrypted: true, ..features() };
    let mut e = env(LINUX);
    e.include_dir = Some("/opt/sqlcipher/include".to_string());
    let r = locate_header(&f, &e, &None);
    assert_eq!(
        r,
        Err(BuildError::Config {
            missing: "SQLCIPHER_LIB_DIR".to_string(),
            present: "SQLCIPHER_INCLUDE_DIR".to_string(),
        })
    );
    let err = r.unwrap_err();
    assert!(err.is_fatal());
    assert_eq!(err.message(), "SQLCIPHER_LIB_DIR must be set if SQLCIPHER_INCLUDE_DIR is set");
    // discovery is not consulted either
    let found = Some(vec!["/usr/include".to_string()]);
    assert!(matches!(locate_header(&f, &e, &found), Err(BuildError::Config { .. })));
}

#[test]
fn lib_dir_without_include_dir_is_config_error() {
    let mut e = env(LINUX);
    e.lib_dir = Some("/opt/lib".to_string());
    let r = locate_header(&features(), &e, &None);
    assert_eq!(
        r,
        Err(BuildError::Config {
            missing: "SQLITE3_INCLUDE_DIR".to_string(),
            present: "SQLITE3_LIB_DIR".to_string(),
        })
    );
}

#[test]
fn paired_dirs_locate_header_in_environment() {
    let f = FeatureSet { encrypted: true, ..features() };
    let mut e = env(LINUX);
    e.include_dir = Some("/opt/sqlcipher/include".to_string());
    e.lib_dir = Some("/opt/sqlcipher/lib".to_string());
    let h = locate_header(&f, &e, &None).unwrap();
    assert_eq!(
        h.location,
        HeaderLocation::FromEnvironment("/opt/sqlcipher/include/sqlite3.h".to_string())
    );
    assert_eq!(h.location.path(), "/opt/sqlcipher/include/sqlite3.h");
    assert_eq!(
        h.directives,
        vec![dir(LinkKind::SearchPath, "/opt/sqlcipher/lib"), dir(LinkKind::Library, "sqlcipher")]
    );
    assert_eq!(plan_discovery(&f, &e), None);
}

#[test]
fn discovery_uses_first_include_path() {
    let found = Some(vec!["/usr/include".to_string(), "/usr/local/include".to_string()]);
    let h = locate_header(&features(), &env(LINUX), &found).unwrap();
    assert_eq!(h.location, HeaderLocation::FromDiscoveredPath("/usr/include/sqlite3.h".to_string()));
    assert_eq!(h.directives, vec![dir(LinkKind::Library, "sqlite3")]);
}

#[test]
fn failed_discovery_falls_back_to_wrapper() {
    let h = locate_header(&features(), &env(LINUX), &None).unwrap();
    assert_eq!(h.location, HeaderLocation::FromWrapper);
    assert_eq!(h.location.path(), "wrapper.h");
    assert_eq!(h.directives, vec![dir(LinkKind::Library, "sqlite3")]);
    let h = locate_header(&features(), &env(LINUX), &Some(vec![])).unwrap();
    assert_eq!(h.location, HeaderLocation::FromWrapper);
}

#[test]
fn discovery_tool_choice() {
    let e = env("x86_64-pc-windows-msvc");
    assert_eq!(plan_discovery(&features(), &e), Some(DiscoveryTool::PkgConfig));
    let f = FeatureSet { use_package_discovery: true, ..features() };
    assert_eq!(plan_discovery(&f, &e), Some(DiscoveryTool::Vcpkg));
    assert_eq!(plan_discovery(&f, &env(LINUX)), Some(DiscoveryTool::PkgConfig));
}

#[test]
fn external_encrypted_build_links_sqlcipher() {
    let f = FeatureSet { encrypted: true, ..features() };
    match resolve_link_strategy(&f, &env(LINUX)) {
        LinkStrategy::External { library } => assert_eq!(library, "sqlcipher"),
        LinkStrategy::Bundled(_) => panic!("expected an external library"),
    }
    match resolve_link_strategy(&features(), &env(LINUX)) {
        LinkStrategy::External { library } => assert_eq!(library, "sqlite3"),
        LinkStrategy::Bundled(_) => panic!("expected an external library"),
    }
}

#[test]
fn bundled_strategy_carries_compilation() {
    let f = FeatureSet { bundled: true, encrypted: true, ..features() };
    match resolve_link_strategy(&f, &env(LINUX)) {
        LinkStrategy::Bundled(b) => assert_eq!(b.config.sources, vec![SourceFile::Encrypted]),
        LinkStrategy::External { .. } => panic!("expected a bundled build"),
    }
}

#[test]
fn bundled_plan_copies_bundled_interface() {
    let f = FeatureSet { bundled: true, encrypted: true, buildtime_generate: true, ..features() };
    let p = plan_build(&f, &env("aarch64-apple-darwin"), &None).unwrap();
    assert!(p.compile.is_some());
    assert_eq!(p.interface, InterfaceSource::Prebuilt("sqlcipher/bundled_sqlcipher.rs".to_string()));
    assert_eq!(
        p.cargo_lines(),
        vec![
            "cargo:rustc-link-lib=framework=CoreFoundation".to_string(),
            "cargo:rustc-link-lib=framework=Security".to_string(),
        ]
    );
    let f = FeatureSet { bundled: true, ..features() };
    let p = plan_build(&f, &env(LINUX), &None).unwrap();
    assert_eq!(p.interface, InterfaceSource::Prebuilt("sqlite3/bindgen_bundled_version.rs".to_string()));
    assert!(p.directives.is_empty());
    assert_eq!(INTERFACE_FILE, "bindgen.rs");
}

#[test]
fn external_plan_generates_from_located_header() {
    let f = FeatureSet { buildtime_generate: true, ..features() };
    let mut e = env(LINUX);
    e.include_dir = Some("/opt/include/".to_string());
    e.lib_dir = Some("/opt/lib".to_string());
    let p = plan_build(&f, &e, &None).unwrap();
    assert!(p.compile.is_none());
    assert_eq!(p.interface, InterfaceSource::Generate("/opt/include//sqlite3.h".to_string()));
    assert_eq!(
        p.cargo_lines(),
        vec!["cargo:rustc-link-search=/opt/lib".to_string(), "cargo:rustc-link-lib=sqlite3".to_string()]
    );
}

#[test]
fn external_plan_without_generation_copies_prebuilt() {
    let f = FeatureSet { encrypted: true, ..features() };
    let p = plan_build(&f, &env(LINUX), &None).unwrap();
    assert_eq!(p.interface, InterfaceSource::Prebuilt("bindgen-bindings/bundled_sqlcipher.rs".to_string()));
    assert_eq!(p.cargo_lines(), vec!["cargo:rustc-link-lib=sqlcipher".to_string()]);
}

#[test]
fn external_plan_propagates_pairing_error() {
    let mut e = env(LINUX);
    e.include_dir = Some("/inc".to_string());
    let r = plan_build(&features(), &e, &None);
    assert!(matches!(r, Err(BuildError::Config { .. })));
}
