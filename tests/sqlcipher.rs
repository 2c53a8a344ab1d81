use libsqlite3_sys::bindings::InterfaceSource;
use libsqlite3_sys::compile::{Define, SourceFile};
use libsqlite3_sys::features::{BuildEnv, FeatureSet};
use libsqlite3_sys::header::HeaderLocation;
use libsqlite3_sys::header::locate_header;
use libsqlite3_sys::plan::plan_build;

fn encrypted(bundled: bool) -> FeatureSet {
    FeatureSet {
        bundled,
        encrypted: true,
        optimize: false,
        secure_delete: false,
        unlock_notify: false,
        buildtime_generate: false,
        use_openssl: false,
        use_tomcrypt: false,
        use_package_discovery: false,
    }
}

fn linux() -> BuildEnv {
    BuildEnv {
        target: "x86_64-unknown-linux-gnu".to_string(),
        host: "x86_64-unknown-linux-gnu".to_string(),
        openssl_dir: None,
        host_openssl_dir: None,
        include_dir: None,
        lib_dir: None,
    }
}

// The engine itself is not linked into these tests: they check what the build
// plan decides for the key workflow, not a database on disk.

// Creating a keyed database needs the engine built with the codec hook, and
// scratch space that never reaches the disk.
#[test]
fn test_sqlcipher_create_and_encrypt() {
    let plan = plan_build(&encrypted(true), &linux(), &None).unwrap();
    let config = plan.compile.clone().expect("a bundled build compiles the engine");
    assert_eq!(config.sources, vec![SourceFile::Encrypted]);
    let args = config.compiler_args();
    assert!(args.contains(&"-DSQLITE_HAS_CODEC".to_string()));
    assert!(args.contains(&"-DSQLITE_TEMP_STORE=2".to_string()));
    assert!(args.contains(&"-DSQLCIPHER_CRYPTO_OPENSSL".to_string()));
    assert!(config.defines.contains(&Define::SQLITE_HAS_CODEC));
    assert_eq!(plan.interface, InterfaceSource::Prebuilt("sqlcipher/bundled_sqlcipher.rs".to_string()));
    assert_eq!(plan.cargo_lines(), vec!["cargo:rustc-link-lib=crypto".to_string()]);
}

// Opening a keyed database through an installed SQLCipher needs that library
// linked, not plain SQLite, and its header.
#[test]
fn test_sqlcipher_open_and_decrypt() {
    let mut env = linux();
    env.include_dir = Some("/opt/sqlcipher/include".to_string());
    env.lib_dir = Some("/opt/sqlcipher/lib".to_string());
    let f = FeatureSet { buildtime_generate: true, ..encrypted(false) };
    let plan = plan_build(&f, &env, &None).unwrap();
    assert!(plan.compile.is_none());
    assert_eq!(
        plan.cargo_lines(),
        vec![
            "cargo:rustc-link-search=/opt/sqlcipher/lib".to_string(),
            "cargo:rustc-link-lib=sqlcipher".to_string(),
        ]
    );
    assert_eq!(plan.interface, InterfaceSource::Generate("/opt/sqlcipher/include/sqlite3.h".to_string()));
    let h = locate_header(&f, &env, &None).unwrap();
    assert!(matches!(h.location, HeaderLocation::FromEnvironment(_)));
}
