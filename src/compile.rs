//! Configuration of the in-process compilation of the bundled engine.
use vstd::prelude::*;
use crate::crypto::{
    crypto_backend, crypto_define, crypto_flags, openssl_dir, spec_crypto_backend,
    spec_crypto_define, spec_crypto_flags, spec_openssl_dir, CryptoBackend,
};
use crate::features::{BuildEnv, FeatureSet};

verus! {

/// A preprocessor definition the engine is compiled with.
#[derive(Clone, Copy, Debug, PartialEq, Eq, Structural)]
pub enum Define {
    /// Build the engine as part of the library.
    SQLITE_CORE,
    /// Enforce foreign keys by default.
    SQLITE_DEFAULT_FOREIGN_KEYS,
    /// Check API arguments for misuse.
    SQLITE_ENABLE_API_ARMOR,
    /// Column metadata introspection.
    SQLITE_ENABLE_COLUMN_METADATA,
    /// The `dbstat` virtual table.
    SQLITE_ENABLE_DBSTAT_VTAB,
    /// Full-text search, version 3.
    SQLITE_ENABLE_FTS3,
    /// Parenthesised full-text queries.
    SQLITE_ENABLE_FTS3_PARENTHESIS,
    /// Full-text search, version 5.
    SQLITE_ENABLE_FTS5,
    /// JSON functions.
    SQLITE_ENABLE_JSON1,
    /// Run-time loadable extensions.
    SQLITE_ENABLE_LOAD_EXTENSION,
    /// Memory release on demand.
    SQLITE_ENABLE_MEMORY_MANAGEMENT,
    /// The R*Tree index.
    SQLITE_ENABLE_RTREE,
    /// Index statistics, version 2.
    SQLITE_ENABLE_STAT2,
    /// Index statistics, version 4.
    SQLITE_ENABLE_STAT4,
    /// Use the platform's `isnan`.
    SQLITE_HAVE_ISNAN,
    /// The `soundex` function.
    SQLITE_SOUNDEX,
    /// Multi-thread mode, with internal locking.
    SQLITE_THREADSAFE,
    /// URI file names.
    SQLITE_USE_URI,
    /// Sleep with `usleep`.
    HAVE_USLEEP,
    /// No shared-cache mode.
    SQLITE_OMIT_SHARED_CACHE,
    /// No memory-status tracking.
    SQLITE_DEFAULT_MEMSTATUS,
    /// No progress callback.
    SQLITE_OMIT_PROGRESS_CALLBACK,
    /// Relaxed sync in write-ahead-log mode.
    SQLITE_DEFAULT_WAL_SYNCHRONOUS,
    /// `LIMIT` on `UPDATE` and `DELETE`.
    SQLITE_ENABLE_UPDATE_DELETE_LIMIT,
    /// Overwrite deleted content.
    SQLITE_SECURE_DELETE,
    /// The unlock-notification callback.
    SQLITE_ENABLE_UNLOCK_NOTIFY,
    /// The page encryption codec hook.
    SQLITE_HAS_CODEC,
    /// Temporary storage in memory only.
    SQLITE_TEMP_STORE,
    /// Apple's CommonCrypto as crypto backend.
    SQLCIPHER_CRYPTO_CC,
    /// LibTomCrypt as crypto backend.
    SQLCIPHER_CRYPTO_LIBTOMCRYPT,
    /// OpenSSL as crypto backend.
    SQLCIPHER_CRYPTO_OPENSSL,
}

/// The definition's name.
pub open spec fn spec_define_key(d: Define) -> Seq<char> {
    match d {
        Define::SQLITE_CORE => "SQLITE_CORE"@,
        Define::SQLITE_DEFAULT_FOREIGN_KEYS => "SQLITE_DEFAULT_FOREIGN_KEYS"@,
        Define::SQLITE_ENABLE_API_ARMOR => "SQLITE_ENABLE_API_ARMOR"@,
        Define::SQLITE_ENABLE_COLUMN_METADATA => "SQLITE_ENABLE_COLUMN_METADATA"@,
        Define::SQLITE_ENABLE_DBSTAT_VTAB => "SQLITE_ENABLE_DBSTAT_VTAB"@,
        Define::SQLITE_ENABLE_FTS3 => "SQLITE_ENABLE_FTS3"@,
        Define::SQLITE_ENABLE_FTS3_PARENTHESIS => "SQLITE_ENABLE_FTS3_PARENTHESIS"@,
        Define::SQLITE_ENABLE_FTS5 => "SQLITE_ENABLE_FTS5"@,
        Define::SQLITE_ENABLE_JSON1 => "SQLITE_ENABLE_JSON1"@,
        Define::SQLITE_ENABLE_LOAD_EXTENSION => "SQLITE_ENABLE_LOAD_EXTENSION"@,
        Define::SQLITE_ENABLE_MEMORY_MANAGEMENT => "SQLITE_ENABLE_MEMORY_MANAGEMENT"@,
        Define::SQLITE_ENABLE_RTREE => "SQLITE_ENABLE_RTREE"@,
        Define::SQLITE_ENABLE_STAT2 => "SQLITE_ENABLE_STAT2"@,
        Define::SQLITE_ENABLE_STAT4 => "SQLITE_ENABLE_STAT4"@,
        Define::SQLITE_HAVE_ISNAN => "SQLITE_HAVE_ISNAN"@,
        Define::SQLITE_SOUNDEX => "SQLITE_SOUNDEX"@,
        Define::SQLITE_THREADSAFE => "SQLITE_THREADSAFE"@,
        Define::SQLITE_USE_URI => "SQLITE_USE_URI"@,
        Define::HAVE_USLEEP => "HAVE_USLEEP"@,
        Define::SQLITE_OMIT_SHARED_CACHE => "SQLITE_OMIT_SHARED_CACHE"@,
        Define::SQLITE_DEFAULT_MEMSTATUS => "SQLITE_DEFAULT_MEMSTATUS"@,
        Define::SQLITE_OMIT_PROGRESS_CALLBACK => "SQLITE_OMIT_PROGRESS_CALLBACK"@,
        Define::SQLITE_DEFAULT_WAL_SYNCHRONOUS => "SQLITE_DEFAULT_WAL_SYNCHRONOUS"@,
        Define::SQLITE_ENABLE_UPDATE_DELETE_LIMIT => "SQLITE_ENABLE_UPDATE_DELETE_LIMIT"@,
        Define::SQLITE_SECURE_DELETE => "SQLITE_SECURE_DELETE"@,
        Define::SQLITE_ENABLE_UNLOCK_NOTIFY => "SQLITE_ENABLE_UNLOCK_NOTIFY"@,
        Define::SQLITE_HAS_CODEC => "SQLITE_HAS_CODEC"@,
        Define::SQLITE_TEMP_STORE => "SQLITE_TEMP_STORE"@,
        Define::SQLCIPHER_CRYPTO_CC => "SQLCIPHER_CRYPTO_CC"@,
        Define::SQLCIPHER_CRYPTO_LIBTOMCRYPT => "SQLCIPHER_CRYPTO_LIBTOMCRYPT"@,
        Define::SQLCIPHER_CRYPTO_OPENSSL => "SQLCIPHER_CRYPTO_OPENSSL"@,
    }
}

/// The definition's value, where it has one.
pub open spec fn spec_define_value(d: Define) -> Option<Seq<char>> {
    match d {
        Define::SQLITE_DEFAULT_FOREIGN_KEYS => Some("1"@),
        Define::SQLITE_ENABLE_LOAD_EXTENSION => Some("1"@),
        Define::SQLITE_THREADSAFE => Some("2"@),
        Define::HAVE_USLEEP => Some("1"@),
        Define::SQLITE_DEFAULT_MEMSTATUS => Some("0"@),
        Define::SQLITE_DEFAULT_WAL_SYNCHRONOUS => Some("1"@),
        Define::SQLITE_ENABLE_UPDATE_DELETE_LIMIT => Some("1"@),
        Define::SQLITE_TEMP_STORE => Some("2"@),
        _ => None,
    }
}

/// The compiler flag that sets definition `d`.
pub open spec fn spec_define_flag(d: Define) -> Seq<char> {
    "-D"@ + spec_define_key(d) + match spec_define_value(d) {
        Some(v) => "="@ + v,
        None => Seq::empty(),
    }
}

impl Define {
    /// The definition's name.
    pub fn key(&self) -> (r: &'static str)
        ensures
            r@ == spec_define_key(*self),
    {
        match self {
            Define::SQLITE_CORE => "SQLITE_CORE",
            Define::SQLITE_DEFAULT_FOREIGN_KEYS => "SQLITE_DEFAULT_FOREIGN_KEYS",
            Define::SQLITE_ENABLE_API_ARMOR => "SQLITE_ENABLE_API_ARMOR",
            Define::SQLITE_ENABLE_COLUMN_METADATA => "SQLITE_ENABLE_COLUMN_METADATA",
            Define::SQLITE_ENABLE_DBSTAT_VTAB => "SQLITE_ENABLE_DBSTAT_VTAB",
            Define::SQLITE_ENABLE_FTS3 => "SQLITE_ENABLE_FTS3",
            Define::SQLITE_ENABLE_FTS3_PARENTHESIS => "SQLITE_ENABLE_FTS3_PARENTHESIS",
            Define::SQLITE_ENABLE_FTS5 => "SQLITE_ENABLE_FTS5",
            Define::SQLITE_ENABLE_JSON1 => "SQLITE_ENABLE_JSON1",
            Define::SQLITE_ENABLE_LOAD_EXTENSION => "SQLITE_ENABLE_LOAD_EXTENSION",
            Define::SQLITE_ENABLE_MEMORY_MANAGEMENT => "SQLITE_ENABLE_MEMORY_MANAGEMENT",
            Define::SQLITE_ENABLE_RTREE => "SQLITE_ENABLE_RTREE",
            Define::SQLITE_ENABLE_STAT2 => "SQLITE_ENABLE_STAT2",
            Define::SQLITE_ENABLE_STAT4 => "SQLITE_ENABLE_STAT4",
            Define::SQLITE_HAVE_ISNAN => "SQLITE_HAVE_ISNAN",
            Define::SQLITE_SOUNDEX => "SQLITE_SOUNDEX",
            Define::SQLITE_THREADSAFE => "SQLITE_THREADSAFE",
            Define::SQLITE_USE_URI => "SQLITE_USE_URI",
            Define::HAVE_USLEEP => "HAVE_USLEEP",
            Define::SQLITE_OMIT_SHARED_CACHE => "SQLITE_OMIT_SHARED_CACHE",
            Define::SQLITE_DEFAULT_MEMSTATUS => "SQLITE_DEFAULT_MEMSTATUS",
            Define::SQLITE_OMIT_PROGRESS_CALLBACK => "SQLITE_OMIT_PROGRESS_CALLBACK",
            Define::SQLITE_DEFAULT_WAL_SYNCHRONOUS => "SQLITE_DEFAULT_WAL_SYNCHRONOUS",
            Define::SQLITE_ENABLE_UPDATE_DELETE_LIMIT => "SQLITE_ENABLE_UPDATE_DELETE_LIMIT",
            Define::SQLITE_SECURE_DELETE => "SQLITE_SECURE_DELETE",
            Define::SQLITE_ENABLE_UNLOCK_NOTIFY => "SQLITE_ENABLE_UNLOCK_NOTIFY",
            Define::SQLITE_HAS_CODEC => "SQLITE_HAS_CODEC",
            Define::SQLITE_TEMP_STORE => "SQLITE_TEMP_STORE",
            Define::SQLCIPHER_CRYPTO_CC => "SQLCIPHER_CRYPTO_CC",
            Define::SQLCIPHER_CRYPTO_LIBTOMCRYPT => "SQLCIPHER_CRYPTO_LIBTOMCRYPT",
            Define::SQLCIPHER_CRYPTO_OPENSSL => "SQLCIPHER_CRYPTO_OPENSSL",
        }
    }

    /// The definition's value, where it has one.
    pub fn value(&self) -> (r: Option<&'static str>)
        ensures
            match r {
                Some(v) => spec_define_value(*self) == Some(v@),
                None => spec_define_value(*self) is None,
            },
    {
        match self {
            Define::SQLITE_DEFAULT_FOREIGN_KEYS => Some("1"),
            Define::SQLITE_ENABLE_LOAD_EXTENSION => Some("1"),
            Define::SQLITE_THREADSAFE => Some("2"),
            Define::HAVE_USLEEP => Some("1"),
            Define::SQLITE_DEFAULT_MEMSTATUS => Some("0"),
            Define::SQLITE_DEFAULT_WAL_SYNCHRONOUS => Some("1"),
            Define::SQLITE_ENABLE_UPDATE_DELETE_LIMIT => Some("1"),
            Define::SQLITE_TEMP_STORE => Some("2"),
            _ => None,
        }
    }

    /// The compiler flag that sets this definition.
    pub fn flag(&self) -> (r: String)
        ensures
            r@ == spec_define_flag(*self),
    {
        let s = String::from_str("-D").concat(self.key());
        match self.value() {
            Some(v) => s.concat("=").concat(v),
            None => s,
        }
    }
}

/// The engine source file a bundled build compiles.
#[derive(Clone, Copy, Debug, PartialEq, Eq, Structural)]
pub enum SourceFile {
    /// The plain SQLite amalgamation.
    Plain,
    /// The SQLCipher amalgamation.
    Encrypted,
}

pub open spec fn spec_source_path(s: SourceFile) -> Seq<char> {
    match s {
        SourceFile::Plain => "sqlite3/sqlite3.c"@,
        SourceFile::Encrypted => "sqlcipher/sqlite3.c"@,
    }
}

impl SourceFile {
    /// The file's path in the bundled source tree.
    pub fn path(&self) -> (r: &'static str)
        ensures
            r@ == spec_source_path(*self),
    {
        match self {
            SourceFile::Plain => "sqlite3/sqlite3.c",
            SourceFile::Encrypted => "sqlcipher/sqlite3.c",
        }
    }
}

/// What the native compiler is given: definitions, other flags, and sources.
#[derive(Clone, Debug, PartialEq, Eq)]
pub struct CompileConfig {
    pub defines: Vec<Define>,
    pub flags: Vec<String>,
    pub sources: Vec<SourceFile>,
}

/// The definitions every bundled build has: serialized thread safety, URI
/// file names, foreign keys on, the query and introspection extensions.
pub open spec fn baseline_defines() -> Seq<Define> {
    seq![
        Define::SQLITE_CORE,
        Define::SQLITE_DEFAULT_FOREIGN_KEYS,
        Define::SQLITE_ENABLE_API_ARMOR,
        Define::SQLITE_ENABLE_COLUMN_METADATA,
        Define::SQLITE_ENABLE_DBSTAT_VTAB,
        Define::SQLITE_ENABLE_FTS3,
        Define::SQLITE_ENABLE_FTS3_PARENTHESIS,
        Define::SQLITE_ENABLE_FTS5,
        Define::SQLITE_ENABLE_JSON1,
        Define::SQLITE_ENABLE_LOAD_EXTENSION,
        Define::SQLITE_ENABLE_MEMORY_MANAGEMENT,
        Define::SQLITE_ENABLE_RTREE,
        Define::SQLITE_ENABLE_STAT2,
        Define::SQLITE_ENABLE_STAT4,
        Define::SQLITE_HAVE_ISNAN,
        Define::SQLITE_SOUNDEX,
        Define::SQLITE_THREADSAFE,
        Define::SQLITE_USE_URI,
        Define::HAVE_USLEEP,
    ]
}

/// The definitions that `optimize` adds.
pub open spec fn optimize_defines() -> Seq<Define> {
    seq![
        Define::SQLITE_OMIT_SHARED_CACHE,
        Define::SQLITE_DEFAULT_MEMSTATUS,
        Define::SQLITE_OMIT_PROGRESS_CALLBACK,
        Define::SQLITE_DEFAULT_WAL_SYNCHRONOUS,
        Define::SQLITE_ENABLE_UPDATE_DELETE_LIMIT,
    ]
}

/// The definitions that `encrypted` adds, with backend `b`.
pub open spec fn encrypted_defines(b: Option<CryptoBackend>) -> Seq<Define> {
    seq![Define::SQLITE_HAS_CODEC, Define::SQLITE_TEMP_STORE] + match b {
        Some(c) => seq![spec_crypto_define(c)],
        None => Seq::empty(),
    }
}

/// All definitions of a bundled build with features `f` and backend `b`, each
/// flag adding its own.
pub open spec fn spec_defines(f: FeatureSet, b: Option<CryptoBackend>) -> Seq<Define> {
    baseline_defines() + (if f.optimize {
        optimize_defines()
    } else {
        Seq::empty()
    }) + (if f.secure_delete {
        seq![Define::SQLITE_SECURE_DELETE]
    } else {
        Seq::empty()
    }) + (if f.unlock_notify {
        seq![Define::SQLITE_ENABLE_UNLOCK_NOTIFY]
    } else {
        Seq::empty()
    }) + (if f.encrypted {
        encrypted_defines(b)
    } else {
        Seq::empty()
    })
}

/// The engine source of the variant.
pub open spec fn spec_source(f: FeatureSet) -> SourceFile {
    if f.encrypted {
        SourceFile::Encrypted
    } else {
        SourceFile::Plain
    }
}

/// The flags besides definitions: hidden symbol visibility, and the backend's own.
pub open spec fn spec_compile_flags(f: FeatureSet, env: BuildEnv) -> Seq<Seq<char>> {
    seq!["-fvisibility=hidden"@] + match spec_crypto_backend(f, env.target@) {
        Some(b) => spec_crypto_flags(b, spec_openssl_dir(env)),
        None => Seq::empty(),
    }
}

/// The compilation of the bundled engine for features `f` in environment `env`.
pub fn compile_config(f: &FeatureSet, env: &BuildEnv) -> (r: CompileConfig)
    ensures
        r.defines@ == spec_defines(*f, spec_crypto_backend(*f, env.target@)),
        r.flags.deep_view() == spec_compile_flags(*f, *env),
        r.sources@ == seq![spec_source(*f)],
{
    let mut defines: Vec<Define> = vec![
        Define::SQLITE_CORE,
        Define::SQLITE_DEFAULT_FOREIGN_KEYS,
        Define::SQLITE_ENABLE_API_ARMOR,
        Define::SQLITE_ENABLE_COLUMN_METADATA,
        Define::SQLITE_ENABLE_DBSTAT_VTAB,
        Define::SQLITE_ENABLE_FTS3,
        Define::SQLITE_ENABLE_FTS3_PARENTHESIS,
        Define::SQLITE_ENABLE_FTS5,
        Define::SQLITE_ENABLE_JSON1,
        Define::SQLITE_ENABLE_LOAD_EXTENSION,
        Define::SQLITE_ENABLE_MEMORY_MANAGEMENT,
        Define::SQLITE_ENABLE_RTREE,
        Define::SQLITE_ENABLE_STAT2,
        Define::SQLITE_ENABLE_STAT4,
        Define::SQLITE_HAVE_ISNAN,
        Define::SQLITE_SOUNDEX,
        Define::SQLITE_THREADSAFE,
        Define::SQLITE_USE_URI,
        Define::HAVE_USLEEP,
    ];
    let ghost d0 = defines@;
    assert(d0 =~= baseline_defines());
    if f.optimize {
        defines.push(Define::SQLITE_OMIT_SHARED_CACHE);
        defines.push(Define::SQLITE_DEFAULT_MEMSTATUS);
        defines.push(Define::SQLITE_OMIT_PROGRESS_CALLBACK);
        defines.push(Define::SQLITE_DEFAULT_WAL_SYNCHRONOUS);
        defines.push(Define::SQLITE_ENABLE_UPDATE_DELETE_LIMIT);
    }
    let ghost d1 = defines@;
    assert(d1 =~= d0 + (if f.optimize {
        optimize_defines()
    } else {
        Seq::empty()
    }));
    if f.secure_delete {
        defines.push(Define::SQLITE_SECURE_DELETE);
    }
    let ghost d2 = defines@;
    assert(d2 =~= d1 + (if f.secure_delete {
        seq![Define::SQLITE_SECURE_DELETE]
    } else {
        Seq::empty()
    }));
    if f.unlock_notify {
        defines.push(Define::SQLITE_ENABLE_UNLOCK_NOTIFY);
    }
    let ghost d3 = defines@;
    assert(d3 =~= d2 + (if f.unlock_notify {
        seq![Define::SQLITE_ENABLE_UNLOCK_NOTIFY]
    } else {
        Seq::empty()
    }));
    let mut flags: Vec<String> = vec![String::from_str("-fvisibility=hidden")];
    let backend = crypto_backend(f, env.target.as_str());
    let mut sources: Vec<SourceFile> = Vec::new();
    if f.encrypted {
        sources.push(SourceFile::Encrypted);
        defines.push(Define::SQLITE_HAS_CODEC);
        defines.push(Define::SQLITE_TEMP_STORE);
        match backend {
            Some(b) => {
                defines.push(crypto_define(b));
                let ssl = openssl_dir(env);
                let mut extra = crypto_flags(b, &ssl);
                flags.append(&mut extra);
            },
            None => {},
        }
        assert(defines@ =~= d3 + encrypted_defines(backend));
    } else {
        sources.push(SourceFile::Plain);
        assert(defines@ =~= d3);
    }
    assert(defines@ =~= spec_defines(*f, backend));
    assert(flags.deep_view() =~= spec_compile_flags(*f, *env));
    CompileConfig { defines, flags, sources }
}

impl CompileConfig {
    /// Every flag handed to the compiler: the plain flags, then one per definition.
    pub fn compiler_args(&self) -> (r: Vec<String>)
        ensures
            r.deep_view() == self.flags.deep_view() + self.defines@.map_values(
                |d: Define| spec_define_flag(d),
            ),
    {
        let mut r: Vec<String> = self.flags.clone();
        assert(r.deep_view() =~= self.flags.deep_view());
        let n = self.defines.len();
        let mut i: usize = 0;
        while i < n
            invariant
                i <= n,
                n == self.defines.len(),
                r.deep_view() =~= self.flags.deep_view() + self.defines@.take(i as int).map_values(
                    |d: Define| spec_define_flag(d),
                ),
            decreases n - i,
        {
            let flag = self.defines[i].flag();
            let ghost before = r.deep_view();
            r.push(flag);
            assert(r.deep_view() =~= before.push(flag@));
            assert(self.defines@.take(i + 1) =~= self.defines@.take(i as int).push(self.defines@[i as int]));
            i = i + 1;
        }
        assert(self.defines@.take(n as int) =~= self.defines@);
        r
    }
}

} // verus!
