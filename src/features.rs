//! The build's inputs: feature flags and the environment values the planner reads.
use vstd::prelude::*;

verus! {

/// The feature flags that select how the engine is obtained and built.
#[derive(Clone, Copy, Debug, PartialEq, Eq, Structural)]
pub struct FeatureSet {
    /// Compile the engine from the embedded source tree.
    pub bundled: bool,
    /// Use the encryption-capable engine variant (SQLCipher).
    pub encrypted: bool,
    /// Trade a few rarely used engine features for throughput.
    pub optimize: bool,
    /// Overwrite deleted content on disk.
    pub secure_delete: bool,
    /// Enable the blocking-lock notification callback.
    pub unlock_notify: bool,
    /// Generate the interface from the header now instead of copying a pre-generated one.
    pub buildtime_generate: bool,
    /// Request OpenSSL as the crypto backend, also on Apple targets.
    pub use_openssl: bool,
    /// Request LibTomCrypt as the crypto backend.
    pub use_tomcrypt: bool,
    /// Allow the MSVC-specific package discovery tool.
    pub use_package_discovery: bool,
}

/// The environment values the planner reads, passed in explicitly.
#[derive(Clone, Debug, PartialEq, Eq)]
pub struct BuildEnv {
    /// The target triple.
    pub target: String,
    /// The host triple.
    pub host: String,
    /// `OPENSSL_DIR`.
    pub openssl_dir: Option<String>,
    /// `HOST_OPENSSL_DIR`.
    pub host_openssl_dir: Option<String>,
    /// `<VARIANT>_INCLUDE_DIR` for the active variant.
    pub include_dir: Option<String>,
    /// `<VARIANT>_LIB_DIR` for the active variant.
    pub lib_dir: Option<String>,
}

pub open spec fn spec_env_prefix(f: FeatureSet) -> Seq<char> {
    if f.encrypted {
        "SQLCIPHER"@
    } else {
        "SQLITE3"@
    }
}

pub open spec fn spec_link_lib(f: FeatureSet) -> Seq<char> {
    if f.encrypted {
        "sqlcipher"@
    } else {
        "sqlite3"@
    }
}

impl FeatureSet {
    /// The prefix of the variant's environment variables.
    pub fn env_prefix(&self) -> (r: &'static str)
        ensures
            r@ == spec_env_prefix(*self),
    {
        if self.encrypted {
            "SQLCIPHER"
        } else {
            "SQLITE3"
        }
    }

    /// The name of the library to link for the variant.
    pub fn link_lib(&self) -> (r: &'static str)
        ensures
            r@ == spec_link_lib(*self),
    {
        if self.encrypted {
            "sqlcipher"
        } else {
            "sqlite3"
        }
    }

    /// The name of the variant's include-directory variable.
    pub fn include_dir_var(&self) -> (r: String)
        ensures
            r@ == spec_env_prefix(*self) + "_INCLUDE_DIR"@,
    {
        String::from_str(self.env_prefix()).concat("_INCLUDE_DIR")
    }

    /// The name of the variant's library-directory variable.
    pub fn lib_dir_var(&self) -> (r: String)
        ensures
            r@ == spec_env_prefix(*self) + "_LIB_DIR"@,
    {
        String::from_str(self.env_prefix()).concat("_LIB_DIR")
    }
}

} // verus!
