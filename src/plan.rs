//! The link strategy and the whole build plan: what to compile, where the
//! interface comes from, and which link directives to emit.
use vstd::prelude::*;
use crate::bindings::{prebuilt_interface, spec_prebuilt_interface, InterfaceSource};
use crate::compile::{
    compile_config, spec_compile_flags, spec_defines, spec_source, CompileConfig,
};
use crate::crypto::{
    crypto_backend, crypto_directives, openssl_dir, spec_crypto_backend, spec_crypto_directives,
    spec_openssl_dir, CryptoBackend,
};
use crate::error::BuildError;
use crate::features::{spec_link_lib, BuildEnv, FeatureSet};
use crate::header::{
    env_dirs_paired, locate_header, spec_header_directives, spec_header_file,
    spec_pairing_error,
};
use crate::link::{spec_cargo_line, LinkDirective, LinkKind};

verus! {

/// A compilation of the bundled engine, with the backend it uses and the
/// directives that link the backend.
#[derive(Clone, Debug, PartialEq, Eq)]
pub struct BundledBuild {
    pub config: CompileConfig,
    pub backend: Option<CryptoBackend>,
    pub directives: Vec<LinkDirective>,
}

/// How the engine is obtained.
#[derive(Clone, Debug, PartialEq, Eq)]
pub enum LinkStrategy {
    /// Compile the bundled source.
    Bundled(BundledBuild),
    /// Link an existing library of this name.
    External { library: String },
}

/// `c` is the compilation of the bundled engine for `f` in `env`.
pub open spec fn is_compile_config(c: CompileConfig, f: FeatureSet, env: BuildEnv) -> bool {
    &&& c.defines@ == spec_defines(f, spec_crypto_backend(f, env.target@))
    &&& c.flags.deep_view() == spec_compile_flags(f, env)
    &&& c.sources@ == seq![spec_source(f)]
}

/// The directives of a bundled build: those of its backend, if any.
pub open spec fn spec_bundled_directives(f: FeatureSet, env: BuildEnv) -> Seq<
    (LinkKind, Seq<char>),
> {
    match spec_crypto_backend(f, env.target@) {
        Some(b) => spec_crypto_directives(b, env.target@, spec_openssl_dir(env)),
        None => Seq::empty(),
    }
}

/// `b` is the bundled build for `f` in `env`.
pub open spec fn is_bundled_build(b: BundledBuild, f: FeatureSet, env: BuildEnv) -> bool {
    &&& is_compile_config(b.config, f, env)
    &&& b.backend == spec_crypto_backend(f, env.target@)
    &&& b.directives.deep_view() == spec_bundled_directives(f, env)
}

/// The bundled build for features `f` in environment `env`.
pub fn bundled_build(f: &FeatureSet, env: &BuildEnv) -> (r: BundledBuild)
    ensures
        is_bundled_build(r, *f, *env),
{
    let config = compile_config(f, env);
    let backend = crypto_backend(f, env.target.as_str());
    let directives = match backend {
        Some(b) => {
            let ssl = openssl_dir(env);
            crypto_directives(b, env.target.as_str(), &ssl)
        },
        None => Vec::new(),
    };
    assert(directives.deep_view() =~= spec_bundled_directives(*f, *env));
    BundledBuild { config, backend, directives }
}

/// Compiles the bundled engine where `bundled` is set; else links the
/// library of the variant, also for the encrypted one.
pub fn resolve_link_strategy(f: &FeatureSet, env: &BuildEnv) -> (r: LinkStrategy)
    ensures
        f.bundled ==> (r matches LinkStrategy::Bundled(b) && is_bundled_build(b, *f, *env)),
        !f.bundled ==> (r matches LinkStrategy::External { library } && library@ == spec_link_lib(
            *f,
        )),
{
    if f.bundled {
        LinkStrategy::Bundled(bundled_build(f, env))
    } else {
        LinkStrategy::External { library: String::from_str(f.link_lib()) }
    }
}

/// Everything a build does: the compilation, if any; where the interface
/// comes from; and the link directives, in the order they are emitted.
#[derive(Clone, Debug, PartialEq, Eq)]
pub struct BuildPlan {
    pub compile: Option<CompileConfig>,
    pub interface: InterfaceSource,
    pub directives: Vec<LinkDirective>,
}

/// The interface of an external-library build: generated from the located
/// header where `buildtime_generate` is set, else the pre-generated one.
pub open spec fn is_external_interface(
    s: InterfaceSource,
    f: FeatureSet,
    env: BuildEnv,
    discovered: Option<Seq<Seq<char>>>,
) -> bool {
    match s {
        InterfaceSource::Generate(h) => f.buildtime_generate && h@ == spec_header_file(env, discovered),
        InterfaceSource::Prebuilt(p) => !f.buildtime_generate && p@ == spec_prebuilt_interface(f),
    }
}

/// `p` is the plan of a bundled build: the compilation, the bundled tree's
/// pre-generated interface, and the backend's directives.
pub open spec fn is_bundled_plan(p: BuildPlan, f: FeatureSet, env: BuildEnv) -> bool {
    &&& match p.compile {
        Some(c) => is_compile_config(c, f, env),
        None => false,
    }
    &&& match p.interface {
        InterfaceSource::Prebuilt(s) => s@ == spec_prebuilt_interface(f),
        _ => false,
    }
    &&& p.directives.deep_view() == spec_bundled_directives(f, env)
}

/// `p` is the plan of an external-library build: nothing to compile, the
/// interface from the located header or pre-generated, and the library's directives.
pub open spec fn is_external_plan(
    p: BuildPlan,
    f: FeatureSet,
    env: BuildEnv,
    discovered: Option<Seq<Seq<char>>>,
) -> bool {
    &&& p.compile is None
    &&& is_external_interface(p.interface, f, env, discovered)
    &&& p.directives.deep_view() == spec_header_directives(f, env)
}

/// Plans the build. `discovered` holds the include paths that package discovery
/// reported (see `plan_discovery`), or `None` where it failed or was not run.
/// A bundled build always succeeds; an external one fails exactly when one
/// directory variable is set without the other.
pub fn plan_build(f: &FeatureSet, env: &BuildEnv, discovered: &Option<Vec<String>>) -> (r: Result<
    BuildPlan,
    BuildError,
>)
    ensures
        f.bundled ==> (r matches Ok(p) && is_bundled_plan(p, *f, *env)),
        !f.bundled ==> (r is Ok <==> env_dirs_paired(*env)),
        !f.bundled ==> (r matches Err(e) ==> spec_pairing_error(e, *f, *env)),
        !f.bundled ==> (r matches Ok(p) ==> is_external_plan(p, *f, *env, discovered.deep_view())),
{
    match resolve_link_strategy(f, env) {
        LinkStrategy::Bundled(b) => {
            let interface = InterfaceSource::Prebuilt(String::from_str(prebuilt_interface(f)));
            Ok(BuildPlan { compile: Some(b.config), interface, directives: b.directives })
        },
        LinkStrategy::External { library: _ } => {
            match locate_header(f, env, discovered) {
                Ok(h) => {
                    let interface = if f.buildtime_generate {
                        InterfaceSource::Generate(h.location.path())
                    } else {
                        InterfaceSource::Prebuilt(String::from_str(prebuilt_interface(f)))
                    };
                    Ok(BuildPlan { compile: None, interface, directives: h.directives })
                },
                Err(e) => Err(e),
            }
        },
    }
}

impl BuildPlan {
    /// The lines that announce the plan's directives to the build tool, in order.
    pub fn cargo_lines(&self) -> (r: Vec<String>)
        ensures
            r.deep_view() == self.directives.deep_view().map_values(
                |d: (LinkKind, Seq<char>)| spec_cargo_line(d),
            ),
    {
        let mut r: Vec<String> = Vec::new();
        let n = self.directives.len();
        let mut i: usize = 0;
        while i < n
            invariant
                i <= n,
                n == self.directives.len(),
                r.deep_view() =~= self.directives.deep_view().take(i as int).map_values(
                    |d: (LinkKind, Seq<char>)| spec_cargo_line(d),
                ),
            decreases n - i,
        {
            let line = self.directives[i].cargo_line();
            let ghost before = r.deep_view();
            r.push(line);
            assert(r.deep_view() =~= before.push(line@));
            assert(self.directives.deep_view().take(i + 1) =~= self.directives.deep_view().take(
                i as int,
            ).push(self.directives@[i as int].deep_view()));
            i = i + 1;
        }
        assert(self.directives.deep_view().take(n as int) =~= self.directives.deep_view());
        r
    }
}

} // verus!
