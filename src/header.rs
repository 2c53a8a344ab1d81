//! Where the engine's C header is found, and the link directives that go with it.
use vstd::prelude::*;
use crate::error::BuildError;
use crate::features::{spec_env_prefix, spec_link_lib, BuildEnv, FeatureSet};
use crate::link::{LinkDirective, LinkKind};
use crate::text::{contains_seq, contains_text, join_path, spec_join_path};

verus! {

/// The header file name inside an include directory.
pub const HEADER_NAME: &'static str = "sqlite3.h";

/// What is appended to an include directory given by the environment.
pub const HEADER_SUFFIX: &'static str = "/sqlite3.h";

/// The stub header shipped with the library.
pub const WRAPPER_HEADER: &'static str = "wrapper.h";

/// Where the header for binding generation comes from.
#[derive(Clone, Debug, PartialEq, Eq)]
pub enum HeaderLocation {
    /// From the variant's include-directory variable; the header's path.
    FromEnvironment(String),
    /// The stub header shipped with the library.
    FromWrapper,
    /// From package discovery; the header's path.
    FromDiscoveredPath(String),
}

pub open spec fn spec_header_path(h: HeaderLocation) -> Seq<char> {
    match h {
        HeaderLocation::FromEnvironment(p) => p@,
        HeaderLocation::FromWrapper => WRAPPER_HEADER@,
        HeaderLocation::FromDiscoveredPath(p) => p@,
    }
}

impl HeaderLocation {
    /// The header's path.
    pub fn path(&self) -> (r: String)
        ensures
            r@ == spec_header_path(*self),
    {
        match self {
            HeaderLocation::FromEnvironment(p) => p.clone(),
            HeaderLocation::FromWrapper => String::from_str(WRAPPER_HEADER),
            HeaderLocation::FromDiscoveredPath(p) => p.clone(),
        }
    }
}

/// The package discovery mechanism to ask.
#[derive(Clone, Copy, Debug, PartialEq, Eq, Structural)]
pub enum DiscoveryTool {
    /// The MSVC-specific package manager.
    Vcpkg,
    /// The generic package-config probe.
    PkgConfig,
}

/// The header location and the directives that link the external library.
#[derive(Clone, Debug, PartialEq, Eq)]
pub struct HeaderResolution {
    pub location: HeaderLocation,
    pub directives: Vec<LinkDirective>,
}

/// Discovery is asked only when neither directory variable is set; the
/// MSVC-specific tool where allowed and the target is MSVC, else the generic probe.
pub open spec fn spec_discovery(f: FeatureSet, env: BuildEnv) -> Option<DiscoveryTool> {
    if env.include_dir is Some || env.lib_dir is Some {
        None
    } else if f.use_package_discovery && contains_seq(env.target@, "msvc"@) {
        Some(DiscoveryTool::Vcpkg)
    } else {
        Some(DiscoveryTool::PkgConfig)
    }
}

/// Which discovery mechanism to run before locating the header, if any.
pub fn plan_discovery(f: &FeatureSet, env: &BuildEnv) -> (r: Option<DiscoveryTool>)
    ensures
        r == spec_discovery(*f, *env),
{
    if env.include_dir.is_some() || env.lib_dir.is_some() {
        None
    } else if f.use_package_discovery && contains_text(env.target.as_str(), "msvc") {
        Some(DiscoveryTool::Vcpkg)
    } else {
        Some(DiscoveryTool::PkgConfig)
    }
}

/// Both directory variables are set, or neither is.
pub open spec fn env_dirs_paired(env: BuildEnv) -> bool {
    (env.include_dir is Some) == (env.lib_dir is Some)
}

/// `e` reports the directory variable that is missing beside the one that is set.
pub open spec fn spec_pairing_error(e: BuildError, f: FeatureSet, env: BuildEnv) -> bool {
    let inc = spec_env_prefix(f) + "_INCLUDE_DIR"@;
    let lib = spec_env_prefix(f) + "_LIB_DIR"@;
    e matches BuildError::Config { missing, present } && if env.include_dir is Some {
        missing@ == lib && present@ == inc
    } else {
        missing@ == inc && present@ == lib
    }
}

/// The header's path: the include directory followed by `/sqlite3.h` where the
/// variables give one; else `sqlite3.h` in the first include path that discovery
/// reported; else the wrapper.
pub open spec fn spec_header_file(env: BuildEnv, discovered: Option<Seq<Seq<char>>>) -> Seq<char> {
    match env.include_dir {
        Some(inc) => inc@ + HEADER_SUFFIX@,
        None => match discovered {
            Some(paths) if paths.len() > 0 => spec_join_path(paths[0], HEADER_NAME@),
            _ => WRAPPER_HEADER@,
        },
    }
}

/// `h` is the location the header is found at, of the kind that found it.
pub open spec fn spec_header_location(
    h: HeaderLocation,
    env: BuildEnv,
    discovered: Option<Seq<Seq<char>>>,
) -> bool {
    &&& spec_header_path(h) == spec_header_file(env, discovered)
    &&& match env.include_dir {
        Some(_) => h is FromEnvironment,
        None => match discovered {
            Some(paths) if paths.len() > 0 => h is FromDiscoveredPath,
            _ => h is FromWrapper,
        },
    }
}

/// The directives of an external library: its directory where the variables
/// give one, and its name in every case.
pub open spec fn spec_header_directives(f: FeatureSet, env: BuildEnv) -> Seq<(LinkKind, Seq<char>)> {
    match env.lib_dir {
        Some(lib) => seq![(LinkKind::SearchPath, lib@), (LinkKind::Library, spec_link_lib(f))],
        None => seq![(LinkKind::Library, spec_link_lib(f))],
    }
}

/// Locates the header and links the external library. `discovered` holds the
/// include paths that discovery reported, or `None` where it failed or was not run.
/// Fails exactly when one directory variable is set without the other.
pub fn locate_header(f: &FeatureSet, env: &BuildEnv, discovered: &Option<Vec<String>>) -> (r:
    Result<HeaderResolution, BuildError>)
    ensures
        r is Ok <==> env_dirs_paired(*env),
        r matches Err(e) ==> spec_pairing_error(e, *f, *env),
        r matches Ok(h) ==> spec_header_location(h.location, *env, discovered.deep_view())
            && h.directives.deep_view() == spec_header_directives(*f, *env),
{
    let lib_name = f.link_lib();
    match (&env.include_dir, &env.lib_dir) {
        (Some(inc), Some(lib)) => {
            let location = HeaderLocation::FromEnvironment(inc.clone().concat(HEADER_SUFFIX));
            let directives = vec![
                LinkDirective { kind: LinkKind::SearchPath, name: lib.clone() },
                LinkDirective::new(LinkKind::Library, lib_name),
            ];
            assert(directives.deep_view() =~= spec_header_directives(*f, *env));
            Ok(HeaderResolution { location, directives })
        },
        (Some(_), None) => Err(BuildError::Config { missing: f.lib_dir_var(), present: f.include_dir_var() }),
        (None, Some(_)) => Err(BuildError::Config { missing: f.include_dir_var(), present: f.lib_dir_var() }),
        (None, None) => {
            let location = match discovered {
                Some(paths) => {
                    if paths.len() > 0 {
                        HeaderLocation::FromDiscoveredPath(join_path(paths[0].as_str(), HEADER_NAME))
                    } else {
                        HeaderLocation::FromWrapper
                    }
                },
                None => HeaderLocation::FromWrapper,
            };
            let directives = vec![LinkDirective::new(LinkKind::Library, lib_name)];
            assert(directives.deep_view() =~= spec_header_directives(*f, *env));
            Ok(HeaderResolution { location, directives })
        },
    }
}

} // verus!
