//! Link directives handed to the surrounding build tool.
use vstd::prelude::*;

verus! {

/// What a directive asks of the linker.
#[derive(Clone, Copy, Debug, PartialEq, Eq, Structural)]
pub enum LinkKind {
    /// A directory to search for libraries.
    SearchPath,
    /// A library linked in the default way.
    Library,
    /// A library linked statically.
    StaticLibrary,
    /// An Apple framework.
    Framework,
}

/// One linker directive: a kind and the path or name it applies to.
#[derive(Clone, Debug, PartialEq, Eq)]
pub struct LinkDirective {
    pub kind: LinkKind,
    pub name: String,
}

impl DeepView for LinkDirective {
    type V = (LinkKind, Seq<char>);

    open spec fn deep_view(&self) -> (LinkKind, Seq<char>) {
        (self.kind, self.name@)
    }
}

/// The line that announces directive `d` to the build tool.
pub open spec fn spec_cargo_line(d: (LinkKind, Seq<char>)) -> Seq<char> {
    match d.0 {
        LinkKind::SearchPath => "cargo:rustc-link-search="@ + d.1,
        LinkKind::Library => "cargo:rustc-link-lib="@ + d.1,
        LinkKind::StaticLibrary => "cargo:rustc-link-lib=static="@ + d.1,
        LinkKind::Framework => "cargo:rustc-link-lib=framework="@ + d.1,
    }
}

impl LinkDirective {
    /// A directive of kind `kind` for the name `name`.
    pub fn new(kind: LinkKind, name: &str) -> (r: LinkDirective)
        ensures
            r.deep_view() == (kind, name@),
    {
        LinkDirective { kind, name: String::from_str(name) }
    }

    /// The line that announces this directive to the build tool.
    pub fn cargo_line(&self) -> (r: String)
        ensures
            r@ == spec_cargo_line(self.deep_view()),
    {
        let head = match self.kind {
            LinkKind::SearchPath => "cargo:rustc-link-search=",
            LinkKind::Library => "cargo:rustc-link-lib=",
            LinkKind::StaticLibrary => "cargo:rustc-link-lib=static=",
            LinkKind::Framework => "cargo:rustc-link-lib=framework=",
        };
        String::from_str(head).concat(self.name.as_str())
    }
}

} // verus!
