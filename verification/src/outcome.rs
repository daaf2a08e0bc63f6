//! What a resolution hands back.

use std::collections::HashMap;
use vstd::prelude::*;
use crate::text::texts_of;

verus! {

/// A package that can be fetched as it stands: one whose resolved version
/// declares no dependencies.
#[derive(Clone, Debug, PartialEq, Eq)]
pub struct ResolvedPackage {
    /// The package name the registry was asked for.
    pub name: String,
    /// The version that was selected.
    pub version: String,
    /// Where the tarball is.
    pub tarball: String,
    /// The canonical digest, as text.
    pub integrity: String,
    pub bin: Option<HashMap<String, String>>,
    pub peer_dependencies: Option<Vec<String>>,
    pub dependencies: Option<Vec<String>>,
}

/// A resolved package, its texts as character sequences.
pub ghost struct Package {
    pub name: Seq<char>,
    pub version: Seq<char>,
    pub tarball: Seq<char>,
    pub integrity: Seq<char>,
    pub bin: Option<Map<String, String>>,
    pub peer_dependencies: Option<Seq<Seq<char>>>,
    pub dependencies: Option<Seq<Seq<char>>>,
}

/// The view of an optional list of strings.
pub open spec fn optional_texts(list: Option<Vec<String>>) -> Option<Seq<Seq<char>>> {
    match list {
        Some(list) => Some(texts_of(list@)),
        None => None,
    }
}

impl View for ResolvedPackage {
    type V = Package;

    open spec fn view(&self) -> Package {
        Package {
            name: self.name@,
            version: self.version@,
            tarball: self.tarball@,
            integrity: self.integrity@,
            bin: match self.bin {
                Some(commands) => Some(commands@),
                None => None,
            },
            peer_dependencies: optional_texts(self.peer_dependencies),
            dependencies: optional_texts(self.dependencies),
        }
    }
}

/// The result of resolving one specifier.
#[derive(Clone, Debug, PartialEq, Eq)]
pub struct ResolutionOutcome {
    /// The specifier as it was given.
    pub requested_name: String,
    /// The version that was selected.
    pub resolved_version: String,
    /// The canonical digest of that version, as text.
    pub integrity: String,
    /// The package, where the version declares no dependencies. `None`
    /// tells the caller to resolve the package through its dependency
    /// graph.
    pub package: Option<ResolvedPackage>,
}

/// The result of resolving one specifier, its texts as character
/// sequences.
pub ghost struct Outcome {
    pub requested_name: Seq<char>,
    pub resolved_version: Seq<char>,
    pub integrity: Seq<char>,
    pub package: Option<Package>,
}

impl View for ResolutionOutcome {
    type V = Outcome;

    open spec fn view(&self) -> Outcome {
        Outcome {
            requested_name: self.requested_name@,
            resolved_version: self.resolved_version@,
            integrity: self.integrity@,
            package: match self.package {
                Some(package) => Some(package@),
                None => None,
            },
        }
    }
}

} // verus!
