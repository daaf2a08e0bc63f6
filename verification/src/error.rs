//! The failures a resolution can end in, as far as the resolution itself
//! decides them. A request that cannot be built or sent, and a body that
//! cannot be read, are the caller's to report.

use vstd::prelude::*;

verus! {

/// Why a resolution failed. Every variant that concerns a particular
/// package, version or digest carries it.
#[derive(Clone, Debug, PartialEq, Eq)]
pub enum ResolveError {
    /// The specifier has none of the four recognised shapes.
    UnknownSpecifier,
    /// The registry kept answering "not found" until the retries ran out.
    TooManyRequests { url: String, package_name: String },
    /// The registry answered with a status that is neither success nor
    /// "not found".
    PackageNotFound { url: String, package_name: String },
    /// No version could be selected for the specifier.
    VersionLookup { name: String },
    /// The selected version has no distribution metadata to take a digest
    /// from.
    HashLookup { version: String },
    /// The published integrity string is not an integrity string.
    HashParse { hash: String },
    /// No digest could be converted to its canonical hexadecimal form.
    IntegrityConversion,
}

/// What a [`ResolveError`] says, with its texts as character sequences.
pub ghost enum Failure {
    UnknownSpecifier,
    TooManyRequests { url: Seq<char>, package_name: Seq<char> },
    PackageNotFound { url: Seq<char>, package_name: Seq<char> },
    VersionLookup { name: Seq<char> },
    HashLookup { version: Seq<char> },
    HashParse { hash: Seq<char> },
    IntegrityConversion,
}

impl View for ResolveError {
    type V = Failure;

    open spec fn view(&self) -> Failure {
        match self {
            ResolveError::UnknownSpecifier => Failure::UnknownSpecifier,
            ResolveError::TooManyRequests { url, package_name } => Failure::TooManyRequests {
                url: url@,
                package_name: package_name@,
            },
            ResolveError::PackageNotFound { url, package_name } => Failure::PackageNotFound {
                url: url@,
                package_name: package_name@,
            },
            ResolveError::VersionLookup { name } => Failure::VersionLookup { name: name@ },
            ResolveError::HashLookup { version } => Failure::HashLookup { version: version@ },
            ResolveError::HashParse { hash } => Failure::HashParse { hash: hash@ },
            ResolveError::IntegrityConversion => Failure::IntegrityConversion,
        }
    }
}

} // verus!
