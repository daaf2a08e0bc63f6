//! One resolution, from specifier to outcome.
//!
//! A [`Resolution`] is made from a specifier, says which address to ask,
//! decides after each response whether to read it, ask again or give up,
//! and turns the document it is given into the outcome. It sends nothing
//! itself.

use vstd::prelude::*;
use crate::document::{
    doc_dependency_count,
    doc_distribution,
    doc_latest,
    doc_version_keys,
    json_valid,
    Dist,
    DistMetadata,
    RegistryDocument,
};
use crate::error::{Failure, ResolveError};
use crate::integrity::{normalize, normalized, rendered, Published, PublishedDigest};
use crate::outcome::{Outcome, Package, ResolutionOutcome, ResolvedPackage};
use crate::registry::{
    classify_status,
    decide,
    package_url,
    registry_url,
    status_class,
    verdict,
    Decision,
    Verdict,
    MAX_RETRIES,
};
use crate::semver::{range_text_safe, semver_range_ok, semver_text, SemverRange};
use crate::specifier::{PackageSpecifier, Specifier};
use crate::text::{remove_char, without};
use crate::version::{is_highest, select_version, selected};

verus! {

/// The version that a document gives for a specifier.
///
/// Without a range it is the one the `latest` tag points to. With a range
/// it is the selected one among the document's version keys, as
/// `semver_rs` writes it. Where there is none, the lookup fails and names
/// the specifier.
pub open spec fn chosen_version(specifier: Specifier, body: Seq<char>) -> Result<
    Seq<char>,
    Failure,
> {
    match specifier.constraint {
        None => match doc_latest(body) {
            Some(version) => Ok(version),
            None => Err(Failure::VersionLookup { name: specifier.raw }),
        },
        Some(range) => match doc_version_keys(body) {
            Some(keys) => if selected(range, keys) >= 0 {
                Ok(semver_text(keys[selected(range, keys)]))
            } else {
                Err(Failure::VersionLookup { name: specifier.raw })
            },
            None => Err(Failure::VersionLookup { name: specifier.raw }),
        },
    }
}

/// Whether the version chosen for a specifier with a range is the highest
/// that the range accepts among the document's version keys.
pub open spec fn chosen_is_highest(specifier: Specifier, body: Seq<char>) -> bool {
    match (specifier.constraint, doc_version_keys(body)) {
        (Some(range), Some(keys)) => selected(range, keys) >= 0 ==> is_highest(
            range,
            keys,
            selected(range, keys),
        ),
        _ => true,
    }
}

/// The digest that distribution metadata publishes: the integrity string
/// where there is one, written without its quotes, else the checksum as
/// the document writes it.
pub open spec fn published_digest(dist: Dist) -> Option<Published> {
    match dist.integrity {
        Some(text) => Some(Published::Integrity(without(text, '"'))),
        None => match dist.shasum {
            Some(text) => Some(Published::Shasum(text)),
            None => None,
        },
    }
}

/// The package of an outcome.
///
/// A version without dependencies gives a package, which carries the bare
/// name, that version and the digest, and for which the metadata must hold
/// a tarball address. A version with dependencies gives none.
pub open spec fn materialized(
    specifier: Specifier,
    version: Seq<char>,
    dist: Dist,
    integrity: Seq<char>,
    dependencies: nat,
) -> Result<Option<Package>, Failure> {
    if dependencies == 0 {
        match dist.tarball {
            Some(tarball) => Ok(
                Some(
                    Package {
                        name: specifier.name,
                        version,
                        tarball: without(tarball, '"'),
                        integrity,
                        bin: None,
                        peer_dependencies: None,
                        dependencies: None,
                    },
                ),
            ),
            None => Err(Failure::HashLookup { version }),
        }
    } else {
        Ok(None)
    }
}

/// The outcome for a specifier and a version of a document.
///
/// Fails as a hash lookup, naming the version, where the version has no
/// distribution metadata, or the metadata holds no digest, or a package is
/// due and the metadata holds no tarball address. Fails as normalising the
/// digest fails.
pub open spec fn outcome_for(specifier: Specifier, body: Seq<char>, version: Seq<char>) -> Result<
    Outcome,
    Failure,
> {
    match doc_distribution(body, version) {
        None => Err(Failure::HashLookup { version }),
        Some(dist) => match published_digest(dist) {
            None => Err(Failure::HashLookup { version }),
            Some(published) => match normalized(published) {
                Err(failure) => Err(failure),
                Ok(digest) => match materialized(
                    specifier,
                    version,
                    dist,
                    rendered(digest),
                    doc_dependency_count(body, version),
                ) {
                    Err(failure) => Err(failure),
                    Ok(package) => Ok(
                        Outcome {
                            requested_name: specifier.raw,
                            resolved_version: version,
                            integrity: rendered(digest),
                            package,
                        },
                    ),
                },
            },
        },
    }
}

/// The outcome of resolving a specifier from a document.
pub open spec fn resolved(specifier: Specifier, body: Seq<char>) -> Result<Outcome, Failure> {
    match chosen_version(specifier, body) {
        Err(failure) => Err(failure),
        Ok(version) => outcome_for(specifier, body, version),
    }
}

/// A specifier without a constraint is resolved from the `latest` tag
/// alone: the version keys and the range order play no part.
pub proof fn lemma_unversioned_takes_latest(specifier: Specifier, body: Seq<char>)
    requires
        specifier.constraint is None,
    ensures
        chosen_version(specifier, body) == match doc_latest(body) {
            Some(version) => Ok::<Seq<char>, Failure>(version),
            None => Err::<Seq<char>, Failure>(Failure::VersionLookup { name: specifier.raw }),
        },
{
}

/// An outcome holds a package exactly when its version declares no
/// dependencies.
pub proof fn lemma_package_iff_no_dependencies(specifier: Specifier, body: Seq<char>)
    ensures
        resolved(specifier, body) matches Ok(outcome) ==> (outcome.package is Some
            <==> doc_dependency_count(body, outcome.resolved_version) == 0),
{
}

/// An outcome names the specifier as it was given, and its package, where
/// it has one, carries the bare name, the resolved version and the
/// outcome's digest.
pub proof fn lemma_package_agrees_with_outcome(specifier: Specifier, body: Seq<char>)
    ensures
        resolved(specifier, body) matches Ok(outcome) ==> outcome.requested_name == specifier.raw
            && (outcome.package matches Some(package) ==> package.name == specifier.name
            && package.version == outcome.resolved_version && package.integrity
            == outcome.integrity),
{
}

/// Whether `r` is the executable form of `expected`.
pub open spec fn outcome_result_is(
    r: Result<ResolutionOutcome, ResolveError>,
    expected: Result<Outcome, Failure>,
) -> bool {
    match r {
        Ok(outcome) => expected == Ok::<Outcome, Failure>(outcome@),
        Err(error) => expected == Err::<Outcome, Failure>(error@),
    }
}

/// Builds the package of an outcome.
pub fn materialize(
    specifier: &PackageSpecifier,
    version: &str,
    dist: &DistMetadata,
    integrity: &str,
    dependencies: usize,
) -> (r: Result<Option<ResolvedPackage>, ResolveError>)
    ensures
        match r {
            Ok(Some(package)) => materialized(
                specifier@,
                version@,
                dist@,
                integrity@,
                dependencies as nat,
            ) == Ok::<Option<Package>, Failure>(Some(package@)),
            Ok(None) => materialized(specifier@, version@, dist@, integrity@, dependencies as nat)
                == Ok::<Option<Package>, Failure>(None),
            Err(error) => materialized(specifier@, version@, dist@, integrity@, dependencies as nat)
                == Err::<Option<Package>, Failure>(error@),
        },
{
    if dependencies == 0 {
        match &dist.tarball {
            Some(tarball) => Ok(
                Some(
                    ResolvedPackage {
                        name: specifier.name.clone(),
                        version: version.to_owned(),
                        tarball: remove_char(tarball.as_str(), '"'),
                        integrity: integrity.to_owned(),
                        bin: None,
                        peer_dependencies: None,
                        dependencies: None,
                    },
                ),
            ),
            None => Err(ResolveError::HashLookup { version: version.to_owned() }),
        }
    } else {
        Ok(None)
    }
}

/// Picks the digest that distribution metadata publishes.
pub fn published(dist: &DistMetadata) -> (r: Option<PublishedDigest>)
    ensures
        match r {
            Some(digest) => published_digest(dist@) == Some(digest@),
            None => published_digest(dist@) is None,
        },
{
    match &dist.integrity {
        Some(text) => Some(PublishedDigest::Integrity(remove_char(text.as_str(), '"'))),
        None => match &dist.shasum {
            Some(text) => Some(PublishedDigest::Shasum(text.clone())),
            None => None,
        },
    }
}

/// What is known of a resolution under way.
pub ghost struct Progress {
    pub specifier: Specifier,
    pub retries: nat,
}

/// A resolution under way: its specifier, the range parsed from the
/// specifier's constraint, and the retries spent.
pub struct Resolution {
    specifier: PackageSpecifier,
    range: Option<SemverRange>,
    retries: u32,
}

impl View for Resolution {
    type V = Progress;

    closed spec fn view(&self) -> Progress {
        Progress { specifier: self.specifier@, retries: self.retries as nat }
    }
}

impl Resolution {
    #[verifier::type_invariant]
    spec fn well_formed(self) -> bool {
        &&& self.retries <= MAX_RETRIES
        &&& match self.specifier.constraint {
            Some(text) => self.range matches Some(range) && range@ == text@,
            None => self.range is None,
        }
    }

    /// Starts a resolution. A range is parsed only where the specifier
    /// carries a constraint, and there is no resolution where that
    /// constraint cannot be parsed as a range.
    pub fn begin(specifier: PackageSpecifier) -> (r: Option<Resolution>)
        ensures
            r is Some <==> (specifier@.constraint matches Some(text) ==> range_text_safe(text)
                && semver_range_ok(text)),
            r matches Some(resolution) ==> resolution@ == (Progress {
                specifier: specifier@,
                retries: 0,
            }),
    {
        let range = match &specifier.constraint {
            Some(text) => match SemverRange::parse(text.as_str()) {
                Some(range) => Some(range),
                None => {
                    return None;
                },
            },
            None => None,
        };
        Some(Resolution { specifier, range, retries: 0 })
    }

    /// The specifier being resolved.
    pub fn specifier(&self) -> (r: &PackageSpecifier)
        ensures
            r@ == self@.specifier,
    {
        &self.specifier
    }

    /// How many retries are spent.
    pub fn retries(&self) -> (r: u32)
        ensures
            r == self@.retries,
            r <= MAX_RETRIES,
    {
        proof {
            use_type_invariant(self);
        }
        self.retries
    }

    /// The address to ask: that of the bare package name.
    pub fn request_url(&self) -> (r: String)
        ensures
            r@ == registry_url(self@.specifier.name),
    {
        package_url(self.specifier.name.as_str())
    }

    /// Takes a response's status and says what to do next. A retry is
    /// counted.
    pub fn on_status(&mut self, code: u16) -> (r: Decision)
        ensures
            r@ == verdict(
                old(self)@.specifier.constraint is Some,
                old(self)@.retries,
                status_class(code),
                old(self)@.specifier.raw,
            ),
            final(self)@.specifier == old(self)@.specifier,
            final(self)@.retries == old(self)@.retries + if r@ is Retry { 1nat } else { 0nat },
    {
        proof {
            use_type_invariant(&*self);
        }
        let decision = decide(
            self.specifier.constraint.is_some(),
            self.retries,
            classify_status(code),
            self.specifier.raw.as_str(),
        );
        match &decision {
            Decision::Retry => {
                self.retries = self.retries + 1;
            },
            _ => {},
        }
        decision
    }

    /// Selects the version that the document gives for the specifier. For
    /// a specifier with a range it is the highest that the range accepts.
    pub fn choose_version(&self, document: &RegistryDocument) -> (r: Result<String, ResolveError>)
        ensures
            chosen_is_highest(self@.specifier, document@),
            match r {
                Ok(version) => chosen_version(self@.specifier, document@) == Ok::<
                    Seq<char>,
                    Failure,
                >(version@),
                Err(error) => chosen_version(self@.specifier, document@) == Err::<
                    Seq<char>,
                    Failure,
                >(error@),
            },
    {
        proof {
            use_type_invariant(self);
        }
        match &self.range {
            None => match document.latest() {
                Some(version) => Ok(version),
                None => Err(ResolveError::VersionLookup { name: self.specifier.raw.clone() }),
            },
            Some(range) => match document.version_keys() {
                Some(keys) => match select_version(range, &keys) {
                    Some(chosen) => Ok(chosen.version),
                    None => Err(ResolveError::VersionLookup { name: self.specifier.raw.clone() }),
                },
                None => Err(ResolveError::VersionLookup { name: self.specifier.raw.clone() }),
            },
        }
    }

    /// Resolves the specifier from a parsed document.
    pub fn on_document(&self, document: &RegistryDocument) -> (r: Result<
        ResolutionOutcome,
        ResolveError,
    >)
        ensures
            outcome_result_is(r, resolved(self@.specifier, document@)),
            chosen_is_highest(self@.specifier, document@),
    {
        let version = match self.choose_version(document) {
            Ok(version) => version,
            Err(error) => {
                return Err(error);
            },
        };
        let dist = match document.distribution(version.as_str()) {
            Some(dist) => dist,
            None => {
                return Err(ResolveError::HashLookup { version });
            },
        };
        let source = match published(&dist) {
            Some(source) => source,
            None => {
                return Err(ResolveError::HashLookup { version });
            },
        };
        let digest = match normalize(&source) {
            Ok(digest) => digest,
            Err(error) => {
                return Err(error);
            },
        };
        let integrity = digest.render();
        let dependencies = document.dependency_count(version.as_str());
        match materialize(
            &self.specifier,
            version.as_str(),
            &dist,
            integrity.as_str(),
            dependencies,
        ) {
            Ok(package) => Ok(
                ResolutionOutcome {
                    requested_name: self.specifier.raw.clone(),
                    resolved_version: version,
                    integrity,
                    package,
                },
            ),
            Err(error) => Err(error),
        }
    }

    /// Resolves the specifier from a response body. There is no answer
    /// where the body is not JSON.
    pub fn on_body(&self, body: &str) -> (r: Option<Result<ResolutionOutcome, ResolveError>>)
        ensures
            r is Some <==> json_valid(body@),
            r matches Some(result) ==> outcome_result_is(result, resolved(self@.specifier, body@))
                && chosen_is_highest(self@.specifier, body@),
    {
        match RegistryDocument::parse(body) {
            Some(document) => Some(self.on_document(&document)),
            None => None,
        }
    }
}

} // verus!
