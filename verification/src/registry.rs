//! What is asked of the registry, and what each answer's status means for
//! the resolution that asked.
//!
//! The policy, by status: success is read. "Not found" is asked again until
//! [`MAX_RETRIES`] retries are spent, then fails as too many requests. Any
//! other status fails at once as "package not found" where the specifier
//! carries a version, and is asked again like "not found" where it carries
//! none, then fails as "package not found".

use vstd::prelude::*;
use crate::error::{Failure, ResolveError};

verus! {

/// How many times one resolution repeats its request.
pub const MAX_RETRIES: u32 = 5;

/// The address of a package's document.
pub open spec fn registry_url(name: Seq<char>) -> Seq<char> {
    "http://registry.npmjs.org/"@ + name
}

/// The address of the document of the package `name`.
pub fn package_url(name: &str) -> (r: String)
    ensures
        r@ == registry_url(name@),
{
    let mut r = "http://registry.npmjs.org/".to_owned();
    r.append(name);
    r
}

/// The value of the `Accept` header: the abbreviated metadata format
/// first.
pub fn accept_header() -> (r: &'static str)
    ensures
        r@ == "application/vnd.npm.install-v1+json; q=1.0, application/json; q=0.8, */*"@,
{
    "application/vnd.npm.install-v1+json; q=1.0, application/json; q=0.8, */*"
}

/// What a response status means to the retry policy.
#[derive(Clone, Copy, PartialEq, Eq, Structural, Debug)]
pub enum StatusClass {
    /// 200.
    Success,
    /// 404.
    NotFound,
    /// Anything else.
    Other,
}

/// The class of a status code.
pub open spec fn status_class(code: u16) -> StatusClass {
    if code == 200 {
        StatusClass::Success
    } else if code == 404 {
        StatusClass::NotFound
    } else {
        StatusClass::Other
    }
}

/// Classifies a status code.
pub fn classify_status(code: u16) -> (r: StatusClass)
    ensures
        r == status_class(code),
{
    if code == 200 {
        StatusClass::Success
    } else if code == 404 {
        StatusClass::NotFound
    } else {
        StatusClass::Other
    }
}

/// What to do after a response.
#[derive(Clone, Debug, PartialEq, Eq)]
pub enum Decision {
    /// Read the body and resolve from it.
    ReadBody,
    /// Send the request again.
    Retry,
    /// Give up with this error.
    Fail(ResolveError),
}

/// What to do after a response, an error as its view.
pub ghost enum Verdict {
    ReadBody,
    Retry,
    Fail(Failure),
}

impl View for Decision {
    type V = Verdict;

    open spec fn view(&self) -> Verdict {
        match self {
            Decision::ReadBody => Verdict::ReadBody,
            Decision::Retry => Verdict::Retry,
            Decision::Fail(error) => Verdict::Fail(error@),
        }
    }
}

/// The policy: what a resolution of the specifier `raw` does after a
/// response of class `status`, having retried `retries` times. The errors
/// name the specifier and the address made from it.
pub open spec fn verdict(versioned: bool, retries: nat, status: StatusClass, raw: Seq<char>)
    -> Verdict {
    match status {
        StatusClass::Success => Verdict::ReadBody,
        StatusClass::NotFound => if retries >= MAX_RETRIES {
            Verdict::Fail(Failure::TooManyRequests { url: registry_url(raw), package_name: raw })
        } else {
            Verdict::Retry
        },
        StatusClass::Other => if versioned || retries >= MAX_RETRIES {
            Verdict::Fail(Failure::PackageNotFound { url: registry_url(raw), package_name: raw })
        } else {
            Verdict::Retry
        },
    }
}

/// "Not found" is asked again exactly [`MAX_RETRIES`] times, whatever the
/// specifier's shape, and then fails as too many requests, naming the
/// specifier.
pub proof fn lemma_not_found_exhausts(versioned: bool, retries: nat, raw: Seq<char>)
    ensures
        retries < MAX_RETRIES ==> verdict(versioned, retries, StatusClass::NotFound, raw)
            == Verdict::Retry,
        retries >= MAX_RETRIES ==> verdict(versioned, retries, StatusClass::NotFound, raw)
            == Verdict::Fail(
            Failure::TooManyRequests { url: registry_url(raw), package_name: raw },
        ),
{
}

/// A request is repeated only while retries are left, so one resolution
/// sends at most one request more than [`MAX_RETRIES`].
pub proof fn lemma_retry_is_bounded(
    versioned: bool,
    retries: nat,
    status: StatusClass,
    raw: Seq<char>,
)
    ensures
        verdict(versioned, retries, status, raw) is Retry ==> retries < MAX_RETRIES,
{
}

/// Applies the policy.
pub fn decide(versioned: bool, retries: u32, status: StatusClass, raw: &str) -> (r: Decision)
    ensures
        r@ == verdict(versioned, retries as nat, status, raw@),
{
    match status {
        StatusClass::Success => Decision::ReadBody,
        StatusClass::NotFound => if retries >= MAX_RETRIES {
            Decision::Fail(
                ResolveError::TooManyRequests {
                    url: package_url(raw),
                    package_name: raw.to_owned(),
                },
            )
        } else {
            Decision::Retry
        },
        StatusClass::Other => if versioned || retries >= MAX_RETRIES {
            Decision::Fail(
                ResolveError::PackageNotFound {
                    url: package_url(raw),
                    package_name: raw.to_owned(),
                },
            )
        } else {
            Decision::Retry
        },
    }
}

} // verus!
