use volt_resolver::batch::collect_outcomes;
use volt_resolver::error::ResolveError;
use volt_resolver::outcome::ResolutionOutcome;
use volt_resolver::registry::Decision;
use volt_resolver::resolve::Resolution;
use volt_resolver::specifier::parse_specifier;

fn outcome(name: &str) -> ResolutionOutcome {
    ResolutionOutcome {
        requested_name: name.to_string(),
        resolved_version: "1.0.0".to_string(),
        integrity: "sha1-00".to_string(),
        package: None,
    }
}

/// Resolves one specifier against a registry that answers every request
/// with the given status, and with `body` on success.
fn run(raw: &str, status: u16, body: &str) -> Result<ResolutionOutcome, ResolveError> {
    let mut state = Resolution::begin(parse_specifier(raw)?).unwrap();
    loop {
        match state.on_status(status) {
            Decision::ReadBody => return state.on_body(body).unwrap(),
            Decision::Retry => {}
            Decision::Fail(error) => return Err(error),
        }
    }
}

#[test]
fn outcomes_keep_the_order_of_the_specifiers() {
    let got = collect_outcomes::<ResolveError>(vec![Ok(outcome("a")), Ok(outcome("b")), Ok(outcome("c"))]).unwrap();
    let names: Vec<&str> = got.iter().map(|o| o.requested_name.as_str()).collect();
    assert_eq!(names, vec!["a", "b", "c"]);
}

#[test]
fn duplicates_are_kept() {
    let got = collect_outcomes::<ResolveError>(vec![Ok(outcome("a")), Ok(outcome("a"))]).unwrap();
    assert_eq!(got, vec![outcome("a"), outcome("a")]);
}

#[test]
fn empty_batch_succeeds_with_nothing() {
    let nothing: Vec<Result<ResolutionOutcome, ResolveError>> = Vec::new();
    assert_eq!(collect_outcomes(nothing), Ok(Vec::new()));
}

#[test]
fn one_failure_fails_the_batch() {
    let got = collect_outcomes(vec![
        Ok(outcome("a")),
        Err(ResolveError::VersionLookup { name: "b".to_string() }),
        Ok(outcome("c")),
    ]);
    assert_eq!(got, Err(ResolveError::VersionLookup { name: "b".to_string() }));
}

#[test]
fn first_failure_in_order_is_reported() {
    let got = collect_outcomes(vec![
        Ok(outcome("a")),
        Err(ResolveError::IntegrityConversion),
        Err(ResolveError::UnknownSpecifier),
    ]);
    assert_eq!(got, Err(ResolveError::IntegrityConversion));
}

#[test]
fn failures_of_any_type_are_handed_back_as_they_are() {
    let results: Vec<Result<ResolutionOutcome, (u8, String)>> =
        vec![Ok(outcome("a")), Err((7, "b".to_string())), Err((9, "c".to_string()))];
    assert_eq!(collect_outcomes(results), Err((7, "b".to_string())));
}

#[test]
fn batch_of_three_resolves_in_order() {
    let body = r#"{"dist-tags": {"latest": "1.0.0"}, "versions": {"1.0.0": {"dist": {"tarball": "t", "shasum": "s"}}}}"#;
    let results = vec![run("a", 200, body), run("b", 200, body), run("c", 200, body)];
    let got = collect_outcomes(results).unwrap();
    let names: Vec<&str> = got.iter().map(|o| o.requested_name.as_str()).collect();
    assert_eq!(names, vec!["a", "b", "c"]);
}

#[test]
fn exhausted_retries_fail_the_batch_and_name_the_specifier() {
    let body = r#"{"dist-tags": {"latest": "1.0.0"}, "versions": {"1.0.0": {"dist": {"tarball": "t", "shasum": "s"}}}}"#;
    let results = vec![run("a", 200, body), run("missing", 404, body), run("c", 200, body)];
    assert_eq!(
        collect_outcomes(results),
        Err(ResolveError::TooManyRequests {
            url: "http://registry.npmjs.org/missing".to_string(),
            package_name: "missing".to_string(),
        })
    );
}

#[test]
fn malformed_specifier_fails_before_any_request() {
    assert_eq!(run("a@b@c@d", 200, "{}"), Err(ResolveError::UnknownSpecifier));
    assert_eq!(
        collect_outcomes(vec![Ok(outcome("a")), run("a@b@c@d", 200, "{}")]),
        Err(ResolveError::UnknownSpecifier)
    );
}
