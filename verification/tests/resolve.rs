use volt_resolver::document::{DistMetadata, RegistryDocument};
use volt_resolver::error::ResolveError;
use volt_resolver::integrity::PublishedDigest;
use volt_resolver::outcome::{ResolutionOutcome, ResolvedPackage};
use volt_resolver::registry::{Decision, MAX_RETRIES};
use volt_resolver::resolve::{materialize, published, Resolution};
use volt_resolver::specifier::parse_specifier;

const BODY: &str = r#"{
  "dist-tags": {"latest": "1.2.0"},
  "versions": {
    "1.0.0": {"dist": {"tarball": "https://r.example/a-1.0.0.tgz", "shasum": "abc"}},
    "1.2.0": {"dependencies": {}, "dist": {"tarball": "https://r.example/a-1.2.0.tgz", "integrity": "sha512-aGVsbG8=", "shasum": "def"}},
    "2.0.0": {"dependencies": {"b": "^1.0.0"}, "dist": {"tarball": "https://r.example/a-2.0.0.tgz", "integrity": "sha1-aGVsbG8= sha512-d29ybGQ="}},
    "3.0.0": {"dist": {"tarball": "https://r.example/a-3.0.0.tgz"}},
    "4.0.0": {"dist": {"integrity": "sha512-aGVsbG8="}},
    "5.0.0": {"dependencies": {}},
    "6.0.0": {"dist": {"tarball": "https://r.example/a-6.0.0.tgz", "integrity": "sha999-aGVsbG8="}}
  }
}"#;

fn resolution(raw: &str) -> Resolution {
    Resolution::begin(parse_specifier(raw).unwrap()).unwrap()
}

fn resolve(raw: &str, body: &str) -> Result<ResolutionOutcome, ResolveError> {
    resolution(raw).on_body(body).unwrap()
}

fn package(name: &str, version: &str, tarball: &str, integrity: &str) -> ResolvedPackage {
    ResolvedPackage {
        name: name.to_string(),
        version: version.to_string(),
        tarball: tarball.to_string(),
        integrity: integrity.to_string(),
        bin: None,
        peer_dependencies: None,
        dependencies: None,
    }
}

fn outcome(requested: &str, version: &str, integrity: &str, package: Option<ResolvedPackage>) -> ResolutionOutcome {
    ResolutionOutcome {
        requested_name: requested.to_string(),
        resolved_version: version.to_string(),
        integrity: integrity.to_string(),
        package,
    }
}

#[test]
fn bare_name_resolves_to_latest() {
    assert_eq!(
        resolve("a", BODY),
        Ok(outcome(
            "a",
            "1.2.0",
            "sha512-68656c6c6f",
            Some(package("a", "1.2.0", "https://r.example/a-1.2.0.tgz", "sha512-68656c6c6f"))
        ))
    );
}

#[test]
fn scoped_name_resolves_to_latest() {
    let got = resolve("@scope/pkg", BODY).unwrap();
    assert_eq!(got.requested_name, "@scope/pkg");
    assert_eq!(got.resolved_version, "1.2.0");
    assert_eq!(got.package.unwrap().name, "@scope/pkg");
}

#[test]
fn bare_name_ignores_the_version_keys() {
    let body = r#"{"dist-tags": {"latest": "0.0.1"}, "versions": {"0.0.1": {"dist": {"shasum": "x", "tarball": "t"}}, "9.0.0": {}}}"#;
    assert_eq!(resolve("a", body).unwrap().resolved_version, "0.0.1");
}

#[test]
fn range_resolves_to_the_highest_match() {
    assert_eq!(
        resolve("a@^1.0.0", BODY),
        Ok(outcome(
            "a@^1.0.0",
            "1.2.0",
            "sha512-68656c6c6f",
            Some(package("a", "1.2.0", "https://r.example/a-1.2.0.tgz", "sha512-68656c6c6f"))
        ))
    );
}

#[test]
fn scoped_range_resolves_under_the_bare_name() {
    let got = resolve("@scope/a@1.0.0", BODY).unwrap();
    assert_eq!(got.requested_name, "@scope/a@1.0.0");
    assert_eq!(got.resolved_version, "1.0.0");
    let package = got.package.unwrap();
    assert_eq!(package.name, "@scope/a");
    assert_eq!(package.version, "1.0.0");
}

#[test]
fn package_carries_the_resolved_version_not_the_range() {
    for raw in ["a", "a@^1.0.0", "a@1.x", "@s/a@>=1.0.0 <2.0.0", "a@~1.0.0", "a@1.0.0"] {
        let got = resolve(raw, BODY).unwrap();
        let package = got.package.unwrap();
        assert_eq!(package.version, got.resolved_version);
        assert_eq!(package.integrity, got.integrity);
    }
    assert_eq!(resolve("a@^1.0.0", BODY).unwrap().package.unwrap().version, "1.2.0");
    assert_eq!(resolve("@s/a@^1.0.0", BODY).unwrap().package.unwrap().name, "@s/a");
}

#[test]
fn version_with_dependencies_gives_no_package() {
    assert_eq!(
        resolve("a@2.0.0", BODY),
        Ok(outcome("a@2.0.0", "2.0.0", "sha512-776f726c64", None))
    );
}

#[test]
fn absent_dependencies_give_a_package() {
    let got = resolve("a@1.0.0", BODY).unwrap();
    assert!(got.package.is_some());
}

#[test]
fn shasum_is_used_where_integrity_is_absent() {
    assert_eq!(
        resolve("a@1.0.0", BODY),
        Ok(outcome(
            "a@1.0.0",
            "1.0.0",
            "sha1-2261626322",
            Some(package("a", "1.0.0", "https://r.example/a-1.0.0.tgz", "sha1-2261626322"))
        ))
    );
}

#[test]
fn unsatisfied_range_is_a_version_lookup_failure() {
    assert_eq!(
        resolve("a@^7.0.0", BODY),
        Err(ResolveError::VersionLookup { name: "a@^7.0.0".to_string() })
    );
}

#[test]
fn missing_versions_are_a_version_lookup_failure() {
    assert_eq!(
        resolve("a@^1.0.0", r#"{"dist-tags": {"latest": "1.0.0"}}"#),
        Err(ResolveError::VersionLookup { name: "a@^1.0.0".to_string() })
    );
}

#[test]
fn missing_latest_is_a_version_lookup_failure() {
    assert_eq!(
        resolve("a", r#"{"versions": {}}"#),
        Err(ResolveError::VersionLookup { name: "a".to_string() })
    );
}

#[test]
fn missing_dist_is_a_hash_lookup_failure() {
    assert_eq!(
        resolve("a@5.0.0", BODY),
        Err(ResolveError::HashLookup { version: "5.0.0".to_string() })
    );
}

#[test]
fn latest_that_is_no_version_key_is_a_hash_lookup_failure() {
    assert_eq!(
        resolve("a", r#"{"dist-tags": {"latest": "8.0.0"}, "versions": {}}"#),
        Err(ResolveError::HashLookup { version: "8.0.0".to_string() })
    );
}

#[test]
fn dist_without_a_digest_is_a_hash_lookup_failure() {
    assert_eq!(
        resolve("a@3.0.0", BODY),
        Err(ResolveError::HashLookup { version: "3.0.0".to_string() })
    );
}

#[test]
fn package_without_a_tarball_is_a_hash_lookup_failure() {
    assert_eq!(
        resolve("a@4.0.0", BODY),
        Err(ResolveError::HashLookup { version: "4.0.0".to_string() })
    );
}

#[test]
fn unreadable_integrity_is_a_hash_parse_failure() {
    assert_eq!(
        resolve("a@6.0.0", BODY),
        Err(ResolveError::HashParse { hash: "sha999-aGVsbG8=".to_string() })
    );
}

#[test]
fn body_that_is_not_json_gives_no_answer() {
    assert!(resolution("a").on_body("not json").is_none());
}

#[test]
fn document_can_be_parsed_once_and_queried_twice() {
    let document = RegistryDocument::parse(BODY).unwrap();
    let first = resolution("a").on_document(&document).unwrap();
    let second = resolution("a@2.0.0").on_document(&document).unwrap();
    assert_eq!(first.resolved_version, "1.2.0");
    assert_eq!(second.resolved_version, "2.0.0");
    assert_eq!(resolution("a@~1.0.0").choose_version(&document), Ok("1.0.0".to_string()));
}

#[test]
fn range_with_a_long_prerelease_number_is_resolved() {
    assert!(Resolution::begin(parse_specifier("a@1.0.0-rc.12345678901").unwrap()).is_some());
    let body = r#"{"versions": {"1.0.0-rc.12345678901": {"dist": {"tarball": "t", "shasum": "s"}}}}"#;
    assert_eq!(resolve("a@1.0.0-rc.12345678901", body).unwrap().resolved_version, "1.0.0-rc.12345678901");
}

#[test]
fn unparsable_range_gives_no_resolution() {
    assert!(Resolution::begin(parse_specifier("a@not a range").unwrap()).is_none());
    assert!(Resolution::begin(parse_specifier("a@^1234567890.0.0").unwrap()).is_none());
}

#[test]
fn request_goes_to_the_bare_name() {
    assert_eq!(resolution("a").request_url(), "http://registry.npmjs.org/a");
    assert_eq!(resolution("a@^1.0.0").request_url(), "http://registry.npmjs.org/a");
    assert_eq!(resolution("@s/a@^1.0.0").request_url(), "http://registry.npmjs.org/@s/a");
    assert_eq!(resolution("@s/a").specifier().name, "@s/a");
}

#[test]
fn success_is_read() {
    let mut state = resolution("a");
    assert_eq!(state.on_status(200), Decision::ReadBody);
    assert_eq!(state.retries(), 0);
}

#[test]
fn not_found_is_retried_then_fails_as_too_many_requests() {
    for raw in ["a", "@s/a", "a@^1.0.0", "@s/a@^1.0.0"] {
        let mut state = resolution(raw);
        for spent in 0..MAX_RETRIES {
            assert_eq!(state.retries(), spent);
            assert_eq!(state.on_status(404), Decision::Retry);
        }
        assert_eq!(state.retries(), MAX_RETRIES);
        assert_eq!(
            state.on_status(404),
            Decision::Fail(ResolveError::TooManyRequests {
                url: format!("http://registry.npmjs.org/{}", raw),
                package_name: raw.to_string(),
            })
        );
        assert_eq!(state.retries(), MAX_RETRIES);
    }
}

#[test]
fn other_status_is_retried_without_a_version() {
    let mut state = resolution("a");
    for _ in 0..MAX_RETRIES {
        assert_eq!(state.on_status(500), Decision::Retry);
    }
    assert_eq!(
        state.on_status(500),
        Decision::Fail(ResolveError::PackageNotFound {
            url: "http://registry.npmjs.org/a".to_string(),
            package_name: "a".to_string(),
        })
    );
}

#[test]
fn other_status_fails_at_once_with_a_version() {
    let mut state = resolution("a@^1.0.0");
    assert_eq!(
        state.on_status(503),
        Decision::Fail(ResolveError::PackageNotFound {
            url: "http://registry.npmjs.org/a@^1.0.0".to_string(),
            package_name: "a@^1.0.0".to_string(),
        })
    );
    assert_eq!(state.retries(), 0);
}

#[test]
fn other_success_codes_are_no_success() {
    let mut state = resolution("a@1.0.0");
    assert!(matches!(state.on_status(204), Decision::Fail(ResolveError::PackageNotFound { .. })));
}

#[test]
fn retries_of_both_kinds_share_one_count() {
    let mut state = resolution("a");
    assert_eq!(state.on_status(404), Decision::Retry);
    assert_eq!(state.on_status(500), Decision::Retry);
    assert_eq!(state.on_status(404), Decision::Retry);
    assert_eq!(state.on_status(500), Decision::Retry);
    assert_eq!(state.on_status(404), Decision::Retry);
    assert!(matches!(state.on_status(500), Decision::Fail(ResolveError::PackageNotFound { .. })));
    assert_eq!(state.on_status(200), Decision::ReadBody);
}

#[test]
fn published_prefers_integrity_and_drops_its_quotes() {
    let both = DistMetadata {
        tarball: None,
        integrity: Some("\"sha512-aGVsbG8=\"".to_string()),
        shasum: Some("\"abc\"".to_string()),
    };
    assert_eq!(published(&both), Some(PublishedDigest::Integrity("sha512-aGVsbG8=".to_string())));
    let legacy = DistMetadata { tarball: None, integrity: None, shasum: Some("\"abc\"".to_string()) };
    assert_eq!(published(&legacy), Some(PublishedDigest::Shasum("\"abc\"".to_string())));
    let neither = DistMetadata { tarball: None, integrity: None, shasum: None };
    assert_eq!(published(&neither), None);
}

#[test]
fn materialize_depends_on_the_dependency_count() {
    let specifier = parse_specifier("a@^1.0.0").unwrap();
    let dist = DistMetadata { tarball: Some("\"https://t\"".to_string()), integrity: None, shasum: None };
    assert_eq!(
        materialize(&specifier, "1.2.0", &dist, "sha1-00", 0),
        Ok(Some(package("a", "1.2.0", "https://t", "sha1-00")))
    );
    assert_eq!(materialize(&specifier, "1.2.0", &dist, "sha1-00", 1), Ok(None));
    assert_eq!(materialize(&specifier, "1.2.0", &dist, "sha1-00", 7), Ok(None));
    let bare = DistMetadata { tarball: None, integrity: None, shasum: None };
    assert_eq!(
        materialize(&specifier, "1.2.0", &bare, "sha1-00", 0),
        Err(ResolveError::HashLookup { version: "1.2.0".to_string() })
    );
    assert_eq!(materialize(&specifier, "1.2.0", &bare, "sha1-00", 2), Ok(None));
}
