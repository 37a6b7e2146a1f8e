use mcsdk::upstream::{is_success_status, Fetched, UpstreamFailure};
use mcsdk::version::{
    accepts, check_valid_version, first_step, has_version_format, judge_version, validate_version, validation_step, LatestVersions,
    ValidationStep, VersionEntry, VersionManifest, VersionVerdict, MANIFEST_URL, VERSION_PATTERN,
};

fn manifest(ids: &[&str]) -> VersionManifest {
    VersionManifest {
        latest: LatestVersions { release: "1.20.4".to_string(), snapshot: "24w03b".to_string() },
        versions: ids
            .iter()
            .map(|id| VersionEntry { id: id.to_string(), version_type: "release".to_string() })
            .collect(),
    }
}

fn answered(ids: &[&str]) -> Fetched<VersionManifest> {
    Fetched::Answered { status: 200, body: Some(manifest(ids)) }
}

#[test]
fn pattern_and_address_are_fixed() {
    assert_eq!(VERSION_PATTERN, r"^1\.\d{1,2}\.\d{1,2}$");
    assert_eq!(MANIFEST_URL, "https://piston-meta.mojang.com/mc/game/version_manifest_v2.json");
}

#[test]
fn well_formed_versions_are_recognised() {
    assert!(has_version_format("1.20.4"));
    assert!(has_version_format("1.8.9"));
    assert!(has_version_format("1.0.0"));
    assert!(has_version_format("1.99.99"));
}

#[test]
fn malformed_versions_are_recognised() {
    for text in [
        "", "20.4", "1.20", "1.20.", "2.20.4", "1.200.4", "1.20.400", "1.20.4 ", " 1.20.4", "1.20.4\n", "1-20-4",
        "1.a.b", "v1.20.4", "1.20.4.1", "1..4", "11.20.4", "1x20x4", "none",
    ] {
        assert!(!has_version_format(text), "{:?} must not pass", text);
    }
}

#[test]
fn malformed_version_is_rejected_without_a_request() {
    for text in ["20.4", "", "1.20.400", "latest"] {
        assert_eq!(validation_step(text), ValidationStep::Reject);
    }
    assert_eq!(validation_step("1.20.4"), ValidationStep::FetchManifest);
}

#[test]
fn malformed_version_is_invalid_whatever_the_manifest_says() {
    let fetched = answered(&["20.4", "1.20.400", ""]);
    for text in ["20.4", "1.20.400", ""] {
        assert!(!check_valid_version(text, &fetched));
        assert_eq!(validate_version(text, &fetched), VersionVerdict::BadFormat);
    }
    assert!(!check_valid_version("20.4", &Fetched::Unreachable));
}

#[test]
fn unlisted_version_is_invalid() {
    let fetched = answered(&["1.20.3", "1.20.2", "1.19.4"]);
    assert!(!check_valid_version("1.20.4", &fetched));
    assert_eq!(validate_version("1.20.4", &fetched), VersionVerdict::Unknown);
    assert!(!check_valid_version("1.20.4", &answered(&[])));
}

#[test]
fn listed_version_is_valid() {
    let fetched = answered(&["1.20.4"]);
    assert!(check_valid_version("1.20.4", &fetched));
    assert_eq!(validate_version("1.20.4", &fetched), VersionVerdict::Valid);
    let longer = answered(&["1.21.0", "1.20.4", "1.20.3"]);
    assert!(check_valid_version("1.20.3", &longer));
    assert!(check_valid_version("1.21.0", &longer));
}

#[test]
fn latest_entries_do_not_make_a_version_listed() {
    let fetched = answered(&["1.19.4"]);
    assert!(!check_valid_version("1.20.4", &fetched));
}

#[test]
fn upstream_failures_make_a_version_invalid() {
    assert!(!check_valid_version("1.20.4", &Fetched::Unreachable));
    assert_eq!(
        validate_version("1.20.4", &Fetched::Unreachable),
        VersionVerdict::Upstream(UpstreamFailure::Unreachable)
    );
    let not_found: Fetched<VersionManifest> = Fetched::Answered { status: 404, body: None };
    assert!(!check_valid_version("1.20.4", &not_found));
    assert_eq!(validate_version("1.20.4", &not_found), VersionVerdict::Upstream(UpstreamFailure::Status(404)));
    let malformed: Fetched<VersionManifest> = Fetched::Answered { status: 200, body: None };
    assert!(!check_valid_version("1.20.4", &malformed));
    assert_eq!(validate_version("1.20.4", &malformed), VersionVerdict::Upstream(UpstreamFailure::Malformed));
}

#[test]
fn failing_status_hides_the_body() {
    let fetched = Fetched::Answered { status: 500, body: Some(manifest(&["1.20.4"])) };
    assert!(!check_valid_version("1.20.4", &fetched));
    assert_eq!(validate_version("1.20.4", &fetched), VersionVerdict::Upstream(UpstreamFailure::Status(500)));
}

#[test]
fn judgement_follows_the_format_flag() {
    let fetched = answered(&["1.20.4"]);
    assert_eq!(judge_version(true, "1.20.4", &fetched), VersionVerdict::Valid);
    assert_eq!(judge_version(false, "1.20.4", &fetched), VersionVerdict::BadFormat);
    assert_eq!(judge_version(true, "1.20.5", &fetched), VersionVerdict::Unknown);
}

#[test]
fn manifest_lists_exactly_its_ids() {
    let m = manifest(&["1.20.4", "1.8.9"]);
    assert!(m.lists("1.20.4"));
    assert!(m.lists("1.8.9"));
    assert!(!m.lists("1.8"));
    assert!(!m.lists(""));
    assert!(!manifest(&[]).lists("1.20.4"));
}

#[test]
fn success_range_of_status_codes() {
    assert!(!is_success_status(199));
    assert!(is_success_status(200));
    assert!(is_success_status(204));
    assert!(is_success_status(299));
    assert!(!is_success_status(300));
    assert!(!is_success_status(404));
    assert!(!is_success_status(0));
}

#[test]
fn body_of_a_report() {
    let ok: Fetched<u8> = Fetched::Answered { status: 200, body: Some(7) };
    assert_eq!(ok.body(), Ok(&7));
    let bad: Fetched<u8> = Fetched::Answered { status: 302, body: Some(7) };
    assert_eq!(bad.body(), Err(UpstreamFailure::Status(302)));
    let empty: Fetched<u8> = Fetched::Answered { status: 200, body: None };
    assert_eq!(empty.body(), Err(UpstreamFailure::Malformed));
    let gone: Fetched<u8> = Fetched::Unreachable;
    assert_eq!(gone.body(), Err(UpstreamFailure::Unreachable));
}

#[test]
fn only_a_compiled_and_matching_pattern_accepts() {
    assert!(accepts(Some(true)));
    assert!(!accepts(Some(false)));
    assert!(!accepts(None));
}

#[test]
fn first_step_follows_the_format() {
    assert_eq!(first_step(true), ValidationStep::FetchManifest);
    assert_eq!(first_step(false), ValidationStep::Reject);
}
