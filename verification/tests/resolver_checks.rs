use mcsdk::resolver::{
    download_server_software, resolve_download_url, ArtifactReference, CatalogEntry, DownloadCatalog,
    Paper_get_Download_link, ResolutionError, ARTIFACT_FILE,
};
use mcsdk::software::{Software, PAPER_LOOKUP_URL};
use mcsdk::upstream::{Fetched, UpstreamFailure};

fn catalog(latest: &str, entries: &[(&str, &str)]) -> Fetched<DownloadCatalog> {
    Fetched::Answered {
        status: 200,
        body: Some(DownloadCatalog {
            latest: latest.to_string(),
            versions: entries.iter().map(|(id, url)| CatalogEntry { id: id.to_string(), url: url.to_string() }).collect(),
        }),
    }
}

#[test]
fn link_of_a_listed_version() {
    let fetched = catalog("1.20.4", &[("1.20.3", "https://e.test/3.jar"), ("1.20.4", "https://e.test/4.jar")]);
    assert_eq!(Paper_get_Download_link(Some("1.20.4"), &fetched), Ok("https://e.test/4.jar".to_string()));
    assert_eq!(Paper_get_Download_link(Some("1.20.3"), &fetched), Ok("https://e.test/3.jar".to_string()));
}

#[test]
fn link_of_the_latest_version_when_none_is_asked_for() {
    let fetched = catalog("1.20.3", &[("1.20.3", "https://e.test/3.jar"), ("1.20.4", "https://e.test/4.jar")]);
    assert_eq!(Paper_get_Download_link(None, &fetched), Ok("https://e.test/3.jar".to_string()));
}

#[test]
fn missing_version_is_named_in_the_error() {
    let fetched = catalog("1.20.4", &[("1.20.4", "https://e.test/4.jar")]);
    assert_eq!(
        Paper_get_Download_link(Some("1.19.4"), &fetched),
        Err(ResolutionError::VersionNotFound("1.19.4".to_string()))
    );
    let stale = catalog("1.21.0", &[("1.20.4", "https://e.test/4.jar")]);
    assert_eq!(Paper_get_Download_link(None, &stale), Err(ResolutionError::VersionNotFound("1.21.0".to_string())));
}

#[test]
fn last_entry_of_a_repeated_version_counts() {
    let fetched = catalog("1.20.4", &[("1.20.4", "https://e.test/old.jar"), ("1.20.4", "https://e.test/new.jar")]);
    assert_eq!(Paper_get_Download_link(Some("1.20.4"), &fetched), Ok("https://e.test/new.jar".to_string()));
}

#[test]
fn upstream_failures_are_passed_on() {
    let gone: Fetched<DownloadCatalog> = Fetched::Unreachable;
    assert_eq!(
        Paper_get_Download_link(Some("1.20.4"), &gone),
        Err(ResolutionError::UpstreamUnavailable(UpstreamFailure::Unreachable))
    );
    let status: Fetched<DownloadCatalog> = Fetched::Answered { status: 503, body: None };
    assert_eq!(
        Paper_get_Download_link(None, &status),
        Err(ResolutionError::UpstreamUnavailable(UpstreamFailure::Status(503)))
    );
    let malformed: Fetched<DownloadCatalog> = Fetched::Answered { status: 200, body: None };
    assert_eq!(
        Paper_get_Download_link(Some("1.20.4"), &malformed),
        Err(ResolutionError::UpstreamUnavailable(UpstreamFailure::Malformed))
    );
}

#[test]
fn catalog_link_lookup() {
    let doc = DownloadCatalog {
        latest: "b".to_string(),
        versions: vec![
            CatalogEntry { id: "a".to_string(), url: "u1".to_string() },
            CatalogEntry { id: "b".to_string(), url: "u2".to_string() },
            CatalogEntry { id: "a".to_string(), url: "u3".to_string() },
        ],
    };
    assert_eq!(doc.link("a"), Some("u3".to_string()));
    assert_eq!(doc.link("b"), Some("u2".to_string()));
    assert_eq!(doc.link("c"), None);
}

#[test]
fn family_without_lookup_resolves_to_nothing() {
    let fetched = catalog("1.20.4", &[("1.20.4", "https://e.test/4.jar")]);
    assert_eq!(resolve_download_url(Software::Spigot, Some("1.20.4"), &fetched), Ok(None));
    assert_eq!(resolve_download_url(Software::Spigot, None, &Fetched::Unreachable), Ok(None));
    assert_eq!(download_server_software(Software::Spigot, "1.20.4", "/srv/w", &Fetched::Unreachable), Ok(None));
}

#[test]
fn family_with_lookup_resolves_through_the_catalog() {
    let fetched = catalog("1.20.4", &[("1.20.4", "https://e.test/4.jar")]);
    assert_eq!(
        resolve_download_url(Software::Paper, Some("1.20.4"), &fetched),
        Ok(Some("https://e.test/4.jar".to_string()))
    );
    assert_eq!(
        resolve_download_url(Software::Paper, Some("1.0.0"), &fetched),
        Err(ResolutionError::VersionNotFound("1.0.0".to_string()))
    );
}

#[test]
fn artifact_goes_into_the_workspace_as_server_jar() {
    let fetched = catalog("1.20.4", &[("1.20.4", "https://e.test/4.jar")]);
    assert_eq!(ARTIFACT_FILE, "server.jar");
    assert_eq!(
        download_server_software(Software::Paper, "1.20.4", "/srv/w", &fetched),
        Ok(Some(ArtifactReference {
            url: "https://e.test/4.jar".to_string(),
            directory: "/srv/w".to_string(),
            file_name: "server.jar".to_string(),
        }))
    );
    assert_eq!(
        download_server_software(Software::Paper, "1.20.4", "/srv/w", &Fetched::Unreachable),
        Err(ResolutionError::UpstreamUnavailable(UpstreamFailure::Unreachable))
    );
}

#[test]
fn software_names_and_addresses() {
    assert_eq!(Software::Paper.name(), "Paper");
    assert_eq!(Software::Spigot.name(), "Spigot");
    assert_eq!(Software::Paper.lookup_url(), Some("https://qing762.is-a.dev/api/papermc"));
    assert_eq!(Software::Paper.lookup_url(), Some(PAPER_LOOKUP_URL));
    assert_eq!(Software::Spigot.lookup_url(), None);
}
