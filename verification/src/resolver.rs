//! From a software family and a version to the artifact to download.

use vstd::prelude::*;
use vstd::string::*;
use crate::paths::{join_path, joined};
use crate::software::Software;
use crate::text::text_of;
use crate::upstream::{Fetched, UpstreamFailure};

verus! {

/// The file name under which the server artifact is stored in a workspace.
pub const ARTIFACT_FILE: &'static str = "server.jar";

/// One line of the lookup document: a version and where to download it.
#[derive(Clone, Debug, PartialEq, Eq)]
pub struct CatalogEntry {
    pub id: String,
    pub url: String,
}

/// The lookup document of a software family. Where an identifier occurs more
/// than once in `versions`, its last entry counts.
#[derive(Clone, Debug, PartialEq, Eq)]
pub struct DownloadCatalog {
    pub latest: String,
    pub versions: Vec<CatalogEntry>,
}

/// The lookup table that a list of entries stands for.
pub open spec fn links_of(entries: Seq<CatalogEntry>) -> Map<Seq<char>, Seq<char>>
    decreases entries.len(),
{
    if entries.len() == 0 {
        Map::empty()
    } else {
        links_of(entries.drop_last()).insert(entries.last().id@, entries.last().url@)
    }
}

/// An identifier that no entry carries is not in the table.
pub proof fn lemma_links_absent(entries: Seq<CatalogEntry>, id: Seq<char>)
    requires
        forall|j: int| 0 <= j < entries.len() ==> (#[trigger] entries[j]).id@ != id,
    ensures
        !links_of(entries).contains_key(id),
    decreases entries.len(),
{
    if entries.len() > 0 {
        let front = entries.drop_last();
        assert forall|j: int| 0 <= j < front.len() implies (#[trigger] front[j]).id@ != id by {
            assert(front[j] == entries[j]);
        }
        lemma_links_absent(front, id);
        assert(entries.last() == entries[entries.len() - 1]);
    }
}

/// The table maps an identifier to the link of its last entry.
pub proof fn lemma_links_last_wins(entries: Seq<CatalogEntry>, id: Seq<char>, i: int)
    requires
        0 <= i < entries.len(),
        entries[i].id@ == id,
        forall|j: int| i < j < entries.len() ==> (#[trigger] entries[j]).id@ != id,
    ensures
        links_of(entries).contains_key(id),
        links_of(entries)[id] == entries[i].url@,
    decreases entries.len(),
{
    let front = entries.drop_last();
    assert(entries.last() == entries[entries.len() - 1]);
    if i < entries.len() - 1 {
        assert(front[i] == entries[i]);
        assert forall|j: int| i < j < front.len() implies (#[trigger] front[j]).id@ != id by {
            assert(front[j] == entries[j]);
        }
        lemma_links_last_wins(front, id, i);
    }
}

impl DownloadCatalog {
    /// The lookup table of this document.
    pub open spec fn links(&self) -> Map<Seq<char>, Seq<char>> {
        links_of(self.versions@)
    }

    /// The download link of version `id`, if the document has one.
    pub fn link(&self, id: &str) -> (r: Option<String>)
        ensures
            r is Some <==> self.links().contains_key(id@),
            r is Some ==> r->0@ == self.links()[id@],
    {
        let wanted = String::from_str(id);
        let mut i: usize = self.versions.len();
        while i > 0
            invariant
                i <= self.versions@.len(),
                wanted@ == id@,
                forall|j: int| i <= j < self.versions@.len() ==> (#[trigger] self.versions@[j]).id@ != id@,
            decreases i,
        {
            i -= 1;
            if self.versions[i].id == wanted {
                proof {
                    lemma_links_last_wins(self.versions@, id@, i as int);
                }
                return Some(self.versions[i].url.clone());
            }
        }
        proof {
            lemma_links_absent(self.versions@, id@);
        }
        None
    }
}

/// Why no download link could be named.
#[derive(Clone, Debug, PartialEq, Eq)]
pub enum ResolutionError {
    /// The lookup document could not be had.
    UpstreamUnavailable(UpstreamFailure),
    /// The lookup document has no entry for this version.
    VersionNotFound(String),
}

/// [`ResolutionError`] over plain text.
pub enum ResolutionFailure {
    UpstreamUnavailable(UpstreamFailure),
    VersionNotFound(Seq<char>),
}

impl View for ResolutionError {
    type V = ResolutionFailure;

    open spec fn view(&self) -> ResolutionFailure {
        match self {
            ResolutionError::UpstreamUnavailable(f) => ResolutionFailure::UpstreamUnavailable(*f),
            ResolutionError::VersionNotFound(id) => ResolutionFailure::VersionNotFound(id@),
        }
    }
}

/// A resolved download: where to fetch the artifact and where to put it.
#[derive(Clone, Debug, PartialEq, Eq)]
pub struct ArtifactReference {
    pub url: String,
    pub directory: String,
    pub file_name: String,
}

impl ArtifactReference {
    /// The path of the file that the artifact is saved as.
    pub fn path(&self) -> (r: String)
        ensures
            r@ == joined(self.directory@, self.file_name@),
    {
        join_path(self.directory.as_str(), self.file_name.as_str())
    }
}

/// [`ArtifactReference`] over plain text.
pub struct ArtifactTarget {
    pub url: Seq<char>,
    pub directory: Seq<char>,
    pub file_name: Seq<char>,
}

impl View for ArtifactReference {
    type V = ArtifactTarget;

    open spec fn view(&self) -> ArtifactTarget {
        ArtifactTarget { url: self.url@, directory: self.directory@, file_name: self.file_name@ }
    }
}

/// The link for `version`, or for the catalog's latest version where none is
/// asked for, out of what the lookup request came back with.
pub open spec fn paper_link(version: Option<Seq<char>>, fetched: &Fetched<DownloadCatalog>) -> Result<
    Seq<char>,
    ResolutionFailure,
> {
    if fetched.failure() is Some {
        Err(ResolutionFailure::UpstreamUnavailable(fetched.failure()->0))
    } else {
        let catalog = fetched.document();
        let id = match version {
            Some(v) => v,
            None => catalog.latest@,
        };
        if catalog.links().contains_key(id) {
            Ok(catalog.links()[id])
        } else {
            Err(ResolutionFailure::VersionNotFound(id))
        }
    }
}

/// The link to download for a software family: families without a lookup
/// have none, which is no error.
pub open spec fn resolved_link(
    software: Software,
    version: Option<Seq<char>>,
    fetched: &Fetched<DownloadCatalog>,
) -> Result<Option<Seq<char>>, ResolutionFailure> {
    if software.has_lookup() {
        match paper_link(version, fetched) {
            Ok(url) => Ok(Some(url)),
            Err(e) => Err(e),
        }
    } else {
        Ok(None)
    }
}

/// The artifact to download into workspace `wd`.
pub open spec fn artifact_for(
    software: Software,
    version: Seq<char>,
    wd: Seq<char>,
    fetched: &Fetched<DownloadCatalog>,
) -> Result<Option<ArtifactTarget>, ResolutionFailure> {
    match resolved_link(software, Some(version), fetched) {
        Ok(Some(url)) => Ok(Some(ArtifactTarget { url: url, directory: wd, file_name: ARTIFACT_FILE@ })),
        Ok(None) => Ok(None),
        Err(e) => Err(e),
    }
}

/// Looks up the download link of `version`, or of the latest version where
/// `version` is `None`, in what the lookup request came back with.
#[allow(non_snake_case)]
pub fn Paper_get_Download_link(version: Option<&str>, fetched: &Fetched<DownloadCatalog>) -> (r: Result<
    String,
    ResolutionError,
>)
    ensures
        match r {
            Ok(url) => paper_link(text_of(version), fetched) == Ok::<Seq<char>, ResolutionFailure>(url@),
            Err(e) => paper_link(text_of(version), fetched) == Err::<Seq<char>, ResolutionFailure>(e@),
        },
{
    match fetched.body() {
        Err(failure) => Err(ResolutionError::UpstreamUnavailable(failure)),
        Ok(catalog) => {
            let id: &str = match version {
                Some(v) => v,
                None => catalog.latest.as_str(),
            };
            match catalog.link(id) {
                Some(url) => Ok(url),
                None => Err(ResolutionError::VersionNotFound(String::from_str(id))),
            }
        },
    }
}

/// Names the download link for `software` at `version`.
pub fn resolve_download_url(software: Software, version: Option<&str>, fetched: &Fetched<DownloadCatalog>) -> (r:
    Result<Option<String>, ResolutionError>)
    ensures
        match r {
            Ok(Some(url)) => resolved_link(software, text_of(version), fetched) == Ok::<
                Option<Seq<char>>,
                ResolutionFailure,
            >(Some(url@)),
            Ok(None) => resolved_link(software, text_of(version), fetched) == Ok::<
                Option<Seq<char>>,
                ResolutionFailure,
            >(None),
            Err(e) => resolved_link(software, text_of(version), fetched) == Err::<
                Option<Seq<char>>,
                ResolutionFailure,
            >(e@),
        },
{
    match software {
        Software::Paper => match Paper_get_Download_link(version, fetched) {
            Ok(url) => Ok(Some(url)),
            Err(e) => Err(e),
        },
        Software::Spigot => Ok(None),
    }
}

/// Decides what to download into workspace `wd` for `software` at `version`:
/// an artifact, nothing at all for a family without lookup, or the error that
/// ends the run.
pub fn download_server_software(
    software: Software,
    version: &str,
    wd: &str,
    fetched: &Fetched<DownloadCatalog>,
) -> (r: Result<Option<ArtifactReference>, ResolutionError>)
    ensures
        match r {
            Ok(Some(artifact)) => artifact_for(software, version@, wd@, fetched) == Ok::<
                Option<ArtifactTarget>,
                ResolutionFailure,
            >(Some(artifact@)),
            Ok(None) => artifact_for(software, version@, wd@, fetched) == Ok::<
                Option<ArtifactTarget>,
                ResolutionFailure,
            >(None),
            Err(e) => artifact_for(software, version@, wd@, fetched) == Err::<
                Option<ArtifactTarget>,
                ResolutionFailure,
            >(e@),
        },
{
    match resolve_download_url(software, Some(version), fetched) {
        Ok(Some(url)) => Ok(
            Some(
                ArtifactReference {
                    url: url,
                    directory: String::from_str(wd),
                    file_name: String::from_str(ARTIFACT_FILE),
                },
            ),
        ),
        Ok(None) => Ok(None),
        Err(e) => Err(e),
    }
}

/// A family without lookup resolves to nothing, whatever came back upstream.
pub proof fn lemma_no_lookup_no_artifact(
    software: Software,
    version: Seq<char>,
    wd: Seq<char>,
    fetched: &Fetched<DownloadCatalog>,
)
    requires
        !software.has_lookup(),
    ensures
        artifact_for(software, version, wd, fetched) == Ok::<Option<ArtifactTarget>, ResolutionFailure>(None),
{
}

} // verus!
