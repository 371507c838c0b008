//! The decisions behind the web API's replies: search results, the listing of
//! downloaded files, and the answers to download, login and delete requests.

use vstd::prelude::*;
use crate::filename::{is_valid_filename, valid_filename};

verus! {

/// A plain-text reply: HTTP status and body.
#[derive(Debug)]
pub struct Reply {
    pub status: u16,
    pub body: String,
}

/// A reply whose body is a JSON object with one string field.
#[derive(Debug)]
pub struct JsonReply {
    pub status: u16,
    pub key: String,
    pub value: String,
}

/// A track that a search found.
#[derive(Debug)]
pub struct FoundTrack {
    pub title: String,
    pub author: String,
    pub track_id: String,
}

/// A search hit as the API reports it.
#[derive(Debug)]
pub struct SearchResult {
    pub title: String,
    pub author: String,
    pub url: String,
}

/// The web-player link of the track `track_id`.
pub open spec fn track_url_spec(track_id: Seq<char>) -> Seq<char> {
    "https://open.spotify.com/track/"@ + track_id
}

/// The web-player link of the track `track_id`.
pub fn track_url(track_id: &str) -> (res: String)
    ensures
        res@ == track_url_spec(track_id@),
        res@ == "https://open.spotify.com/track/"@ + track_id@,
{
    let mut url = String::from_str("https://open.spotify.com/track/");
    url.append(track_id);
    url
}

/// `hit` reports `found`: same title and author, and the track's link.
pub open spec fn reports(hit: SearchResult, found: FoundTrack) -> bool {
    &&& hit.title@ == found.title@
    &&& hit.author@ == found.author@
    &&& hit.url@ == track_url_spec(found.track_id@)
}

/// The hits reported for a search: one per track found, in order; none when
/// the search failed or found nothing (`None`).
pub fn search_results(found: Option<Vec<FoundTrack>>) -> (res: Vec<SearchResult>)
    ensures
        match found {
            None => res@.len() == 0,
            Some(tracks) => res@.len() == tracks@.len() && forall|i: int|
                0 <= i < tracks@.len() ==> reports(#[trigger] res@[i], tracks@[i]),
        },
        found matches Some(tracks) ==> forall|i: int|
            0 <= i < tracks@.len() ==> {
                &&& (#[trigger] res@[i]).title@ == tracks@[i].title@
                &&& res@[i].author@ == tracks@[i].author@
                &&& res@[i].url@ == "https://open.spotify.com/track/"@ + tracks@[i].track_id@
            },
{
    let mut res: Vec<SearchResult> = Vec::new();
    match found {
        None => {},
        Some(tracks) => {
            let ghost all = tracks@;
            for t in it: tracks.into_iter()
                invariant
                    it.seq() == all,
                    res@.len() == it.index(),
                    forall|i: int| 0 <= i < it.index() ==> reports(#[trigger] res@[i], all[i]),
            {
                let url = track_url(t.track_id.as_str());
                res.push(SearchResult { title: t.title, author: t.author, url });
            }
        },
    }
    res
}

/// A hit reports its own track: the title and the author of the track found,
/// and the web-player link of that track's id; so hits for two different
/// tracks differ wherever the tracks do.
pub proof fn lemma_hit_reports_its_track(hit: SearchResult, found: FoundTrack, other: FoundTrack)
    requires
        reports(hit, found),
    ensures
        hit.title@ == found.title@,
        hit.author@ == found.author@,
        hit.url@ == "https://open.spotify.com/track/"@ + found.track_id@,
        other.author@ != found.author@ ==> hit.author@ != other.author@,
        other.title@ != found.title@ ==> hit.title@ != other.title@,
{
}

/// A downloaded file as the listing reports it.
#[derive(Debug)]
pub struct FileEntry {
    pub name: String,
    pub size: u64,
    /// Seconds since the Unix epoch; 0 when unknown.
    pub modified: u64,
    /// Direct link to the file.
    pub url: String,
}

/// The listing's entry for the file `name` of `size` bytes, last modified
/// `modified` seconds after the Unix epoch (`None`: unknown, reported as 0).
pub fn file_entry(name: String, size: u64, modified: Option<u64>) -> (res: FileEntry)
    ensures
        res.name@ == name@,
        res.size == size,
        res.modified == match modified {
            Some(m) => m,
            None => 0,
        },
        res.url@ == "/files/"@ + name@,
{
    let mut url = String::from_str("/files/");
    url.append(name.as_str());
    let modified = match modified {
        Some(m) => m,
        None => 0,
    };
    FileEntry { name, size, modified, url }
}

/// The reply when the downloads directory cannot be read: `None` when it does
/// not exist (the listing is then empty), otherwise a server error.
pub fn listing_failure(not_found: bool, detail: &str) -> (res: Option<Reply>)
    ensures
        not_found ==> res is None,
        !not_found ==> (res matches Some(r) && r.status == 500 && r.body@
            == "Errore lettura directory: "@ + detail@),
{
    if not_found {
        None
    } else {
        let mut body = String::from_str("Errore lettura directory: ");
        body.append(detail);
        Some(Reply { status: 500, body })
    }
}

/// The reply to a download request, given whether the download started.
pub fn download_reply(outcome: &Result<(), String>) -> (res: Reply)
    ensures
        match outcome {
            Ok(_) => res.status == 200 && res.body@ == "Download avviato"@,
            Err(e) => res.status == 500 && res.body@ == "Errore: "@ + e@,
        },
{
    match outcome {
        Ok(_) => Reply { status: 200, body: String::from_str("Download avviato") },
        Err(e) => {
            let mut body = String::from_str("Errore: ");
            body.append(e.as_str());
            Reply { status: 500, body }
        },
    }
}

/// The reply to a login request: `{"status": "ok"}`, or `{"error": <reason>}`
/// with a server error.
pub fn login_reply(outcome: Result<(), String>) -> (res: JsonReply)
    ensures
        match outcome {
            Ok(_) => res.status == 200 && res.key@ == "status"@ && res.value@ == "ok"@,
            Err(e) => res.status == 500 && res.key@ == "error"@ && res.value@ == e@,
        },
{
    match outcome {
        Ok(_) => JsonReply {
            status: 200,
            key: String::from_str("status"),
            value: String::from_str("ok"),
        },
        Err(e) => JsonReply { status: 500, key: String::from_str("error"), value: e },
    }
}

/// A delete request is refused before any file is touched when the file name
/// is not valid.
pub fn delete_precheck(file: &str) -> (res: Option<Reply>)
    ensures
        res is Some <==> !valid_filename(file@),
        res matches Some(r) ==> r.status == 400 && r.body@ == "Nome file non valido"@,
{
    if !is_valid_filename(file) {
        Some(Reply { status: 400, body: String::from_str("Nome file non valido") })
    } else {
        None
    }
}

/// The reply when the downloads directory cannot be resolved.
pub fn directory_failure(detail: &str) -> (res: Reply)
    ensures
        res.status == 500,
        res.body@ == "Errore directory: "@ + detail@,
{
    let mut body = String::from_str("Errore directory: ");
    body.append(detail);
    Reply { status: 500, body }
}

/// How removing a file went.
#[derive(Debug)]
pub enum RemoveOutcome {
    Removed,
    NotFound,
    Failed(String),
}

/// The reply to a delete request once the removal was tried.
pub fn delete_reply(outcome: RemoveOutcome) -> (res: Reply)
    ensures
        match outcome {
            RemoveOutcome::Removed => res.status == 200 && res.body@ == "File eliminato"@,
            RemoveOutcome::NotFound => res.status == 404 && res.body@ == "File non trovato"@,
            RemoveOutcome::Failed(e) => res.status == 500 && res.body@ == "Errore eliminazione: "@
                + e@,
        },
{
    match outcome {
        RemoveOutcome::Removed => Reply { status: 200, body: String::from_str("File eliminato") },
        RemoveOutcome::NotFound => Reply { status: 404, body: String::from_str("File non trovato") },
        RemoveOutcome::Failed(e) => {
            let mut body = String::from_str("Errore eliminazione: ");
            body.append(e.as_str());
            Reply { status: 500, body }
        },
    }
}

} // verus!
