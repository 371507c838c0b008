use downonspot::web::{
    delete_precheck, delete_reply, directory_failure, download_reply, file_entry, listing_failure, login_reply,
    search_results, track_url, FoundTrack, RemoveOutcome,
};

#[test]
fn track_links() {
    assert_eq!(track_url("abc"), "https://open.spotify.com/track/abc");
}

#[test]
fn search_results_report_each_track() {
    let found = vec![
        FoundTrack { title: "T1".into(), author: "A1".into(), track_id: "id1".into() },
        FoundTrack { title: "T2".into(), author: "A2".into(), track_id: "id2".into() },
    ];
    let hits = search_results(Some(found));
    assert_eq!(hits.len(), 2);
    assert_eq!(hits[0].title, "T1");
    assert_eq!(hits[0].author, "A1");
    assert_eq!(hits[0].url, "https://open.spotify.com/track/id1");
    assert_eq!(hits[1].url, "https://open.spotify.com/track/id2");
    assert!(search_results(None).is_empty());
    assert!(search_results(Some(vec![])).is_empty());
}

#[test]
fn file_entries() {
    let e = file_entry("song.mp3".into(), 1234, Some(99));
    assert_eq!(e.name, "song.mp3");
    assert_eq!(e.size, 1234);
    assert_eq!(e.modified, 99);
    assert_eq!(e.url, "/files/song.mp3");
    assert_eq!(file_entry("x".into(), 0, None).modified, 0);
}

#[test]
fn listing_failures() {
    assert!(listing_failure(true, "gone").is_none());
    let r = listing_failure(false, "denied").unwrap();
    assert_eq!(r.status, 500);
    assert_eq!(r.body, "Errore lettura directory: denied");
}

#[test]
fn download_replies() {
    let ok = download_reply(&Ok(()));
    assert_eq!((ok.status, ok.body.as_str()), (200, "Download avviato"));
    let bad = download_reply(&Err("no".into()));
    assert_eq!((bad.status, bad.body.as_str()), (500, "Errore: no"));
}

#[test]
fn login_replies() {
    let ok = login_reply(Ok(()));
    assert_eq!((ok.status, ok.key.as_str(), ok.value.as_str()), (200, "status", "ok"));
    let bad = login_reply(Err("mdns".into()));
    assert_eq!((bad.status, bad.key.as_str(), bad.value.as_str()), (500, "error", "mdns"));
}

#[test]
fn delete_replies() {
    let r = delete_precheck("../x").unwrap();
    assert_eq!((r.status, r.body.as_str()), (400, "Nome file non valido"));
    assert!(delete_precheck("song.mp3").is_none());
    let d = directory_failure("missing");
    assert_eq!((d.status, d.body.as_str()), (500, "Errore directory: missing"));
    let a = delete_reply(RemoveOutcome::Removed);
    assert_eq!((a.status, a.body.as_str()), (200, "File eliminato"));
    let b = delete_reply(RemoveOutcome::NotFound);
    assert_eq!((b.status, b.body.as_str()), (404, "File non trovato"));
    let c = delete_reply(RemoveOutcome::Failed("busy".into()));
    assert_eq!((c.status, c.body.as_str()), (500, "Errore eliminazione: busy"));
}
