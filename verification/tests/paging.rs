use downonspot::paging::{
    select_tracks, Collector, PageAction, PageRequest, PlaylistEntry, ALBUM_PAGE_LIMIT, PLAYLIST_PAGE_LIMIT,
};

#[test]
fn album_walk_runs_to_total() {
    let mut walk: Collector<u32> = Collector::new(ALBUM_PAGE_LIMIT);
    assert_eq!(walk.request(), PageRequest { limit: 50, offset: 0 });
    let a = walk.take_page((0..50).collect(), 120);
    assert_eq!(a, PageAction::Fetch(PageRequest { limit: 50, offset: 50 }));
    let b = walk.take_page((50..100).collect(), 120);
    assert_eq!(b, PageAction::Fetch(PageRequest { limit: 50, offset: 100 }));
    let c = walk.take_page((100..120).collect(), 120);
    assert_eq!(c, PageAction::Finished);
    assert_eq!(walk.finish(), (0..120).collect::<Vec<u32>>());
}

#[test]
fn empty_listing_finishes_at_once() {
    let mut walk: Collector<u32> = Collector::new(ALBUM_PAGE_LIMIT);
    assert_eq!(walk.take_page(vec![], 0), PageAction::Finished);
    assert!(walk.finish().is_empty());
}

#[test]
fn playlist_walk_counts_every_entry_but_keeps_tracks() {
    let mut walk: Collector<&str> = Collector::new(PLAYLIST_PAGE_LIMIT);
    let page = vec![PlaylistEntry::Track("a"), PlaylistEntry::Other, PlaylistEntry::Track("b")];
    assert_eq!(walk.take_playlist_page(page, 4), PageAction::Fetch(PageRequest { limit: 100, offset: 3 }));
    let page = vec![PlaylistEntry::Other];
    assert_eq!(walk.take_playlist_page(page, 4), PageAction::Finished);
    assert_eq!(walk.offset, 4);
    assert_eq!(walk.finish(), vec!["a", "b"]);
}

#[test]
fn artist_walk_extends_then_advances() {
    let mut walk: Collector<u32> = Collector::new(50);
    walk.extend(vec![1, 2, 3]);
    walk.extend(vec![4]);
    assert_eq!(walk.advance(2, 2), PageAction::Finished);
    assert_eq!(walk.items, vec![1, 2, 3, 4]);
}

#[test]
fn select_tracks_keeps_order() {
    let entries = vec![
        PlaylistEntry::Other,
        PlaylistEntry::Track(3),
        PlaylistEntry::Track(1),
        PlaylistEntry::Other,
        PlaylistEntry::Track(2),
    ];
    assert_eq!(select_tracks(entries), vec![3, 1, 2]);
    assert!(select_tracks::<u8>(vec![]).is_empty());
}

#[test]
fn selecting_page_by_page_equals_selecting_all() {
    let whole = vec![PlaylistEntry::Track(1), PlaylistEntry::Other, PlaylistEntry::Track(2), PlaylistEntry::Track(3)];
    let first = vec![PlaylistEntry::Track(1), PlaylistEntry::Other];
    let second = vec![PlaylistEntry::Track(2), PlaylistEntry::Track(3)];
    let mut by_pages = select_tracks(first);
    by_pages.extend(select_tracks(second));
    assert_eq!(by_pages, select_tracks(whole));
}
