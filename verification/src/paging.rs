//! Walking a paged Web API listing (a playlist's items, an album's tracks, an
//! artist's albums) to the end, collecting what each page brings.

use vstd::prelude::*;

verus! {

/// Items asked for per page of a playlist.
pub const PLAYLIST_PAGE_LIMIT: usize = 100;

/// Items asked for per page of an album's tracks.
pub const ALBUM_PAGE_LIMIT: usize = 50;

/// Items asked for per page of an artist's albums.
pub const ARTIST_PAGE_LIMIT: usize = 50;

/// One entry of a playlist: a track, or something else (an episode, or an
/// entry whose item is no longer available).
#[derive(Debug)]
pub enum PlaylistEntry<T> {
    Track(T),
    Other,
}

/// The tracks among `entries`, in order.
pub open spec fn tracks_of<T>(entries: Seq<PlaylistEntry<T>>) -> Seq<T>
    decreases entries.len(),
{
    if entries.len() == 0 {
        Seq::<T>::empty()
    } else {
        match entries.last() {
            PlaylistEntry::Track(t) => tracks_of(entries.drop_last()).push(t),
            PlaylistEntry::Other => tracks_of(entries.drop_last()),
        }
    }
}

/// The tracks among `entries`, in order.
pub fn select_tracks<T>(entries: Vec<PlaylistEntry<T>>) -> (res: Vec<T>)
    ensures
        res@ == tracks_of(entries@),
{
    let ghost all = entries@;
    let mut res: Vec<T> = Vec::new();
    for e in it: entries.into_iter()
        invariant
            it.seq() == all,
            res@ == tracks_of(all.take(it.index() as int)),
    {
        proof {
            assert(all.take(it.index() + 1).drop_last() == all.take(it.index() as int));
        }
        match e {
            PlaylistEntry::Track(t) => res.push(t),
            PlaylistEntry::Other => {},
        }
    }
    proof {
        assert(all.take(all.len() as int) == all);
    }
    res
}

/// The tracks of consecutive pages are the tracks of the pages put together:
/// selecting tracks page by page gives the tracks of the whole listing, in order.
pub proof fn lemma_tracks_of_concat<T>(a: Seq<PlaylistEntry<T>>, b: Seq<PlaylistEntry<T>>)
    ensures
        tracks_of(a + b) == tracks_of(a) + tracks_of(b),
    decreases b.len(),
{
    if b.len() == 0 {
        assert(a + b == a);
    } else {
        lemma_tracks_of_concat(a, b.drop_last());
        assert((a + b).drop_last() == a + b.drop_last());
        assert((a + b).last() == b.last());
    }
}

/// A track entry contributes its track, any other entry nothing; with
/// `lemma_tracks_of_concat` this fixes the tracks of every listing.
pub proof fn lemma_tracks_of_single<T>(t: T)
    ensures
        tracks_of(seq![PlaylistEntry::Track(t)]) == seq![t],
        tracks_of(seq![PlaylistEntry::<T>::Other]) == Seq::<T>::empty(),
        tracks_of(Seq::<PlaylistEntry<T>>::empty()) == Seq::<T>::empty(),
{
    reveal_with_fuel(tracks_of, 2);
    assert(seq![PlaylistEntry::Track(t)].drop_last() == Seq::<PlaylistEntry<T>>::empty());
    assert(seq![PlaylistEntry::Track(t)].last() == PlaylistEntry::Track(t));
    assert(Seq::<T>::empty().push(t) == seq![t]);
    assert(seq![PlaylistEntry::<T>::Other].drop_last() == Seq::<PlaylistEntry<T>>::empty());
}

/// Which page of a listing to ask for.
#[derive(Debug, Clone, Copy, PartialEq, Eq, Structural)]
pub struct PageRequest {
    pub limit: usize,
    pub offset: usize,
}

/// What to do after a page has been taken in.
#[derive(Debug, Clone, Copy, PartialEq, Eq, Structural)]
pub enum PageAction {
    /// Ask for this page next.
    Fetch(PageRequest),
    /// The listing has been read to its end.
    Finished,
}

/// The state of a walk through a paged listing: what has been collected, and
/// how many of the listing's items the pages so far held.
pub struct Collector<T> {
    pub items: Vec<T>,
    pub offset: usize,
    pub limit: usize,
}

/// The action that follows a page, once `offset` items have been seen of a
/// listing of `total`.
pub open spec fn action_after(offset: int, total: int, limit: usize) -> PageAction {
    if total == offset {
        PageAction::Finished
    } else {
        PageAction::Fetch(PageRequest { limit, offset: offset as usize })
    }
}

impl<T> Collector<T> {
    /// A walk that has seen nothing yet and asks `limit` items per page.
    pub fn new(limit: usize) -> (res: Self)
        ensures
            res.items@ == Seq::<T>::empty(),
            res.offset == 0,
            res.limit == limit,
    {
        Collector { items: Vec::new(), offset: 0, limit }
    }

    /// The page to ask for next.
    pub fn request(&self) -> (res: PageRequest)
        ensures
            res == (PageRequest { limit: self.limit, offset: self.offset }),
    {
        PageRequest { limit: self.limit, offset: self.offset }
    }

    /// Collect `found`, after what was collected before.
    pub fn extend(&mut self, found: Vec<T>)
        ensures
            final(self).items@ == old(self).items@ + found@,
            final(self).offset == old(self).offset,
            final(self).limit == old(self).limit,
    {
        let mut found = found;
        self.items.append(&mut found);
    }

    /// Count a page of `page_len` items of a listing of `total`: the walk ends
    /// when the pages so far hold exactly `total` items, and otherwise asks for
    /// the page that starts after them.
    pub fn advance(&mut self, page_len: usize, total: usize) -> (res: PageAction)
        requires
            old(self).offset + page_len <= usize::MAX,
        ensures
            final(self).offset == old(self).offset + page_len,
            final(self).items@ == old(self).items@,
            final(self).limit == old(self).limit,
            res == action_after(final(self).offset as int, total as int, final(self).limit),
            res is Finished <==> final(self).offset == total,
            res matches PageAction::Fetch(r) ==> r.offset == final(self).offset && r.limit
                == final(self).limit,
    {
        self.offset = self.offset + page_len;
        if total == self.offset {
            PageAction::Finished
        } else {
            PageAction::Fetch(PageRequest { limit: self.limit, offset: self.offset })
        }
    }

    /// Take in a page whose items are all collected (an album's tracks).
    pub fn take_page(&mut self, page: Vec<T>, total: usize) -> (res: PageAction)
        requires
            old(self).offset + page@.len() <= usize::MAX,
        ensures
            final(self).items@ == old(self).items@ + page@,
            final(self).offset == old(self).offset + page@.len(),
            final(self).items@.len() - final(self).offset == old(self).items@.len() - old(self).offset,
            final(self).limit == old(self).limit,
            res == action_after(final(self).offset as int, total as int, final(self).limit),
            res is Finished <==> final(self).offset == total,
            res matches PageAction::Fetch(r) ==> r.offset == final(self).offset && r.limit
                == final(self).limit,
    {
        let page_len = page.len();
        self.extend(page);
        self.advance(page_len, total)
    }

    /// Take in a page of playlist entries: its tracks are collected, and every
    /// entry, track or not, counts towards the listing's total.
    pub fn take_playlist_page(&mut self, page: Vec<PlaylistEntry<T>>, total: usize) -> (res: PageAction)
        requires
            old(self).offset + page@.len() <= usize::MAX,
        ensures
            final(self).items@ == old(self).items@ + tracks_of(page@),
            final(self).offset == old(self).offset + page@.len(),
            final(self).limit == old(self).limit,
            res == action_after(final(self).offset as int, total as int, final(self).limit),
            res is Finished <==> final(self).offset == total,
            res matches PageAction::Fetch(r) ==> r.offset == final(self).offset && r.limit
                == final(self).limit,
    {
        let page_len = page.len();
        let tracks = select_tracks(page);
        self.extend(tracks);
        self.advance(page_len, total)
    }

    /// What the walk collected.
    pub fn finish(self) -> (res: Vec<T>)
        ensures
            res@ == self.items@,
    {
        self.items
    }
}

/// A walk ends exactly when the items seen so far equal the listing's total;
/// below (or past) the total it asks for the page that starts right after
/// what it has seen, with its own page size.
pub proof fn lemma_walk_ends_at_total(offset: usize, total: usize, limit: usize)
    ensures
        action_after(offset as int, total as int, limit) is Finished <==> offset == total,
        offset != total ==> action_after(offset as int, total as int, limit) == PageAction::Fetch(
            PageRequest { limit, offset },
        ),
{
}

/// Taking in pages never finishes a walk early: if the pages so far hold fewer
/// items than the listing's total, the next page is asked for at their count.
pub proof fn lemma_walk_continues_below_total(seen: Seq<nat>, total: nat, limit: usize)
    requires
        page_sum(seen) < total,
        page_sum(seen) <= usize::MAX,
        total <= usize::MAX,
    ensures
        action_after(page_sum(seen) as int, total as int, limit) == PageAction::Fetch(
            PageRequest { limit, offset: page_sum(seen) as usize },
        ),
{
}

/// The number of items held by pages of the given lengths.
pub open spec fn page_sum(lens: Seq<nat>) -> nat
    decreases lens.len(),
{
    if lens.len() == 0 {
        0
    } else {
        page_sum(lens.drop_last()) + lens.last()
    }
}

/// A playlist walk collects the tracks of everything it has seen, in order: if
/// the items so far are the tracks of the entries seen so far, they still are
/// after the next page is taken in.
pub proof fn lemma_playlist_walk_collects_tracks<T>(
    seen: Seq<PlaylistEntry<T>>,
    before: Seq<T>,
    page: Seq<PlaylistEntry<T>>,
    after: Seq<T>,
)
    requires
        before == tracks_of(seen),
        after == before + tracks_of(page),
    ensures
        after == tracks_of(seen + page),
{
    lemma_tracks_of_concat(seen, page);
}

} // verus!
