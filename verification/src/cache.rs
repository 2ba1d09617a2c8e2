//! Write-once cache of the stream's header pages.
//!
//! The cache moves from empty, through one stashed header page, to filled:
//! the second header page triggers a single commit that stores the byte-exact
//! concatenation of the two pages in arrival order. Once filled it never
//! changes again — later header pages are ignored — so every reader sees
//! either nothing or the complete committed snapshot, never a partial write.

use vstd::prelude::*;
use vstd::slice::slice_to_vec;

verus! {

/// The abstract state of the header cache: nothing yet, one page stashed,
/// or the committed concatenation of the first two header pages.
pub enum CacheState {
    Empty,
    Stashed(Seq<u8>),
    Filled(Seq<u8>),
}

/// How the cache moves on one arriving header page: the first is stashed,
/// the second commits the concatenation, and all later ones are ignored.
pub open spec fn cache_step(m: CacheState, page: Seq<u8>) -> CacheState {
    match m {
        CacheState::Empty => CacheState::Stashed(page),
        CacheState::Stashed(first) => CacheState::Filled(first + page),
        CacheState::Filled(h) => CacheState::Filled(h),
    }
}

/// The cache after a whole sequence of header pages has arrived, in order.
pub open spec fn cache_step_all(m: CacheState, pages: Seq<Seq<u8>>) -> CacheState
    decreases pages.len(),
{
    if pages.len() == 0 {
        m
    } else {
        cache_step_all(cache_step(m, pages[0]), pages.drop_first())
    }
}

/// What a reader of the cache sees: the committed bytes, or nothing.
pub open spec fn cache_snapshot(m: CacheState) -> Seq<u8> {
    match m {
        CacheState::Filled(h) => h,
        _ => Seq::empty(),
    }
}

/// What became of one header page handed to the cache.
#[derive(Clone, Copy, Debug, PartialEq, Eq, Structural)]
pub enum HeaderAction {
    /// The page is the first header seen; it waits for its partner.
    Stashed,
    /// The page completed the pair; the snapshot is now committed.
    Committed,
    /// The cache was already filled; the page changed nothing.
    Ignored,
}

/// The shared header store: `headers` holds the committed snapshot once the
/// first two header pages have arrived, `stash` the first page while it waits.
pub struct Headers {
    pub headers: Option<Vec<u8>>,
    pub stash: Option<Vec<u8>>,
}

impl Headers {
    /// The abstract cache state this value represents.
    pub open spec fn model(self) -> CacheState {
        match self.headers {
            Some(h) => CacheState::Filled(h@),
            None => match self.stash {
                Some(s) => CacheState::Stashed(s@),
                None => CacheState::Empty,
            },
        }
    }

    /// The bytes a reader obtains: the committed snapshot, or nothing yet.
    pub open spec fn snapshot_spec(self) -> Seq<u8> {
        cache_snapshot(self.model())
    }

    /// An empty cache: no header seen yet.
    pub fn new() -> (r: Headers)
        ensures
            r.model() == CacheState::Empty,
    {
        Headers { headers: None, stash: None }
    }

    /// Commit the snapshot: store the concatenation of the two header pages
    /// in the order given. A single swap — no reader ever sees a torn buffer.
    pub fn prepare_headers(&mut self, first: &Vec<u8>, second: &Vec<u8>)
        ensures
            final(self).headers matches Some(h) && h@ == first@ + second@,
            final(self).stash == old(self).stash,
    {
        let mut buf: Vec<u8> = slice_to_vec(first.as_slice());
        let mut tail: Vec<u8> = slice_to_vec(second.as_slice());
        buf.append(&mut tail);
        self.headers = Some(buf);
    }

    /// Feed one header page to the cache: stash the first, commit on the
    /// second, ignore everything after the commit.
    pub fn accept_header(&mut self, page: Vec<u8>) -> (r: HeaderAction)
        ensures
            final(self).model() == cache_step(old(self).model(), page@),
            r == HeaderAction::Stashed <==> old(self).model() is Empty,
            r == HeaderAction::Committed <==> old(self).model() is Stashed,
            r == HeaderAction::Ignored <==> old(self).model() is Filled,
    {
        if self.headers.is_some() {
            return HeaderAction::Ignored;
        }
        match self.stash.take() {
            None => {
                self.stash = Some(page);
                HeaderAction::Stashed
            },
            Some(first) => {
                self.prepare_headers(&first, &page);
                HeaderAction::Committed
            },
        }
    }

    /// Read the committed bytes, or an empty buffer while the cache is empty
    /// or still waiting for its second header page.
    pub fn get_snapshot(&self) -> (r: Vec<u8>)
        ensures
            r@ == self.snapshot_spec(),
    {
        match &self.headers {
            Some(h) => slice_to_vec(h.as_slice()),
            None => Vec::new(),
        }
    }
}

/// From an empty cache, the first two header pages commit: the snapshot is
/// then their byte-exact concatenation in commit order, and any sequence of
/// later header pages leaves that snapshot unchanged.
pub proof fn lemma_snapshot_after_two_commits(h1: Seq<u8>, h2: Seq<u8>, later: Seq<Seq<u8>>)
    ensures
        cache_step(cache_step(CacheState::Empty, h1), h2) == CacheState::Filled(h1 + h2),
        cache_snapshot(cache_step_all(cache_step(cache_step(CacheState::Empty, h1), h2), later))
            == h1 + h2,
    decreases later.len(),
{
    let filled = cache_step(cache_step(CacheState::Empty, h1), h2);
    if later.len() == 0 {
    } else {
        assert(cache_step(filled, later[0]) == filled);
        lemma_snapshot_after_two_commits(h1, h2, later.drop_first());
    }
}

} // verus!
