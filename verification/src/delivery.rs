//! Listener-side decisions: HTTP dispatch and the per-listener session.
//!
//! A request for the mount path becomes a stream; a request for the root or
//! the index becomes a landing page that links to the mount; everything else
//! is not found. A listener session subscribes to the bus *before* reading
//! the header snapshot, so no page published between the two can be missed:
//! what the listener delivers is the snapshot followed by every page
//! published after its subscription.

use vstd::prelude::*;
use vstd::string::StringExecFns;

use crate::auth::str_eq;
use crate::bus::{clone_page, pages_view, BroadcastBus, Subscriber};
use crate::cache::Headers;

verus! {

/// Where a request is routed.
#[derive(Clone, Copy, Debug, PartialEq, Eq, Structural)]
pub enum DispatchKind {
    /// The mount path: the live stream.
    Stream,
    /// The root or the index page: the landing page.
    Landing,
    /// Anything else.
    NotFound,
}

/// The dispatch rule: the mount path wins over the landing page, `GET` only.
pub open spec fn dispatch_kind(method: Seq<char>, path: Seq<char>, mount: Seq<char>) -> DispatchKind {
    if method == "GET"@ && path == mount {
        DispatchKind::Stream
    } else if method == "GET"@ && (path == "/"@ || path == "/index.html"@) {
        DispatchKind::Landing
    } else {
        DispatchKind::NotFound
    }
}

/// The landing page's markup: its sole link targets the mount path itself.
pub open spec fn landing_page_spec(mount: Seq<char>) -> Seq<char> {
    "<html><body><a href=\""@ + mount + "\">Audio Stream</a></body></html>"@
}

/// The response decided for one request: the stream, the landing page with
/// its markup, or a not-found reply.
#[derive(Debug)]
pub enum RequestOutcome {
    Stream,
    Landing(String),
    NotFound,
}

/// Render the landing page: a link to the mount path.
pub fn landing_page(mount: &str) -> (r: String)
    ensures
        r@ == landing_page_spec(mount@),
{
    let mut page = "<html><body><a href=\"".to_owned();
    page.append(mount);
    page.append("\">Audio Stream</a></body></html>");
    page
}

/// Decide one request, exactly as [`dispatch_kind`] says: `GET` on the mount
/// path streams, `GET` on the root or the index lands, all else is 404.
pub fn handle_request(method: &str, path: &str, mount: &str) -> (r: RequestOutcome)
    ensures
        dispatch_kind(method@, path@, mount@) is Stream ==> r is Stream,
        dispatch_kind(method@, path@, mount@) is Landing ==> (r matches RequestOutcome::Landing(h)
            && h@ == landing_page_spec(mount@)),
        dispatch_kind(method@, path@, mount@) is NotFound ==> r is NotFound,
{
    if str_eq(method, "GET") && str_eq(path, mount) {
        RequestOutcome::Stream
    } else if str_eq(method, "GET") && (str_eq(path, "/") || str_eq(path, "/index.html")) {
        RequestOutcome::Landing(landing_page(mount))
    } else {
        RequestOutcome::NotFound
    }
}

impl RequestOutcome {
    /// The status code of the reply: found pages and the stream are OK,
    /// everything else is not found.
    pub fn status(&self) -> (s: u16)
        ensures
            *self is NotFound ==> s == 404,
            !(*self is NotFound) ==> s == 200,
    {
        match self {
            RequestOutcome::NotFound => 404,
            _ => 200,
        }
    }

    /// The content type the reply declares; the not-found reply declares none.
    pub fn content_type(&self) -> (t: String)
        ensures
            *self is Stream ==> t@ == "audio/ogg; codecs=\"opus\""@,
            *self matches RequestOutcome::Landing(_) ==> t@ == "text/html; charset=utf-8"@,
            *self is NotFound ==> t@ == Seq::<char>::empty(),
    {
        match self {
            RequestOutcome::Stream => "audio/ogg; codecs=\"opus\"".to_owned(),
            RequestOutcome::Landing(_) => "text/html; charset=utf-8".to_owned(),
            RequestOutcome::NotFound => String::new(),
        }
    }
}

/// The body of the not-found reply.
pub fn not_found_body() -> (r: String)
    ensures
        r@ == "NOT_FOUND"@,
{
    "NOT_FOUND".to_owned()
}

/// The headers the stream response declares beyond its content type:
/// chunked transfer, no caching, keep-alive.
pub fn stream_headers() -> (r: Vec<(String, String)>)
    ensures
        r@.len() == 3,
        r@[0].0@ == "Transfer-Encoding"@ && r@[0].1@ == "chunked"@,
        r@[1].0@ == "Cache-Control"@ && r@[1].1@ == "no-cache"@,
        r@[2].0@ == "Connection"@ && r@[2].1@ == "keep-alive"@,
{
    let mut headers: Vec<(String, String)> = Vec::new();
    headers.push(("Transfer-Encoding".to_owned(), "chunked".to_owned()));
    headers.push(("Cache-Control".to_owned(), "no-cache".to_owned()));
    headers.push(("Connection".to_owned(), "keep-alive".to_owned()));
    headers
}

/// One listener's state: a private subscription and the one-time snapshot.
#[derive(Debug)]
pub struct ListenerSession {
    pub subscriber: Subscriber,
    pub snapshot: Vec<u8>,
}

/// Open a listener session: subscribe to the bus first, then read the header
/// snapshot. Subscribing first guarantees that no page published between the
/// snapshot read and the subscription can be missed — the cursor stands at
/// the end of the history as it was before the snapshot was taken.
pub fn start_session(bus: &BroadcastBus, cache: &Headers) -> (s: ListenerSession)
    requires
        bus.wf(),
    ensures
        s.subscriber.cursor == bus.history@.len(),
        s.snapshot@ == cache.snapshot_spec(),
{
    let subscriber = bus.subscribe();
    let snapshot = cache.get_snapshot();
    ListenerSession { subscriber, snapshot }
}

/// The bytes of a batch of pages, concatenated in order.
pub open spec fn flatten_pages(pages: Seq<Seq<u8>>) -> Seq<u8>
    decreases pages.len(),
{
    if pages.len() == 0 {
        Seq::empty()
    } else {
        pages[0] + flatten_pages(pages.drop_first())
    }
}

proof fn lemma_flatten_push(pages: Seq<Seq<u8>>, p: Seq<u8>)
    ensures
        flatten_pages(pages.push(p)) == flatten_pages(pages) + p,
    decreases pages.len(),
{
    if pages.len() == 0 {
        reveal_with_fuel(flatten_pages, 3);
        assert(pages.push(p).drop_first() =~= Seq::<Seq<u8>>::empty());
        assert(pages.push(p)[0] == p);
        assert(flatten_pages(pages.push(p)) =~= flatten_pages(pages) + p);
    } else {
        assert(pages.push(p).drop_first() =~= pages.drop_first().push(p));
        lemma_flatten_push(pages.drop_first(), p);
        assert(pages.push(p)[0] == pages[0]);
        assert(flatten_pages(pages.push(p)) == pages[0] + (flatten_pages(pages.drop_first())
            + p));
        assert(pages[0] + (flatten_pages(pages.drop_first()) + p) =~= (pages[0] + flatten_pages(
            pages.drop_first(),
        )) + p);
    }
}

/// Lay out one delivery burst as contiguous bytes: the header snapshot
/// first, then each page in order — the exact shape of the stream a
/// listener receives.
pub fn emit_bytes(snapshot: &Vec<u8>, chunks: &Vec<Vec<u8>>) -> (r: Vec<u8>)
    ensures
        r@ == snapshot@ + flatten_pages(pages_view(chunks@)),
{
    let mut out = clone_page(snapshot);
    let mut i: usize = 0;
    while i < chunks.len()
        invariant
            i <= chunks@.len(),
            out@ == snapshot@ + flatten_pages(pages_view(chunks@).subrange(0, i as int)),
        decreases chunks@.len() - i,
    {
        let mut next = clone_page(&chunks[i]);
        out.append(&mut next);
        proof {
            let views = pages_view(chunks@);
            assert(views.subrange(0, i as int + 1) =~= views.subrange(0, i as int).push(
                chunks@[i as int]@,
            ));
            lemma_flatten_push(views.subrange(0, i as int), chunks@[i as int]@);
        }
        i = i + 1;
    }
    proof {
        assert(pages_view(chunks@).subrange(0, chunks@.len() as int) =~= pages_view(chunks@));
    }
    out
}

} // verus!
