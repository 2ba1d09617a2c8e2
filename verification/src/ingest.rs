//! The ingest step shared by both source transports.
//!
//! Every page received — from the datagram socket or from the authenticated
//! persistent connection — goes through the same routine: classify it, stash
//! or commit header pages into the cache, forward data pages to the bus, and
//! drop malformed buffers silently. The two acceptance loops differ only in
//! how they obtain pages; this step is their common core.

use vstd::prelude::*;

use crate::bus::BroadcastBus;
use crate::cache::{cache_step, HeaderAction, Headers};
use crate::pages::{classify_page, is_data_page, is_header_page, page_well_formed, PageClass};

verus! {

/// What became of one received page.
#[derive(Clone, Copy, Debug, PartialEq, Eq, Structural)]
pub enum RouteAction {
    /// The buffer was malformed; nothing changed.
    Dropped,
    /// A header page, now stashed as the first of the pair.
    HeaderStashed,
    /// A header page that completed the pair; the cache committed.
    HeadersCommitted,
    /// A header page arriving after the commit; ignored.
    HeaderIgnored,
    /// A data page, published on the bus.
    Forwarded,
}

/// Route one received page: header pages feed the cache, data pages the bus,
/// and a malformed buffer is dropped silently — never a panic, and never a
/// page on both paths.
pub fn route_page(page: Vec<u8>, cache: &mut Headers, bus: &mut BroadcastBus) -> (r: RouteAction)
    requires
        old(bus).wf(),
        old(bus).published < usize::MAX,
    ensures
        final(bus).wf(),
        final(bus).capacity == old(bus).capacity,
        final(bus).closed == old(bus).closed,
        !page_well_formed(page@) ==> (r == RouteAction::Dropped && *final(cache) == *old(cache)
            && *final(bus) == *old(bus)),
        is_header_page(page@) ==> (*final(bus) == *old(bus) && final(cache).model() == cache_step(
            old(cache).model(),
            page@,
        ) && (r == RouteAction::HeaderStashed <==> old(cache).model() is Empty) && (r
            == RouteAction::HeadersCommitted <==> old(cache).model() is Stashed) && (r
            == RouteAction::HeaderIgnored <==> old(cache).model() is Filled)),
        is_data_page(page@) ==> (r == RouteAction::Forwarded && *final(cache) == *old(cache)
            && final(bus).history@ == old(bus).history@.push(page@)),
{
    match classify_page(&page) {
        Err(()) => RouteAction::Dropped,
        Ok(PageClass::Header) => match cache.accept_header(page) {
            HeaderAction::Stashed => RouteAction::HeaderStashed,
            HeaderAction::Committed => RouteAction::HeadersCommitted,
            HeaderAction::Ignored => RouteAction::HeaderIgnored,
        },
        Ok(PageClass::Data) => {
            bus.publish(page);
            RouteAction::Forwarded
        },
    }
}

} // verus!
