//! What holds of every run, proved of the state machine.

use vstd::prelude::*;
use crate::dedup::{
    hashes_distinct, holds_hash, holds_identity, identities_distinct, inserted,
    lemma_inserted_distinct, EntryView,
};
use crate::machine::{
    cancelled, cap_reached, finish, next, page_limit, post_page_url, started, wf, ActionView,
    EngineView, EventView, PhaseView,
};
use crate::model::{CandidateView, DetailView, FoundView, ListedView};
use crate::naming::all_tag_links;

verus! {

/// A step keeps a valid run valid: the counters stay consistent, and no two
/// live items come to share an identity or a content hash.
pub proof fn lemma_step_keeps_wf(s: EngineView, e: EventView, now: Seq<char>)
    requires
        wf(s),
    ensures
        wf(next(s, e, now).0),
{
    match s.phase {
        PhaseView::Persisting { source, source_id, hash, upgrade } => {
            let entry = EntryView { source, source_id, content_hash: Some(hash), trashed: false };
            lemma_inserted_distinct(s.index, entry);
            assert(inserted(s.index, entry) == if holds_identity(s.index, source, source_id)
                || holds_hash(s.index, hash) {
                s.index
            } else {
                s.index.push(entry)
            });
        },
        PhaseView::Scanning => {
            if s.queue.len() > 0 {
                assert(s.queue.drop_first().len() == s.queue.len() - 1);
            }
        },
        _ => {},
    }
}

/// The state after a sequence of steps, each with its event and its time.
pub open spec fn run(s: EngineView, events: Seq<(EventView, Seq<char>)>) -> EngineView
    decreases events.len(),
{
    if events.len() == 0 {
        s
    } else {
        run(next(s, events.first().0, events.first().1).0, events.drop_first())
    }
}

/// Whatever happens during a run, it stays valid.
pub proof fn lemma_run_keeps_wf(s: EngineView, events: Seq<(EventView, Seq<char>)>)
    requires
        wf(s),
    ensures
        wf(run(s, events)),
    decreases events.len(),
{
    if events.len() > 0 {
        lemma_step_keeps_wf(s, events.first().0, events.first().1);
        lemma_run_keeps_wf(next(s, events.first().0, events.first().1).0, events.drop_first());
    }
}

/// A run that starts from live items of which no two share a content hash
/// never comes to hold two that do, whatever the sources answer and wherever
/// the run stops.
pub proof fn law_no_shared_hash(
    kind: crate::model::SourceKind,
    index: Seq<EntryView>,
    max_new_items: Option<u32>,
    events: Seq<(EventView, Seq<char>)>,
)
    requires
        identities_distinct(index),
        hashes_distinct(index),
    ensures
        hashes_distinct(run(started(kind, index, max_new_items), events).index),
{
    lemma_run_keeps_wf(started(kind, index, max_new_items), events);
}

/// A run that starts from live items of which no two share source and id
/// never comes to hold two that do.
pub proof fn law_no_shared_identity(
    kind: crate::model::SourceKind,
    index: Seq<EntryView>,
    max_new_items: Option<u32>,
    events: Seq<(EventView, Seq<char>)>,
)
    requires
        identities_distinct(index),
        hashes_distinct(index),
    ensures
        identities_distinct(run(started(kind, index, max_new_items), events).index),
{
    lemma_run_keeps_wf(started(kind, index, max_new_items), events);
}

/// Every entry names a candidate whose identity the index holds.
pub open spec fn all_held(index: Seq<EntryView>, list: Seq<ListedView>) -> bool {
    forall|i: int|
        #![trigger list[i]]
        0 <= i < list.len() ==> list[i].candidate is Some && holds_identity(
            index,
            list[i].candidate->0.source,
            list[i].candidate->0.source_id,
        )
}

/// The state after `n` steps that each resume the run.
pub open spec fn resumed(s: EngineView, n: nat) -> EngineView
    decreases n,
{
    if n == 0 {
        s
    } else {
        resumed(next(s, EventView::Resume, Seq::empty()).0, (n - 1) as nat)
    }
}

/// Scanning the rest of a page whose candidates the library all holds by
/// identity skips each of them as existing: nothing is fetched, attempted,
/// imported or upgraded, and the index stays as it is.
pub proof fn law_held_page_is_skipped(s: EngineView)
    requires
        wf(s),
        s.phase is Scanning,
        !s.session.cancelled,
        !cap_reached(s.kind, s.session),
        all_held(s.index, s.queue),
    ensures
        ({
            let t = resumed(s, s.queue.len());
            &&& wf(t)
            &&& t.phase is Scanning
            &&& t.queue.len() == 0
            &&& t.kind == s.kind
            &&& t.page == s.page
            &&& t.index == s.index
            &&& t.session.scanned_candidates == s.session.scanned_candidates + s.queue.len()
            &&& t.session.skipped_existing == s.session.skipped_existing + s.queue.len()
            &&& t.session.skipped_by_hash == s.session.skipped_by_hash
            &&& t.session.attempted == s.session.attempted
            &&& t.session.imported == s.session.imported
            &&& t.session.upgraded == s.session.upgraded
            &&& t.session.failed == s.session.failed
            &&& t.session.unavailable == s.session.unavailable
            &&& t.session.scanned_pages == s.session.scanned_pages
            &&& t.session.last_error == s.session.last_error
            &&& t.session.max_new_items == s.session.max_new_items
            &&& t.session.running == s.session.running
            &&& !t.session.cancelled
        }),
    decreases s.queue.len(),
{
    if s.queue.len() > 0 {
        let l = s.queue.first();
        assert(s.queue[0] == l);
        let t = next(s, EventView::Resume, Seq::empty()).0;
        lemma_step_keeps_wf(s, EventView::Resume, Seq::empty());
        assert(t.queue == s.queue.drop_first());
        assert forall|i: int| 0 <= i < t.queue.len() implies (#[trigger] t.queue[i]).candidate is Some
            && holds_identity(
            t.index,
            t.queue[i].candidate->0.source,
            t.queue[i].candidate->0.source_id,
        ) by {
            assert(t.queue[i] == s.queue[i + 1]);
        }
        law_held_page_is_skipped(t);
    }
}

/// The state after a listing page has been asked for, has arrived and has
/// been scanned to its end.
pub open spec fn scan_page(s: EngineView, list: Seq<ListedView>) -> EngineView {
    resumed(
        next(
            next(s, EventView::Resume, Seq::empty()).0,
            EventView::PageListed(list),
            Seq::empty(),
        ).0,
        list.len(),
    )
}

/// The state after the given listing pages, one after the other.
pub open spec fn scan_pages(s: EngineView, pages: Seq<Seq<ListedView>>) -> EngineView
    decreases pages.len(),
{
    if pages.len() == 0 {
        s
    } else {
        scan_pages(scan_page(s, pages.first()), pages.drop_first())
    }
}

/// The number of entries on the given pages.
pub open spec fn entries(pages: Seq<Seq<ListedView>>) -> nat
    decreases pages.len(),
{
    if pages.len() == 0 {
        0
    } else {
        pages.first().len() + entries(pages.drop_first())
    }
}

/// The state after the given pages and the empty page that ends the listing.
pub open spec fn rerun(s: EngineView, pages: Seq<Seq<ListedView>>) -> EngineView {
    next(
        next(scan_pages(s, pages), EventView::Resume, Seq::empty()).0,
        EventView::PageListed(Seq::empty()),
        Seq::empty(),
    ).0
}

proof fn lemma_scan_pages(s: EngineView, pages: Seq<Seq<ListedView>>)
    requires
        wf(s),
        s.phase is Scanning,
        s.queue.len() == 0,
        !s.session.cancelled,
        !cap_reached(s.kind, s.session),
        s.page + pages.len() < page_limit(s.kind),
        s.session.scanned_candidates + entries(pages) <= u32::MAX,
        forall|k: int|
            #![trigger pages[k]]
            0 <= k < pages.len() ==> pages[k].len() > 0 && all_held(s.index, pages[k]),
    ensures
        ({
            let t = scan_pages(s, pages);
            &&& wf(t)
            &&& t.phase is Scanning
            &&& t.queue.len() == 0
            &&& t.kind == s.kind
            &&& t.page == s.page + pages.len()
            &&& t.index == s.index
            &&& t.session.scanned_candidates == s.session.scanned_candidates + entries(pages)
            &&& t.session.skipped_existing == s.session.skipped_existing + entries(pages)
            &&& t.session.skipped_by_hash == s.session.skipped_by_hash
            &&& t.session.attempted == s.session.attempted
            &&& t.session.imported == s.session.imported
            &&& t.session.upgraded == s.session.upgraded
            &&& t.session.failed == s.session.failed
            &&& t.session.unavailable == s.session.unavailable
            &&& t.session.last_error == s.session.last_error
            &&& t.session.max_new_items == s.session.max_new_items
            &&& t.session.running == s.session.running
            &&& !t.session.cancelled
        }),
    decreases pages.len(),
{
    if pages.len() > 0 {
        let list = pages.first();
        assert(pages[0] == list);
        let a = next(s, EventView::Resume, Seq::empty()).0;
        lemma_step_keeps_wf(s, EventView::Resume, Seq::empty());
        let b = next(a, EventView::PageListed(list), Seq::empty()).0;
        lemma_step_keeps_wf(a, EventView::PageListed(list), Seq::empty());
        assert(b.queue == list);
        law_held_page_is_skipped(b);
        let c = scan_page(s, list);
        let rest = pages.drop_first();
        assert forall|k: int| 0 <= k < rest.len() implies (#[trigger] rest[k]).len() > 0
            && all_held(c.index, rest[k]) by {
            assert(rest[k] == pages[k + 1]);
        }
        lemma_scan_pages(c, rest);
    }
}

/// Running again over a listing of which the library holds every candidate by
/// identity changes nothing in the library and persists nothing: the run ends
/// with no item imported or upgraded, and with one more candidate skipped as
/// existing for each entry of the listing.
pub proof fn law_rerun_imports_nothing(
    kind: crate::model::SourceKind,
    index: Seq<EntryView>,
    max_new_items: Option<u32>,
    pages: Seq<Seq<ListedView>>,
)
    requires
        identities_distinct(index),
        hashes_distinct(index),
        !cap_reached(kind, started(kind, index, max_new_items).session),
        pages.len() < page_limit(kind),
        entries(pages) <= u32::MAX,
        forall|k: int|
            #![trigger pages[k]]
            0 <= k < pages.len() ==> pages[k].len() > 0 && all_held(index, pages[k]),
    ensures
        ({
            let t = rerun(started(kind, index, max_new_items), pages);
            &&& t.phase is Finished
            &&& !t.session.running
            &&& t.index == index
            &&& t.session.imported == 0
            &&& t.session.upgraded == 0
            &&& t.session.attempted == 0
            &&& t.session.failed == 0
            &&& t.session.skipped_by_hash == 0
            &&& t.session.skipped_existing == entries(pages)
            &&& t.session.scanned_candidates == entries(pages)
            &&& t.session.last_error is None
        }),
{
    let s = started(kind, index, max_new_items);
    lemma_scan_pages(s, pages);
    let t = scan_pages(s, pages);
    lemma_step_keeps_wf(t, EventView::Resume, Seq::empty());
}

/// Once a stop request is visible to the run, no step asks for a listing
/// page, and no step takes the request back.
pub proof fn law_no_listing_after_cancel(s: EngineView, e: EventView, now: Seq<char>)
    requires
        s.session.cancelled,
    ensures
        !(next(s, e, now).1 is ListPage),
        next(s, e, now).0.session.cancelled,
{
}

/// The greatest number of steps that a run can still make once a stop
/// request is visible to it.
pub open spec fn steps_left(p: PhaseView) -> nat {
    match p {
        PhaseView::Finished => 0,
        PhaseView::Scanning => 1,
        PhaseView::Recording => 2,
        PhaseView::Listing => 2,
        PhaseView::Persisting { .. } => 3,
        PhaseView::Canonical { .. } => 4,
        PhaseView::Lookup { .. } => 5,
        PhaseView::Media { .. } => 6,
        PhaseView::Detail { .. } => 7,
    }
}

/// Once a stop request is visible, each step brings the run nearer to its
/// end: what is in flight is finished, and nothing new is begun.
pub proof fn law_cancel_winds_down(s: EngineView, e: EventView, now: Seq<char>)
    requires
        s.session.cancelled,
        !(s.phase is Finished),
    ensures
        steps_left(next(s, e, now).0.phase) < steps_left(s.phase),
{
}

/// A run that has ended after a stop request is not running and shows the
/// request; its counters are those of the moment it ended.
pub proof fn law_cancelled_run_ends_stopped(s: EngineView)
    requires
        wf(s),
        s.phase is Scanning,
    ensures
        next(cancelled(s), EventView::Resume, Seq::empty()) == finish(cancelled(s)),
        !next(cancelled(s), EventView::Resume, Seq::empty()).0.session.running,
        next(cancelled(s), EventView::Resume, Seq::empty()).0.session.cancelled,
        next(cancelled(s), EventView::Resume, Seq::empty()).1 is Finish,
{
}

/// A run has ended exactly when its record says that it is not running.
pub proof fn law_ended_is_not_running(s: EngineView)
    requires
        wf(s),
    ensures
        (s.phase is Finished) == !s.session.running,
{
}

/// Content first seen on the lower-trust source that the trusted source
/// holds is persisted once, under the trusted source's identity and
/// metadata, with the first discovery among its source links; the run
/// counts an upgrade and no import.
pub proof fn law_upgrade(
    s: EngineView,
    c: CandidateView,
    d: DetailView,
    hash: Seq<char>,
    bytes: Seq<u8>,
    f: FoundView,
    url: Seq<char>,
    canonical: Seq<u8>,
    now: Seq<char>,
)
    requires
        wf(s),
        s.phase == (PhaseView::Lookup { candidate: c, detail: d, hash, bytes }),
        !holds_hash(s.index, hash),
        !holds_identity(s.index, f.candidate.source, f.candidate.source_id),
        f.detail.download_url == Some(url),
    ensures
        ({
            let (s1, a1) = next(s, EventView::TrustedChecked(Some(f)), now);
            let (s2, a2) = next(s1, EventView::CanonicalFetched(canonical), now);
            let (s3, a3) = next(s2, EventView::Persisted, now);
            &&& a1 == ActionView::FetchCanonical { url }
            &&& a2 is Persist
            &&& a2->plan.source == f.candidate.source
            &&& a2->plan.source_id == f.candidate.source_id
            &&& a2->plan.content_hash == hash
            &&& a2->plan.bytes == canonical
            &&& a2->plan.upgrade
            &&& a2->plan.rating == f.detail.rating
            &&& a2->plan.fav_count == f.detail.fav_count
            &&& a2->plan.score_total == f.detail.score_total
            &&& a2->plan.tags == all_tag_links(f.detail.tags)
            &&& a2->plan.source_urls == seq![post_page_url(f.candidate.source_id)] + d.source_urls
            &&& a3 is Continue
            &&& s3.index == s.index.push(
                EntryView {
                    source: f.candidate.source,
                    source_id: f.candidate.source_id,
                    content_hash: Some(hash),
                    trashed: false,
                },
            )
            &&& s3.session.upgraded == s.session.upgraded + 1
            &&& s3.session.imported == s.session.imported
        }),
{
}

/// Asking twice for a stop is asking once.
pub proof fn law_cancel_is_idempotent(s: EngineView)
    ensures
        cancelled(cancelled(s)) == cancelled(s),
{
}

/// No step takes back what a run has counted: an error, fatal or not, leaves
/// every counter at least where it stood.
pub proof fn law_counters_only_grow(s: EngineView, e: EventView, now: Seq<char>)
    requires
        wf(s),
    ensures
        ({
            let t = next(s, e, now).0.session;
            &&& t.scanned_pages >= s.session.scanned_pages
            &&& t.scanned_candidates >= s.session.scanned_candidates
            &&& t.skipped_existing >= s.session.skipped_existing
            &&& t.skipped_by_hash >= s.session.skipped_by_hash
            &&& t.attempted >= s.session.attempted
            &&& t.imported >= s.session.imported
            &&& t.upgraded >= s.session.upgraded
            &&& t.failed >= s.session.failed
            &&& t.unavailable >= s.session.unavailable
            &&& t.max_new_items == s.session.max_new_items
        }),
{
    if s.phase is Scanning && s.queue.len() > 0 {
        assert(s.queue.drop_first().len() == s.queue.len() - 1);
    }
}

/// A step handles at most one candidate: the counted outcomes grow by at
/// most one, and so does the number of candidates scanned.
pub proof fn law_one_candidate_per_step(s: EngineView, e: EventView, now: Seq<char>)
    requires
        wf(s),
    ensures
        next(s, e, now).0.session.settled() <= s.session.settled() + 1,
        next(s, e, now).0.session.scanned_candidates <= s.session.scanned_candidates + 1,
        next(s, e, now).0.session.imported + next(s, e, now).0.session.upgraded
            <= s.session.imported + s.session.upgraded + 1,
{
    if s.phase is Scanning && s.queue.len() > 0 {
        assert(s.queue.drop_first().len() == s.queue.len() - 1);
    }
}

/// The library grows only by what the writer has stored: a step that is not
/// the answer "persisted" leaves the index as it was.
pub proof fn law_index_changes_only_on_persisted(s: EngineView, e: EventView, now: Seq<char>)
    requires
        !(s.phase is Persisting && e is Persisted),
    ensures
        next(s, e, now).0.index == s.index,
{
}

/// A run that has ended stays ended, whatever is handed to it.
pub proof fn law_ended_run_stays_ended(s: EngineView, events: Seq<(EventView, Seq<char>)>)
    requires
        s.phase is Finished,
    ensures
        run(s, events) == s,
    decreases events.len(),
{
    if events.len() > 0 {
        law_ended_run_stays_ended(s, events.drop_first());
    }
}

/// Once a stop request is visible, the run ends within as many steps as the
/// candidate in hand still needs, whatever the sources answer: it is then
/// not running, and its record shows the request.
pub proof fn law_cancelled_run_ends(s: EngineView, events: Seq<(EventView, Seq<char>)>)
    requires
        wf(s),
        s.session.cancelled,
        events.len() >= steps_left(s.phase),
    ensures
        run(s, events).phase is Finished,
        !run(s, events).session.running,
        run(s, events).session.cancelled,
    decreases events.len(),
{
    if s.phase is Finished {
        law_ended_run_stays_ended(s, events);
    } else {
        let e = events.first();
        lemma_step_keeps_wf(s, e.0, e.1);
        law_cancel_winds_down(s, e.0, e.1);
        law_no_listing_after_cancel(s, e.0, e.1);
        law_cancelled_run_ends(next(s, e.0, e.1).0, events.drop_first());
    }
}

/// Media whose content the library holds already is not persisted again: the
/// candidate is skipped by hash and nothing else is asked for.
pub proof fn law_known_content_is_skipped(
    s: EngineView,
    c: CandidateView,
    d: DetailView,
    bytes: Seq<u8>,
    now: Seq<char>,
)
    requires
        wf(s),
        s.phase == (PhaseView::Media { candidate: c, detail: d }),
        d.declared_hash is None,
        holds_hash(s.index, crate::digest::content_hash_of(bytes)),
    ensures
        ({
            let (t, a) = next(s, EventView::MediaFetched(bytes), now);
            &&& a is Continue
            &&& t.index == s.index
            &&& t.session.skipped_by_hash == s.session.skipped_by_hash + 1
            &&& t.session.imported == s.session.imported
            &&& t.session.upgraded == s.session.upgraded
            &&& t.session.failed == s.session.failed
        }),
{
}

/// One entry of a listing as a run meets it again, with what the source
/// answers where the run asks: the detail, and the media bytes.
pub struct Seen {
    pub entry: ListedView,
    pub fetched: DetailView,
    pub bytes: Seq<u8>,
}

/// The detail that the run goes by: the one that came with the listing,
/// else the one fetched.
pub open spec fn detail_of(seen: Seen) -> DetailView {
    match seen.entry.detail {
        Some(d) => d,
        None => seen.fetched,
    }
}

/// Whether the library holds the content of an entry, as far as the run can
/// tell without attempting anything that counts against a cap: by the hash
/// that the source states, or by the hash of the bytes fetched.
pub open spec fn content_known(s: EngineView, seen: Seen) -> bool {
    let d = detail_of(seen);
    match d.declared_hash {
        Some(h) => holds_hash(s.index, h),
        None => {
            &&& d.download_url is Some
            &&& !s.kind.trusted() || (d.ext.len() > 0 && s.session.max_new_items is None)
            &&& holds_hash(s.index, crate::digest::content_hash_of(seen.bytes))
        },
    }
}

/// Whether the library holds an entry by its own identity.
pub open spec fn held(index: Seq<EntryView>, entry: ListedView) -> bool {
    entry.candidate is Some && holds_identity(
        index,
        entry.candidate->0.source,
        entry.candidate->0.source_id,
    )
}

/// Whether an entry brings nothing new: it has no usable id, or the library
/// holds it by its own identity, or holds its content under another.
pub open spec fn nothing_new(s: EngineView, seen: Seen) -> bool {
    seen.entry.candidate is None || held(s.index, seen.entry) || content_known(s, seen)
}

/// The state after the next entry of the page has been handled with the
/// source's answers.
pub open spec fn revisit(s: EngineView, seen: Seen) -> EngineView {
    let a = next(s, EventView::Resume, Seq::empty()).0;
    let b = if a.phase is Detail {
        next(a, EventView::DetailFetched(seen.fetched), Seq::empty()).0
    } else {
        a
    };
    if b.phase is Media {
        next(b, EventView::MediaFetched(seen.bytes), Seq::empty()).0
    } else {
        b
    }
}

/// What stays as it is while entries that bring nothing new are handled.
pub open spec fn nothing_persisted(s: EngineView, t: EngineView) -> bool {
    &&& t.kind == s.kind
    &&& t.page == s.page
    &&& t.index == s.index
    &&& t.session.imported == s.session.imported
    &&& t.session.upgraded == s.session.upgraded
    &&& t.session.failed == s.session.failed
    &&& t.session.unavailable == s.session.unavailable
    &&& t.session.scanned_pages == s.session.scanned_pages
    &&& t.session.last_error == s.session.last_error
    &&& t.session.max_new_items == s.session.max_new_items
    &&& t.session.running == s.session.running
    &&& t.session.cancelled == s.session.cancelled
    &&& cap_reached(t.kind, t.session) == cap_reached(s.kind, s.session)
}

/// An entry that brings nothing new is skipped: as existing where the
/// library holds it by its own identity, by hash where it holds the content
/// under another, and without a count where it has no usable id. Nothing is
/// persisted, and no media is asked for where the identity is held.
pub proof fn law_known_entry_is_skipped(s: EngineView, seen: Seen)
    requires
        wf(s),
        s.phase is Scanning,
        !s.session.cancelled,
        !cap_reached(s.kind, s.session),
        s.queue.len() > 0,
        s.queue.first() == seen.entry,
        nothing_new(s, seen),
    ensures
        ({
            let t = revisit(s, seen);
            &&& wf(t)
            &&& t.phase is Scanning
            &&& t.queue == s.queue.drop_first()
            &&& nothing_persisted(s, t)
            &&& t.session.scanned_candidates == s.session.scanned_candidates + 1
            &&& t.session.skipped_existing == s.session.skipped_existing + (if held(
                s.index,
                seen.entry,
            ) {
                1int
            } else {
                0int
            })
            &&& t.session.skipped_by_hash == s.session.skipped_by_hash + (if seen.entry.candidate is Some
                && !held(s.index, seen.entry) {
                1int
            } else {
                0int
            })
            &&& held(s.index, seen.entry) ==> next(s, EventView::Resume, Seq::empty()).1 is Continue
        }),
{
    let a = next(s, EventView::Resume, Seq::empty()).0;
    lemma_step_keeps_wf(s, EventView::Resume, Seq::empty());
    assert(s.queue.drop_first().len() == s.queue.len() - 1);
    if a.phase is Detail {
        lemma_step_keeps_wf(a, EventView::DetailFetched(seen.fetched), Seq::empty());
        let b = next(a, EventView::DetailFetched(seen.fetched), Seq::empty()).0;
        if b.phase is Media {
            lemma_step_keeps_wf(b, EventView::MediaFetched(seen.bytes), Seq::empty());
        }
    } else if a.phase is Media {
        lemma_step_keeps_wf(a, EventView::MediaFetched(seen.bytes), Seq::empty());
    }
}

/// The state after the given entries have been handled one after the other.
pub open spec fn revisit_all(s: EngineView, seens: Seq<Seen>) -> EngineView
    decreases seens.len(),
{
    if seens.len() == 0 {
        s
    } else {
        revisit_all(revisit(s, seens.first()), seens.drop_first())
    }
}

/// The number of the entries that the library holds by their own identity.
pub open spec fn held_count(index: Seq<EntryView>, seens: Seq<Seen>) -> nat
    decreases seens.len(),
{
    if seens.len() == 0 {
        0
    } else {
        (if held(index, seens.first().entry) {
            1nat
        } else {
            0nat
        }) + held_count(index, seens.drop_first())
    }
}

/// The entries of a page as the listing delivers them.
pub open spec fn listed(seens: Seq<Seen>) -> Seq<ListedView> {
    Seq::new(seens.len(), |i: int| seens[i].entry)
}

/// Whether each of the entries brings nothing new.
pub open spec fn all_nothing_new(s: EngineView, seens: Seq<Seen>) -> bool {
    forall|i: int| 0 <= i < seens.len() ==> nothing_new(s, #[trigger] seens[i])
}

proof fn lemma_nothing_new_carries(s: EngineView, t: EngineView, seen: Seen)
    requires
        nothing_new(s, seen),
        t.index == s.index,
        t.kind == s.kind,
        t.session.max_new_items == s.session.max_new_items,
    ensures
        nothing_new(t, seen),
{
}

/// A page whose entries all bring nothing new is scanned to its end without
/// anything being persisted; the candidates held by their own identity are
/// skipped as existing, the others that have an id by hash.
pub proof fn law_known_page_is_skipped(s: EngineView, seens: Seq<Seen>)
    requires
        wf(s),
        s.phase is Scanning,
        !s.session.cancelled,
        !cap_reached(s.kind, s.session),
        s.queue == listed(seens),
        all_nothing_new(s, seens),
    ensures
        ({
            let t = revisit_all(s, seens);
            &&& wf(t)
            &&& t.phase is Scanning
            &&& t.queue.len() == 0
            &&& nothing_persisted(s, t)
            &&& t.session.scanned_candidates == s.session.scanned_candidates + seens.len()
            &&& t.session.skipped_existing == s.session.skipped_existing + held_count(
                s.index,
                seens,
            )
        }),
    decreases seens.len(),
{
    if seens.len() > 0 {
        let seen = seens.first();
        assert(s.queue[0] == seens[0].entry);
        assert(nothing_new(s, seens[0]));
        law_known_entry_is_skipped(s, seen);
        let t = revisit(s, seen);
        let rest = seens.drop_first();
        assert(t.queue =~= listed(rest));
        assert forall|i: int| 0 <= i < rest.len() implies nothing_new(t, #[trigger] rest[i]) by {
            assert(rest[i] == seens[i + 1]);
            lemma_nothing_new_carries(s, t, seens[i + 1]);
        }
        law_known_page_is_skipped(t, rest);
    } else {
        assert(s.queue.len() == 0);
    }
}

/// The state after a page has been asked for, has arrived and has been
/// handled to its end.
pub open spec fn revisit_page(s: EngineView, seens: Seq<Seen>) -> EngineView {
    revisit_all(
        next(
            next(s, EventView::Resume, Seq::empty()).0,
            EventView::PageListed(listed(seens)),
            Seq::empty(),
        ).0,
        seens,
    )
}

/// The state after the given pages, one after the other.
pub open spec fn revisit_pages(s: EngineView, pages: Seq<Seq<Seen>>) -> EngineView
    decreases pages.len(),
{
    if pages.len() == 0 {
        s
    } else {
        revisit_pages(revisit_page(s, pages.first()), pages.drop_first())
    }
}

/// The number of entries on the given pages.
pub open spec fn seen_count(pages: Seq<Seq<Seen>>) -> nat
    decreases pages.len(),
{
    if pages.len() == 0 {
        0
    } else {
        pages.first().len() + seen_count(pages.drop_first())
    }
}

/// The number of entries on the given pages that the library holds by their
/// own identity.
pub open spec fn held_on_pages(index: Seq<EntryView>, pages: Seq<Seq<Seen>>) -> nat
    decreases pages.len(),
{
    if pages.len() == 0 {
        0
    } else {
        held_count(index, pages.first()) + held_on_pages(index, pages.drop_first())
    }
}

/// The state after the given pages and the empty page that ends the listing.
pub open spec fn rerun_with_answers(s: EngineView, pages: Seq<Seq<Seen>>) -> EngineView {
    next(
        next(revisit_pages(s, pages), EventView::Resume, Seq::empty()).0,
        EventView::PageListed(Seq::empty()),
        Seq::empty(),
    ).0
}

proof fn lemma_revisit_pages(s: EngineView, pages: Seq<Seq<Seen>>)
    requires
        wf(s),
        s.phase is Scanning,
        s.queue.len() == 0,
        !s.session.cancelled,
        !cap_reached(s.kind, s.session),
        s.page + pages.len() < page_limit(s.kind),
        s.session.scanned_candidates + seen_count(pages) <= u32::MAX,
        forall|k: int|
            #![trigger pages[k]]
            0 <= k < pages.len() ==> pages[k].len() > 0 && all_nothing_new(s, pages[k]),
    ensures
        ({
            let t = revisit_pages(s, pages);
            &&& wf(t)
            &&& t.phase is Scanning
            &&& t.queue.len() == 0
            &&& t.kind == s.kind
            &&& t.page == s.page + pages.len()
            &&& t.index == s.index
            &&& t.session.imported == s.session.imported
            &&& t.session.upgraded == s.session.upgraded
            &&& t.session.failed == s.session.failed
            &&& t.session.unavailable == s.session.unavailable
            &&& t.session.last_error == s.session.last_error
            &&& t.session.max_new_items == s.session.max_new_items
            &&& t.session.running == s.session.running
            &&& !t.session.cancelled
            &&& !cap_reached(t.kind, t.session)
            &&& t.session.scanned_candidates == s.session.scanned_candidates + seen_count(pages)
            &&& t.session.skipped_existing == s.session.skipped_existing + held_on_pages(
                s.index,
                pages,
            )
        }),
    decreases pages.len(),
{
    if pages.len() > 0 {
        let seens = pages.first();
        assert(pages[0] == seens);
        let a = next(s, EventView::Resume, Seq::empty()).0;
        lemma_step_keeps_wf(s, EventView::Resume, Seq::empty());
        let b = next(a, EventView::PageListed(listed(seens)), Seq::empty()).0;
        lemma_step_keeps_wf(a, EventView::PageListed(listed(seens)), Seq::empty());
        assert(b.queue == listed(seens));
        assert forall|i: int| 0 <= i < seens.len() implies nothing_new(b, #[trigger] seens[i]) by {
            lemma_nothing_new_carries(s, b, seens[i]);
        }
        law_known_page_is_skipped(b, seens);
        let c = revisit_page(s, seens);
        let rest = pages.drop_first();
        assert forall|k: int| 0 <= k < rest.len() implies (#[trigger] rest[k]).len() > 0
            && all_nothing_new(c, rest[k]) by {
            assert(rest[k] == pages[k + 1]);
            assert forall|i: int| 0 <= i < rest[k].len() implies nothing_new(
                c,
                #[trigger] rest[k][i],
            ) by {
                lemma_nothing_new_carries(s, c, rest[k][i]);
            }
        }
        lemma_revisit_pages(c, rest);
    }
}

/// Running again over a listing that brings nothing new persists nothing:
/// whatever the entries are — held by their own identity, held by content
/// under another identity, or without a usable id — the run ends with no
/// item imported or upgraded and the library as it was, and the candidates
/// skipped as existing are exactly those that the library holds by their
/// own identity.
pub proof fn law_rerun_persists_nothing(
    kind: crate::model::SourceKind,
    index: Seq<EntryView>,
    max_new_items: Option<u32>,
    pages: Seq<Seq<Seen>>,
)
    requires
        identities_distinct(index),
        hashes_distinct(index),
        !cap_reached(kind, started(kind, index, max_new_items).session),
        pages.len() < page_limit(kind),
        seen_count(pages) <= u32::MAX,
        forall|k: int|
            #![trigger pages[k]]
            0 <= k < pages.len() ==> pages[k].len() > 0 && all_nothing_new(
                started(kind, index, max_new_items),
                pages[k],
            ),
    ensures
        ({
            let t = rerun_with_answers(started(kind, index, max_new_items), pages);
            &&& t.phase is Finished
            &&& !t.session.running
            &&& t.index == index
            &&& t.session.imported == 0
            &&& t.session.upgraded == 0
            &&& t.session.failed == 0
            &&& t.session.skipped_existing == held_on_pages(index, pages)
            &&& t.session.scanned_candidates == seen_count(pages)
            &&& t.session.last_error is None
        }),
{
    let s = started(kind, index, max_new_items);
    lemma_revisit_pages(s, pages);
    let t = revisit_pages(s, pages);
    lemma_step_keeps_wf(t, EventView::Resume, Seq::empty());
}

} // verus!
