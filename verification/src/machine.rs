//! The sync run as a state machine over mathematical values: what the
//! orchestrator does next, given where it stands and what has just happened.

use vstd::prelude::*;
use crate::dedup::{holds_hash, holds_identity, hashes_distinct, identities_distinct, EntryView};
use crate::digest::content_hash_of;
use crate::model::{CandidateView, DetailView, FoundView, ListedView, PlanView, SourceKind};
use crate::naming::{filed_artist, item_stem, item_tag_links};
use crate::session::SessionView;
use crate::text::numeral;

verus! {

/// Where a run stands between two steps.
pub enum PhaseView {
    /// Between candidates: the next step looks at the stop request, the cap
    /// and the rest of the page.
    Scanning,
    /// A listing page has been asked for.
    Listing,
    /// The detail of a candidate has been asked for.
    Detail { candidate: CandidateView },
    /// The media bytes of a candidate have been asked for.
    Media { candidate: CandidateView, detail: DetailView },
    /// The trusted source has been asked whether it holds the content.
    Lookup { candidate: CandidateView, detail: DetailView, hash: Seq<char>, bytes: Seq<u8> },
    /// The trusted source's own file has been asked for.
    Canonical { candidate: CandidateView, detail: DetailView, found: FoundView, hash: Seq<char> },
    /// The writer has been asked to persist an item.
    Persisting { source: SourceKind, source_id: Seq<char>, hash: Seq<char>, upgrade: bool },
    /// A note on a candidate that cannot be archived has been handed over.
    Recording,
    /// The run has ended.
    Finished,
}

/// What has happened since the last step.
pub enum EventView {
    Resume,
    PageListed(Seq<ListedView>),
    PageFailed(Seq<char>),
    DetailFetched(DetailView),
    DetailFailed(Seq<char>),
    MediaFetched(Seq<u8>),
    MediaFailed(Seq<char>),
    TrustedChecked(Option<FoundView>),
    CanonicalFetched(Seq<u8>),
    CanonicalFailed(Seq<char>),
    Persisted,
    PersistRejected,
    PersistFailed(Seq<char>),
    Recorded,
    RecordFailed(Seq<char>),
}

/// What is to be done before the next step.
pub enum ActionView {
    Continue,
    ListPage { page: u32 },
    FetchDetail { candidate: CandidateView, delay_ms: u32 },
    FetchMedia { url: Seq<char> },
    LookupTrusted { hash: Seq<char>, delay_ms: u32 },
    FetchCanonical { url: Seq<char> },
    Persist { plan: PlanView },
    RecordUnavailable { source_id: Seq<char>, reason: Seq<char>, sources: Seq<Seq<char>> },
    Finish,
}

/// The whole state of a run.
pub struct EngineView {
    pub kind: SourceKind,
    pub session: SessionView,
    pub index: Seq<EntryView>,
    pub phase: PhaseView,
    /// The number of the last page asked for; 0 before the first.
    pub page: u32,
    /// The entries of the current page that are still to be scanned.
    pub queue: Seq<ListedView>,
}

/// The pause before the detail page of a scraped candidate is asked for.
pub const DETAIL_DELAY_MS: u32 = 800;

/// The pause before the trusted source is asked about a content hash.
pub const LOOKUP_DELAY_MS: u32 = 500;

/// The number of listing pages after which a run of the scraped source ends.
pub const SCRAPE_PAGE_LIMIT: u32 = 50;

/// The pause before a candidate's detail is asked for.
pub open spec fn detail_delay(kind: SourceKind) -> u32 {
    if kind.trusted() {
        0
    } else {
        DETAIL_DELAY_MS
    }
}

/// The number of listing pages after which a run ends.
pub open spec fn page_limit(kind: SourceKind) -> u32 {
    if kind.trusted() {
        u32::MAX
    } else {
        SCRAPE_PAGE_LIMIT
    }
}

/// Whether the run has reached its cap of new items: attempts count against
/// the cap of the structured source, persisted items against that of the
/// scraped source, where a cap of zero is no cap.
pub open spec fn cap_reached(kind: SourceKind, session: SessionView) -> bool {
    match session.max_new_items {
        Some(m) => if kind.trusted() {
            session.attempted >= m
        } else {
            m > 0 && session.imported + session.upgraded >= m
        },
        None => false,
    }
}

/// The message shown while a listing page is fetched.
pub open spec fn scanning_message(page: u32) -> Seq<char> {
    "Scanning page "@ + numeral(page as nat) + "..."@
}

/// The message shown while a candidate is handled.
pub open spec fn processing_message(id: Seq<char>) -> Seq<char> {
    "Processing #"@ + id + "..."@
}

/// The page of a post on the trusted source.
pub open spec fn post_page_url(id: Seq<char>) -> Seq<char> {
    "https://e621.net/posts/"@ + id
}

/// The state in which the run is valid.
pub open spec fn wf(s: EngineView) -> bool {
    &&& identities_distinct(s.index)
    &&& hashes_distinct(s.index)
    &&& s.session.consistent()
    &&& s.session.scanned_candidates + s.queue.len() <= u32::MAX
    &&& s.session.scanned_pages <= s.page
    &&& s.session.running == !(s.phase is Finished)
    &&& match s.phase {
        PhaseView::Listing => s.queue.len() == 0 && s.session.scanned_pages < s.page,
        PhaseView::Detail { .. } => s.session.settled() < s.session.scanned_candidates
            && s.session.attempted < s.session.scanned_candidates,
        PhaseView::Media { .. } => s.session.settled() < s.session.scanned_candidates,
        PhaseView::Lookup { .. } => s.session.settled() < s.session.scanned_candidates,
        PhaseView::Canonical { .. } => s.session.settled() < s.session.scanned_candidates,
        PhaseView::Persisting { .. } => s.session.settled() < s.session.scanned_candidates,
        _ => true,
    }
}

/// The state of a run that has just been accepted.
pub open spec fn started(kind: SourceKind, index: Seq<EntryView>, max_new_items: Option<u32>)
    -> EngineView {
    EngineView {
        kind,
        session: SessionView::fresh(max_new_items),
        index,
        phase: PhaseView::Scanning,
        page: 0,
        queue: Seq::empty(),
    }
}

/// The state once a stop has been asked for.
pub open spec fn cancelled(s: EngineView) -> EngineView {
    EngineView { session: SessionView { cancelled: true, ..s.session }, ..s }
}

/// The run ends.
pub open spec fn finish(s: EngineView) -> (EngineView, ActionView) {
    (
        EngineView {
            session: SessionView {
                running: false,
                current_message: Some("Done."@),
                ..s.session
            },
            phase: PhaseView::Finished,
            ..s
        },
        ActionView::Finish,
    )
}

/// The run ends on an error that is fatal to it.
pub open spec fn abort(s: EngineView, message: Seq<char>) -> (EngineView, ActionView) {
    finish(EngineView { session: SessionView { last_error: Some(message), ..s.session }, ..s })
}

/// The candidate in hand is done with.
pub open spec fn settle(s: EngineView) -> (EngineView, ActionView) {
    (EngineView { phase: PhaseView::Scanning, ..s }, ActionView::Continue)
}

/// The candidate in hand was in the library already, by identity.
pub open spec fn skip_existing(s: EngineView) -> (EngineView, ActionView) {
    settle(
        EngineView {
            session: SessionView {
                skipped_existing: (s.session.skipped_existing + 1) as u32,
                ..s.session
            },
            ..s
        },
    )
}

/// The content of the candidate in hand was in the library already.
pub open spec fn skip_by_hash(s: EngineView) -> (EngineView, ActionView) {
    settle(
        EngineView {
            session: SessionView {
                skipped_by_hash: (s.session.skipped_by_hash + 1) as u32,
                ..s.session
            },
            ..s
        },
    )
}

/// The candidate in hand failed in a way the run survives. For the structured
/// source a note on the candidate is handed over.
pub open spec fn fail(s: EngineView, source_id: Seq<char>, message: Seq<char>) -> (
    EngineView,
    ActionView,
) {
    let t = EngineView {
        session: SessionView {
            failed: (s.session.failed + 1) as u32,
            last_error: Some(message),
            ..s.session
        },
        ..s
    };
    if s.kind.trusted() {
        (
            EngineView { phase: PhaseView::Recording, ..t },
            ActionView::RecordUnavailable {
                source_id,
                reason: "download_failed"@,
                sources: Seq::empty(),
            },
        )
    } else {
        settle(t)
    }
}

/// What the writer is handed for an item. A scraped submission states no
/// time of its own, so it counts as made when it is added.
pub open spec fn plan_of(
    c: CandidateView,
    d: DetailView,
    hash: Seq<char>,
    bytes: Seq<u8>,
    upgrade: bool,
    source_urls: Seq<Seq<char>>,
    now: Seq<char>,
) -> PlanView {
    PlanView {
        source: c.source,
        source_id: c.source_id,
        content_hash: hash,
        remote_url: match d.download_url {
            Some(u) => u,
            None => Seq::empty(),
        },
        file_stem: item_stem(c.source, c.source_id, d.tags.artist, upgrade),
        ext: d.ext,
        rating: d.rating,
        fav_count: d.fav_count,
        score_total: d.score_total,
        created_at: if c.source.trusted() {
            d.created_at
        } else {
            Some(now)
        },
        added_at: now,
        primary_artist: filed_artist(c.source, d.tags.artist, upgrade),
        tags: item_tag_links(d.tags, c.source, upgrade),
        source_urls,
        bytes,
        upgrade,
    }
}

/// The writer is asked to persist an item.
pub open spec fn persist(s: EngineView, plan: PlanView) -> (EngineView, ActionView) {
    (
        EngineView {
            phase: PhaseView::Persisting {
                source: plan.source,
                source_id: plan.source_id,
                hash: plan.content_hash,
                upgrade: plan.upgrade,
            },
            ..s
        },
        ActionView::Persist { plan },
    )
}

/// The detail of the candidate in hand is known.
pub open spec fn consider(s: EngineView, c: CandidateView, d: DetailView) -> (
    EngineView,
    ActionView,
) {
    if d.declared_hash is Some && holds_hash(s.index, d.declared_hash->0) {
        skip_by_hash(s)
    } else {
        match d.download_url {
            None => if s.kind.trusted() {
                (
                    EngineView {
                        session: SessionView {
                            unavailable: (s.session.unavailable + 1) as u32,
                            ..s.session
                        },
                        phase: PhaseView::Recording,
                        ..s
                    },
                    ActionView::RecordUnavailable {
                        source_id: c.source_id,
                        reason: "missing_file_url"@,
                        sources: d.source_urls,
                    },
                )
            } else {
                fail(s, c.source_id, "Missing download link"@)
            },
            Some(url) => {
                let t = EngineView {
                    session: SessionView {
                        attempted: (s.session.attempted + 1) as u32,
                        ..s.session
                    },
                    ..s
                };
                if s.kind.trusted() && d.ext.len() == 0 {
                    fail(t, c.source_id, "Missing file_ext from e621"@)
                } else {
                    (
                        EngineView { phase: PhaseView::Media { candidate: c, detail: d }, ..t },
                        ActionView::FetchMedia { url },
                    )
                }
            },
        }
    }
}

/// The next entry of the page is scanned.
pub open spec fn begin(s: EngineView, l: ListedView) -> (EngineView, ActionView) {
    let t = EngineView {
        session: SessionView {
            scanned_candidates: (s.session.scanned_candidates + 1) as u32,
            ..s.session
        },
        ..s
    };
    match l.candidate {
        None => settle(t),
        Some(c) => {
            let u = EngineView {
                session: SessionView {
                    current_message: Some(processing_message(c.source_id)),
                    ..t.session
                },
                ..t
            };
            if holds_identity(s.index, c.source, c.source_id) {
                skip_existing(u)
            } else {
                match l.detail {
                    Some(d) => consider(u, c, d),
                    None => (
                        EngineView { phase: PhaseView::Detail { candidate: c }, ..u },
                        ActionView::FetchDetail { candidate: c, delay_ms: detail_delay(s.kind) },
                    ),
                }
            }
        },
    }
}

/// The run goes on between two candidates: it ends where a stop was asked for
/// or the cap is reached, else scans the next entry, else asks for the next page.
pub open spec fn resume(s: EngineView) -> (EngineView, ActionView) {
    if s.session.cancelled || cap_reached(s.kind, s.session) {
        finish(s)
    } else if s.queue.len() > 0 {
        begin(EngineView { queue: s.queue.drop_first(), ..s }, s.queue.first())
    } else if s.page >= page_limit(s.kind) {
        finish(s)
    } else {
        let page = (s.page + 1) as u32;
        (
            EngineView {
                session: SessionView {
                    current_message: Some(scanning_message(page)),
                    ..s.session
                },
                phase: PhaseView::Listing,
                page,
                ..s
            },
            ActionView::ListPage { page },
        )
    }
}

/// A listing page has arrived.
pub open spec fn page_listed(s: EngineView, list: Seq<ListedView>) -> (EngineView, ActionView) {
    let t = EngineView {
        session: SessionView {
            scanned_pages: (s.session.scanned_pages + 1) as u32,
            ..s.session
        },
        ..s
    };
    if list.len() == 0 {
        finish(t)
    } else if s.session.scanned_candidates + list.len() > u32::MAX {
        abort(t, "Listing too large"@)
    } else {
        settle(EngineView { queue: list, ..t })
    }
}

/// The media bytes of the candidate in hand have arrived.
pub open spec fn media_fetched(
    s: EngineView,
    c: CandidateView,
    d: DetailView,
    bytes: Seq<u8>,
    now: Seq<char>,
) -> (EngineView, ActionView) {
    let hash = match d.declared_hash {
        Some(h) => h,
        None => content_hash_of(bytes),
    };
    if d.declared_hash is None && holds_hash(s.index, hash) {
        skip_by_hash(s)
    } else if !s.kind.trusted() {
        (
            EngineView {
                phase: PhaseView::Lookup { candidate: c, detail: d, hash, bytes },
                ..s
            },
            ActionView::LookupTrusted { hash, delay_ms: LOOKUP_DELAY_MS },
        )
    } else {
        persist(s, plan_of(c, d, hash, bytes, false, d.source_urls, now))
    }
}

/// The trusted source has answered the look-up.
pub open spec fn trusted_checked(
    s: EngineView,
    c: CandidateView,
    d: DetailView,
    hash: Seq<char>,
    bytes: Seq<u8>,
    found: Option<FoundView>,
    now: Seq<char>,
) -> (EngineView, ActionView) {
    match found {
        Some(f) => if holds_identity(s.index, f.candidate.source, f.candidate.source_id) {
            skip_by_hash(s)
        } else {
            match f.detail.download_url {
                Some(url) => (
                    EngineView {
                        phase: PhaseView::Canonical { candidate: c, detail: d, found: f, hash },
                        ..s
                    },
                    ActionView::FetchCanonical { url },
                ),
                None => persist(s, plan_of(c, d, hash, bytes, false, d.source_urls, now)),
            }
        },
        None => persist(s, plan_of(c, d, hash, bytes, false, d.source_urls, now)),
    }
}

/// The trusted source's own file has arrived: the item is persisted under the
/// trusted source's identity and metadata, with the page of the trusted post
/// and the links of the first discovery as its sources.
pub open spec fn canonical_fetched(
    s: EngineView,
    d: DetailView,
    f: FoundView,
    hash: Seq<char>,
    bytes: Seq<u8>,
    now: Seq<char>,
) -> (EngineView, ActionView) {
    persist(
        s,
        plan_of(
            f.candidate,
            f.detail,
            hash,
            bytes,
            true,
            seq![post_page_url(f.candidate.source_id)] + d.source_urls,
            now,
        ),
    )
}

/// The writer has persisted the item.
pub open spec fn persisted(
    s: EngineView,
    source: SourceKind,
    source_id: Seq<char>,
    hash: Seq<char>,
    upgrade: bool,
) -> (EngineView, ActionView) {
    if holds_identity(s.index, source, source_id) || holds_hash(s.index, hash) {
        skip_existing(s)
    } else {
        let index = s.index.push(
            EntryView { source, source_id, content_hash: Some(hash), trashed: false },
        );
        if upgrade {
            settle(
                EngineView {
                    session: SessionView {
                        upgraded: (s.session.upgraded + 1) as u32,
                        ..s.session
                    },
                    index,
                    ..s
                },
            )
        } else {
            settle(
                EngineView {
                    session: SessionView {
                        imported: (s.session.imported + 1) as u32,
                        ..s.session
                    },
                    index,
                    ..s
                },
            )
        }
    }
}

/// The text of the error for an event that the phase does not expect.
pub open spec fn unexpected() -> Seq<char> {
    "Unexpected event"@
}

/// One step of the run: the next state and what is to be done, given the
/// state, the event and the time.
pub open spec fn next(s: EngineView, e: EventView, now: Seq<char>) -> (EngineView, ActionView) {
    let b = EngineView { phase: PhaseView::Scanning, ..s };
    match s.phase {
        PhaseView::Finished => (s, ActionView::Finish),
        PhaseView::Scanning => match e {
            EventView::Resume => resume(b),
            _ => abort(b, unexpected()),
        },
        PhaseView::Listing => match e {
            EventView::PageListed(list) => page_listed(b, list),
            EventView::PageFailed(m) => abort(b, m),
            _ => abort(b, unexpected()),
        },
        PhaseView::Detail { candidate } => match e {
            EventView::DetailFetched(d) => consider(b, candidate, d),
            EventView::DetailFailed(m) => fail(b, candidate.source_id, m),
            _ => abort(b, unexpected()),
        },
        PhaseView::Media { candidate, detail } => match e {
            EventView::MediaFetched(bytes) => media_fetched(b, candidate, detail, bytes, now),
            EventView::MediaFailed(m) => fail(b, candidate.source_id, m),
            _ => abort(b, unexpected()),
        },
        PhaseView::Lookup { candidate, detail, hash, bytes } => match e {
            EventView::TrustedChecked(found) => trusted_checked(
                b,
                candidate,
                detail,
                hash,
                bytes,
                found,
                now,
            ),
            _ => abort(b, unexpected()),
        },
        PhaseView::Canonical { candidate, detail, found, hash } => match e {
            EventView::CanonicalFetched(bytes) => canonical_fetched(
                b,
                detail,
                found,
                hash,
                bytes,
                now,
            ),
            EventView::CanonicalFailed(m) => fail(b, candidate.source_id, m),
            _ => abort(b, unexpected()),
        },
        PhaseView::Persisting { source, source_id, hash, upgrade } => match e {
            EventView::Persisted => persisted(b, source, source_id, hash, upgrade),
            EventView::PersistRejected => skip_existing(b),
            EventView::PersistFailed(m) => fail(b, source_id, m),
            _ => abort(b, unexpected()),
        },
        PhaseView::Recording => match e {
            EventView::Recorded => settle(b),
            EventView::RecordFailed(m) => abort(b, m),
            _ => abort(b, unexpected()),
        },
    }
}

} // verus!
