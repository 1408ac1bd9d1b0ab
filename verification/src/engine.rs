//! The orchestrator of one sync run. It decides; its caller does the fetching
//! and the writing, and hands back what came of it.

use vstd::prelude::*;
use crate::dedup::{holds_hash, holds_identity, DedupIndex, Duplicate, IndexEntry};
use crate::digest::content_hash;
use crate::machine::{
    abort, begin, cancelled, canonical_fetched, cap_reached, consider, fail, finish,
    media_fetched, next, page_listed, persist, persisted, plan_of, post_page_url,
    processing_message, resume, scanning_message, settle, skip_by_hash, skip_existing, started,
    trusted_checked, unexpected, wf, ActionView, EngineView, EventView, PhaseView,
    DETAIL_DELAY_MS, LOOKUP_DELAY_MS, SCRAPE_PAGE_LIMIT,
};
use crate::model::{Candidate, Found, Listed, MediaDetail, PersistPlan, SourceKind};
use crate::naming::{file_artist, make_item_stem, plan_item_links};
use crate::session::SyncSession;
use crate::text::{chars_of, decimal, push_chars, push_str, string_of};

verus! {

/// What has happened since the last step.
#[derive(Debug)]
pub enum Event {
    /// Nothing: the run starts or goes on.
    Resume,
    PageListed(Vec<Listed>),
    PageFailed(String),
    DetailFetched(MediaDetail),
    DetailFailed(String),
    MediaFetched(Vec<u8>),
    MediaFailed(String),
    /// The trusted source's answer to a look-up by content hash.
    TrustedChecked(Option<Found>),
    CanonicalFetched(Vec<u8>),
    CanonicalFailed(String),
    /// The item and its links are stored.
    Persisted,
    /// The store refused the item as a duplicate; nothing of it is stored.
    PersistRejected,
    PersistFailed(String),
    Recorded,
    RecordFailed(String),
}

impl DeepView for Event {
    type V = EventView;

    open spec fn deep_view(&self) -> EventView {
        match self {
            Event::Resume => EventView::Resume,
            Event::PageListed(l) => EventView::PageListed(l.deep_view()),
            Event::PageFailed(m) => EventView::PageFailed(m@),
            Event::DetailFetched(d) => EventView::DetailFetched(d.deep_view()),
            Event::DetailFailed(m) => EventView::DetailFailed(m@),
            Event::MediaFetched(b) => EventView::MediaFetched(b@),
            Event::MediaFailed(m) => EventView::MediaFailed(m@),
            Event::TrustedChecked(f) => EventView::TrustedChecked(f.deep_view()),
            Event::CanonicalFetched(b) => EventView::CanonicalFetched(b@),
            Event::CanonicalFailed(m) => EventView::CanonicalFailed(m@),
            Event::Persisted => EventView::Persisted,
            Event::PersistRejected => EventView::PersistRejected,
            Event::PersistFailed(m) => EventView::PersistFailed(m@),
            Event::Recorded => EventView::Recorded,
            Event::RecordFailed(m) => EventView::RecordFailed(m@),
        }
    }
}

/// What the caller is to do before the next step.
#[derive(Debug)]
pub enum Action {
    /// Nothing: look at the stop request, then step with `Event::Resume`.
    Continue,
    ListPage { page: u32 },
    FetchDetail { candidate: Candidate, delay_ms: u32 },
    FetchMedia { url: String },
    LookupTrusted { hash: String, delay_ms: u32 },
    FetchCanonical { url: String },
    Persist { plan: PersistPlan },
    RecordUnavailable { source_id: String, reason: String, sources: Vec<String> },
    Finish,
}

impl DeepView for Action {
    type V = ActionView;

    open spec fn deep_view(&self) -> ActionView {
        match self {
            Action::Continue => ActionView::Continue,
            Action::ListPage { page } => ActionView::ListPage { page: *page },
            Action::FetchDetail { candidate, delay_ms } => ActionView::FetchDetail {
                candidate: candidate.deep_view(),
                delay_ms: *delay_ms,
            },
            Action::FetchMedia { url } => ActionView::FetchMedia { url: url@ },
            Action::LookupTrusted { hash, delay_ms } => ActionView::LookupTrusted {
                hash: hash@,
                delay_ms: *delay_ms,
            },
            Action::FetchCanonical { url } => ActionView::FetchCanonical { url: url@ },
            Action::Persist { plan } => ActionView::Persist { plan: plan.deep_view() },
            Action::RecordUnavailable { source_id, reason, sources } => {
                ActionView::RecordUnavailable {
                    source_id: source_id@,
                    reason: reason@,
                    sources: sources.deep_view(),
                }
            },
            Action::Finish => ActionView::Finish,
        }
    }
}

/// Where the run stands, with what it holds of the candidate in hand.
#[derive(Debug)]
pub enum Phase {
    Scanning,
    Listing,
    Detail { candidate: Candidate },
    Media { candidate: Candidate, detail: MediaDetail },
    Lookup { candidate: Candidate, detail: MediaDetail, hash: String, bytes: Vec<u8> },
    Canonical { candidate: Candidate, detail: MediaDetail, found: Found, hash: String },
    Persisting { source: SourceKind, source_id: String, hash: String, upgrade: bool },
    Recording,
    Finished,
}

impl DeepView for Phase {
    type V = PhaseView;

    open spec fn deep_view(&self) -> PhaseView {
        match self {
            Phase::Scanning => PhaseView::Scanning,
            Phase::Listing => PhaseView::Listing,
            Phase::Detail { candidate } => PhaseView::Detail { candidate: candidate.deep_view() },
            Phase::Media { candidate, detail } => PhaseView::Media {
                candidate: candidate.deep_view(),
                detail: detail.deep_view(),
            },
            Phase::Lookup { candidate, detail, hash, bytes } => PhaseView::Lookup {
                candidate: candidate.deep_view(),
                detail: detail.deep_view(),
                hash: hash@,
                bytes: bytes@,
            },
            Phase::Canonical { candidate, detail, found, hash } => PhaseView::Canonical {
                candidate: candidate.deep_view(),
                detail: detail.deep_view(),
                found: found.deep_view(),
                hash: hash@,
            },
            Phase::Persisting { source, source_id, hash, upgrade } => PhaseView::Persisting {
                source: *source,
                source_id: source_id@,
                hash: hash@,
                upgrade: *upgrade,
            },
            Phase::Recording => PhaseView::Recording,
            Phase::Finished => PhaseView::Finished,
        }
    }
}

/// The current time as an RFC 3339 text. Reads the clock with
/// `std::time::SystemTime::now`, turns it into a `chrono::DateTime<Utc>`,
/// which also takes a clock that stands before 1970, and writes it with
/// `DateTime::to_rfc3339`. Nothing is claimed of the text.
#[verifier::external_body]
fn timestamp_now() -> (now: String) {
    chrono::DateTime::<chrono::Utc>::from(std::time::SystemTime::now()).to_rfc3339()
}

/// A copy of a list of texts.
pub fn copy_texts(v: &Vec<String>) -> (out: Vec<String>)
    ensures
        out.deep_view() == v.deep_view(),
{
    let mut out: Vec<String> = Vec::new();
    let mut i: usize = 0;
    while i < v.len()
        invariant
            i <= v.len(),
            out@.len() == i,
            forall|k: int| 0 <= k < i ==> out@[k]@ == v@[k]@,
        decreases v.len() - i,
    {
        out.push(v[i].clone());
        i += 1;
    }
    assert(out.deep_view() =~= v.deep_view());
    out
}

/// The message shown while a listing page is fetched.
pub fn make_scanning_message(page: u32) -> (out: String)
    ensures
        out@ == scanning_message(page),
{
    let mut v = chars_of("Scanning page ");
    let n = decimal(page as u64);
    push_chars(&mut v, &n);
    push_str(&mut v, "...");
    string_of(&v)
}

/// The message shown while a candidate is handled.
pub fn make_processing_message(id: &str) -> (out: String)
    ensures
        out@ == processing_message(id@),
{
    let mut v = chars_of("Processing #");
    push_str(&mut v, id);
    push_str(&mut v, "...");
    string_of(&v)
}

/// The page of a post on the trusted source.
pub fn make_post_page_url(id: &str) -> (out: String)
    ensures
        out@ == post_page_url(id@),
{
    let mut v = chars_of("https://e621.net/posts/");
    push_str(&mut v, id);
    string_of(&v)
}

/// What the writer is handed for an item.
pub fn make_plan(
    candidate: Candidate,
    detail: MediaDetail,
    hash: String,
    bytes: Vec<u8>,
    upgrade: bool,
    source_urls: Vec<String>,
    now: String,
) -> (plan: PersistPlan)
    ensures
        plan.deep_view() == plan_of(
            candidate.deep_view(),
            detail.deep_view(),
            hash@,
            bytes@,
            upgrade,
            source_urls.deep_view(),
            now@,
        ),
{
    let file_stem = make_item_stem(
        candidate.source,
        candidate.source_id.as_str(),
        &detail.tags.artist,
        upgrade,
    );
    let primary_artist = file_artist(candidate.source, &detail.tags.artist, upgrade);
    let created_at = if candidate.source.is_trusted() {
        detail.created_at
    } else {
        Some(now.clone())
    };
    let tags = plan_item_links(&detail.tags, candidate.source, upgrade);
    let remote_url = match detail.download_url {
        Some(u) => u,
        None => String::new(),
    };
    PersistPlan {
        source: candidate.source,
        source_id: candidate.source_id,
        content_hash: hash,
        remote_url,
        file_stem,
        ext: detail.ext,
        rating: detail.rating,
        fav_count: detail.fav_count,
        score_total: detail.score_total,
        created_at,
        added_at: now,
        primary_artist,
        tags,
        source_urls,
        bytes,
        upgrade,
    }
}

/// One run of the sync engine for one source.
#[derive(Debug)]
pub struct Orchestrator {
    kind: SourceKind,
    session: SyncSession,
    index: DedupIndex,
    phase: Phase,
    page: u32,
    queue: Vec<Listed>,
}

impl DeepView for Orchestrator {
    type V = EngineView;

    closed spec fn deep_view(&self) -> EngineView {
        EngineView {
            kind: self.kind,
            session: self.session.deep_view(),
            index: self.index.deep_view(),
            phase: self.phase.deep_view(),
            page: self.page,
            queue: self.queue.deep_view(),
        }
    }
}

/// The views of a state and an action together.
pub open spec fn views(r: (Orchestrator, Action)) -> (EngineView, ActionView) {
    (r.0.deep_view(), r.1.deep_view())
}

impl Orchestrator {
    /// The run is in a valid state.
    pub open spec fn valid(&self) -> bool {
        wf(self.deep_view())
    }

    /// Accepts a run over the library's live items.
    pub fn start(kind: SourceKind, index: DedupIndex, max_new_items: Option<u32>) -> (o:
        Orchestrator)
        requires
            index.wf(),
        ensures
            o.deep_view() == started(kind, index.deep_view(), max_new_items),
            o.valid(),
    {
        let o = Orchestrator {
            kind,
            session: SyncSession::fresh(max_new_items),
            index,
            phase: Phase::Scanning,
            page: 0,
            queue: Vec::new(),
        };
        assert(o.queue.deep_view() =~= Seq::empty());
        o
    }

    /// Makes a stop request visible to the run. Asking again changes nothing.
    pub fn cancel(self) -> (o: Orchestrator)
        ensures
            o.deep_view() == cancelled(self.deep_view()),
            self.valid() ==> o.valid(),
    {
        let mut o = self;
        o.session.cancelled = true;
        o
    }

    /// The live record of the run.
    pub fn session(&self) -> (s: &SyncSession)
        ensures
            s.deep_view() == self.deep_view().session,
    {
        &self.session
    }

    /// A snapshot of the run's record. It can be taken at any time.
    pub fn status(&self) -> (s: SyncSession)
        ensures
            s.deep_view() == self.deep_view().session,
    {
        self.session.snapshot()
    }

    /// The live items as the run knows them.
    pub fn index(&self) -> (i: &DedupIndex)
        ensures
            i.deep_view() == self.deep_view().index,
            self.valid() ==> i.wf(),
    {
        &self.index
    }

    /// The source that the run reads.
    pub fn kind(&self) -> (k: SourceKind)
        ensures
            k == self.deep_view().kind,
    {
        self.kind
    }

    /// Whether the run has ended.
    pub fn is_finished(&self) -> (b: bool)
        ensures
            b == (self.deep_view().phase is Finished),
    {
        match self.phase {
            Phase::Finished => true,
            _ => false,
        }
    }

    /// Gives up the run and hands back the index.
    pub fn into_index(self) -> (i: DedupIndex)
        ensures
            i.deep_view() == self.deep_view().index,
            self.valid() ==> i.wf(),
    {
        self.index
    }

    fn reached_cap(&self) -> (b: bool)
        requires
            self.deep_view().session.consistent(),
        ensures
            b == cap_reached(self.deep_view().kind, self.deep_view().session),
    {
        match self.session.max_new_items {
            Some(m) => if self.kind.is_trusted() {
                self.session.attempted >= m
            } else {
                m > 0 && self.session.imported + self.session.upgraded >= m
            },
            None => false,
        }
    }

    fn do_finish(self) -> (r: (Orchestrator, Action))
        ensures
            views(r) == finish(self.deep_view()),
    {
        let mut o = self;
        o.session.running = false;
        o.session.current_message = Some("Done.".to_string());
        o.phase = Phase::Finished;
        (o, Action::Finish)
    }

    fn do_abort(self, message: String) -> (r: (Orchestrator, Action))
        ensures
            views(r) == abort(self.deep_view(), message@),
    {
        let mut o = self;
        o.session.last_error = Some(message);
        o.do_finish()
    }

    fn do_abort_unexpected(self) -> (r: (Orchestrator, Action))
        ensures
            views(r) == abort(self.deep_view(), unexpected()),
    {
        self.do_abort("Unexpected event".to_string())
    }

    fn do_settle(self) -> (r: (Orchestrator, Action))
        ensures
            views(r) == settle(self.deep_view()),
    {
        let mut o = self;
        o.phase = Phase::Scanning;
        (o, Action::Continue)
    }

    fn do_skip_existing(self) -> (r: (Orchestrator, Action))
        requires
            self.deep_view().session.settled() < self.deep_view().session.scanned_candidates,
        ensures
            views(r) == skip_existing(self.deep_view()),
    {
        let mut o = self;
        o.session.skipped_existing = o.session.skipped_existing + 1;
        o.do_settle()
    }

    fn do_skip_by_hash(self) -> (r: (Orchestrator, Action))
        requires
            self.deep_view().session.settled() < self.deep_view().session.scanned_candidates,
        ensures
            views(r) == skip_by_hash(self.deep_view()),
    {
        let mut o = self;
        o.session.skipped_by_hash = o.session.skipped_by_hash + 1;
        o.do_settle()
    }

    fn do_fail(self, source_id: String, message: String) -> (r: (Orchestrator, Action))
        requires
            self.deep_view().session.settled() < self.deep_view().session.scanned_candidates,
        ensures
            views(r) == fail(self.deep_view(), source_id@, message@),
    {
        let mut o = self;
        o.session.failed = o.session.failed + 1;
        o.session.last_error = Some(message);
        if o.kind.is_trusted() {
            o.phase = Phase::Recording;
            let sources: Vec<String> = Vec::new();
            assert(sources.deep_view() =~= Seq::empty());
            (
                o,
                Action::RecordUnavailable {
                    source_id,
                    reason: "download_failed".to_string(),
                    sources,
                },
            )
        } else {
            o.do_settle()
        }
    }

    fn do_persist(self, plan: PersistPlan) -> (r: (Orchestrator, Action))
        ensures
            views(r) == persist(self.deep_view(), plan.deep_view()),
    {
        let mut o = self;
        o.phase = Phase::Persisting {
            source: plan.source,
            source_id: plan.source_id.clone(),
            hash: plan.content_hash.clone(),
            upgrade: plan.upgrade,
        };
        (o, Action::Persist { plan })
    }

    fn do_consider(self, c: Candidate, d: MediaDetail) -> (r: (Orchestrator, Action))
        requires
            self.deep_view().session.settled() < self.deep_view().session.scanned_candidates,
            self.deep_view().session.attempted < self.deep_view().session.scanned_candidates,
        ensures
            views(r) == consider(self.deep_view(), c.deep_view(), d.deep_view()),
    {
        let mut o = self;
        let known = match &d.declared_hash {
            Some(h) => o.index.has_hash(h.as_str()),
            None => false,
        };
        if known {
            return o.do_skip_by_hash();
        }
        match &d.download_url {
            None => {
                if o.kind.is_trusted() {
                    o.session.unavailable = o.session.unavailable + 1;
                    o.phase = Phase::Recording;
                    (
                        o,
                        Action::RecordUnavailable {
                            source_id: c.source_id,
                            reason: "missing_file_url".to_string(),
                            sources: d.source_urls,
                        },
                    )
                } else {
                    o.do_fail(c.source_id, "Missing download link".to_string())
                }
            },
            Some(u) => {
                let url = u.clone();
                o.session.attempted = o.session.attempted + 1;
                if o.kind.is_trusted() && d.ext.as_str().unicode_len() == 0 {
                    o.do_fail(c.source_id, "Missing file_ext from e621".to_string())
                } else {
                    o.phase = Phase::Media { candidate: c, detail: d };
                    (o, Action::FetchMedia { url })
                }
            },
        }
    }

    fn do_begin(self, l: Listed) -> (r: (Orchestrator, Action))
        requires
            self.deep_view().session.consistent(),
            self.deep_view().session.scanned_candidates < u32::MAX,
        ensures
            views(r) == begin(self.deep_view(), l.deep_view()),
    {
        let mut o = self;
        o.session.scanned_candidates = o.session.scanned_candidates + 1;
        match l.candidate {
            None => o.do_settle(),
            Some(c) => {
                o.session.current_message = Some(make_processing_message(c.source_id.as_str()));
                if o.index.has_identity(c.source, c.source_id.as_str()) {
                    o.do_skip_existing()
                } else {
                    match l.detail {
                        Some(d) => o.do_consider(c, d),
                        None => {
                            let delay_ms: u32 = if o.kind.is_trusted() {
                                0
                            } else {
                                DETAIL_DELAY_MS
                            };
                            let candidate = Candidate {
                                source: c.source,
                                source_id: c.source_id.clone(),
                            };
                            o.phase = Phase::Detail { candidate: c };
                            (o, Action::FetchDetail { candidate, delay_ms })
                        },
                    }
                }
            },
        }
    }

    fn do_resume(self) -> (r: (Orchestrator, Action))
        requires
            self.valid(),
        ensures
            views(r) == resume(self.deep_view()),
    {
        let mut o = self;
        if o.session.cancelled || o.reached_cap() {
            return o.do_finish();
        }
        if o.queue.len() > 0 {
            let ghost before = o.queue.deep_view();
            let l = o.queue.remove(0);
            assert(o.queue.deep_view() =~= before.drop_first());
            assert(l.deep_view() == before.first());
            return o.do_begin(l);
        }
        let limit: u32 = if o.kind.is_trusted() {
            u32::MAX
        } else {
            SCRAPE_PAGE_LIMIT
        };
        if o.page >= limit {
            return o.do_finish();
        }
        let page: u32 = o.page + 1;
        o.session.current_message = Some(make_scanning_message(page));
        o.phase = Phase::Listing;
        o.page = page;
        (o, Action::ListPage { page })
    }

    fn do_page_listed(self, list: Vec<Listed>) -> (r: (Orchestrator, Action))
        requires
            self.deep_view().session.scanned_pages < u32::MAX,
        ensures
            views(r) == page_listed(self.deep_view(), list.deep_view()),
    {
        let mut o = self;
        let room: u32 = u32::MAX - o.session.scanned_candidates;
        o.session.scanned_pages = o.session.scanned_pages + 1;
        if list.len() == 0 {
            o.do_finish()
        } else if list.len() > room as usize {
            o.do_abort("Listing too large".to_string())
        } else {
            o.queue = list;
            o.do_settle()
        }
    }

    fn do_media_fetched(self, c: Candidate, d: MediaDetail, bytes: Vec<u8>, now: String) -> (r: (
        Orchestrator,
        Action,
    ))
        requires
            self.deep_view().session.settled() < self.deep_view().session.scanned_candidates,
        ensures
            views(r) == media_fetched(self.deep_view(), c.deep_view(), d.deep_view(), bytes@, now@),
    {
        let mut o = self;
        let declared = d.declared_hash.is_some();
        let hash = match &d.declared_hash {
            Some(h) => h.clone(),
            None => content_hash(bytes.as_slice()),
        };
        if !declared && o.index.has_hash(hash.as_str()) {
            o.do_skip_by_hash()
        } else if !o.kind.is_trusted() {
            let asked = hash.clone();
            o.phase = Phase::Lookup { candidate: c, detail: d, hash, bytes };
            (o, Action::LookupTrusted { hash: asked, delay_ms: LOOKUP_DELAY_MS })
        } else {
            let urls = copy_texts(&d.source_urls);
            let plan = make_plan(c, d, hash, bytes, false, urls, now);
            o.do_persist(plan)
        }
    }

    fn do_trusted_checked(
        self,
        c: Candidate,
        d: MediaDetail,
        hash: String,
        bytes: Vec<u8>,
        found: Option<Found>,
        now: String,
    ) -> (r: (Orchestrator, Action))
        requires
            self.deep_view().session.settled() < self.deep_view().session.scanned_candidates,
        ensures
            views(r) == trusted_checked(
                self.deep_view(),
                c.deep_view(),
                d.deep_view(),
                hash@,
                bytes@,
                found.deep_view(),
                now@,
            ),
    {
        let mut o = self;
        match found {
            Some(f) => {
                if o.index.has_identity(f.candidate.source, f.candidate.source_id.as_str()) {
                    return o.do_skip_by_hash();
                }
                let url = match &f.detail.download_url {
                    Some(u) => Some(u.clone()),
                    None => None,
                };
                match url {
                    Some(url) => {
                        o.phase = Phase::Canonical { candidate: c, detail: d, found: f, hash };
                        (o, Action::FetchCanonical { url })
                    },
                    None => {
                        let urls = copy_texts(&d.source_urls);
                        let plan = make_plan(c, d, hash, bytes, false, urls, now);
                        o.do_persist(plan)
                    },
                }
            },
            None => {
                let urls = copy_texts(&d.source_urls);
                let plan = make_plan(c, d, hash, bytes, false, urls, now);
                o.do_persist(plan)
            },
        }
    }

    fn do_canonical_fetched(
        self,
        d: MediaDetail,
        f: Found,
        hash: String,
        bytes: Vec<u8>,
        now: String,
    ) -> (r: (Orchestrator, Action))
        ensures
            views(r) == canonical_fetched(
                self.deep_view(),
                d.deep_view(),
                f.deep_view(),
                hash@,
                bytes@,
                now@,
            ),
    {
        let mut urls: Vec<String> = Vec::new();
        urls.push(make_post_page_url(f.candidate.source_id.as_str()));
        let mut i: usize = 0;
        assert(urls.deep_view() =~= seq![post_page_url(f.candidate.source_id@)]
            + d.source_urls.deep_view().take(0));
        while i < d.source_urls.len()
            invariant
                i <= d.source_urls.len(),
                urls.deep_view() == seq![post_page_url(f.candidate.source_id@)]
                    + d.source_urls.deep_view().take(i as int),
            decreases d.source_urls.len() - i,
        {
            let ghost before = urls.deep_view();
            urls.push(d.source_urls[i].clone());
            assert(urls.deep_view() =~= before.push(d.source_urls@[i as int]@));
            assert(d.source_urls.deep_view().take(i as int).push(d.source_urls@[i as int]@)
                =~= d.source_urls.deep_view().take(i + 1));
            i += 1;
        }
        assert(d.source_urls.deep_view().take(d.source_urls.len() as int)
            =~= d.source_urls.deep_view());
        let plan = make_plan(f.candidate, f.detail, hash, bytes, true, urls, now);
        self.do_persist(plan)
    }

    fn do_persisted(self, source: SourceKind, source_id: String, hash: String, upgrade: bool) -> (r:
        (Orchestrator, Action))
        requires
            self.valid(),
            self.deep_view().session.settled() < self.deep_view().session.scanned_candidates,
        ensures
            views(r) == persisted(self.deep_view(), source, source_id@, hash@, upgrade),
    {
        let mut o = self;
        let ghost id = source_id@;
        let ghost h = hash@;
        let entry = IndexEntry { source, source_id, content_hash: Some(hash), trashed: false };
        let ghost before = o.index.deep_view();
        assert(entry.deep_view().content_hash == Some(h));
        match o.index.insert(entry) {
            Ok(()) => {
                assert(!holds_identity(before, source, id));
                assert(!holds_hash(before, h));
                if upgrade {
                    o.session.upgraded = o.session.upgraded + 1;
                } else {
                    o.session.imported = o.session.imported + 1;
                }
                o.do_settle()
            },
            Err(Duplicate::Identity) => o.do_skip_existing(),
            Err(Duplicate::Hash) => o.do_skip_existing(),
        }
    }

    /// One step of the run at a given time: the state moves as the state
    /// machine says, and the action it names is handed out.
    pub fn step_at(self, event: Event, now: String) -> (r: (Orchestrator, Action))
        requires
            self.valid(),
        ensures
            views(r) == next(self.deep_view(), event.deep_view(), now@),
            r.0.valid(),
    {
        proof {
            crate::laws::lemma_step_keeps_wf(self.deep_view(), event.deep_view(), now@);
        }
        let Orchestrator { kind, session, index, phase, page, queue } = self;
        let base = Orchestrator { kind, session, index, phase: Phase::Scanning, page, queue };
        match phase {
            Phase::Finished => {
                let mut o = base;
                o.phase = Phase::Finished;
                (o, Action::Finish)
            },
            Phase::Scanning => match event {
                Event::Resume => base.do_resume(),
                _ => base.do_abort_unexpected(),
            },
            Phase::Listing => match event {
                Event::PageListed(list) => base.do_page_listed(list),
                Event::PageFailed(m) => base.do_abort(m),
                _ => base.do_abort_unexpected(),
            },
            Phase::Detail { candidate } => match event {
                Event::DetailFetched(d) => base.do_consider(candidate, d),
                Event::DetailFailed(m) => base.do_fail(candidate.source_id, m),
                _ => base.do_abort_unexpected(),
            },
            Phase::Media { candidate, detail } => match event {
                Event::MediaFetched(bytes) => base.do_media_fetched(candidate, detail, bytes, now),
                Event::MediaFailed(m) => base.do_fail(candidate.source_id, m),
                _ => base.do_abort_unexpected(),
            },
            Phase::Lookup { candidate, detail, hash, bytes } => match event {
                Event::TrustedChecked(found) => base.do_trusted_checked(
                    candidate,
                    detail,
                    hash,
                    bytes,
                    found,
                    now,
                ),
                _ => base.do_abort_unexpected(),
            },
            Phase::Canonical { candidate, detail, found, hash } => match event {
                Event::CanonicalFetched(bytes) => base.do_canonical_fetched(
                    detail,
                    found,
                    hash,
                    bytes,
                    now,
                ),
                Event::CanonicalFailed(m) => base.do_fail(candidate.source_id, m),
                _ => base.do_abort_unexpected(),
            },
            Phase::Persisting { source, source_id, hash, upgrade } => match event {
                Event::Persisted => base.do_persisted(source, source_id, hash, upgrade),
                Event::PersistRejected => base.do_skip_existing(),
                Event::PersistFailed(m) => base.do_fail(source_id, m),
                _ => base.do_abort_unexpected(),
            },
            Phase::Recording => match event {
                Event::Recorded => base.do_settle(),
                Event::RecordFailed(m) => base.do_abort(m),
                _ => base.do_abort_unexpected(),
            },
        }
    }

    /// One step of the run, at the time at which it is made.
    pub fn step(self, event: Event) -> (r: (Orchestrator, Action))
        requires
            self.valid(),
        ensures
            r.0.valid(),
            exists|now: Seq<char>| views(r) == next(self.deep_view(), event.deep_view(), now),
    {
        let now = timestamp_now();
        let r = self.step_at(event, now);
        assert(views(r) == next(self.deep_view(), event.deep_view(), now@));
        r
    }
}

} // verus!
