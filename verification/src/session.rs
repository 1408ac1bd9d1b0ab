//! The progress record of one run, and the snapshots that readers poll.

use vstd::prelude::*;

verus! {

/// The live record of one run. Only the worker changes it.
#[derive(Debug)]
pub struct SyncSession {
    pub running: bool,
    pub cancelled: bool,
    pub scanned_pages: u32,
    pub scanned_candidates: u32,
    pub skipped_existing: u32,
    pub skipped_by_hash: u32,
    pub attempted: u32,
    pub imported: u32,
    pub upgraded: u32,
    pub failed: u32,
    pub unavailable: u32,
    pub last_error: Option<String>,
    pub current_message: Option<String>,
    pub max_new_items: Option<u32>,
}

/// The mathematical view of a `SyncSession`.
pub struct SessionView {
    pub running: bool,
    pub cancelled: bool,
    pub scanned_pages: u32,
    pub scanned_candidates: u32,
    pub skipped_existing: u32,
    pub skipped_by_hash: u32,
    pub attempted: u32,
    pub imported: u32,
    pub upgraded: u32,
    pub failed: u32,
    pub unavailable: u32,
    pub last_error: Option<Seq<char>>,
    pub current_message: Option<Seq<char>>,
    pub max_new_items: Option<u32>,
}

impl SessionView {
    /// The number of candidates whose handling has ended in a counted outcome.
    pub open spec fn settled(self) -> int {
        self.skipped_existing + self.skipped_by_hash + self.imported + self.upgraded + self.failed
            + self.unavailable
    }

    /// Every counted outcome and every attempt belongs to a scanned candidate.
    pub open spec fn consistent(self) -> bool {
        self.settled() <= self.scanned_candidates && self.attempted <= self.scanned_candidates
    }

    /// The record of a run that has just been accepted.
    pub open spec fn fresh(max_new_items: Option<u32>) -> SessionView {
        SessionView {
            running: true,
            cancelled: false,
            scanned_pages: 0,
            scanned_candidates: 0,
            skipped_existing: 0,
            skipped_by_hash: 0,
            attempted: 0,
            imported: 0,
            upgraded: 0,
            failed: 0,
            unavailable: 0,
            last_error: None,
            current_message: None,
            max_new_items,
        }
    }
}

impl DeepView for SyncSession {
    type V = SessionView;

    open spec fn deep_view(&self) -> SessionView {
        SessionView {
            running: self.running,
            cancelled: self.cancelled,
            scanned_pages: self.scanned_pages,
            scanned_candidates: self.scanned_candidates,
            skipped_existing: self.skipped_existing,
            skipped_by_hash: self.skipped_by_hash,
            attempted: self.attempted,
            imported: self.imported,
            upgraded: self.upgraded,
            failed: self.failed,
            unavailable: self.unavailable,
            last_error: self.last_error.deep_view(),
            current_message: self.current_message.deep_view(),
            max_new_items: self.max_new_items,
        }
    }
}

/// A copy of an optional text.
pub fn copy_text(t: &Option<String>) -> (out: Option<String>)
    ensures
        out.deep_view() == t.deep_view(),
{
    match t {
        Some(s) => Some(s.clone()),
        None => None,
    }
}

/// The answer of a command to the host application.
#[derive(Debug)]
pub struct Status {
    pub ok: bool,
    pub message: String,
}

impl Status {
    /// The answer of a command that succeeded.
    pub fn accepted(message: &str) -> (s: Status)
        ensures
            s.ok,
            s.message@ == message@,
    {
        Status { ok: true, message: message.to_string() }
    }
}

/// Why a run is not accepted.
#[derive(Clone, Copy, Debug, PartialEq, Eq, Structural)]
pub enum StartError {
    /// A run of this source is going on.
    AlreadyRunning,
    /// The credentials of the source are not to be had.
    MissingCredentials,
}

/// The answer to a request for a run: refused while one is going on, else
/// refused without credentials, else accepted.
pub open spec fn start_answer(running: bool, has_credentials: bool) -> Result<(), StartError> {
    if running {
        Err(StartError::AlreadyRunning)
    } else if !has_credentials {
        Err(StartError::MissingCredentials)
    } else {
        Ok(())
    }
}

/// The answer to a request for a run of the scraped source: refused without
/// credentials, else refused while one is going on, else accepted.
pub open spec fn scraped_start_answer(running: bool, has_credentials: bool) -> Result<
    (),
    StartError,
> {
    if !has_credentials {
        Err(StartError::MissingCredentials)
    } else if running {
        Err(StartError::AlreadyRunning)
    } else {
        Ok(())
    }
}

/// What the command that archives one post answers once the post has been
/// handled: the library held it already, by identity or by content; or it
/// is archived now; or the error that stood in the way.
pub open spec fn single_post_answer(s: SessionView) -> Result<Seq<char>, Seq<char>> {
    if s.skipped_existing > 0 {
        Ok("Already downloaded"@)
    } else if s.skipped_by_hash > 0 {
        Ok("Already downloaded (md5 match)"@)
    } else if s.imported > 0 {
        Ok("Downloaded into library"@)
    } else {
        Err(
            match s.last_error {
                Some(e) => e,
                None => if s.unavailable > 0 {
                    "Missing file_url from e621"@
                } else {
                    "Post has no id"@
                },
            },
        )
    }
}

/// The snapshot of a run against the structured source.
#[derive(Debug)]
pub struct SyncStatus {
    pub running: bool,
    pub cancelled: bool,
    pub max_new_downloads: Option<u32>,
    pub scanned_pages: u32,
    pub scanned_posts: u32,
    /// Candidates skipped because the library holds them, by identity or by content.
    pub skipped_existing: u32,
    pub new_attempted: u32,
    pub downloaded_ok: u32,
    pub failed_downloads: u32,
    pub unavailable: u32,
    pub last_error: Option<String>,
}

/// The snapshot of a run against the scraped source.
#[derive(Debug)]
pub struct FASyncStatus {
    pub running: bool,
    /// Whether a stop has been asked for.
    pub cancelled: bool,
    pub scanned: u32,
    pub skipped_url: u32,
    pub skipped_md5: u32,
    pub imported: u32,
    pub upgraded: u32,
    pub errors: u32,
    pub current_message: String,
}

impl SyncSession {
    /// The record of a run that has just been accepted.
    pub fn fresh(max_new_items: Option<u32>) -> (s: SyncSession)
        ensures
            s.deep_view() == SessionView::fresh(max_new_items),
    {
        SyncSession {
            running: true,
            cancelled: false,
            scanned_pages: 0,
            scanned_candidates: 0,
            skipped_existing: 0,
            skipped_by_hash: 0,
            attempted: 0,
            imported: 0,
            upgraded: 0,
            failed: 0,
            unavailable: 0,
            last_error: None,
            current_message: None,
            max_new_items,
        }
    }

    /// The answer of the command that archives one post, from the record of
    /// the run that handled it.
    pub fn single_post_status(&self) -> (r: Result<Status, String>)
        ensures
            match r {
                Ok(st) => st.ok && single_post_answer(self.deep_view()) == Ok::<
                    Seq<char>,
                    Seq<char>,
                >(st.message@),
                Err(e) => single_post_answer(self.deep_view()) == Err::<Seq<char>, Seq<char>>(e@),
            },
    {
        if self.skipped_existing > 0 {
            Ok(Status::accepted("Already downloaded"))
        } else if self.skipped_by_hash > 0 {
            Ok(Status::accepted("Already downloaded (md5 match)"))
        } else if self.imported > 0 {
            Ok(Status::accepted("Downloaded into library"))
        } else {
            match &self.last_error {
                Some(e) => Err(e.clone()),
                None => if self.unavailable > 0 {
                    Err("Missing file_url from e621".to_string())
                } else {
                    Err("Post has no id".to_string())
                },
            }
        }
    }

    /// A copy of the record as it stands, for a reader.
    pub fn snapshot(&self) -> (s: SyncSession)
        ensures
            s.deep_view() == self.deep_view(),
    {
        SyncSession {
            running: self.running,
            cancelled: self.cancelled,
            scanned_pages: self.scanned_pages,
            scanned_candidates: self.scanned_candidates,
            skipped_existing: self.skipped_existing,
            skipped_by_hash: self.skipped_by_hash,
            attempted: self.attempted,
            imported: self.imported,
            upgraded: self.upgraded,
            failed: self.failed,
            unavailable: self.unavailable,
            last_error: copy_text(&self.last_error),
            current_message: copy_text(&self.current_message),
            max_new_items: self.max_new_items,
        }
    }

    /// The snapshot in the shape of the structured source's status.
    pub fn to_status(&self) -> (st: SyncStatus)
        requires
            self.deep_view().consistent(),
        ensures
            st.running == self.running,
            st.cancelled == self.cancelled,
            st.max_new_downloads == self.max_new_items,
            st.scanned_pages == self.scanned_pages,
            st.scanned_posts == self.scanned_candidates,
            st.skipped_existing == self.skipped_existing + self.skipped_by_hash,
            st.new_attempted == self.attempted,
            st.downloaded_ok == self.imported,
            st.failed_downloads == self.failed,
            st.unavailable == self.unavailable,
            st.last_error.deep_view() == self.last_error.deep_view(),
    {
        SyncStatus {
            running: self.running,
            cancelled: self.cancelled,
            max_new_downloads: self.max_new_items,
            scanned_pages: self.scanned_pages,
            scanned_posts: self.scanned_candidates,
            skipped_existing: self.skipped_existing + self.skipped_by_hash,
            new_attempted: self.attempted,
            downloaded_ok: self.imported,
            failed_downloads: self.failed,
            unavailable: self.unavailable,
            last_error: copy_text(&self.last_error),
        }
    }

    /// The snapshot in the shape of the scraped source's status.
    pub fn to_fa_status(&self) -> (st: FASyncStatus)
        ensures
            st.running == self.running,
            st.cancelled == self.cancelled,
            st.scanned == self.scanned_candidates,
            st.skipped_url == self.skipped_existing,
            st.skipped_md5 == self.skipped_by_hash,
            st.imported == self.imported,
            st.upgraded == self.upgraded,
            st.errors == self.failed,
            st.current_message@ == match self.current_message {
                Some(m) => m@,
                None => Seq::<char>::empty(),
            },
    {
        let current_message = match &self.current_message {
            Some(m) => m.clone(),
            None => String::new(),
        };
        FASyncStatus {
            running: self.running,
            cancelled: self.cancelled,
            scanned: self.scanned_candidates,
            skipped_url: self.skipped_existing,
            skipped_md5: self.skipped_by_hash,
            imported: self.imported,
            upgraded: self.upgraded,
            errors: self.failed,
            current_message,
        }
    }
}

impl SyncStatus {
    /// The snapshot while no run has been made.
    pub fn idle() -> (st: SyncStatus)
        ensures
            !st.running,
            !st.cancelled,
            st.max_new_downloads is None,
            st.scanned_pages == 0,
            st.scanned_posts == 0,
            st.skipped_existing == 0,
            st.new_attempted == 0,
            st.downloaded_ok == 0,
            st.failed_downloads == 0,
            st.unavailable == 0,
            st.last_error is None,
    {
        SyncStatus {
            running: false,
            cancelled: false,
            max_new_downloads: None,
            scanned_pages: 0,
            scanned_posts: 0,
            skipped_existing: 0,
            new_attempted: 0,
            downloaded_ok: 0,
            failed_downloads: 0,
            unavailable: 0,
            last_error: None,
        }
    }
}

impl FASyncStatus {
    /// The snapshot while no run has been made.
    pub fn idle() -> (st: FASyncStatus)
        ensures
            !st.running,
            !st.cancelled,
            st.scanned == 0,
            st.skipped_url == 0,
            st.skipped_md5 == 0,
            st.imported == 0,
            st.upgraded == 0,
            st.errors == 0,
            st.current_message@ == Seq::<char>::empty(),
    {
        FASyncStatus {
            running: false,
            cancelled: false,
            scanned: 0,
            skipped_url: 0,
            skipped_md5: 0,
            imported: 0,
            upgraded: 0,
            errors: 0,
            current_message: String::new(),
        }
    }
}

/// What the worker and the commands share for the structured source: the
/// latest snapshot and the request to stop.
#[derive(Debug)]
pub struct SyncState {
    pub status: SyncStatus,
    pub cancel_requested: bool,
}

impl SyncState {
    /// The shared state before any run: no stop is asked for, and the
    /// snapshot is that of no run, with every counter at zero, no cap and no
    /// error.
    pub fn new() -> (s: SyncState)
        ensures
            !s.cancel_requested,
            !s.status.running,
            !s.status.cancelled,
            s.status.max_new_downloads is None,
            s.status.scanned_pages == 0,
            s.status.scanned_posts == 0,
            s.status.skipped_existing == 0,
            s.status.new_attempted == 0,
            s.status.downloaded_ok == 0,
            s.status.failed_downloads == 0,
            s.status.unavailable == 0,
            s.status.last_error is None,
    {
        SyncState { status: SyncStatus::idle(), cancel_requested: false }
    }

    /// Accepts a run unless one is going on or the credentials are missing.
    /// An accepted run starts from a fresh snapshot with no stop requested;
    /// a refused one changes nothing.
    pub fn start(&mut self, has_credentials: bool, max_new_downloads: Option<u32>) -> (r: Result<
        (),
        StartError,
    >)
        ensures
            r == start_answer(old(self).status.running, has_credentials),
            r is Err ==> *final(self) == *old(self),
            r is Ok ==> {
                &&& final(self).status.running
                &&& !final(self).status.cancelled
                &&& !final(self).cancel_requested
                &&& final(self).status.max_new_downloads == max_new_downloads
                &&& final(self).status.scanned_pages == 0
                &&& final(self).status.scanned_posts == 0
                &&& final(self).status.skipped_existing == 0
                &&& final(self).status.new_attempted == 0
                &&& final(self).status.downloaded_ok == 0
                &&& final(self).status.failed_downloads == 0
                &&& final(self).status.unavailable == 0
                &&& final(self).status.last_error is None
            },
    {
        if self.status.running {
            return Err(StartError::AlreadyRunning);
        }
        if !has_credentials {
            return Err(StartError::MissingCredentials);
        }
        let mut status = SyncStatus::idle();
        status.running = true;
        status.max_new_downloads = max_new_downloads;
        self.status = status;
        self.cancel_requested = false;
        Ok(())
    }

    /// Asks the run to stop. Asking again changes nothing.
    pub fn cancel(&mut self)
        ensures
            final(self).cancel_requested,
            final(self).status.cancelled,
            final(self).status.running == old(self).status.running,
            final(self).status.scanned_pages == old(self).status.scanned_pages,
            final(self).status.scanned_posts == old(self).status.scanned_posts,
            final(self).status.skipped_existing == old(self).status.skipped_existing,
            final(self).status.new_attempted == old(self).status.new_attempted,
            final(self).status.downloaded_ok == old(self).status.downloaded_ok,
            final(self).status.failed_downloads == old(self).status.failed_downloads,
            final(self).status.unavailable == old(self).status.unavailable,
            final(self).status.last_error == old(self).status.last_error,
            final(self).status.max_new_downloads == old(self).status.max_new_downloads,
    {
        self.cancel_requested = true;
        self.status.cancelled = true;
    }

    /// Puts the worker's record where readers find it. A stop that was asked
    /// for stays visible.
    pub fn publish(&mut self, session: &SyncSession)
        requires
            session.deep_view().consistent(),
        ensures
            final(self).cancel_requested == old(self).cancel_requested,
            final(self).status.running == session.running,
            final(self).status.cancelled == (session.cancelled || old(self).cancel_requested),
            final(self).status.max_new_downloads == session.max_new_items,
            final(self).status.scanned_pages == session.scanned_pages,
            final(self).status.scanned_posts == session.scanned_candidates,
            final(self).status.skipped_existing == session.skipped_existing
                + session.skipped_by_hash,
            final(self).status.new_attempted == session.attempted,
            final(self).status.downloaded_ok == session.imported,
            final(self).status.failed_downloads == session.failed,
            final(self).status.unavailable == session.unavailable,
            final(self).status.last_error.deep_view() == session.last_error.deep_view(),
    {
        let mut status = session.to_status();
        if self.cancel_requested {
            status.cancelled = true;
        }
        self.status = status;
    }

    /// Ends the run on the worker's way out, whatever the way: the snapshot
    /// stops running and keeps its counters; a failure becomes the last error.
    pub fn finish(&mut self, failure: Option<String>)
        ensures
            !final(self).status.running,
            final(self).cancel_requested == old(self).cancel_requested,
            final(self).status.cancelled == old(self).status.cancelled,
            final(self).status.max_new_downloads == old(self).status.max_new_downloads,
            final(self).status.scanned_pages == old(self).status.scanned_pages,
            final(self).status.scanned_posts == old(self).status.scanned_posts,
            final(self).status.skipped_existing == old(self).status.skipped_existing,
            final(self).status.new_attempted == old(self).status.new_attempted,
            final(self).status.downloaded_ok == old(self).status.downloaded_ok,
            final(self).status.failed_downloads == old(self).status.failed_downloads,
            final(self).status.unavailable == old(self).status.unavailable,
            final(self).status.last_error == (if failure is Some {
                failure
            } else {
                old(self).status.last_error
            }),
    {
        self.status.running = false;
        if failure.is_some() {
            self.status.last_error = failure;
        }
    }
}

/// What the worker and the commands share for the scraped source.
#[derive(Debug)]
pub struct FAState {
    pub status: FASyncStatus,
    pub should_cancel: bool,
}

impl FAState {
    /// The shared state before any run.
    pub fn new() -> (s: FAState)
        ensures
            !s.status.running,
            !s.status.cancelled,
            !s.should_cancel,
            s.status.scanned == 0,
            s.status.skipped_url == 0,
            s.status.skipped_md5 == 0,
            s.status.imported == 0,
            s.status.upgraded == 0,
            s.status.errors == 0,
            s.status.current_message@ == Seq::<char>::empty(),
    {
        FAState { status: FASyncStatus::idle(), should_cancel: false }
    }

    /// Accepts a run unless the credentials are missing or a run is going
    /// on. A refused run changes nothing.
    pub fn start(&mut self, has_credentials: bool) -> (r: Result<(), StartError>)
        ensures
            r == scraped_start_answer(old(self).status.running, has_credentials),
            r is Err ==> *final(self) == *old(self),
            r is Ok ==> {
                &&& final(self).status.running
                &&& !final(self).status.cancelled
                &&& !final(self).should_cancel
                &&& final(self).status.scanned == 0
                &&& final(self).status.skipped_url == 0
                &&& final(self).status.skipped_md5 == 0
                &&& final(self).status.imported == 0
                &&& final(self).status.upgraded == 0
                &&& final(self).status.errors == 0
                &&& final(self).status.current_message@ == Seq::<char>::empty()
            },
    {
        if !has_credentials {
            return Err(StartError::MissingCredentials);
        }
        if self.status.running {
            return Err(StartError::AlreadyRunning);
        }
        let mut status = FASyncStatus::idle();
        status.running = true;
        self.status = status;
        self.should_cancel = false;
        Ok(())
    }

    /// Asks the run to stop and shows the request in the snapshot. Asking
    /// again changes nothing.
    pub fn cancel(&mut self)
        ensures
            final(self).should_cancel,
            final(self).status.cancelled,
            final(self).status.running == old(self).status.running,
            final(self).status.scanned == old(self).status.scanned,
            final(self).status.skipped_url == old(self).status.skipped_url,
            final(self).status.skipped_md5 == old(self).status.skipped_md5,
            final(self).status.imported == old(self).status.imported,
            final(self).status.upgraded == old(self).status.upgraded,
            final(self).status.errors == old(self).status.errors,
            final(self).status.current_message == old(self).status.current_message,
    {
        self.should_cancel = true;
        self.status.cancelled = true;
    }

    /// Puts the worker's record where readers find it. A stop that was asked
    /// for stays visible.
    pub fn publish(&mut self, session: &SyncSession)
        ensures
            final(self).should_cancel == old(self).should_cancel,
            final(self).status.running == session.running,
            final(self).status.cancelled == (session.cancelled || old(self).should_cancel),
            final(self).status.scanned == session.scanned_candidates,
            final(self).status.skipped_url == session.skipped_existing,
            final(self).status.skipped_md5 == session.skipped_by_hash,
            final(self).status.imported == session.imported,
            final(self).status.upgraded == session.upgraded,
            final(self).status.errors == session.failed,
            final(self).status.current_message@ == match session.current_message {
                Some(m) => m@,
                None => Seq::<char>::empty(),
            },
    {
        let mut status = session.to_fa_status();
        if self.should_cancel {
            status.cancelled = true;
        }
        self.status = status;
    }

    /// Ends the run on the worker's way out, whatever the way.
    pub fn finish(&mut self, message: &str)
        ensures
            !final(self).status.running,
            final(self).should_cancel == old(self).should_cancel,
            final(self).status.cancelled == old(self).status.cancelled,
            final(self).status.scanned == old(self).status.scanned,
            final(self).status.skipped_url == old(self).status.skipped_url,
            final(self).status.skipped_md5 == old(self).status.skipped_md5,
            final(self).status.imported == old(self).status.imported,
            final(self).status.upgraded == old(self).status.upgraded,
            final(self).status.errors == old(self).status.errors,
            final(self).status.current_message@ == message@,
    {
        self.status.running = false;
        self.status.current_message = message.to_string();
    }
}

} // verus!
