//! What turns thousands of download events into one readable line.
//!
//! Downloads announce every chunk received; the window is sent a snapshot
//! at a fixed cadence instead. Two sources move the bar, and never add up
//! twice: bytes pulled from the network, and the weight of files already
//! present on disk.
//!
//! The total comes from the batches announced by the installer. It is exact
//! where sizes are published and a floor where they are not; the remaining
//! time derived from it is an estimate.

use vstd::prelude::*;
use crate::phase::Phase;

verus! {

/// How a file of a batch was settled.
#[derive(Debug, Clone, Copy, PartialEq, Eq, Structural)]
pub enum Fetched {
    /// Found conformant on disk: nothing was downloaded.
    AlreadyPresent,
    /// Pulled from the network.
    Downloaded,
}

/// One event of a download, as the downloader reports it.
#[derive(Debug)]
pub enum DownloadProgress {
    /// A batch is announced: so many files, weighing so many bytes.
    Batch { files: usize, bytes: u64 },
    /// A file starts downloading.
    Started { file: String, bytes: Option<u64> },
    /// Bytes arrived.
    Received(u64),
    /// Bytes of an abandoned attempt, to take back.
    Lost(u64),
    /// A file of the batch is settled.
    Finished { file: String, state: Fetched, bytes: u64 },
}

/// The full state, as it goes out to the window.
#[derive(Debug, Clone)]
pub struct Progress {
    pub phase: Phase,
    /// Is the phase a reached state rather than work in progress?
    pub done: bool,
    /// The installer's latest note.
    pub note: Option<String>,
    /// The file currently downloading.
    pub file: Option<String>,
    /// Bytes acquired: downloaded, plus those already there.
    pub bytes: u64,
    /// What the current batch announced it weighs; zero when nothing is.
    pub total: u64,
    pub files: usize,
    pub files_total: usize,
    /// Is a download actually in progress?
    pub active: bool,
    /// Bytes per second, smoothed.
    pub rate: u64,
    /// Seconds remaining, when the total and the rate allow estimating it.
    pub remaining: Option<u64>,
}

/// The counters a tracker holds, as a mathematical value.
pub struct TrackerState {
    pub phase: Phase,
    pub done: bool,
    pub note: Option<Seq<char>>,
    pub file: Option<Seq<char>>,
    /// Bytes actually downloaded, retries deducted.
    pub received: u64,
    /// Weight of the files found conformant on disk.
    pub already_there: u64,
    pub total: u64,
    pub files: usize,
    pub files_total: usize,
}

/// The counter shared between the downloads and the emission loop.
pub struct Tracker {
    phase: Phase,
    done: bool,
    note: Option<String>,
    file: Option<String>,
    received: u64,
    already_there: u64,
    total: u64,
    files: usize,
    files_total: usize,
}

/// The characters of an optional string.
pub open spec fn opt_chars(o: Option<String>) -> Option<Seq<char>> {
    match o {
        Some(s) => Some(s@),
        None => None,
    }
}

impl View for Tracker {
    type V = TrackerState;

    closed spec fn view(&self) -> TrackerState {
        TrackerState {
            phase: self.phase,
            done: self.done,
            note: opt_chars(self.note),
            file: opt_chars(self.file),
            received: self.received,
            already_there: self.already_there,
            total: self.total,
            files: self.files,
            files_total: self.files_total,
        }
    }
}

/// The state a tracker starts in: signing in, nothing counted.
pub open spec fn initial_state() -> TrackerState {
    TrackerState {
        phase: Phase::SignIn,
        done: false,
        note: None,
        file: None,
        received: 0,
        already_there: 0,
        total: 0,
        files: 0,
        files_total: 0,
    }
}

/// What one download event does to the counters.
///
/// A batch replaces the previous one; received bytes add up (on a counter
/// that wraps, as the shared atomic counter does); lost bytes are taken back
/// without going under zero; a settled file counts once, and moves the bar
/// by its weight only if it was already on disk — downloaded bytes were
/// already counted as they arrived.
pub open spec fn after_download(s: TrackerState, e: DownloadProgress) -> TrackerState {
    match e {
        DownloadProgress::Batch { files, bytes } => TrackerState {
            received: 0,
            already_there: 0,
            files: 0,
            total: bytes,
            files_total: files,
            ..s
        },
        DownloadProgress::Started { file, .. } => TrackerState { file: Some(file@), ..s },
        DownloadProgress::Received(b) => TrackerState {
            received: vstd::wrapping::u64_specs::wrapping_add(s.received, b),
            ..s
        },
        DownloadProgress::Lost(b) => TrackerState {
            received: if s.received >= b { (s.received - b) as u64 } else { 0 },
            ..s
        },
        DownloadProgress::Finished { state, bytes, .. } => TrackerState {
            files: vstd::wrapping::usize_specs::wrapping_add(s.files, 1),
            already_there: if state == Fetched::AlreadyPresent {
                vstd::wrapping::u64_specs::wrapping_add(s.already_there, bytes)
            } else {
                s.already_there
            },
            ..s
        },
    }
}

/// The counters after a sequence of download events, in order.
pub open spec fn after_downloads(s: TrackerState, es: Seq<DownloadProgress>) -> TrackerState
    decreases es.len(),
{
    if es.len() == 0 {
        s
    } else {
        after_download(after_downloads(s, es.drop_last()), es.last())
    }
}

/// Are there still files to settle in the announced batch?
pub open spec fn in_progress_spec(files: usize, total: usize) -> bool {
    total > 0 && files < total
}

/// Bytes acquired: downloaded plus already there.
pub open spec fn acquired(s: TrackerState) -> int {
    s.received + s.already_there
}

/// Are there still files to settle in the announced batch?
///
/// The answer decides what the window draws: a numbered bar, or
/// indeterminate progress. A complete batch while a step still works is
/// exactly the case where a full bar would lie.
pub fn in_progress(files: usize, total: usize) -> (r: bool)
    ensures
        r == in_progress_spec(files, total),
{
    total > 0 && files < total
}

/// What is left to acquire of the announced total, when there is something
/// left to estimate a time for.
///
/// No total announced, or a total already reached or exceeded — which
/// happens when files without a published size counted for zero — leave
/// nothing to estimate: saying "0s" there would suggest it is finished.
pub fn bytes_left(total: u64, acquired: u64) -> (r: Option<u64>)
    ensures
        r == (if total == 0 || acquired >= total { None } else { Some((total - acquired) as u64) }),
{
    if total == 0 || acquired >= total {
        None
    } else {
        Some(total - acquired)
    }
}

fn clone_opt(o: &Option<String>) -> (r: Option<String>)
    ensures
        opt_chars(r) == opt_chars(*o),
{
    match o {
        Some(s) => Some(s.clone()),
        None => None,
    }
}

impl Tracker {
    /// A tracker at the start: signing in, nothing counted.
    pub fn new() -> (r: Tracker)
        ensures
            r@ == initial_state(),
    {
        Tracker {
            phase: Phase::SignIn,
            done: false,
            note: None,
            file: None,
            received: 0,
            already_there: 0,
            total: 0,
            files: 0,
            files_total: 0,
        }
    }

    /// A phase starts working.
    pub fn phase(&mut self, phase: Phase)
        ensures
            final(self)@ == (TrackerState { phase, done: false, ..old(self)@ }),
    {
        self.phase = phase;
        self.done = false;
    }

    /// Work stops on this phase, which is a state and not an action.
    ///
    /// Clears the batch and the current file along the way: the last
    /// download's bar must not stay displayed full under "Ready to play".
    pub fn finish(&mut self, phase: Phase)
        ensures
            final(self)@ == (TrackerState {
                phase,
                done: true,
                file: None,
                received: 0,
                already_there: 0,
                total: 0,
                files: 0,
                files_total: 0,
                ..old(self)@
            }),
    {
        self.phase = phase;
        self.done = true;
        self.file = None;
        self.forget_the_batch();
    }

    /// Mod resolution advances: so many requests settled out of so many.
    ///
    /// The byte total is set to zero: that is what tells the window to rely
    /// on the count rather than on the weight until the next batch.
    pub fn resolution(&mut self, done: usize, total: usize)
        ensures
            final(self)@ == (TrackerState { files: done, files_total: total, total: 0, ..old(self)@ }),
    {
        self.files = done;
        self.files_total = total;
        self.total = 0;
    }

    /// The installer's latest note.
    pub fn note(&mut self, text: &str)
        ensures
            final(self)@ == (TrackerState { note: Some(text@), ..old(self)@ }),
    {
        self.note = Some(crate::text::owned(text));
    }

    /// Records a download event.
    pub fn download(&mut self, progress: DownloadProgress)
        ensures
            final(self)@ == after_download(old(self)@, progress),
    {
        match progress {
            DownloadProgress::Batch { files, bytes } => {
                self.received = 0;
                self.already_there = 0;
                self.files = 0;
                self.total = bytes;
                self.files_total = files;
            },
            DownloadProgress::Started { file, .. } => {
                self.file = Some(file);
            },
            DownloadProgress::Received(bytes) => {
                self.received = self.received.wrapping_add(bytes);
            },
            DownloadProgress::Lost(bytes) => {
                self.received = self.received.saturating_sub(bytes);
            },
            DownloadProgress::Finished { state, bytes, .. } => {
                self.files = self.files.wrapping_add(1);
                if state == Fetched::AlreadyPresent {
                    self.already_there = self.already_there.wrapping_add(bytes);
                }
            },
        }
    }

    /// Bytes acquired, when the sum of the two sources fits the counter.
    pub fn acquired(&self) -> (r: Option<u64>)
        ensures
            r == (if acquired(self@) <= u64::MAX { Some(acquired(self@) as u64) } else { None }),
    {
        self.received.checked_add(self.already_there)
    }

    /// The full state, with the rate and the remaining time measured by
    /// whoever calls at the emission cadence.
    pub fn snapshot(&self, rate: u64, remaining: Option<u64>) -> (r: Progress)
        ensures
            r.phase == self@.phase,
            r.done == self@.done,
            opt_chars(r.note) == self@.note,
            opt_chars(r.file) == self@.file,
            r.bytes == vstd::wrapping::u64_specs::wrapping_add(self@.received, self@.already_there),
            acquired(self@) <= u64::MAX ==> r.bytes == acquired(self@),
            r.total == self@.total,
            r.files == self@.files,
            r.files_total == self@.files_total,
            r.active == in_progress_spec(self@.files, self@.files_total),
            r.rate == rate,
            r.remaining == remaining,
    {
        let acquired: u64 = self.received.wrapping_add(self.already_there);
        Progress {
            phase: self.phase,
            done: self.done,
            note: clone_opt(&self.note),
            file: clone_opt(&self.file),
            bytes: acquired,
            total: self.total,
            files: self.files,
            files_total: self.files_total,
            active: in_progress(self.files, self.files_total),
            rate,
            remaining,
        }
    }

    /// Forgets the current batch: nothing left to show of a download.
    fn forget_the_batch(&mut self)
        ensures
            final(self)@ == (TrackerState {
                received: 0,
                already_there: 0,
                total: 0,
                files: 0,
                files_total: 0,
                ..old(self)@
            }),
    {
        self.received = 0;
        self.already_there = 0;
        self.total = 0;
        self.files = 0;
        self.files_total = 0;
    }
}

impl Default for Tracker {
    fn default() -> (r: Tracker)
        ensures
            r@ == initial_state(),
    {
        Tracker::new()
    }
}

// ---------------------------------------------------------------------------
// Laws
// ---------------------------------------------------------------------------

/// A retry does not overflow the bar: bytes received then taken back leave
/// the count where it was, as long as the counter did not wrap.
pub proof fn law_a_retry_leaves_the_count(s: TrackerState, n: u64)
    requires
        s.received + n <= u64::MAX,
    ensures
        after_download(after_download(s, DownloadProgress::Received(n)), DownloadProgress::Lost(n))
            == s,
{
}

/// Starting a file changes only which file is downloading: the bytes
/// already counted, the files settled and what the batch announced stay as
/// they were, so the bar never jumps back when the next file begins.
pub proof fn law_starting_a_file_keeps_the_count(s: TrackerState, file: String, bytes: Option<u64>)
    ensures
        ({
            let t = after_download(s, DownloadProgress::Started { file, bytes });
            &&& t.file == Some(file@)
            &&& t.received == s.received
            &&& t.already_there == s.already_there
            &&& acquired(t) == acquired(s)
            &&& t.files == s.files
            &&& t.total == s.total
            &&& t.files_total == s.files_total
            &&& t.phase == s.phase
            &&& t.done == s.done
            &&& t.note == s.note
        }),
{
}

/// Received bytes add up across the files of a batch: bytes of one file,
/// then the start of the next, then its bytes, count both, as long as the
/// counter does not wrap.
pub proof fn law_received_bytes_add_up_across_files(
    s: TrackerState,
    first: u64,
    file: String,
    bytes: Option<u64>,
    second: u64,
)
    requires
        s.received + first + second <= u64::MAX,
    ensures
        after_download(
            after_download(
                after_download(s, DownloadProgress::Received(first)),
                DownloadProgress::Started { file, bytes },
            ),
            DownloadProgress::Received(second),
        ).received == s.received + first + second,
{
}

/// Taking back more than was counted does not wrap around zero: it stops at
/// zero.
pub proof fn law_lost_bytes_never_wrap(s: TrackerState, n: u64)
    requires
        n > s.received,
    ensures
        after_download(s, DownloadProgress::Lost(n)).received == 0,
{
}

/// A downloaded file is not counted twice: settling it moves the file count
/// by one and the bytes not at all, since they were counted as they arrived.
/// A file found on disk moves the bytes by its weight.
pub proof fn law_a_settled_file_counts_once(s: TrackerState, file: String, bytes: u64)
    requires
        s.files < usize::MAX,
        s.already_there + bytes <= u64::MAX,
    ensures
        ({
            let d = after_download(s, DownloadProgress::Finished { file, state: Fetched::Downloaded, bytes });
            d.files == s.files + 1 && acquired(d) == acquired(s)
        }),
        ({
            let a = after_download(s, DownloadProgress::Finished { file, state: Fetched::AlreadyPresent, bytes });
            a.files == s.files + 1 && acquired(a) == acquired(s) + bytes
        }),
{
}

/// A new batch starts over from zero, whatever was counted before.
pub proof fn law_a_batch_starts_over(s: TrackerState, files: usize, bytes: u64)
    ensures
        ({
            let b = after_download(s, DownloadProgress::Batch { files, bytes });
            acquired(b) == 0 && b.files == 0 && b.total == bytes && b.files_total == files
        }),
{
}

/// Counting the files of a batch as they are settled.
pub proof fn lemma_settled_files(s: TrackerState, es: Seq<DownloadProgress>)
    requires
        s.files as int + es.len() <= usize::MAX,
        forall|i: int| 0 <= i < es.len() ==> (#[trigger] es[i]) is Finished,
    ensures
        after_downloads(s, es).files == s.files + es.len(),
        after_downloads(s, es).files_total == s.files_total,
    decreases es.len(),
{
    if es.len() > 0 {
        lemma_settled_files(s, es.drop_last());
    }
}

/// A complete batch no longer counts as a download in progress: once as many
/// files as were announced are settled, the window stops drawing a numbered
/// bar, even if the step still works.
pub proof fn law_a_complete_batch_is_not_in_progress(
    s: TrackerState,
    files: usize,
    bytes: u64,
    settled: Seq<DownloadProgress>,
)
    requires
        files > 0,
        settled.len() == files,
        forall|i: int| 0 <= i < settled.len() ==> (#[trigger] settled[i]) is Finished,
    ensures
        in_progress_spec(after_download(s, DownloadProgress::Batch { files, bytes }).files,
            after_download(s, DownloadProgress::Batch { files, bytes }).files_total),
        !({
            let end = after_downloads(after_download(s, DownloadProgress::Batch { files, bytes }), settled);
            in_progress_spec(end.files, end.files_total)
        }),
{
    lemma_settled_files(after_download(s, DownloadProgress::Batch { files, bytes }), settled);
}

} // verus!
