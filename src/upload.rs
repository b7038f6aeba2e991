use vstd::prelude::*;
use crate::chain::{client_failure_message, client_failure_text};
use crate::event::UploadEvent;
use crate::limits::{
    advance_clock, clock_after, deadline_reached, is_success_status, past_deadline,
    status_is_success,
};
use crate::rate::{rate_interval_matches_ms, rate_of, rate_over, Rate};

verus! {

/// Smallest buffer a request body is cut from, in bytes.
pub const MIN_CHUNK_SIZE: usize = 8192;

/// Largest buffer a request body is cut from, in bytes.
pub const MAX_CHUNK_SIZE: usize = 1048576;

/// Smallest request body, in bytes: rejections shrink requests down to it.
pub const MIN_REQUEST_BYTES: u64 = 65536;

/// Largest request body, in bytes.
pub const MAX_REQUEST_BYTES: u64 = 8388608;

/// No more requests start once this many bytes have been sent.
pub const MAX_UPLOAD_BYTES: u64 = 209715200;

/// The chunk size a requested one is clamped to.
pub open spec fn clamped_chunk(requested: usize) -> usize {
    if requested < MIN_CHUNK_SIZE {
        MIN_CHUNK_SIZE
    } else if requested > MAX_CHUNK_SIZE {
        MAX_CHUNK_SIZE
    } else {
        requested
    }
}

/// The first request size for a chunk size: sixteen chunks, within the
/// request bounds.
pub open spec fn initial_request(chunk: usize) -> u64 {
    let b = 16 * chunk;
    if b < MIN_REQUEST_BYTES {
        MIN_REQUEST_BYTES
    } else if b > MAX_REQUEST_BYTES {
        MAX_REQUEST_BYTES
    } else {
        b as u64
    }
}

/// The request size after a rejection: half, but not under the minimum;
/// `None` where the size is already the minimum, and the upload stops.
pub open spec fn shrunk(request_bytes: u64) -> Option<u64> {
    if request_bytes > MIN_REQUEST_BYTES {
        Some(
            if request_bytes / 2 < MIN_REQUEST_BYTES {
                MIN_REQUEST_BYTES
            } else {
                request_bytes / 2
            },
        )
    } else {
        None
    }
}

/// Clamps a requested chunk size to the accepted range.
pub fn clamp_chunk_size(requested: usize) -> (r: usize)
    ensures
        r == clamped_chunk(requested),
        MIN_CHUNK_SIZE <= r <= MAX_CHUNK_SIZE,
{
    if requested < MIN_CHUNK_SIZE {
        MIN_CHUNK_SIZE
    } else if requested > MAX_CHUNK_SIZE {
        MAX_CHUNK_SIZE
    } else {
        requested
    }
}

/// The first request size for a (clamped) chunk size.
pub fn first_request_bytes(chunk: usize) -> (r: u64)
    requires
        chunk <= MAX_CHUNK_SIZE,
    ensures
        r == initial_request(chunk),
        MIN_REQUEST_BYTES <= r <= MAX_REQUEST_BYTES,
{
    let b = (chunk as u64) * 16;
    if b < MIN_REQUEST_BYTES {
        MIN_REQUEST_BYTES
    } else if b > MAX_REQUEST_BYTES {
        MAX_REQUEST_BYTES
    } else {
        b
    }
}

/// The request size to use after the server rejected one of this size.
pub fn shrink_request(request_bytes: u64) -> (r: Option<u64>)
    ensures
        r == shrunk(request_bytes),
        r matches Some(n) ==> MIN_REQUEST_BYTES <= n < request_bytes,
{
    if request_bytes > MIN_REQUEST_BYTES {
        let half = request_bytes / 2;
        Some(
            if half < MIN_REQUEST_BYTES {
                MIN_REQUEST_BYTES
            } else {
                half
            },
        )
    } else {
        None
    }
}

/// How many rejections in a row a request size survives: each one shrinks
/// the request, and the one at the minimum size stops the upload.
pub open spec fn rejections_to_stop(request_bytes: u64) -> nat
    decreases request_bytes,
{
    match shrunk(request_bytes) {
        Some(n) => if n < request_bytes {
            1 + rejections_to_stop(n)
        } else {
            1
        },
        None => 1,
    }
}

/// The request sizes that `k` halvings bring down to the minimum.
pub open spec fn halving_reach(k: nat) -> int
    decreases k,
{
    if k == 0 {
        MIN_REQUEST_BYTES as int
    } else {
        2 * halving_reach((k - 1) as nat)
    }
}

proof fn halving_reach_floor(k: nat)
    ensures
        halving_reach(k) >= MIN_REQUEST_BYTES,
    decreases k,
{
    if k > 0 {
        halving_reach_floor((k - 1) as nat);
    }
}

proof fn rejections_within_reach(b: u64, k: nat)
    requires
        b <= halving_reach(k),
    ensures
        rejections_to_stop(b) <= k + 1,
    decreases k,
{
    if b > MIN_REQUEST_BYTES {
        assert(k > 0);
        let n = shrunk(b).unwrap();
        halving_reach_floor((k - 1) as nat);
        assert(halving_reach(k) == 2 * halving_reach((k - 1) as nat));
        rejections_within_reach(n, (k - 1) as nat);
    }
}

/// A server that rejects every request stops the upload: from any request
/// size within bounds, at most eight rejections in a row end it, and no
/// rejection takes the size under the minimum.
pub proof fn rejections_run_out(request_bytes: u64)
    requires
        MIN_REQUEST_BYTES <= request_bytes <= MAX_REQUEST_BYTES,
    ensures
        rejections_to_stop(request_bytes) <= 8,
        shrunk(request_bytes) matches Some(n) ==> MIN_REQUEST_BYTES <= n < request_bytes,
{
    reveal_with_fuel(halving_reach, 8);
    rejections_within_reach(request_bytes, 7);
}

/// How one request body is cut into pieces of the chunk buffer: whole
/// chunks while they fit, then what is left.
pub struct BodyPlan {
    remaining: u64,
    chunk: u64,
}

impl BodyPlan {
    /// Bytes of the body not handed out yet.
    pub closed spec fn remaining(self) -> u64 {
        self.remaining
    }

    /// The size of the buffer pieces are cut from.
    pub closed spec fn chunk(self) -> u64 {
        self.chunk
    }

    /// Plans a body of `request_bytes`, cut from a buffer of `chunk_size`.
    pub fn new(request_bytes: u64, chunk_size: usize) -> (r: BodyPlan)
        requires
            chunk_size > 0,
        ensures
            r.remaining() == request_bytes,
            r.chunk() == chunk_size,
    {
        BodyPlan { remaining: request_bytes, chunk: chunk_size as u64 }
    }

    /// The size of the next piece, counted as sent when handed out: a whole
    /// chunk, or the rest where less is left; `None` once the body is
    /// complete. The pieces of a plan add up to its request size.
    pub fn next_piece(&mut self) -> (r: Option<u64>)
        ensures
            final(self).chunk() == old(self).chunk(),
            old(self).remaining() == 0 ==> r is None && final(self).remaining() == 0,
            old(self).remaining() > 0 ==> r == Some(
                if old(self).remaining() < old(self).chunk() {
                    old(self).remaining()
                } else {
                    old(self).chunk()
                },
            ),
            r matches Some(take) ==> final(self).remaining() == old(self).remaining() - take,
    {
        if self.remaining == 0 {
            return None;
        }
        let take = if self.remaining < self.chunk {
            self.remaining
        } else {
            self.chunk
        };
        self.remaining = self.remaining - take;
        Some(take)
    }
}

/// Where an upload session stands.
#[derive(Clone, Copy, Debug, PartialEq, Eq, Structural)]
pub enum UploadPhase {
    /// Requests are being sent.
    Posting,
    /// The transfer loop is over; the progress reporter is being stopped.
    Settling,
    /// The terminal event has been emitted.
    Done,
}

/// What the runtime does next for an upload session.
#[derive(Clone, Copy, Debug, PartialEq, Eq, Structural)]
pub enum UploadAction {
    /// Send one POST whose body holds this many bytes, and report how it went.
    Post { request_bytes: u64 },
    /// Stop the progress reporter, let it wind down, then finish.
    Settle,
    /// The session is over.
    Stop,
}

/// The upload's report on progress at `elapsed_us`: the cumulative average
/// over the whole run so far.
pub open spec fn upload_progress_event(bytes: u64, elapsed_us: u64) -> UploadEvent {
    UploadEvent::Progress {
        elapsed_ms: (elapsed_us / 1000) as u64,
        bytes,
        mbps: rate_of(bytes, elapsed_us),
    }
}

/// The upload's final report.
pub open spec fn upload_finished_event(bytes: u64, elapsed_us: u64) -> UploadEvent {
    UploadEvent::Finished {
        elapsed_ms: (elapsed_us / 1000) as u64,
        bytes,
        avg_mbps: rate_of(bytes, elapsed_us),
    }
}

/// An average rate that fits the bytes and whole milliseconds beside it.
pub open spec fn upload_average_matches(bytes: u64, elapsed_ms: u64, avg: Rate) -> bool {
    &&& avg.bits == 8 * bytes
    &&& avg.micros / 1000 == if elapsed_ms == 0 {
        1
    } else {
        elapsed_ms as int
    }
}

/// Builds the progress report of an upload that has sent `bytes` after
/// `elapsed_us`: cumulative throughput, since request round trips make
/// interval rates noisy.
pub fn upload_progress(bytes: u64, elapsed_us: u64) -> (e: UploadEvent)
    ensures
        e == upload_progress_event(bytes, elapsed_us),
        upload_average_matches(bytes, (elapsed_us / 1000) as u64, e->Progress_mbps),
{
    proof {
        rate_interval_matches_ms(bytes, elapsed_us);
    }
    UploadEvent::Progress { elapsed_ms: elapsed_us / 1000, bytes, mbps: rate_over(bytes, elapsed_us) }
}

/// The decisions of one upload measurement: when to send another request,
/// how large, and when and how the session ends. Bytes are counted by the
/// runtime as the body is drawn; time is in microseconds since the start.
pub struct UploadSession {
    duration_ms: u64,
    chunk_size: usize,
    request_bytes: u64,
    total_bytes: u64,
    clock_us: u64,
    phase: UploadPhase,
    history: Ghost<Seq<UploadEvent>>,
}

impl UploadSession {
    /// The state's own consistency, and that of the events emitted so far.
    pub closed spec fn wf(self) -> bool {
        let h = self.history@;
        &&& MIN_CHUNK_SIZE <= self.chunk_size <= MAX_CHUNK_SIZE
        &&& MIN_REQUEST_BYTES <= self.request_bytes <= MAX_REQUEST_BYTES
        &&& h.len() >= 1
        &&& forall|i: int| 0 <= i < h.len() ==> ((#[trigger] h[i] is Started) <==> i == 0)
        &&& forall|i: int| 0 <= i < h.len() && (#[trigger] h[i]).is_terminal() ==> i == h.len() - 1
        &&& (self.phase == UploadPhase::Done) == h.last().is_terminal()
        &&& forall|i: int|
            0 <= i < h.len() && #[trigger] h[i] is Finished ==> upload_average_matches(
                h[i]->Finished_bytes,
                h[i]->Finished_elapsed_ms,
                h[i]->Finished_avg_mbps,
            )
    }

    /// Every event the session has emitted, in order.
    pub closed spec fn events(self) -> Seq<UploadEvent> {
        self.history@
    }

    pub closed spec fn phase(self) -> UploadPhase {
        self.phase
    }

    pub closed spec fn duration(self) -> u64 {
        self.duration_ms
    }

    /// The clamped chunk size.
    pub closed spec fn chunk(self) -> usize {
        self.chunk_size
    }

    /// The current request size.
    pub closed spec fn request(self) -> u64 {
        self.request_bytes
    }

    /// The largest byte count reported so far.
    pub closed spec fn total(self) -> u64 {
        self.total_bytes
    }

    /// The latest clock reading.
    pub closed spec fn clock(self) -> u64 {
        self.clock_us
    }

    /// Opens an upload to `url`, reporting `Started` at once with the
    /// clamped chunk size. The first request holds sixteen chunks, within
    /// the request bounds.
    pub fn new(url: &str, duration_ms: u64, chunk_size: usize) -> (r: (UploadSession, UploadEvent))
        ensures
            r.0.wf(),
            r.0.phase() == UploadPhase::Posting,
            r.0.duration() == duration_ms,
            r.0.chunk() == clamped_chunk(chunk_size),
            r.0.request() == initial_request(clamped_chunk(chunk_size)),
            r.0.total() == 0,
            r.0.clock() == 0,
            r.1 is Started,
            r.1->Started_url@ == url@,
            r.1->Started_duration_ms == duration_ms,
            r.1->Started_chunk_size == clamped_chunk(chunk_size),
            r.0.events() == seq![r.1],
    {
        let chunk = clamp_chunk_size(chunk_size);
        let request_bytes = first_request_bytes(chunk);
        let ev = UploadEvent::Started { url: String::from_str(url), duration_ms, chunk_size: chunk };
        let ghost h0 = seq![ev];
        let s = UploadSession {
            duration_ms,
            chunk_size: chunk,
            request_bytes,
            total_bytes: 0,
            clock_us: 0,
            phase: UploadPhase::Posting,
            history: Ghost(h0),
        };
        (s, ev)
    }

    /// The clamped chunk size, for cutting request bodies.
    pub fn chunk_size(&self) -> (r: usize)
        requires
            self.wf(),
        ensures
            r == self.chunk(),
            r > 0,
    {
        self.chunk_size
    }

    /// The HTTP client could not be built: unless the session is already
    /// over, it ends with an `Error` carrying the failure and its causes.
    pub fn client_failed(&mut self, top: &str, causes: &Vec<String>) -> (r: Option<UploadEvent>)
        requires
            old(self).wf(),
        ensures
            final(self).wf(),
            final(self).events() == old(self).events() + match r {
                Some(e) => seq![e],
                None => Seq::<UploadEvent>::empty(),
            },
            old(self).phase() == UploadPhase::Done ==> r is None && *final(self) == *old(self),
            old(self).phase() != UploadPhase::Done ==> {
                &&& final(self).phase() == UploadPhase::Done
                &&& r matches Some(e) && e is Error && e->Error_message@ == client_failure_text(
                    top@,
                    causes.deep_view(),
                )
            },
    {
        if self.phase == UploadPhase::Done {
            return None;
        }
        let ev = UploadEvent::Error { message: client_failure_message(top, causes) };
        let ghost g = ev;
        self.history = Ghost(self.history@.push(g));
        self.phase = UploadPhase::Done;
        Some(ev)
    }

    /// What to do at `now_us`, with `sent_bytes` drawn into bodies so far.
    /// While posting, another request goes out only before the deadline and
    /// under the byte cap, with the current request size; otherwise the
    /// transfer loop is over and the session settles.
    pub fn next_action(&mut self, now_us: u64, sent_bytes: u64) -> (r: UploadAction)
        requires
            old(self).wf(),
        ensures
            final(self).wf(),
            final(self).events() == old(self).events(),
            final(self).request() == old(self).request(),
            final(self).chunk() == old(self).chunk(),
            final(self).duration() == old(self).duration(),
            old(self).phase() == UploadPhase::Posting ==> {
                let now = clock_after(old(self).clock(), now_us);
                let total = if sent_bytes < old(self).total() {
                    old(self).total()
                } else {
                    sent_bytes
                };
                &&& final(self).clock() == now
                &&& final(self).total() == total
                &&& if !deadline_reached(old(self).duration(), now) && total < MAX_UPLOAD_BYTES {
                    &&& final(self).phase() == UploadPhase::Posting
                    &&& r == (UploadAction::Post { request_bytes: old(self).request() })
                } else {
                    &&& final(self).phase() == UploadPhase::Settling
                    &&& r == UploadAction::Settle
                }
            },
            old(self).phase() == UploadPhase::Settling ==> *final(self) == *old(self) && r
                == UploadAction::Settle,
            old(self).phase() == UploadPhase::Done ==> *final(self) == *old(self) && r
                == UploadAction::Stop,
            r matches UploadAction::Post { request_bytes } ==> MIN_REQUEST_BYTES <= request_bytes
                <= MAX_REQUEST_BYTES && !deadline_reached(final(self).duration(), final(self).clock()),
    {
        match self.phase {
            UploadPhase::Posting => {},
            UploadPhase::Settling => {
                return UploadAction::Settle;
            },
            UploadPhase::Done => {
                return UploadAction::Stop;
            },
        }
        let now = advance_clock(self.clock_us, now_us);
        self.clock_us = now;
        if sent_bytes > self.total_bytes {
            self.total_bytes = sent_bytes;
        }
        if !past_deadline(self.duration_ms, now) && self.total_bytes < MAX_UPLOAD_BYTES {
            UploadAction::Post { request_bytes: self.request_bytes }
        } else {
            self.phase = UploadPhase::Settling;
            UploadAction::Settle
        }
    }

    /// The request failed in transport: the transfer loop ends, and the
    /// session will finish with what was measured rather than fail.
    pub fn post_failed(&mut self)
        requires
            old(self).wf(),
        ensures
            final(self).wf(),
            final(self).events() == old(self).events(),
            final(self).request() == old(self).request(),
            final(self).total() == old(self).total(),
            final(self).clock() == old(self).clock(),
            final(self).duration() == old(self).duration(),
            final(self).chunk() == old(self).chunk(),
            final(self).phase() == if old(self).phase() == UploadPhase::Posting {
                UploadPhase::Settling
            } else {
                old(self).phase()
            },
    {
        if self.phase == UploadPhase::Posting {
            self.phase = UploadPhase::Settling;
        }
    }

    /// The server answered the request with `status`. Success keeps the
    /// request size. A rejection halves it (not under the minimum) and the
    /// loop goes on; a rejection at the minimum size ends the loop. Neither
    /// is reported as an error.
    pub fn post_answered(&mut self, status: u16)
        requires
            old(self).wf(),
        ensures
            final(self).wf(),
            final(self).events() == old(self).events(),
            final(self).total() == old(self).total(),
            final(self).clock() == old(self).clock(),
            final(self).duration() == old(self).duration(),
            final(self).chunk() == old(self).chunk(),
            old(self).phase() != UploadPhase::Posting || status_is_success(status) ==> *final(self)
                == *old(self),
            old(self).phase() == UploadPhase::Posting && !status_is_success(status) ==> match shrunk(
                old(self).request(),
            ) {
                Some(n) => final(self).phase() == UploadPhase::Posting && final(self).request() == n,
                None => final(self).phase() == UploadPhase::Settling && final(self).request()
                    == old(self).request(),
            },
            MIN_REQUEST_BYTES <= final(self).request() <= old(self).request(),
    {
        if self.phase != UploadPhase::Posting || is_success_status(status) {
            return;
        }
        match shrink_request(self.request_bytes) {
            Some(n) => {
                self.request_bytes = n;
            },
            None => {
                self.phase = UploadPhase::Settling;
            },
        }
    }

    /// The reporter has been stopped; at `now_us`, with `sent_bytes` drawn in
    /// all, the session ends with `Finished` and the cumulative average.
    pub fn finish(&mut self, now_us: u64, sent_bytes: u64) -> (r: Option<UploadEvent>)
        requires
            old(self).wf(),
        ensures
            final(self).wf(),
            final(self).events() == old(self).events() + match r {
                Some(e) => seq![e],
                None => Seq::<UploadEvent>::empty(),
            },
            final(self).duration() == old(self).duration(),
            final(self).chunk() == old(self).chunk(),
            final(self).request() == old(self).request(),
            old(self).phase() != UploadPhase::Settling ==> r is None && *final(self) == *old(self),
            old(self).phase() == UploadPhase::Settling ==> {
                let now = clock_after(old(self).clock(), now_us);
                let total = if sent_bytes < old(self).total() {
                    old(self).total()
                } else {
                    sent_bytes
                };
                &&& final(self).phase() == UploadPhase::Done
                &&& final(self).clock() == now
                &&& final(self).total() == total
                &&& r == Some(upload_finished_event(total, now))
            },
    {
        if self.phase != UploadPhase::Settling {
            return None;
        }
        let now = advance_clock(self.clock_us, now_us);
        self.clock_us = now;
        if sent_bytes > self.total_bytes {
            self.total_bytes = sent_bytes;
        }
        proof {
            rate_interval_matches_ms(self.total_bytes, now);
        }
        let ev = UploadEvent::Finished {
            elapsed_ms: now / 1000,
            bytes: self.total_bytes,
            avg_mbps: rate_over(self.total_bytes, now),
        };
        let ghost g = ev;
        self.history = Ghost(self.history@.push(g));
        self.phase = UploadPhase::Done;
        Some(ev)
    }
}

/// The shape of every upload session's events: one `Started`, first; at
/// most one terminal event, as the last event; and a session that is over
/// has one.
pub proof fn upload_events_framed(s: UploadSession)
    requires
        s.wf(),
    ensures
        s.events().len() >= 1,
        s.events()[0] is Started,
        forall|i: int| 0 <= i < s.events().len() && (#[trigger] s.events()[i]) is Started ==> i == 0,
        forall|i: int|
            0 <= i < s.events().len() && (#[trigger] s.events()[i]).is_terminal() ==> i == s.events().len() - 1,
        (s.phase() == UploadPhase::Done) == s.events().last().is_terminal(),
{
}

/// An upload's `Finished` average is its bytes times eight over its elapsed
/// time, which its reported milliseconds give to within one.
pub proof fn upload_average_fits(s: UploadSession)
    requires
        s.wf(),
    ensures
        forall|i: int|
            0 <= i < s.events().len() && #[trigger] s.events()[i] is Finished
                ==> upload_average_matches(
                s.events()[i]->Finished_bytes,
                s.events()[i]->Finished_elapsed_ms,
                s.events()[i]->Finished_avg_mbps,
            ),
{
}

/// The adaptive request size never leaves its bounds: at least the minimum,
/// at most the maximum, in every session state.
pub proof fn upload_request_bounded(s: UploadSession)
    requires
        s.wf(),
    ensures
        MIN_REQUEST_BYTES <= s.request() <= MAX_REQUEST_BYTES,
        MIN_CHUNK_SIZE <= s.chunk() <= MAX_CHUNK_SIZE,
{
}

} // verus!
