use vstd::prelude::*;
use crate::endpoints::{candidate_urls, download_candidates};
use crate::chain::{chain_text, format_error_chain};
use crate::event::DownloadEvent;
use crate::limits::{
    add_bytes, add_capped, advance_clock, clock_after, deadline_reached, is_success_status,
    past_deadline, status_is_success, REPORT_EVERY_US,
};
use crate::rate::{rate_interval_matches_ms, rate_of, rate_over, Rate};

verus! {

/// Where a download session stands.
#[derive(Clone, Copy, Debug, PartialEq, Eq, Structural)]
pub enum DownloadPhase {
    /// A request to the current candidate is in flight.
    Connecting,
    /// A candidate answered; its body is being read.
    Streaming,
    /// The terminal event has been emitted.
    Done,
}

/// What the runtime does next for a download session.
#[derive(Clone, Debug, PartialEq, Eq)]
pub enum DownloadAction {
    /// Send a GET request to this URL and report how it went.
    Connect { url: String },
    /// Read the next piece of the response body and report it.
    Pull,
    /// The session is over.
    Stop,
}

/// The events to deliver, in order, and what to do next.
#[derive(Clone, Debug, PartialEq, Eq)]
pub struct DownloadStep {
    pub events: Vec<DownloadEvent>,
    pub action: DownloadAction,
}

/// The decisions of one download measurement: which endpoint to try, when
/// to report progress, and when and how the session ends. Time is given in
/// microseconds since the session started.
pub struct DownloadSession {
    duration_ms: u64,
    candidates: Vec<String>,
    tried: usize,
    phase: DownloadPhase,
    total_bytes: u64,
    last_emit_us: u64,
    last_bytes: u64,
    clock_us: u64,
    history: Ghost<Seq<DownloadEvent>>,
}

/// The `Started` events form a prefix of `n` events, none stand after it.
pub open spec fn starts_prefix(h: Seq<DownloadEvent>, n: int) -> bool {
    &&& 0 < n <= h.len()
    &&& forall|i: int| 0 <= i < h.len() ==> ((#[trigger] h[i] is Started) <==> i < n)
}

/// A terminal event, if any, is the last event.
pub open spec fn terminal_last(h: Seq<DownloadEvent>) -> bool {
    forall|i: int| 0 <= i < h.len() && (#[trigger] h[i]).is_terminal() ==> i == h.len() - 1
}

/// Progress reports move forward: each one later in time than the one
/// before and with no fewer bytes.
pub open spec fn progress_monotone(h: Seq<DownloadEvent>) -> bool {
    forall|i: int, j: int|
        0 <= i < j < h.len() && #[trigger] h[i] is Progress && #[trigger] h[j] is Progress
            ==> h[i]->Progress_elapsed_ms < h[j]->Progress_elapsed_ms && h[i]->Progress_bytes
            <= h[j]->Progress_bytes
}

/// An average rate fits the bytes and the whole milliseconds reported
/// beside it: `8 * bytes` bits over the elapsed time, which is the reported
/// milliseconds to within one (and at least one millisecond).
pub open spec fn average_matches(bytes: u64, elapsed_ms: u64, avg: Rate) -> bool {
    &&& avg.bits == 8 * bytes
    &&& avg.micros / 1000 == if elapsed_ms == 0 {
        1
    } else {
        elapsed_ms as int
    }
}

/// Every `Finished` event carries an average that fits its own figures.
pub open spec fn finished_consistent(h: Seq<DownloadEvent>) -> bool {
    forall|i: int|
        0 <= i < h.len() && #[trigger] h[i] is Finished ==> average_matches(
            h[i]->Finished_bytes,
            h[i]->Finished_elapsed_ms,
            h[i]->Finished_avg_mbps,
        )
}

/// The final report of a session that moved `bytes` in `now_us`.
pub open spec fn finished_event(bytes: u64, now_us: u64) -> DownloadEvent {
    DownloadEvent::Finished {
        elapsed_ms: (now_us / 1000) as u64,
        bytes,
        avg_mbps: rate_of(bytes, now_us),
    }
}

/// A live report at `now_us`, its rate taken over the interval since the
/// previous report at `since_us`, when `since_bytes` had arrived.
pub open spec fn progress_event(
    bytes: u64,
    now_us: u64,
    since_bytes: u64,
    since_us: u64,
) -> DownloadEvent {
    DownloadEvent::Progress {
        elapsed_ms: (now_us / 1000) as u64,
        bytes,
        mbps: rate_of((bytes - since_bytes) as u64, (now_us - since_us) as u64),
    }
}

/// An `Error` event with exactly this message.
pub open spec fn error_with(e: DownloadEvent, text: Seq<char>) -> bool {
    e is Error && e->Error_message@ == text
}

impl DownloadSession {
    /// The state's own consistency, and that of the events emitted so far.
    pub closed spec fn wf(self) -> bool {
        let h = self.history@;
        &&& 2 <= self.candidates@.len() <= 3
        &&& 1 <= self.tried <= self.candidates@.len()
        &&& self.last_bytes <= self.total_bytes
        &&& self.last_emit_us <= self.clock_us
        &&& starts_prefix(h, self.tried as int)
        &&& forall|i: int|
            0 <= i < self.tried ==> #[trigger] h[i] == DownloadEvent::Started {
                url: self.candidates@[i],
                duration_ms: self.duration_ms,
            }
        &&& self.phase == DownloadPhase::Connecting ==> h.len() == self.tried
            && self.total_bytes == 0
        &&& terminal_last(h)
        &&& (self.phase == DownloadPhase::Done) == h.last().is_terminal()
        &&& progress_monotone(h)
        &&& forall|i: int|
            0 <= i < h.len() && #[trigger] h[i] is Progress ==> h[i]->Progress_elapsed_ms
                <= self.last_emit_us / 1000 && h[i]->Progress_bytes <= self.last_bytes
        &&& finished_consistent(h)
    }

    /// Every event the session has emitted, in order.
    pub closed spec fn events(self) -> Seq<DownloadEvent> {
        self.history@
    }

    pub closed spec fn phase(self) -> DownloadPhase {
        self.phase
    }

    pub closed spec fn duration(self) -> u64 {
        self.duration_ms
    }

    /// The endpoints, in the order they are tried.
    pub closed spec fn candidates(self) -> Seq<Seq<char>> {
        self.candidates.deep_view()
    }

    /// How many candidates have been tried so far, the current one included.
    pub closed spec fn attempts(self) -> int {
        self.tried as int
    }

    /// The candidate being tried, or that was chosen.
    pub closed spec fn current_url(self) -> String {
        self.candidates@[self.tried - 1]
    }

    /// Bytes received so far.
    pub closed spec fn total(self) -> u64 {
        self.total_bytes
    }

    /// The latest clock reading.
    pub closed spec fn clock(self) -> u64 {
        self.clock_us
    }

    /// When the last progress report (or the start of the body) was.
    pub closed spec fn last_report(self) -> u64 {
        self.last_emit_us
    }

    /// The byte count at the last progress report.
    pub closed spec fn bytes_at_last_report(self) -> u64 {
        self.last_bytes
    }

    /// What the session waits for in its phase.
    pub open spec fn awaited(self) -> DownloadAction {
        match self.phase() {
            DownloadPhase::Connecting => DownloadAction::Connect { url: self.current_url() },
            DownloadPhase::Streaming => DownloadAction::Pull,
            DownloadPhase::Done => DownloadAction::Stop,
        }
    }

    /// Opens a session on the caller's URL (or, if blank, the fallbacks
    /// alone) and tries the first candidate: `Started` names it, and the
    /// runtime connects to it.
    pub fn new(url: &str, duration_ms: u64) -> (r: (DownloadSession, DownloadStep))
        ensures
            r.0.wf(),
            r.0.candidates() == candidate_urls(url@),
            r.0.duration() == duration_ms,
            r.0.attempts() == 1,
            r.0.phase() == DownloadPhase::Connecting,
            r.0.total() == 0,
            r.0.clock() == 0,
            r.0.current_url()@ == candidate_urls(url@)[0],
            r.1.events@ == seq![
                DownloadEvent::Started { url: r.0.current_url(), duration_ms },
            ],
            r.0.events() == r.1.events@,
            r.1.action == (DownloadAction::Connect { url: r.0.current_url() }),
    {
        let candidates = download_candidates(url);
        proof {
            assert(candidates.deep_view().len() == candidates@.len());
            assert(candidates.deep_view()[0] == candidates@[0].deep_view());
        }
        let first = candidates[0].clone();
        let target = candidates[0].clone();
        let ev = DownloadEvent::Started { url: first, duration_ms };
        let ghost h0 = seq![ev];
        let mut events: Vec<DownloadEvent> = Vec::new();
        events.push(ev);
        let s = DownloadSession {
            duration_ms,
            candidates,
            tried: 1,
            phase: DownloadPhase::Connecting,
            total_bytes: 0,
            last_emit_us: 0,
            last_bytes: 0,
            clock_us: 0,
            history: Ghost(h0),
        };
        (s, DownloadStep { events, action: DownloadAction::Connect { url: target } })
    }

    /// Records an event as emitted.
    fn emit(&mut self, events: &mut Vec<DownloadEvent>, ev: DownloadEvent)
        ensures
            final(events)@ == old(events)@.push(ev),
            final(self).history@ == old(self).history@.push(ev),
            final(self).duration_ms == old(self).duration_ms,
            final(self).candidates == old(self).candidates,
            final(self).tried == old(self).tried,
            final(self).phase == old(self).phase,
            final(self).total_bytes == old(self).total_bytes,
            final(self).last_emit_us == old(self).last_emit_us,
            final(self).last_bytes == old(self).last_bytes,
            final(self).clock_us == old(self).clock_us,
    {
        let ghost g = ev;
        events.push(ev);
        self.history = Ghost(self.history@.push(g));
    }
}

impl DownloadSession {
    /// What the session waits for now: a connection result, a piece of the
    /// body, or nothing.
    pub fn next_action(&self) -> (r: DownloadAction)
        requires
            self.wf(),
        ensures
            r == self.awaited(),
    {
        match self.phase {
            DownloadPhase::Connecting => DownloadAction::Connect {
                url: self.candidates[self.tried - 1].clone(),
            },
            DownloadPhase::Streaming => DownloadAction::Pull,
            DownloadPhase::Done => DownloadAction::Stop,
        }
    }

    /// The request to the current candidate failed in transport (no
    /// response): the next candidate is tried, announced by `Started`; after
    /// the last one the session ends with an `Error` that carries the failure
    /// and its causes.
    pub fn connect_failed(&mut self, top: &str, causes: &Vec<String>) -> (r: DownloadStep)
        requires
            old(self).wf(),
        ensures
            final(self).wf(),
            final(self).events() == old(self).events() + r.events@,
            final(self).candidates() == old(self).candidates(),
            final(self).duration() == old(self).duration(),
            old(self).phase() != DownloadPhase::Connecting ==> *final(self) == *old(self)
                && r.events@.len() == 0 && r.action == old(self).awaited(),
            old(self).phase() == DownloadPhase::Connecting && old(self).attempts() < old(
                self,
            ).candidates().len() ==> {
                &&& final(self).phase() == DownloadPhase::Connecting
                &&& final(self).attempts() == old(self).attempts() + 1
                &&& final(self).current_url()@ == old(self).candidates()[old(self).attempts()]
                &&& r.events@ == seq![
                    DownloadEvent::Started {
                        url: final(self).current_url(),
                        duration_ms: old(self).duration(),
                    },
                ]
                &&& r.action == (DownloadAction::Connect { url: final(self).current_url() })
            },
            old(self).phase() == DownloadPhase::Connecting && old(self).attempts() == old(
                self,
            ).candidates().len() ==> {
                &&& final(self).phase() == DownloadPhase::Done
                &&& r.events@.len() == 1
                &&& error_with(
                    r.events@[0],
                    "Request failed:\n"@ + chain_text(top@, causes.deep_view()),
                )
                &&& r.action == DownloadAction::Stop
            },
    {
        let mut events: Vec<DownloadEvent> = Vec::new();
        if self.phase != DownloadPhase::Connecting {
            return DownloadStep { events, action: self.next_action() };
        }
        proof {
            assert(self.candidates.deep_view().len() == self.candidates@.len());
        }
        if self.tried < self.candidates.len() {
            let i = self.tried;
            let url = self.candidates[i].clone();
            let target = self.candidates[i].clone();
            let ghost h = self.history@;
            self.emit(&mut events, DownloadEvent::Started { url, duration_ms: self.duration_ms });
            self.tried = i + 1;
            proof {
                assert(self.candidates.deep_view()[i as int] == self.candidates@[i as int]@);
                assert(self.history@[i as int] == self.history@.last());
                assert forall|k: int| 0 <= k < self.history@.len() implies ((#[trigger] self.history@[k] is Started) <==> k < self.tried) by {
                    if k < i {
                        assert(self.history@[k] == h[k]);
                    }
                }
            }
            DownloadStep { events, action: DownloadAction::Connect { url: target } }
        } else {
            let chain = format_error_chain(top, causes);
            let mut message = String::from_str("Request failed:\n");
            message.append(chain.as_str());
            self.emit(&mut events, DownloadEvent::Error { message });
            self.phase = DownloadPhase::Done;
            DownloadStep { events, action: DownloadAction::Stop }
        }
    }
}

impl DownloadSession {
    /// Builds the final report for `bytes` moved in `now_us`.
    fn finished_at(bytes: u64, now_us: u64) -> (e: DownloadEvent)
        ensures
            e == finished_event(bytes, now_us),
            average_matches(bytes, (now_us / 1000) as u64, rate_of(bytes, now_us)),
    {
        proof {
            rate_interval_matches_ms(bytes, now_us);
        }
        DownloadEvent::Finished { elapsed_ms: now_us / 1000, bytes, avg_mbps: rate_over(bytes, now_us) }
    }

    /// Emits the final report at `now` and ends the session.
    fn finish(&mut self, events: &mut Vec<DownloadEvent>, now: u64)
        requires
            old(self).wf(),
            old(self).phase == DownloadPhase::Streaming,
        ensures
            final(self).wf(),
            final(events)@ == old(events)@.push(finished_event(old(self).total_bytes, now)),
            final(self).history@ == old(self).history@.push(
                finished_event(old(self).total_bytes, now),
            ),
            final(self).phase == DownloadPhase::Done,
            final(self).duration_ms == old(self).duration_ms,
            final(self).candidates == old(self).candidates,
            final(self).tried == old(self).tried,
            final(self).total_bytes == old(self).total_bytes,
            final(self).clock_us == old(self).clock_us,
            final(self).last_emit_us == old(self).last_emit_us,
            final(self).last_bytes == old(self).last_bytes,
    {
        let ev = DownloadSession::finished_at(self.total_bytes, now);
        self.emit(events, ev);
        self.phase = DownloadPhase::Done;
    }

    /// The current candidate answered with `status` (rendered as
    /// `status_text`) at `now_us`. A success status selects it: its body is
    /// read next, unless the run is already over, which ends the session
    /// with `Finished`. Any other status ends the session with an `Error`
    /// that names the URL and the status; no other candidate is tried.
    pub fn responded(&mut self, status: u16, status_text: &str, now_us: u64) -> (r: DownloadStep)
        requires
            old(self).wf(),
        ensures
            final(self).wf(),
            final(self).events() == old(self).events() + r.events@,
            final(self).candidates() == old(self).candidates(),
            final(self).duration() == old(self).duration(),
            final(self).attempts() == old(self).attempts(),
            old(self).phase() != DownloadPhase::Connecting ==> *final(self) == *old(self)
                && r.events@.len() == 0 && r.action == old(self).awaited(),
            old(self).phase() == DownloadPhase::Connecting && status_is_success(status) ==> {
                let now = clock_after(old(self).clock(), now_us);
                &&& final(self).clock() == now
                &&& final(self).total() == 0
                &&& final(self).last_report() == now
                &&& final(self).bytes_at_last_report() == 0
                &&& if deadline_reached(old(self).duration(), now) {
                    &&& final(self).phase() == DownloadPhase::Done
                    &&& r.events@ == seq![finished_event(0, now)]
                    &&& r.action == DownloadAction::Stop
                } else {
                    &&& final(self).phase() == DownloadPhase::Streaming
                    &&& r.events@.len() == 0
                    &&& r.action == DownloadAction::Pull
                }
            },
            old(self).phase() == DownloadPhase::Connecting && !status_is_success(status) ==> {
                &&& final(self).phase() == DownloadPhase::Done
                &&& r.events@.len() == 1
                &&& error_with(
                    r.events@[0],
                    "HTTP error from "@ + old(self).current_url()@ + ": "@ + status_text@,
                )
                &&& r.action == DownloadAction::Stop
            },
    {
        let mut events: Vec<DownloadEvent> = Vec::new();
        if self.phase != DownloadPhase::Connecting {
            return DownloadStep { events, action: self.next_action() };
        }
        if !is_success_status(status) {
            let mut message = String::from_str("HTTP error from ");
            message.append(self.candidates[self.tried - 1].as_str());
            message.append(": ");
            message.append(status_text);
            self.emit(&mut events, DownloadEvent::Error { message });
            self.phase = DownloadPhase::Done;
            return DownloadStep { events, action: DownloadAction::Stop };
        }
        let now = advance_clock(self.clock_us, now_us);
        self.clock_us = now;
        self.last_emit_us = now;
        self.last_bytes = 0;
        self.phase = DownloadPhase::Streaming;
        if past_deadline(self.duration_ms, now) {
            self.finish(&mut events, now);
            DownloadStep { events, action: DownloadAction::Stop }
        } else {
            DownloadStep { events, action: DownloadAction::Pull }
        }
    }

    /// `len` more bytes of the body arrived at `now_us`. A `Progress` event
    /// follows when a report interval has passed since the last one, with
    /// the rate over that interval; once the run is over the session ends
    /// with `Finished`, its rate averaged over the whole run.
    pub fn received(&mut self, len: u64, now_us: u64) -> (r: DownloadStep)
        requires
            old(self).wf(),
        ensures
            final(self).wf(),
            final(self).events() == old(self).events() + r.events@,
            final(self).candidates() == old(self).candidates(),
            final(self).duration() == old(self).duration(),
            final(self).attempts() == old(self).attempts(),
            old(self).phase() != DownloadPhase::Streaming ==> *final(self) == *old(self)
                && r.events@.len() == 0 && r.action == old(self).awaited(),
            old(self).phase() == DownloadPhase::Streaming ==> {
                let now = clock_after(old(self).clock(), now_us);
                let total = add_capped(old(self).total(), len);
                let report = now - old(self).last_report() >= REPORT_EVERY_US;
                let progress = if report {
                    seq![
                        progress_event(
                            total,
                            now,
                            old(self).bytes_at_last_report(),
                            old(self).last_report(),
                        ),
                    ]
                } else {
                    Seq::<DownloadEvent>::empty()
                };
                &&& final(self).clock() == now
                &&& final(self).total() == total
                &&& final(self).last_report() == if report {
                    now
                } else {
                    old(self).last_report()
                }
                &&& final(self).bytes_at_last_report() == if report {
                    total
                } else {
                    old(self).bytes_at_last_report()
                }
                &&& if deadline_reached(old(self).duration(), now) {
                    &&& final(self).phase() == DownloadPhase::Done
                    &&& r.events@ == progress.push(finished_event(total, now))
                    &&& r.action == DownloadAction::Stop
                } else {
                    &&& final(self).phase() == DownloadPhase::Streaming
                    &&& r.events@ == progress
                    &&& r.action == DownloadAction::Pull
                }
            },
    {
        let mut events: Vec<DownloadEvent> = Vec::new();
        if self.phase != DownloadPhase::Streaming {
            return DownloadStep { events, action: self.next_action() };
        }
        let ghost h = self.history@;
        let ghost prev_emit = self.last_emit_us;
        let now = advance_clock(self.clock_us, now_us);
        self.clock_us = now;
        self.total_bytes = add_bytes(self.total_bytes, len);
        if now - self.last_emit_us >= REPORT_EVERY_US {
            let ev = DownloadEvent::Progress {
                elapsed_ms: now / 1000,
                bytes: self.total_bytes,
                mbps: rate_over(self.total_bytes - self.last_bytes, now - self.last_emit_us),
            };
            self.emit(&mut events, ev);
            self.last_emit_us = now;
            self.last_bytes = self.total_bytes;
            proof {
                let h2 = self.history@;
                assert(now / 1000 >= prev_emit / 1000 + 250);
                assert forall|i: int, j: int|
                    0 <= i < j < h2.len() && #[trigger] h2[i] is Progress
                        && #[trigger] h2[j] is Progress implies h2[i]->Progress_elapsed_ms
                        < h2[j]->Progress_elapsed_ms && h2[i]->Progress_bytes
                        <= h2[j]->Progress_bytes by {
                    if j < h.len() {
                        assert(h2[i] == h[i] && h2[j] == h[j]);
                    } else {
                        assert(h2[i] == h[i]);
                    }
                }
                assert forall|i: int| 0 <= i < h2.len() && #[trigger] h2[i] is Progress implies h2[i]->Progress_elapsed_ms
                    <= self.last_emit_us / 1000 && h2[i]->Progress_bytes <= self.last_bytes by {
                    if i < h.len() {
                        assert(h2[i] == h[i]);
                    }
                }
            }
        }
        if past_deadline(self.duration_ms, now) {
            self.finish(&mut events, now);
            DownloadStep { events, action: DownloadAction::Stop }
        } else {
            DownloadStep { events, action: DownloadAction::Pull }
        }
    }

    /// Reading the body failed: the session ends with an `Error` that
    /// carries the failure; nothing measured is reported.
    pub fn read_failed(&mut self, error: &str) -> (r: DownloadStep)
        requires
            old(self).wf(),
        ensures
            final(self).wf(),
            final(self).events() == old(self).events() + r.events@,
            final(self).candidates() == old(self).candidates(),
            final(self).duration() == old(self).duration(),
            final(self).attempts() == old(self).attempts(),
            final(self).total() == old(self).total(),
            old(self).phase() != DownloadPhase::Streaming ==> *final(self) == *old(self)
                && r.events@.len() == 0 && r.action == old(self).awaited(),
            old(self).phase() == DownloadPhase::Streaming ==> {
                &&& final(self).phase() == DownloadPhase::Done
                &&& r.events@.len() == 1
                &&& error_with(r.events@[0], "Download failed: "@ + error@)
                &&& r.action == DownloadAction::Stop
            },
    {
        let mut events: Vec<DownloadEvent> = Vec::new();
        if self.phase != DownloadPhase::Streaming {
            return DownloadStep { events, action: self.next_action() };
        }
        let mut message = String::from_str("Download failed: ");
        message.append(error);
        self.emit(&mut events, DownloadEvent::Error { message });
        self.phase = DownloadPhase::Done;
        DownloadStep { events, action: DownloadAction::Stop }
    }

    /// The body ended at `now_us`: not a failure; the session ends with
    /// `Finished` for what was measured.
    pub fn stream_ended(&mut self, now_us: u64) -> (r: DownloadStep)
        requires
            old(self).wf(),
        ensures
            final(self).wf(),
            final(self).events() == old(self).events() + r.events@,
            final(self).candidates() == old(self).candidates(),
            final(self).duration() == old(self).duration(),
            final(self).attempts() == old(self).attempts(),
            final(self).total() == old(self).total(),
            old(self).phase() != DownloadPhase::Streaming ==> *final(self) == *old(self)
                && r.events@.len() == 0 && r.action == old(self).awaited(),
            old(self).phase() == DownloadPhase::Streaming ==> {
                let now = clock_after(old(self).clock(), now_us);
                &&& final(self).phase() == DownloadPhase::Done
                &&& final(self).clock() == now
                &&& r.events@ == seq![finished_event(old(self).total(), now)]
                &&& r.action == DownloadAction::Stop
            },
    {
        let mut events: Vec<DownloadEvent> = Vec::new();
        if self.phase != DownloadPhase::Streaming {
            return DownloadStep { events, action: self.next_action() };
        }
        let now = advance_clock(self.clock_us, now_us);
        self.clock_us = now;
        self.finish(&mut events, now);
        DownloadStep { events, action: DownloadAction::Stop }
    }
}

/// The shape of every download session's events: it opens with `Started`,
/// one for each candidate tried and naming it, all before anything else;
/// at most one terminal event stands in it, as the last event, and a
/// session that is over has one. Where the first candidate is taken there
/// is exactly one `Started`.
pub proof fn download_events_framed(s: DownloadSession)
    requires
        s.wf(),
    ensures
        s.events().len() >= 1,
        s.events()[0] is Started,
        starts_prefix(s.events(), s.attempts()),
        forall|i: int|
            0 <= i < s.attempts() ==> (#[trigger] s.events()[i])->Started_url@ == s.candidates()[i],
        terminal_last(s.events()),
        (s.phase() == DownloadPhase::Done) == s.events().last().is_terminal(),
        s.attempts() == 1 ==> forall|i: int|
            0 <= i < s.events().len() && (#[trigger] s.events()[i]) is Started ==> i == 0,
{
    assert forall|i: int| 0 <= i < s.attempts() implies (#[trigger] s.events()[i])->Started_url@
        == s.candidates()[i] by {
        assert(s.candidates.deep_view()[i] == s.candidates@[i]@);
    }
}

/// Progress reports of a download move forward: each later in whole
/// milliseconds than every one before it, with no fewer bytes.
pub proof fn download_progress_ordered(s: DownloadSession)
    requires
        s.wf(),
    ensures
        progress_monotone(s.events()),
{
}

/// A download's `Finished` average is its bytes times eight over its
/// elapsed time, which its reported milliseconds give to within one.
pub proof fn download_average_fits(s: DownloadSession)
    requires
        s.wf(),
    ensures
        finished_consistent(s.events()),
{
}

} // verus!
