//! The decisions of the remux loop: when to retry a failed session and how
//! long to wait, how time stamps are shifted to start at zero, and how the
//! statistics of a finished recording are summed up.
use std::collections::HashMap;
use std::sync::atomic::{AtomicBool, Ordering};
use std::sync::Arc;
use vstd::prelude::*;

use super::error::RecordingError;
use super::stream_recorder::RecorderStats;
use crate::config::{join_path, path_join};
use crate::text::{copy_str, push_char, replace, replace_all};
use crate::utils::{clean_filename, local_now, spec_clean_filename, CalendarTime};

verus! {

broadcast use vstd::std_specs::hash::group_hash_axioms;

// ---------------------------------------------------------------------------
// The stop flag
// ---------------------------------------------------------------------------

/// Holds the flag that asks a running remux to stop. The flag is shared with
/// FFmpeg's interrupt callback, so what it holds can change behind a shared
/// reference and nothing is stated of its value.
pub struct RemuxEngine {
    stop_signal: Arc<AtomicBool>,
}

impl RemuxEngine {
    /// An engine whose stop flag is not raised.
    pub fn new() -> (r: RemuxEngine) {
        RemuxEngine { stop_signal: Arc::new(AtomicBool::new(false)) }
    }

    /// Raises the stop flag.
    pub fn request_stop(&self) {
        self.stop_signal.store(true, Ordering::SeqCst);
    }

    /// Whether the stop flag is raised.
    pub fn is_stop_requested(&self) -> (r: bool) {
        self.stop_signal.load(Ordering::SeqCst)
    }

    /// The engine's own stop flag.
    pub closed spec fn spec_stop_signal(&self) -> Arc<AtomicBool> {
        self.stop_signal
    }

    /// The shared stop flag, for the interrupt callback: the engine's own
    /// flag, the one `request_stop` raises and `is_stop_requested` reads.
    pub fn stop_signal(&self) -> (r: &Arc<AtomicBool>)
        ensures
            *r == self.spec_stop_signal(),
    {
        &self.stop_signal
    }
}

impl Default for RemuxEngine {
    fn default() -> (r: RemuxEngine) {
        RemuxEngine::new()
    }
}

// ---------------------------------------------------------------------------
// Retrying failed sessions
// ---------------------------------------------------------------------------

/// How one remux session ended.
#[derive(Debug, Clone, Copy, PartialEq, Eq, Structural)]
pub enum SessionOutcome {
    /// The stream ended; the packets written so far, earlier sessions included.
    Completed { packets: u64 },
    /// The stop flag interrupted the session.
    Interrupted,
    /// Opening, reading or writing failed.
    Failed,
}

/// What the remux loop does after a session.
#[derive(Debug, Clone, Copy, PartialEq, Eq, Structural)]
pub enum RemuxStep {
    /// Stop and report the packets written.
    Finish { total_packets: u64 },
    /// Stop and report the session's error.
    GiveUp,
    /// Wait this many seconds, then open the stream again.
    Wait { delay_secs: u64 },
}

/// The state the remux loop carries from one session to the next.
#[derive(Debug, Clone, Copy, PartialEq, Eq, Structural)]
pub struct RetryState {
    /// Failed sessions retried so far.
    pub retry_count: u32,
    /// Packets written by the sessions so far.
    pub total_packets: u64,
}

/// The wait before retry number `n`: five seconds per retry, at most thirty.
pub open spec fn retry_delay(n: nat) -> nat {
    if 5 * n < 30 {
        5 * n
    } else {
        30
    }
}

/// The state and step that follow `outcome` in state `s`.
pub open spec fn spec_next_step(s: RetryState, outcome: SessionOutcome, max_retries: u32) -> (
    RetryState,
    RemuxStep,
) {
    match outcome {
        SessionOutcome::Completed { packets } => (
            RetryState { total_packets: packets, ..s },
            RemuxStep::Finish { total_packets: packets },
        ),
        SessionOutcome::Interrupted => (s, RemuxStep::Finish { total_packets: s.total_packets }),
        SessionOutcome::Failed => if s.retry_count >= max_retries {
            (s, RemuxStep::GiveUp)
        } else {
            (
                RetryState { retry_count: (s.retry_count + 1) as u32, ..s },
                RemuxStep::Wait { delay_secs: retry_delay((s.retry_count + 1) as nat) as u64 },
            )
        },
    }
}

/// The wait before retry number `retry_count`.
pub fn retry_delay_secs(retry_count: u32) -> (r: u64)
    ensures
        r == retry_delay(retry_count as nat),
{
    let d: u64 = 5u64 * (retry_count as u64);
    if d < 30 {
        d
    } else {
        30
    }
}

impl RetryState {
    /// No retry yet and no packet written.
    pub fn new() -> (r: RetryState)
        ensures
            r.retry_count == 0,
            r.total_packets == 0,
    {
        RetryState { retry_count: 0, total_packets: 0 }
    }

    /// Records how a session ended and says what to do next: a completed
    /// session finishes with its packet count, an interrupted one finishes
    /// with the count so far, and a failed one is retried after a wait
    /// until `max_retries` retries have been spent.
    pub fn on_session_end(&mut self, outcome: SessionOutcome, max_retries: u32) -> (step: RemuxStep)
        ensures
            (*final(self), step) == spec_next_step(*old(self), outcome, max_retries),
    {
        match outcome {
            SessionOutcome::Completed { packets } => {
                self.total_packets = packets;
                RemuxStep::Finish { total_packets: packets }
            },
            SessionOutcome::Interrupted => RemuxStep::Finish { total_packets: self.total_packets },
            SessionOutcome::Failed => {
                if self.retry_count >= max_retries {
                    RemuxStep::GiveUp
                } else {
                    self.retry_count = self.retry_count + 1;
                    RemuxStep::Wait { delay_secs: retry_delay_secs(self.retry_count) }
                }
            },
        }
    }
}

/// The state after `k` failed sessions in a row from `s`.
pub open spec fn after_failures(s: RetryState, k: nat, max_retries: u32) -> RetryState
    decreases k,
{
    if k == 0 {
        s
    } else {
        spec_next_step(after_failures(s, (k - 1) as nat, max_retries), SessionOutcome::Failed, max_retries).0
    }
}

/// Every wait lasts between five and thirty seconds.
pub proof fn law_retry_delay_bounded(s: RetryState, outcome: SessionOutcome, max_retries: u32)
    ensures
        spec_next_step(s, outcome, max_retries).1 matches RemuxStep::Wait { delay_secs } ==> 5
            <= delay_secs <= 30,
{
}

/// The retries spent never exceed `max_retries`.
pub proof fn law_retries_bounded(s: RetryState, outcome: SessionOutcome, max_retries: u32)
    requires
        s.retry_count <= max_retries,
    ensures
        spec_next_step(s, outcome, max_retries).0.retry_count <= max_retries,
{
}

/// From a fresh state, each of the first `max_retries` failures in a row is
/// answered by a wait, and the next failure gives up.
pub proof fn law_gives_up_after_max_retries(k: nat, max_retries: u32)
    requires
        k <= max_retries,
    ensures
        after_failures(RetryState { retry_count: 0, total_packets: 0 }, k, max_retries).retry_count
            == k,
        k < max_retries ==> spec_next_step(
            after_failures(RetryState { retry_count: 0, total_packets: 0 }, k, max_retries),
            SessionOutcome::Failed,
            max_retries,
        ).1 is Wait,
        k == max_retries ==> spec_next_step(
            after_failures(RetryState { retry_count: 0, total_packets: 0 }, k, max_retries),
            SessionOutcome::Failed,
            max_retries,
        ).1 is GiveUp,
    decreases k,
{
    if k > 0 {
        law_gives_up_after_max_retries((k - 1) as nat, max_retries);
    }
}

// ---------------------------------------------------------------------------
// Statistics of a finished recording
// ---------------------------------------------------------------------------

/// The statistics of a recording that wrote `total_packets` packets and
/// `bytes_written` bytes in `duration_secs` seconds; the average speed is
/// whole bytes per second (0 when no whole second passed). The speed text
/// is left empty for the caller to fill in.
pub fn finish_stats(total_packets: u64, duration_secs: u64, bytes_written: u64) -> (r: RecorderStats)
    ensures
        r.total_packets == total_packets,
        r.duration_secs == duration_secs,
        r.bytes_written == bytes_written,
        r.cumulative_bytes == bytes_written,
        r.bytes_per_sec == (if duration_secs > 0 {
            bytes_written / duration_secs
        } else {
            0
        }),
        r.speed_string@.len() == 0,
{
    RecorderStats {
        total_packets,
        duration_secs,
        bytes_written,
        bytes_per_sec: if duration_secs > 0 {
            bytes_written / duration_secs
        } else {
            0
        },
        cumulative_bytes: bytes_written,
        speed_string: String::new(),
    }
}

// ---------------------------------------------------------------------------
// Time stamps
// ---------------------------------------------------------------------------

/// FFmpeg's mark for a missing time stamp (`AV_NOPTS_VALUE`).
pub const NO_PTS: i64 = -9223372036854775808i64;

/// The smallest presentation time stamp seen on each stream while probing;
/// later packets of a stream are shifted back by it.
pub struct PtsOffsets {
    mins: HashMap<i32, i64>,
}

impl View for PtsOffsets {
    type V = Map<i32, i64>;

    closed spec fn view(&self) -> Map<i32, i64> {
        self.mins@
    }
}

/// The per-stream minima after seeing time stamp `pts` on stream `stream`.
pub open spec fn spec_observe(m: Map<i32, i64>, stream: i32, pts: i64) -> Map<i32, i64> {
    if pts == NO_PTS {
        m
    } else if m.contains_key(stream) && m[stream] <= pts {
        m
    } else {
        m.insert(stream, pts)
    }
}

/// A time stamp shifted back by the stream's minimum; missing ones stay missing.
pub open spec fn spec_shift(m: Map<i32, i64>, stream: i32, ts: i64) -> int {
    if m.contains_key(stream) && ts != NO_PTS {
        ts - m[stream]
    } else {
        ts as int
    }
}

impl PtsOffsets {
    /// No stream seen yet.
    pub fn new() -> (r: PtsOffsets)
        ensures
            r@ == Map::<i32, i64>::empty(),
    {
        PtsOffsets { mins: HashMap::new() }
    }

    /// Records the time stamp of a probed packet.
    pub fn observe(&mut self, stream: i32, pts: i64)
        ensures
            final(self)@ == spec_observe(old(self)@, stream, pts),
    {
        if pts == NO_PTS {
            return ;
        }
        let keep = match self.mins.get(&stream) {
            Some(m) => *m <= pts,
            None => false,
        };
        if !keep {
            self.mins.insert(stream, pts);
        }
    }

    /// The smallest time stamp seen on a stream, if any.
    pub fn min_of(&self, stream: i32) -> (r: Option<i64>)
        ensures
            r == (if self@.contains_key(stream) {
                Some(self@[stream])
            } else {
                None
            }),
    {
        match self.mins.get(&stream) {
            Some(m) => Some(*m),
            None => None,
        }
    }

    /// Shifts a packet's presentation and decoding time stamps back by its
    /// stream's minimum, when one was seen; missing stamps stay missing.
    pub fn shift(&self, stream: i32, pts: i64, dts: i64) -> (r: (i64, i64))
        requires
            i64::MIN <= spec_shift(self@, stream, pts) <= i64::MAX,
            i64::MIN <= spec_shift(self@, stream, dts) <= i64::MAX,
        ensures
            r.0 == spec_shift(self@, stream, pts),
            r.1 == spec_shift(self@, stream, dts),
    {
        match self.mins.get(&stream) {
            Some(m) => {
                let min = *m;
                let p = if pts != NO_PTS {
                    pts - min
                } else {
                    pts
                };
                let d = if dts != NO_PTS {
                    dts - min
                } else {
                    dts
                };
                (p, d)
            },
            None => (pts, dts),
        }
    }
}

/// The minimum kept for a stream is never above a time stamp seen on it.
pub proof fn law_observe_keeps_minimum(m: Map<i32, i64>, stream: i32, pts: i64)
    requires
        pts != NO_PTS,
    ensures
        spec_observe(m, stream, pts).contains_key(stream),
        spec_observe(m, stream, pts)[stream] <= pts,
        m.contains_key(stream) ==> spec_observe(m, stream, pts)[stream] <= m[stream],
{
}

/// The first probed packet of a stream is shifted to time zero.
pub proof fn law_first_packet_at_zero(m: Map<i32, i64>, stream: i32, pts: i64)
    requires
        pts != NO_PTS,
        !m.contains_key(stream),
    ensures
        spec_shift(spec_observe(m, stream, pts), stream, pts) == 0,
{
}


// ---------------------------------------------------------------------------
// One remux session
// ---------------------------------------------------------------------------

/// Packets held back at the start of a session to find each stream's first
/// time stamp before anything is written.
pub const PROBE_PACKETS: u64 = 200;

/// What reading the input of a session gave.
#[derive(Debug, Clone, Copy, PartialEq, Eq, Structural)]
pub enum SessionEvent {
    /// A packet of stream `stream` with presentation time stamp `pts`.
    Packet { stream: i32, pts: i64 },
    /// The input ended.
    EndOfStream,
    /// Reading failed; `interrupted` when the stop flag's callback ended it.
    ReadFailed { interrupted: bool },
}

/// What a session does next.
#[derive(Debug, Clone, Copy, PartialEq, Eq, Structural)]
pub enum SessionAction {
    /// Hold the packet back.
    Buffer,
    /// Hold the packet back, then write every held packet: the probe is over.
    BufferThenFlush,
    /// Write the packet.
    Write,
    /// Write the held packets when `flush`, then the trailer; the session
    /// ended with the stream after `total` packets, earlier sessions included.
    Finish { flush: bool, total: u64 },
    /// Write the held packets when `flush`, then the trailer; the session
    /// failed, interrupted by the stop flag or with the read error.
    Fail { flush: bool, interrupted: bool },
}

/// A session's count of packets and the time-stamp minima of its probe.
pub struct RemuxSession {
    previous: u64,
    count: u64,
    offsets: PtsOffsets,
}

/// The action a session with `count` packets so far takes on `ev`.
pub open spec fn spec_session_action(previous: u64, count: u64, ev: SessionEvent) -> SessionAction {
    match ev {
        SessionEvent::Packet { .. } => if count < PROBE_PACKETS {
            if count + 1 == PROBE_PACKETS {
                SessionAction::BufferThenFlush
            } else {
                SessionAction::Buffer
            }
        } else {
            SessionAction::Write
        },
        SessionEvent::EndOfStream => SessionAction::Finish {
            flush: count < PROBE_PACKETS,
            total: (previous + count) as u64,
        },
        SessionEvent::ReadFailed { interrupted } => SessionAction::Fail {
            flush: count < PROBE_PACKETS,
            interrupted,
        },
    }
}

/// The time-stamp minima after `ev`: only probed packets are observed.
pub open spec fn spec_session_offsets(count: u64, offsets: Map<i32, i64>, ev: SessionEvent) -> Map<
    i32,
    i64,
> {
    match ev {
        SessionEvent::Packet { stream, pts } => if count < PROBE_PACKETS {
            spec_observe(offsets, stream, pts)
        } else {
            offsets
        },
        _ => offsets,
    }
}

impl RemuxSession {
    /// The packets written by earlier sessions.
    pub closed spec fn spec_previous(&self) -> u64 {
        self.previous
    }

    /// The packets read in this session.
    pub closed spec fn spec_count(&self) -> u64 {
        self.count
    }

    /// The time-stamp minima found so far.
    pub closed spec fn spec_offsets(&self) -> Map<i32, i64> {
        self.offsets@
    }

    #[verifier::type_invariant]
    closed spec fn inv(self) -> bool {
        self.previous + self.count <= u64::MAX
    }

    /// Starts a session after `previous` packets of earlier sessions, on an
    /// input with `n_streams` streams; an input without streams is refused.
    pub fn start(previous: u64, n_streams: usize) -> (r: Result<RemuxSession, RecordingError>)
        ensures
            n_streams == 0 <==> (r matches Err(e) && e is NoStreamFound),
            n_streams > 0 ==> r is Ok,
            r matches Ok(s) ==> s.spec_previous() == previous && s.spec_count() == 0
                && s.spec_offsets() == Map::<i32, i64>::empty(),
    {
        if n_streams == 0 {
            Err(RecordingError::NoStreamFound)
        } else {
            Ok(RemuxSession { previous, count: 0, offsets: PtsOffsets::new() })
        }
    }

    /// The packets written so far, earlier sessions included.
    pub fn total(&self) -> (r: u64)
        ensures
            r == self.spec_previous() + self.spec_count(),
    {
        proof {
            use_type_invariant(self);
        }
        self.previous + self.count
    }

    /// The time-stamp minima, to shift written packets by.
    pub fn offsets(&self) -> (r: &PtsOffsets)
        ensures
            r@ == self.spec_offsets(),
    {
        &self.offsets
    }

    /// Takes what reading gave and says what to do: the first
    /// `PROBE_PACKETS` packets are held back while their time stamps are
    /// observed and then written together, later ones are written at once,
    /// and the end of the input or a failed read ends the session.
    pub fn on_event(&mut self, ev: SessionEvent) -> (a: SessionAction)
        requires
            ev is Packet ==> old(self).spec_previous() + old(self).spec_count() < u64::MAX,
        ensures
            a == spec_session_action(old(self).spec_previous(), old(self).spec_count(), ev),
            final(self).spec_previous() == old(self).spec_previous(),
            final(self).spec_count() == (if ev is Packet {
                old(self).spec_count() + 1
            } else {
                old(self).spec_count() as int
            }),
            final(self).spec_offsets() == spec_session_offsets(
                old(self).spec_count(),
                old(self).spec_offsets(),
                ev,
            ),
    {
        proof {
            use_type_invariant(&*self);
        }
        match ev {
            SessionEvent::Packet { stream, pts } => {
                if self.count < PROBE_PACKETS {
                    let mut offsets = PtsOffsets::new();
                    std::mem::swap(&mut offsets, &mut self.offsets);
                    offsets.observe(stream, pts);
                    self.offsets = offsets;
                    self.count = self.count + 1;
                    if self.count == PROBE_PACKETS {
                        SessionAction::BufferThenFlush
                    } else {
                        SessionAction::Buffer
                    }
                } else {
                    self.count = self.count + 1;
                    SessionAction::Write
                }
            },
            SessionEvent::EndOfStream => SessionAction::Finish {
                flush: self.count < PROBE_PACKETS,
                total: self.previous + self.count,
            },
            SessionEvent::ReadFailed { interrupted } => SessionAction::Fail {
                flush: self.count < PROBE_PACKETS,
                interrupted,
            },
        }
    }
}

/// Held packets go out at one point only: with the probe's last packet, or
/// at the end of a session that ends before it; packets are written at once
/// only after the probe.
pub proof fn law_probe_flushed_once(previous: u64, count: u64, ev: SessionEvent)
    ensures
        (spec_session_action(previous, count, ev) is BufferThenFlush) ==> count + 1
            == PROBE_PACKETS,
        (spec_session_action(previous, count, ev) matches SessionAction::Finish { flush, .. }
            && flush) ==> count < PROBE_PACKETS,
        (spec_session_action(previous, count, ev) is Write) ==> count >= PROBE_PACKETS,
{
}


// ---------------------------------------------------------------------------
// File name templates
// ---------------------------------------------------------------------------

/// A template for the path of a recording, with the placeholders
/// `{anchor_name}`, `{title}`, `{platform}`, `{time}` and `{date}`.
pub struct FilenameTemplate {
    template: String,
}

/// The template text with its placeholders filled in: the names cleaned
/// for use in file names, the time as `YYYY-MM-DD_hh-mm-ss` and the date
/// as `YYYY-MM-DD`.
pub open spec fn spec_fill_template(
    template: Seq<char>,
    anchor: Seq<char>,
    title: Seq<char>,
    platform: Seq<char>,
    now: CalendarTime,
) -> Seq<char> {
    let f1 = replace_all(template, "{anchor_name}"@, spec_clean_filename(anchor));
    let f2 = replace_all(f1, "{title}"@, spec_clean_filename(title));
    let f3 = replace_all(f2, "{platform}"@, spec_clean_filename(platform));
    let f4 = replace_all(f3, "{time}"@, now.spec_stamp());
    replace_all(f4, "{date}"@, now.spec_date())
}

/// The path of a recording: the filled template under `output_dir`, with
/// `.extension` appended unless the extension is empty.
pub open spec fn spec_render(
    template: Seq<char>,
    anchor: Seq<char>,
    title: Seq<char>,
    platform: Seq<char>,
    output_dir: Seq<char>,
    extension: Seq<char>,
    now: CalendarTime,
) -> Seq<char> {
    let path = path_join(output_dir, spec_fill_template(template, anchor, title, platform, now));
    if extension.len() == 0 {
        path
    } else {
        path + seq!['.'] + extension
    }
}

impl FilenameTemplate {
    /// The template text.
    pub closed spec fn spec_template(self) -> Seq<char> {
        self.template@
    }

    pub fn new(template: &str) -> (r: FilenameTemplate)
        ensures
            r.spec_template() == template@,
    {
        FilenameTemplate { template: copy_str(template) }
    }

    /// `{anchor_name}/{platform}_{time}`.
    pub fn default_template() -> (r: FilenameTemplate)
        ensures
            r.spec_template() == "{anchor_name}/{platform}_{time}"@,
    {
        FilenameTemplate::new("{anchor_name}/{platform}_{time}")
    }

    /// The path of a recording made at the time `now`.
    pub fn render_at(
        &self,
        anchor_name: &str,
        title: &str,
        platform: &str,
        output_dir: &str,
        extension: &str,
        now: &CalendarTime,
    ) -> (r: String)
        ensures
            r@ == spec_render(
                self.spec_template(),
                anchor_name@,
                title@,
                platform@,
                output_dir@,
                extension@,
                *now,
            ),
    {
        proof {
            reveal_strlit("{anchor_name}");
            reveal_strlit("{title}");
            reveal_strlit("{platform}");
            reveal_strlit("{time}");
            reveal_strlit("{date}");
        }
        let time_str = now.stamp();
        let date_str = now.date();
        let cleaned_anchor = clean_filename(anchor_name);
        let cleaned_title = clean_filename(title);
        let cleaned_platform = clean_filename(platform);
        let f1 = replace(self.template.as_str(), "{anchor_name}", cleaned_anchor.as_str());
        let f2 = replace(f1.as_str(), "{title}", cleaned_title.as_str());
        let f3 = replace(f2.as_str(), "{platform}", cleaned_platform.as_str());
        let f4 = replace(f3.as_str(), "{time}", time_str.as_str());
        let f5 = replace(f4.as_str(), "{date}", date_str.as_str());
        let mut path = join_path(output_dir, f5.as_str());
        if extension.unicode_len() > 0 {
            push_char(&mut path, '.');
            path.append(extension);
        }
        path
    }

    /// The path of a recording made now, at the local time (see `render_at`);
    /// the path is the one some valid clock reading gives. Creating its
    /// directory is left to the caller.
    pub fn render(
        &self,
        anchor_name: &str,
        title: &str,
        platform: &str,
        output_dir: &str,
        extension: &str,
    ) -> (r: String)
        ensures
            exists|now: CalendarTime|
                #![trigger now.spec_stamp()]
                now.is_valid() && r@ == spec_render(
                    self.spec_template(),
                    anchor_name@,
                    title@,
                    platform@,
                    output_dir@,
                    extension@,
                    now,
                ),
    {
        let now = local_now();
        self.render_at(anchor_name, title, platform, output_dir, extension, &now)
    }
}

} // verus!
