//! The control plane of a capture session: resolving the interactive,
//! time-bounded device selection, the session state machine, the per-frame
//! decision of the capture loop, and the cancellation guarantee.
use vstd::prelude::*;
use crate::filter::{evaluate_filter, FilterPredicate};
use crate::headers::ethernet_decode;
use crate::summary::{describe_headers, eth_summary, headers_desc, summary_line};
use crate::walk::{walk_frame, walk_headers};

verus! {

/// The session-level errors: every fatal way a scan can end before or
/// during capture.
#[derive(Clone, Copy, Debug, PartialEq, Eq, Structural)]
pub enum SessionError {
    /// The capture devices could not be listed.
    EnumerationError,
    /// No valid selection input arrived within the bound.
    SelectionTimeout,
    /// The selection input could not be read at all.
    SelectionInputError,
    /// The chosen device exists but could not be opened.
    DeviceOpenError,
    /// A frame read failed mid-capture.
    FrameReadError,
}

/// The phases of a capture session.
#[derive(Clone, Copy, Debug, PartialEq, Eq, Structural)]
pub enum SessionState {
    Idle,
    SelectingDevice,
    Capturing,
    Stopped,
}

/// What the session observes, phase by phase.
#[derive(Clone, Copy, Debug, PartialEq, Eq, Structural)]
pub enum SessionEvent {
    /// A scan was requested while idle.
    ScanRequested,
    /// Selection resolved to a device and the device opened.
    DeviceOpened,
    /// Selection or the device open failed for good.
    SessionFailed,
    /// One capture iteration finished and the loop goes on.
    FrameHandled,
    /// The loop observed cancellation or a read error.
    CaptureEnded,
}

/// The state machine's transition table: scan requests lead from `Idle`
/// through `SelectingDevice` to `Capturing`; every failure, and the end of
/// the loop, leads to `Stopped`; any event out of place leaves the state
/// unchanged.
pub open spec fn next_state(state: SessionState, event: SessionEvent) -> SessionState {
    match (state, event) {
        (SessionState::Idle, SessionEvent::ScanRequested) => SessionState::SelectingDevice,
        (SessionState::SelectingDevice, SessionEvent::DeviceOpened) => SessionState::Capturing,
        (SessionState::SelectingDevice, SessionEvent::SessionFailed) => SessionState::Stopped,
        (SessionState::Capturing, SessionEvent::FrameHandled) => SessionState::Capturing,
        (SessionState::Capturing, SessionEvent::CaptureEnded) => SessionState::Stopped,
        (SessionState::Capturing, SessionEvent::SessionFailed) => SessionState::Stopped,
        _ => state,
    }
}

/// The session state machine: exactly the table of [`next_state`].
pub fn session_transition(state: SessionState, event: SessionEvent) -> (next: SessionState)
    ensures
        next == next_state(state, event),
        state is Idle && event is ScanRequested ==> next is SelectingDevice,
        state is SelectingDevice && event is DeviceOpened ==> next is Capturing,
        state is SelectingDevice && event is SessionFailed ==> next is Stopped,
        state is Capturing && event is FrameHandled ==> next is Capturing,
        state is Capturing && event is CaptureEnded ==> next is Stopped,
        state is Capturing && event is SessionFailed ==> next is Stopped,
{
    match (state, event) {
        (SessionState::Idle, SessionEvent::ScanRequested) => SessionState::SelectingDevice,
        (SessionState::SelectingDevice, SessionEvent::DeviceOpened) => SessionState::Capturing,
        (SessionState::SelectingDevice, SessionEvent::SessionFailed) => SessionState::Stopped,
        (SessionState::Capturing, SessionEvent::FrameHandled) => SessionState::Capturing,
        (SessionState::Capturing, SessionEvent::CaptureEnded) => SessionState::Stopped,
        (SessionState::Capturing, SessionEvent::SessionFailed) => SessionState::Stopped,
        _ => state,
    }
}

/// An ASCII whitespace byte: space, tab, carriage return or newline.
pub open spec fn is_space(c: u8) -> bool {
    c == 32 || c == 9 || c == 13 || c == 10
}

/// The input line with leading and trailing whitespace removed.
pub open spec fn trimmed(s: Seq<u8>) -> Seq<u8>
    decreases s.len(),
{
    if s.len() == 0 {
        s
    } else if is_space(s[0]) {
        trimmed(s.skip(1))
    } else if is_space(s.last()) {
        trimmed(s.take(s.len() - 1))
    } else {
        s
    }
}

/// An ASCII decimal digit byte.
pub open spec fn is_digit(c: u8) -> bool {
    48 <= c <= 57
}

/// Whether every byte of `s` is a decimal digit.
pub open spec fn all_digits(s: Seq<u8>) -> bool {
    forall|i: int| 0 <= i < s.len() ==> is_digit(#[trigger] s[i])
}

/// The number the decimal digits of `s` spell, most significant first.
pub open spec fn dec_value(s: Seq<u8>) -> int
    decreases s.len(),
{
    if s.len() == 0 {
        0
    } else {
        dec_value(s.take(s.len() - 1)) * 10 + (s.last() - 48)
    }
}

/// What a line of selection input resolves to against `count` listed
/// devices: the zero-based index when the trimmed line is all digits and
/// spells a number in `[1, count]`, nothing otherwise.
pub open spec fn selection_of(line: Seq<u8>, count: usize) -> Option<usize> {
    let t = trimmed(line);
    if t.len() > 0 && all_digits(t) && 1 <= dec_value(t) <= count {
        Some((dec_value(t) - 1) as usize)
    } else {
        None
    }
}

/// Appending a digit to a spelled number keeps it above any bound it
/// already exceeds.
proof fn lemma_digit_keeps_excess(v: int, d: int, bound: int)
    requires
        v > bound,
        bound >= 0,
        d >= 0,
    ensures
        v * 10 + d > bound,
{
    assert(v * 10 >= v) by (nonlinear_arith)
        requires
            v >= 0,
    ;
}

/// One digit extends the number a digit string spells: the value of the
/// first `k + 1` digits is ten times the value of the first `k`, plus the
/// digit.
proof fn lemma_dec_step(t: Seq<u8>, k: int)
    requires
        0 <= k < t.len(),
    ensures
        dec_value(t.take(k + 1)) == dec_value(t.take(k)) * 10 + (t[k] - 48),
{
    let w = t.take(k + 1);
    assert(w.take(w.len() - 1) =~= t.take(k));
    assert(w.last() == t[k]);
}

/// Narrows `[start, end)` to the trimmed region of the input.
fn trim_bounds(s: &[u8], start: usize, end: usize) -> (r: (usize, usize))
    requires
        start <= end <= s@.len(),
    ensures
        start <= r.0 <= r.1 <= end,
        s@.subrange(r.0 as int, r.1 as int) == trimmed(s@.subrange(start as int, end as int)),
    decreases end - start,
{
    if start == end {
        (start, end)
    } else {
        let first = s[start];
        let last = s[end - 1];
        if first == 32 || first == 9 || first == 13 || first == 10 {
            let r = trim_bounds(s, start + 1, end);
            proof {
                assert(s@.subrange(start as int, end as int).skip(1) =~= s@.subrange(
                    start as int + 1,
                    end as int,
                ));
            }
            r
        } else if last == 32 || last == 9 || last == 13 || last == 10 {
            let r = trim_bounds(s, start, end - 1);
            proof {
                let sub = s@.subrange(start as int, end as int);
                assert(sub.take(sub.len() - 1) =~= s@.subrange(start as int, end as int - 1));
            }
            r
        } else {
            (start, end)
        }
    }
}

/// Parses one line of selection input against `count` listed devices.
/// Returns exactly what [`selection_of`] names: the zero-based device
/// index, or `None` for input that is empty, not a number, or out of
/// range (a number above `count`, below 1, or too large to hold).
#[verifier::rlimit(100)]
pub fn parse_selection(line: &[u8], count: usize) -> (r: Option<usize>)
    ensures
        r == selection_of(line@, count),
{
    let (start, end) = trim_bounds(line, 0, line.len());
    proof {
        assert(line@.subrange(0, line@.len() as int) =~= line@);
    }
    let ghost t = trimmed(line@);
    if start == end {
        return None;
    }
    let mut acc: usize = 0;
    let mut high = false;
    let mut i = start;
    while i < end
        invariant
            start <= i <= end <= line@.len(),
            t == line@.subrange(start as int, end as int),
            t == trimmed(line@),
            all_digits(t.take(i - start)),
            !high ==> acc == dec_value(t.take(i - start)) && acc <= count,
            high ==> dec_value(t.take(i - start)) > count,
        decreases end - i,
    {
        let c = line[i];
        if c < 48 || c > 57 {
            proof {
                assert(t[i - start] == c);
                assert(!all_digits(t)) by {
                    assert(!is_digit(t[i - start]));
                }
            }
            return None;
        }
        let d = c - 48;
        proof {
            lemma_dec_step(t, i - start);
        }
        if high {
            proof {
                lemma_digit_keeps_excess(dec_value(t.take(i - start)), c - 48, count as int);
            }
        } else {
            let next = match acc.checked_mul(10) {
                Some(x) => x.checked_add(d as usize),
                None => None,
            };
            match next {
                Some(n) => {
                    if n > count {
                        high = true;
                    } else {
                        acc = n;
                    }
                },
                None => {
                    proof {
                        assert(acc * 10 + (c - 48) > usize::MAX >= count);
                    }
                    high = true;
                },
            }
        }
        i = i + 1;
    }
    proof {
        assert(t.take(end - start) =~= t);
    }
    if high {
        return None;
    }
    if acc == 0 {
        return None;
    }
    Some(acc - 1)
}

/// Begins device selection against the listed devices: with none listed
/// the session reports the enumeration failure and does not proceed.
pub fn begin_selection(count: usize) -> (r: Result<(), SessionError>)
    ensures
        (r is Err) == (count == 0),
        r matches Err(e) ==> e == SessionError::EnumerationError,
{
    if count == 0 {
        Err(SessionError::EnumerationError)
    } else {
        Ok(())
    }
}

/// What the selection prompt observes for one round of input.
pub enum InputEvent {
    /// A line of text arrived within the bound.
    Line(Vec<u8>),
    /// The bounded wait expired with no input.
    TimedOut,
    /// The input source failed.
    Failed,
}

/// How one round of selection input resolves.
#[derive(Clone, Copy, Debug, PartialEq, Eq, Structural)]
pub enum SelectionOutcome {
    /// A device was chosen; the zero-based index into the listed devices.
    Selected(usize),
    /// The input was malformed or out of range: prompt again.
    Reprompt,
    /// The session aborts before any device is opened.
    Abort(SessionError),
}

/// Resolves one round of selection input against `count` listed devices.
/// Expiry of the bounded wait aborts with `SelectionTimeout` and an input
/// failure aborts with `SelectionInputError` — in both cases before any
/// device is opened; malformed or out-of-range input asks for another
/// round; a valid number selects that device.
pub fn selection_step(event: InputEvent, count: usize) -> (r: SelectionOutcome)
    ensures
        event is TimedOut ==> r == SelectionOutcome::Abort(SessionError::SelectionTimeout),
        event is Failed ==> r == SelectionOutcome::Abort(SessionError::SelectionInputError),
        event matches InputEvent::Line(line) ==> match selection_of(line@, count) {
            Some(i) => r == SelectionOutcome::Selected(i),
            None => r is Reprompt,
        },
        r matches SelectionOutcome::Selected(i) ==> i < count,
{
    match event {
        InputEvent::TimedOut => SelectionOutcome::Abort(SessionError::SelectionTimeout),
        InputEvent::Failed => SelectionOutcome::Abort(SessionError::SelectionInputError),
        InputEvent::Line(line) => match parse_selection(line.as_slice(), count) {
            Some(i) => SelectionOutcome::Selected(i),
            None => SelectionOutcome::Reprompt,
        },
    }
}

/// What the capture loop observes at the start of one iteration.
pub enum CaptureEvent {
    /// The cancellation flag was set when the loop looked.
    Cancelled,
    /// The device read failed.
    ReadFailed,
    /// One raw frame arrived.
    Frame(Vec<u8>),
}

/// What one capture iteration does.
pub enum CaptureStep {
    /// The loop stops: cancellation or a read failure.
    Stopped,
    /// The frame was dropped: no Ethernet header, or the predicate said no.
    Rejected,
    /// The frame was accepted; the text to emit — the full dissection,
    /// or the one-line record in summary mode.
    Emitted(String),
}

/// What one frame becomes once the filter has decided: a rejected frame is
/// dropped, nothing emitted for it; an accepted frame that decodes is
/// emitted, with exactly the full dissection of its layers — or, in summary
/// mode, exactly the compact one-line record; an accepted frame with no
/// Ethernet header is dropped too. This step never stops the loop.
pub fn frame_step(accept: bool, b: &[u8], summary_mode: bool) -> (r: CaptureStep)
    ensures
        !accept ==> r is Rejected,
        accept ==> match ethernet_decode(b@) {
            Ok(eh) => r matches CaptureStep::Emitted(s) && s@ == (if summary_mode {
                eth_summary(eh)
            } else {
                headers_desc(walk_headers(b@))
            }),
            Err(_) => r is Rejected,
        },
        r !is Stopped,
{
    if !accept {
        return CaptureStep::Rejected;
    }
    match crate::headers::decode_ethernet(b) {
        Err(_) => CaptureStep::Rejected,
        Ok((h, _)) => if summary_mode {
            CaptureStep::Emitted(summary_line(&h))
        } else {
            let layers = walk_frame(b);
            CaptureStep::Emitted(describe_headers(&layers))
        },
    }
}

/// One iteration of the capture loop: the cancellation flag and the read
/// outcome stop the loop before any frame work; an arriving frame is put
/// to the filter predicate and its answer handed to [`frame_step`], whose
/// contract ties the decision to what is emitted. Whatever the predicate
/// answers, the only text ever emitted for a frame is the full dissection
/// of that frame's decoded layers — or, in summary mode, the compact
/// one-line record — and a frame with no Ethernet header is never emitted.
pub fn capture_iteration(
    predicate: &FilterPredicate,
    event: CaptureEvent,
    summary_mode: bool,
) -> (r: CaptureStep)
    ensures
        event is Cancelled ==> r is Stopped,
        event is ReadFailed ==> r is Stopped,
        event matches CaptureEvent::Frame(b) ==> (r is Rejected || (r
            matches CaptureStep::Emitted(s) && ethernet_decode(b@) is Ok && s@ == (
            if summary_mode {
                eth_summary(ethernet_decode(b@)->Ok_0)
            } else {
                headers_desc(walk_headers(b@))
            }))),
        r is Stopped ==> (event is Cancelled || event is ReadFailed),
{
    match event {
        CaptureEvent::Cancelled => CaptureStep::Stopped,
        CaptureEvent::ReadFailed => CaptureStep::Stopped,
        CaptureEvent::Frame(b) => {
            let accept = evaluate_filter(predicate, b.as_slice());
            frame_step(accept, b.as_slice(), summary_mode)
        },
    }
}

/// The state a capture session carries: the chosen device's name and the
/// phase the session is in.
pub struct CaptureSession {
    pub device: String,
    pub state: SessionState,
}

impl CaptureSession {
    /// Opens a session for the chosen device, ready in the capturing phase.
    pub fn begin(device: String) -> (s: CaptureSession)
        ensures
            s.device == device,
            s.state is Capturing,
    {
        CaptureSession { device, state: SessionState::Capturing }
    }

    /// Feeds one session event through the state machine.
    pub fn observe(&mut self, event: SessionEvent)
        ensures
            final(self).device == old(self).device,
            final(self).state == next_state(old(self).state, event),
    {
        self.state = session_transition(self.state, event);
    }

    /// Whether the session has stopped.
    pub fn is_stopped(&self) -> (r: bool)
        ensures
            r == (self.state is Stopped),
    {
        matches!(self.state, SessionState::Stopped)
    }
}


/// What the loop observed at the start of one iteration: whether the
/// cancellation flag was set, and whether the read failed.
pub struct LoopObservation {
    pub cancel_seen: bool,
    pub read_failed: bool,
}

/// Whether this observation stops the loop before any frame work.
pub open spec fn stops(o: LoopObservation) -> bool {
    o.cancel_seen || o.read_failed
}

/// How many frames a loop fed these observations processes: one per
/// iteration until the first stopping observation, none after it.
pub open spec fn frames_processed(t: Seq<LoopObservation>) -> int
    decreases t.len(),
{
    if t.len() == 0 {
        0
    } else if stops(t[0]) {
        0
    } else {
        1 + frames_processed(t.skip(1))
    }
}

/// Law: once the cancellation flag is set — the loop sees it from
/// iteration `k` on — no frame of those iterations is processed: at most
/// the `k` frames already in hand are, so at most one more after the flag
/// is raised mid-iteration.
pub proof fn lemma_cancellation_caps_processing(t: Seq<LoopObservation>, k: int)
    requires
        0 <= k <= t.len(),
        forall|i: int| k <= i < t.len() ==> (#[trigger] t[i]).cancel_seen,
    ensures
        frames_processed(t) <= k,
    decreases t.len(),
{
    if t.len() == 0 {
    } else if stops(t[0]) {
    } else {
        assert(k >= 1) by {
            if k == 0 {
                assert(t[0].cancel_seen);
            }
        }
        assert(forall|i: int|
            k - 1 <= i < t.skip(1).len() ==> (#[trigger] t.skip(1)[i]).cancel_seen) by {
            assert(forall|i: int|
                k - 1 <= i < t.skip(1).len() ==> t.skip(1)[i] == t[i + 1] && (#[trigger] t.skip(
                    1,
                )[i]).cancel_seen);
        }
        lemma_cancellation_caps_processing(t.skip(1), k - 1);
    }
}

} // verus!
