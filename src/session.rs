//! The recording session: `Idle` until a capture starts, `Recording` until it
//! stops. The live stream, the sample sink and the output path are held
//! together in one `Capture`, so they are present or absent together.
use vstd::prelude::*;

verus! {

/// The two observable states of a session.
#[derive(Debug, Clone, Copy, PartialEq, Eq, Structural)]
pub enum Phase {
    Idle,
    Recording,
}

/// A request made of a session.
#[derive(Debug, Clone, Copy, PartialEq, Eq, Structural)]
pub enum Command {
    Start,
    Stop,
}

/// Failures of the capture session.
#[derive(Debug, Clone, Copy, PartialEq, Eq, Structural)]
pub enum CaptureError {
    /// There is no audio input device.
    DeviceUnavailable,
    /// The transition was asked for from the wrong phase.
    InvalidState,
    /// The sink could not be taken back or finalized on stop.
    SessionCorrupt,
}

/// The transition table: the next phase, and whether the command is accepted.
pub open spec fn step(p: Phase, c: Command) -> (Phase, bool) {
    match (p, c) {
        (Phase::Idle, Command::Start) => (Phase::Recording, true),
        (Phase::Recording, Command::Stop) => (Phase::Idle, true),
        _ => (p, false),
    }
}

/// The phase reached after running `cs` from `p`.
pub open spec fn run(p: Phase, cs: Seq<Command>) -> Phase
    decreases cs.len(),
{
    if cs.len() == 0 {
        p
    } else {
        run(step(p, cs[0]).0, cs.drop_first())
    }
}

/// How many commands of `cs`, run from `p`, were accepted with the command `c`.
pub open spec fn accepted(p: Phase, cs: Seq<Command>, c: Command) -> nat
    decreases cs.len(),
{
    if cs.len() == 0 {
        0
    } else {
        let s = step(p, cs[0]);
        (if s.1 && cs[0] == c { 1nat } else { 0nat }) + accepted(s.0, cs.drop_first(), c)
    }
}

/// Starting from `Idle`, accepted starts and accepted stops alternate: there
/// is never more than one open recording, a stop always closes the one open
/// recording, and the session is `Recording` exactly when a start is still
/// unmatched.
pub proof fn lemma_recordings_alternate(cs: Seq<Command>)
    ensures
        accepted(Phase::Idle, cs, Command::Start) == accepted(Phase::Idle, cs, Command::Stop)
            + (if run(Phase::Idle, cs) == Phase::Recording { 1nat } else { 0nat }),
{
    lemma_alternate_from(Phase::Idle, cs);
}

proof fn lemma_alternate_from(p: Phase, cs: Seq<Command>)
    ensures
        accepted(p, cs, Command::Start) + (if p == Phase::Recording { 1nat } else { 0nat })
            == accepted(p, cs, Command::Stop)
            + (if run(p, cs) == Phase::Recording { 1nat } else { 0nat }),
    decreases cs.len(),
{
    if cs.len() > 0 {
        lemma_alternate_from(step(p, cs[0]).0, cs.drop_first());
    }
}

/// The decimal digit `d`.
pub open spec fn digit_char(d: nat) -> char {
    if d == 0 { '0' } else if d == 1 { '1' } else if d == 2 { '2' } else if d == 3 { '3' }
    else if d == 4 { '4' } else if d == 5 { '5' } else if d == 6 { '6' } else if d == 7 { '7' }
    else if d == 8 { '8' } else { '9' }
}

/// `n` written in decimal, without leading zeros.
pub open spec fn decimal(n: nat) -> Seq<char>
    decreases n,
{
    if n < 10 {
        seq![digit_char(n)]
    } else {
        decimal(n / 10).push(digit_char(n % 10))
    }
}

/// The name of the file that a recording begun at Unix time `timestamp`
/// (in seconds) is written to.
pub open spec fn recording_name(timestamp: nat) -> Seq<char> {
    "recording_"@ + decimal(timestamp) + ".wav"@
}

fn digit_text(d: u64) -> (r: &'static str)
    requires
        d < 10,
    ensures
        r@ == seq![digit_char(d as nat)],
{
    proof {
        reveal_strlit("0");
        reveal_strlit("1");
        reveal_strlit("2");
        reveal_strlit("3");
        reveal_strlit("4");
        reveal_strlit("5");
        reveal_strlit("6");
        reveal_strlit("7");
        reveal_strlit("8");
        reveal_strlit("9");
    }
    let r = if d == 0 { "0" } else if d == 1 { "1" } else if d == 2 { "2" } else if d == 3 { "3" }
    else if d == 4 { "4" } else if d == 5 { "5" } else if d == 6 { "6" } else if d == 7 { "7" }
    else if d == 8 { "8" } else { "9" };
    assert(r@ =~= seq![digit_char(d as nat)]);
    r
}

fn append_decimal(s: &mut String, n: u64)
    ensures
        final(s)@ == old(s)@ + decimal(n as nat),
    decreases n,
{
    if n >= 10 {
        append_decimal(s, n / 10);
    }
    s.append(digit_text(n % 10));
}

/// The name of the output file for a recording begun at Unix time
/// `timestamp`, in seconds: `recording_<timestamp>.wav`.
pub fn recording_file_name(timestamp: u64) -> (r: String)
    ensures
        r@ == recording_name(timestamp as nat),
{
    let mut name = String::from_str("recording_");
    append_decimal(&mut name, timestamp);
    name.append(".wav");
    name
}

/// What one recording owns: the live input stream, the shared sample sink and
/// the path of the file being written.
pub struct Capture<S, W> {
    pub stream: S,
    pub sink: W,
    pub path: String,
}

/// The single recording session of a process.
pub struct CaptureSession<S, W> {
    active: Option<Capture<S, W>>,
}

impl<S, W> CaptureSession<S, W> {
    pub closed spec fn phase(&self) -> Phase {
        if self.active is Some {
            Phase::Recording
        } else {
            Phase::Idle
        }
    }

    /// The path of the file being written, while recording.
    pub closed spec fn path(&self) -> Option<Seq<char>> {
        match self.active {
            Some(c) => Some(c.path@),
            None => None,
        }
    }

    pub closed spec fn capture(&self) -> Option<Capture<S, W>> {
        self.active
    }

    /// A new, idle session.
    pub fn new() -> (r: Self)
        ensures
            r.phase() == Phase::Idle,
            r.path() is None,
    {
        CaptureSession { active: None }
    }

    pub fn is_recording(&self) -> (r: bool)
        ensures
            r == (self.phase() == Phase::Recording),
    {
        self.active.is_some()
    }

    /// Asks whether a start would be accepted now, before any device is
    /// acquired: `InvalidState` while recording. The session is not changed.
    pub fn check_start(&self) -> (r: Result<(), CaptureError>)
        ensures
            r is Ok <==> step(self.phase(), Command::Start).1,
            r is Err ==> r == Err::<(), CaptureError>(CaptureError::InvalidState),
    {
        if self.active.is_some() {
            Err(CaptureError::InvalidState)
        } else {
            Ok(())
        }
    }

    /// Enters `Recording` with a started stream, its sink and the output path.
    /// While recording already, fails with `InvalidState` and changes nothing.
    pub fn start_recording(&mut self, stream: S, sink: W, path: String) -> (r: Result<(), CaptureError>)
        ensures
            r is Ok <==> step(old(self).phase(), Command::Start).1,
            final(self).phase() == step(old(self).phase(), Command::Start).0,
            r is Ok ==> final(self).capture() == Some(Capture { stream, sink, path }),
            r is Ok ==> final(self).path() == Some(path@),
            r is Err ==> r == Err::<(), CaptureError>(CaptureError::InvalidState),
            r is Err ==> *final(self) == *old(self),
    {
        if self.active.is_some() {
            Err(CaptureError::InvalidState)
        } else {
            self.active = Some(Capture { stream, sink, path });
            Ok(())
        }
    }

    /// Leaves `Recording` and hands back what the recording owned. The caller
    /// halts the stream first and only then finalizes the sink, so no block
    /// can be written after finalization begins. While idle, fails with
    /// `InvalidState` and changes nothing.
    pub fn stop_recording(&mut self) -> (r: Result<Capture<S, W>, CaptureError>)
        ensures
            r is Ok <==> step(old(self).phase(), Command::Stop).1,
            final(self).phase() == step(old(self).phase(), Command::Stop).0,
            r is Ok ==> old(self).capture() == Some(r->Ok_0),
            r is Ok ==> final(self).path() is None,
            r is Err ==> r->Err_0 == CaptureError::InvalidState,
            r is Err ==> *final(self) == *old(self),
    {
        match self.active.take() {
            Some(c) => Ok(c),
            None => Err(CaptureError::InvalidState),
        }
    }
}

} // verus!
