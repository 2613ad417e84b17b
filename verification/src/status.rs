//! How sandbox processes end, and how that end is reported.
//!
//! A process that is waited for ends in one of the ways of [`WaitOutcome`].
//! The status that the library hands back is an [`ExitStatus`]: the wait status
//! word of Linux, in which bits 0 to 6 hold the terminating signal (zero when
//! the process exited), bit 7 the core-dump flag, and bits 8 to 15 the exit
//! code.
use vstd::prelude::*;

verus! {

/// The exit code with which a sandbox process ends when its own setup fails,
/// or when the process it waits for ends in a way that has no exit code.
pub const EXIT_INTERNAL_FAILURE: i32 = 255;

/// How a waited-for process ended.
#[derive(Clone, Copy, Debug, PartialEq, Eq, Structural)]
pub enum WaitOutcome {
    /// The process exited with this exit code.
    Exited(u8),
    /// The process was killed by this signal, and dumped core or not.
    Signaled(u8, bool),
    /// Any other report (stopped, continued, ...): the process has not ended.
    Other,
}

/// A wait status word.
#[derive(Clone, Copy, Debug, PartialEq, Eq, Structural)]
pub struct ExitStatus {
    raw: i32,
}

impl View for ExitStatus {
    type V = i32;

    closed spec fn view(&self) -> i32 {
        self.raw
    }
}

/// The exit code that a status word holds, if the process exited.
pub open spec fn status_code(raw: i32) -> Option<i32> {
    if raw & 0x7f == 0 {
        Some((raw & 0xff00) >> 8)
    } else {
        None
    }
}

/// The signal that a status word holds, if the process was killed by one.
pub open spec fn status_signal(raw: i32) -> Option<i32> {
    if raw & 0x7f != 0 && raw & 0x7f != 0x7f {
        Some(raw & 0x7f)
    } else {
        None
    }
}

/// The status word of a process that ended as `outcome`; `None` while it has
/// not ended.
pub open spec fn outcome_status(outcome: WaitOutcome) -> Option<i32> {
    match outcome {
        WaitOutcome::Exited(code) => Some((code as i32) << 8),
        WaitOutcome::Signaled(signal, core_dumped) => Some(
            (signal as i32) | (if core_dumped { 0x80i32 } else { 0i32 }),
        ),
        WaitOutcome::Other => None,
    }
}

/// The number by which a status is reported as an exit code: the exit code
/// itself, or 128 plus the signal (127 standing for an unknown one).
pub open spec fn status_exit_code(raw: i32) -> int {
    match status_code(raw) {
        Some(code) => code as int,
        None => match status_signal(raw) {
            Some(signal) => 128 + signal,
            None => 255int,
        },
    }
}

/// The exit code of a process that waited for a process that ended as
/// `outcome`, following the shell: the exit code, or 128 plus the signal.
pub open spec fn outcome_exit_code(outcome: WaitOutcome) -> int {
    match outcome {
        WaitOutcome::Exited(code) => code as int,
        WaitOutcome::Signaled(signal, _) => 128 + signal,
        WaitOutcome::Other => EXIT_INTERNAL_FAILURE as int,
    }
}

/// The status word that reports a process that ended as `outcome`, with no
/// core-dump flag and with the internal failure code for `Other`.
pub open spec fn reported_status(outcome: WaitOutcome) -> i32 {
    match outcome {
        WaitOutcome::Exited(code) => ((code as i32) & 0xff) << 8,
        WaitOutcome::Signaled(signal, _) => signal as i32,
        WaitOutcome::Other => (EXIT_INTERNAL_FAILURE & 0xff) << 8,
    }
}

/// How a process that ends by calling `_exit(code)` is seen by its parent:
/// the kernel keeps the low eight bits of the code.
pub open spec fn exited_with(code: int) -> WaitOutcome {
    WaitOutcome::Exited((code % 256) as u8)
}

impl ExitStatus {
    /// The status with the given status word.
    pub fn from_raw(raw: i32) -> (status: ExitStatus)
        ensures
            status@ == raw,
    {
        ExitStatus { raw }
    }

    /// The status word.
    pub fn into_raw(self) -> (raw: i32)
        ensures
            raw == self@,
    {
        self.raw
    }

    /// The exit code, if the process exited.
    pub fn code(&self) -> (code: Option<i32>)
        ensures
            code == status_code(self@),
    {
        if self.raw & 0x7f == 0 {
            Some((self.raw & 0xff00) >> 8)
        } else {
            None
        }
    }

    /// The terminating signal, if the process was killed by one.
    pub fn signal(&self) -> (signal: Option<i32>)
        ensures
            signal == status_signal(self@),
    {
        let low = self.raw & 0x7f;
        if low != 0 && low != 0x7f {
            Some(low)
        } else {
            None
        }
    }

    /// Whether the process succeeded: the whole status word is zero, that
    /// is, it exited with exit code zero and nothing else is set.
    pub fn success(&self) -> (ok: bool)
        ensures
            ok == (self@ == 0),
    {
        self.raw == 0
    }
}

/// The status of a waited-for process, or `None` when the report does not say
/// that it ended and the caller has to wait again.
pub fn status_from_wait(outcome: WaitOutcome) -> (status: Option<ExitStatus>)
    ensures
        match status {
            Some(s) => outcome_status(outcome) == Some(s@),
            None => outcome_status(outcome) is None,
        },
{
    match outcome {
        WaitOutcome::Exited(code) => Some(ExitStatus::from_raw((code as i32) << 8)),
        WaitOutcome::Signaled(signal, core_dumped) => {
            let core_flag: i32 = if core_dumped {
                0x80
            } else {
                0
            };
            Some(ExitStatus::from_raw((signal as i32) | core_flag))
        },
        WaitOutcome::Other => None,
    }
}

/// The exit code by which a process reports the status of the process it
/// waited for: the exit code, or 128 plus the signal.
pub fn exit_code(status: ExitStatus) -> (code: i32)
    ensures
        code == status_exit_code(status@),
{
    match status.code() {
        Some(code) => code,
        None => {
            let signal = match status.signal() {
                Some(signal) => signal,
                None => 127,
            };
            let ghost raw = status@;
            assert(0 <= raw & 0x7f < 128) by (bit_vector);
            128 + signal
        },
    }
}

/// A process that exits with an exit code is reported with that exit code and
/// with no signal.
pub proof fn lemma_exited_status(code: u8)
    ensures
        status_code(((code as i32) << 8)) == Some(code as i32),
        status_signal(((code as i32) << 8)) is None,
        status_code(((code as i32) & 0xff) << 8) == Some(code as i32),
{
    assert(((code as i32) << 8) & 0x7f == 0) by (bit_vector);
    assert((((code as i32) << 8) & 0xff00) >> 8 == code as i32) by (bit_vector);
    assert(((code as i32) & 0xff) == code as i32) by (bit_vector);
}

/// A process that is killed by a signal (1 to 126) is reported with that signal
/// and with no exit code, whether or not it dumped core.
pub proof fn lemma_signaled_status(signal: u8, core_dumped: bool)
    requires
        1 <= signal <= 126,
    ensures
        outcome_status(WaitOutcome::Signaled(signal, core_dumped)) matches Some(raw) && status_signal(
            raw,
        ) == Some(signal as i32) && status_code(raw) is None,
        status_signal(signal as i32) == Some(signal as i32),
        status_code(signal as i32) is None,
{
    let s = signal as i32;
    assert(1 <= s <= 126 ==> (s | 0x80) & 0x7f == s) by (bit_vector);
    assert(1 <= s <= 126 ==> (s | 0) & 0x7f == s) by (bit_vector);
    assert(1 <= s <= 126 ==> s & 0x7f == s) by (bit_vector);
}

/// The status that the library reports for a process that has ended gives back
/// how it ended: the exit code of an exited process, 128 plus the signal of a
/// killed one (signals 1 to 126, the ones Linux reports).
pub proof fn lemma_wait_status_exit_code(outcome: WaitOutcome)
    requires
        !(outcome is Other),
        outcome matches WaitOutcome::Signaled(signal, _) ==> 1 <= signal <= 126,
    ensures
        outcome_status(outcome) matches Some(raw) && status_exit_code(raw) == outcome_exit_code(
            outcome,
        ),
{
    match outcome {
        WaitOutcome::Exited(code) => lemma_exited_status(code),
        WaitOutcome::Signaled(signal, core_dumped) => lemma_signaled_status(signal, core_dumped),
        WaitOutcome::Other => {},
    }
}

/// What the caller of a sandbox sees: the intermediate process ends with the
/// exit code of the init process (or 128 plus the signal that killed it), the
/// kernel keeps the low eight bits of it, and the sandbox reports that. So the
/// exit code of the command comes back unchanged, a command killed by signal
/// `n` comes back as exit code `128 + n`, and an init process that did not end
/// comes back as the internal failure code.
pub proof fn lemma_exit_code_reaches_caller(outcome: WaitOutcome)
    requires
        outcome matches WaitOutcome::Signaled(signal, _) ==> signal <= 127,
    ensures
        status_code(reported_status(exited_with(outcome_exit_code(outcome) as int))) == Some(
            outcome_exit_code(outcome) as i32,
        ),
        0 <= outcome_exit_code(outcome) <= 255,
{
    let code = outcome_exit_code(outcome);
    assert(0 <= code <= 255);
    assert(code % 256 == code);
    lemma_exited_status((code % 256) as u8);
}

/// The status that the sandbox reports for the intermediate process tells how
/// it ended: an exited process is reported with its exit code and no signal, a
/// process killed by a signal (1 to 126, dumped core or not) with that signal
/// and no exit code, and one that did not end with the internal failure code.
pub proof fn lemma_reported_status(outcome: WaitOutcome)
    requires
        outcome matches WaitOutcome::Signaled(signal, _) ==> 1 <= signal <= 126,
    ensures
        match outcome {
            WaitOutcome::Exited(code) => status_code(reported_status(outcome)) == Some(code as i32)
                && status_signal(reported_status(outcome)) is None,
            WaitOutcome::Signaled(signal, _) => status_signal(reported_status(outcome)) == Some(
                signal as i32,
            ) && status_code(reported_status(outcome)) is None,
            WaitOutcome::Other => status_code(reported_status(outcome)) == Some(
                EXIT_INTERNAL_FAILURE,
            ),
        },
{
    match outcome {
        WaitOutcome::Exited(code) => lemma_exited_status(code),
        WaitOutcome::Signaled(signal, core_dumped) => lemma_signaled_status(signal, core_dumped),
        WaitOutcome::Other => {
            lemma_exited_status(255);
            let code: i32 = EXIT_INTERNAL_FAILURE;
            assert(code == 255 ==> (code & 0xff) << 8 == (255u8 as i32) << 8) by (bit_vector);
        },
    }
}

} // verus!
