//! The command's wait status as the monitor reports it.
use vstd::prelude::*;

verus! {

/// Mask of the low bits of a wait status that hold the terminating signal.
pub const SIGNAL_MASK: i32 = 0x7f;

/// The low bits' value that marks a stopped (not terminated) child.
pub const STOPPED_MARK: i32 = 0x7f;

/// Number of bytes of a status on the notification channel.
pub const STATUS_WIDTH: usize = 4;

/// The signal that terminated a process with wait status `raw`, if any.
pub open spec fn termination_signal(raw: i32) -> Option<i32> {
    let low: i32 = raw & SIGNAL_MASK;
    if low != 0 && low != STOPPED_MARK {
        Some(low)
    } else {
        None
    }
}

/// The exit code of a process with wait status `raw`, if it exited normally.
pub open spec fn exit_code(raw: i32) -> Option<i32> {
    if raw & SIGNAL_MASK == 0 {
        Some((raw >> 8) & 0xff)
    } else {
        None
    }
}

/// A wait status in the encoding of `waitpid`: the low seven bits hold the
/// terminating signal (zero for a normal exit), the next byte the exit code.
#[derive(Clone, Copy, Debug, PartialEq, Eq, Structural)]
pub struct WaitStatus {
    pub raw: i32,
}

impl WaitStatus {
    pub fn from_raw(raw: i32) -> (r: WaitStatus)
        ensures
            r.raw == raw,
    {
        WaitStatus { raw }
    }

    /// Status of a process that exited normally with `code`.
    pub fn exited(code: u8) -> (r: WaitStatus)
        ensures
            exit_code(r.raw) == Some(code as i32),
            termination_signal(r.raw) == None::<i32>,
    {
        let raw: i32 = (code as i32) << 8;
        assert(raw & SIGNAL_MASK == 0 && ((raw >> 8) & 0xff) == code as i32) by (bit_vector)
            requires
                raw == (code as i32) << 8,
                0 <= code <= 255,
        ;
        WaitStatus { raw }
    }

    /// Status of a process terminated by `signal`.
    pub fn signaled(signal: i32) -> (r: WaitStatus)
        requires
            1 <= signal < STOPPED_MARK,
        ensures
            termination_signal(r.raw) == Some(signal),
            exit_code(r.raw) == None::<i32>,
    {
        assert(signal & SIGNAL_MASK == signal) by (bit_vector)
            requires
                1 <= signal < 0x7f,
        ;
        WaitStatus { raw: signal }
    }

    pub fn signal(&self) -> (r: Option<i32>)
        ensures
            r == termination_signal(self.raw),
    {
        let low: i32 = self.raw & SIGNAL_MASK;
        if low != 0 && low != STOPPED_MARK {
            Some(low)
        } else {
            None
        }
    }

    pub fn code(&self) -> (r: Option<i32>)
        ensures
            r == exit_code(self.raw),
    {
        if self.raw & SIGNAL_MASK == 0 {
            Some((self.raw >> 8) & 0xff)
        } else {
            None
        }
    }

    pub fn success(&self) -> (r: bool)
        ensures
            r == (exit_code(self.raw) == Some(0i32)),
    {
        self.raw & SIGNAL_MASK == 0 && (self.raw >> 8) & 0xff == 0
    }
}

} // verus!
