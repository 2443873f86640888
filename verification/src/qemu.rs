//! Exit protocol: the two exit signals and the fixed code each one writes to
//! the debug-exit port, together with the host-visible status each code
//! produces.
//!
//! The port write itself is hardware I/O and stays outside the verified
//! library; this module pins down the values.

use vstd::prelude::*;

verus! {

/// Signal requesting host-observed termination through the debug-exit port.
/// Exactly one signal ends a run; no further harness logic executes after it.
#[derive(Clone, Copy, PartialEq, Eq, Structural, Debug)]
pub enum QemuExitCode {
    Success,
    Failed,
}

impl QemuExitCode {
    /// The fixed 32-bit code written to the debug-exit port for this signal.
    pub open spec fn spec_code(self) -> u32 {
        match self {
            QemuExitCode::Success => 0x10,
            QemuExitCode::Failed => 0x11,
        }
    }

    /// The 32-bit value the exit protocol writes for this signal.
    pub fn code(self) -> (r: u32)
        ensures
            r == self.spec_code(),
    {
        match self {
            QemuExitCode::Success => 0x10,
            QemuExitCode::Failed => 0x11,
        }
    }

    /// Host-visible process status derived from the written code. The one
    /// authoritative mapping used throughout: the host reports
    /// `(code << 1) | 1`, that is `2 * code + 1`; `Success` (0x10) gives 33
    /// and `Failed` (0x11) gives 35.
    pub fn host_status(self) -> (r: u32)
        ensures
            r == 2 * self.spec_code() + 1,
            self is Success ==> r == 33,
            self is Failed ==> r == 35,
    {
        let c = self.code();
        2 * c + 1
    }
}

} // verus!
