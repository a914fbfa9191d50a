//! Capturing the visible terminal contents, behind a capability trait so
//! that callers do not depend on how a platform obtains it.

use vstd::prelude::*;

verus! {

/// Why no terminal contents could be captured.
#[derive(Clone, Copy, Debug, PartialEq, Eq, Structural)]
pub enum CaptureError {
    Unavailable,
}

/// The capability of reading back what the terminal currently shows.
pub trait TerminalCapture {
    fn capture_output(&self) -> Result<String, CaptureError>;
}

/// The capture used on this platform.  Reading the scrollback is not
/// wired up yet; it answers with a fixed placeholder text.
#[derive(Debug)]
pub struct UnixTerminalCapture;

impl TerminalCapture for UnixTerminalCapture {
    fn capture_output(&self) -> Result<String, CaptureError> {
        Ok(String::from_str("hello"))
    }
}

/// The capture that shells out to the platform's own console query.
/// Running another process is the caller's work, so this platform's
/// capture is not implemented here.
#[derive(Debug)]
pub struct WindowsTerminalCapture;

/// The capture instance for the platform this build runs on.
pub fn capture_instance() -> (r: UnixTerminalCapture) {
    UnixTerminalCapture
}

} // verus!
