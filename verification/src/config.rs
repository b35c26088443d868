//! The fixed configuration: where the companion process lives and how it is
//! launched, where its control endpoint listens, the shared credential, the
//! target input, the hotkey chord, and the poll intervals.

use vstd::prelude::*;

verus! {

/// The executable the supervisor launches; its absence is fatal at startup.
pub const COMPANION_PATH: &'static str = "C:\\Program Files\\obs-studio\\bin\\64bit\\obs64.exe";

/// The working directory the companion needs to find its runtime resources.
pub const COMPANION_DIR: &'static str = "C:\\Program Files\\obs-studio\\bin\\64bit";

/// The one argument passed at launch: disables the shutdown prompt.
pub const COMPANION_ARG: &'static str = "--disable-shutdown-check";

/// The control endpoint's host.
pub const CONTROL_HOST: &'static str = "localhost";

/// The control endpoint's port.
pub const CONTROL_PORT: u16 = 4455;

/// The shared credential for the control protocol's handshake.
pub const CONTROL_PASSWORD: &'static str = "D9IoZgkKlJOD9nFj";

/// The target input whose "window" property is kept up to date.
pub const TARGET_INPUT_NAME: &'static str = "Application Audio Capture (BETA)";

/// Virtual-key code of the Shift modifier.
pub const VK_SHIFT: i32 = 0x10;

/// Virtual-key code of the Control modifier.
pub const VK_CONTROL: i32 = 0x11;

/// Virtual-key code of the `;:` key completing the chord.
pub const VK_OEM_1: i32 = 0xBA;

/// How often the supervisor polls the companion's liveness, in milliseconds.
pub const LIVENESS_POLL_MS: u64 = 250;

/// How often the foreground dispatch context polls for shutdown, in
/// milliseconds.
pub const DISPATCH_POLL_MS: u64 = 50;

} // verus!
