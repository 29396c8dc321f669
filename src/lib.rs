//! Foreground-activity monitoring: the decisions and data handling behind a
//! sampler that records which application owns the focused window.
//!
//! - [`ntdll`]: the process structures that the command line is read from,
//!   decoded from their byte layouts.
//! - [`resolver`]: the step-by-step reading of another process's command line.
//! - [`logger`]: run-length compaction of samples into timed log entries.
//! - [`mainframe`]: the power and session gated sampling trigger.
//! - [`timer`]: a periodic trigger that fires at once and then every period.
//! - [`wide`]: UTF-16 text as the operating system hands it over.

pub mod ntdll;
pub mod wide;
pub mod resolver;
pub mod logger;
pub mod mainframe;
pub mod timer;
