//! Verified core of a log-following tool for batch-scheduler jobs.
//!
//! The library holds the logic of a monitoring session: locating the tail
//! window of a log file, deciding when a wait for the file or for new data
//! has timed out, keeping a resume marker, and parsing the scheduler
//! script's output directive.  All waiting, file access and clock reading
//! is done by the thin program around the library, which feeds plain
//! values (bytes, timestamps, flags) into the verified decision functions.

mod awaiter;
mod errors;
mod follow;
mod jobid;
mod marker;
mod pattern;
mod script;
mod session;
mod tail;
mod text;

pub use awaiter::Awaiter;
pub use errors::TailError;
pub use follow::FollowAction;
pub use follow::Follower;
pub use jobid::extract_job_id;
pub use marker::MarkerStore;
pub use pattern::format_log_output_string;
pub use pattern::logfile_string_to_path;
pub use pattern::path_is_absolute;
pub use script::extract_job_name;
pub use script::extract_log_output_pattern;
pub use tail::locate_start;
pub use tail::TAIL_LINES;
pub use text::trim_bytes;
pub use session::SessionConfig;
pub use session::session_config;
pub use session::DEFAULT_TIMEOUT_S;
