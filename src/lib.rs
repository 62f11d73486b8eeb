//! Supervision of a VPN client subprocess for a connectivity prober.
//!
//! The library holds the decisions: splitting the client's error stream into
//! lines, spotting the readiness marker, the spawn / retry state machine, the
//! relay that drains the stream after readiness, the once-only cleanup of the
//! child, the interpretation of the client's `sync` output and the bookkeeping
//! of timed downloads. Processes, pipes, threads and the network are driven by
//! the program around it.
pub mod lines;
pub mod marker;
pub mod supervisor;
pub mod relay;
pub mod cleanup;
pub mod sync;
pub mod probe;
pub mod command;

pub use lines::{LineBuffer, NEWLINE};
pub use marker::{contains_marker, marker_bytes};
pub use supervisor::{Action, Event, Phase, Supervisor, RETRY_BACKOFF_SECS};
pub use relay::{Relay, RelayAction};
pub use cleanup::Cleanup;
pub use sync::{
    choose_exit, exit_list_index, interpret_sync, interpret_sync_json, Json, SyncError, SyncInfo,
    SYNC_ELEMENTS,
};
pub use probe::{
    measure_time, random_wait_secs, GroupResult, GroupRun, Measurement, ProbeRecord,
};
pub use command::{
    connect_command, default_listen, sync_command, ClientCommand, ListenAddrs, CLIENT_PROGRAM,
};
