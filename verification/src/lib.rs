//! Wait for a deliberate key press before a program exits.
//!
//! Terminal tools launched from a file manager lose their window the moment
//! they return; pausing until the user presses a key keeps their output
//! readable. The platform work itself (classifying the standard-input
//! handle, writing the prompt, discarding stale input, the blocking read)
//! is performed by a thin driver outside this crate; this crate holds the
//! decisions: which handle classes end the wait at once, which input
//! records count as a deliberate key press, and how the wait advances on
//! each outcome the platform reports.

pub mod event;
pub mod waiter;
