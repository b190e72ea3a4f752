//! Launch decisions of a native bridge between a managed host and a
//! background server.
//!
//! The host hands over one text value, a cache directory. This library decides
//! what the bridge does with it: how the diagnostics sink is configured, which
//! line is written, which parameters the server is started with, and which
//! fault is raised when the text cannot be decoded or the server does not
//! start. Performing those actions (writing, launching the task, raising the
//! fault) is left to the caller.
//!
//! A caller configures the sink with `DiagnosticsConfig::standard`, decodes
//! the host's text, and follows the plan that `plan_entry` gives for the
//! outcome. The task that the plan launches calls the server's start
//! operation with the plan's parameters and ends as `conclude_task` says.

pub mod diagnostics;
pub mod parameters;
pub mod entry;
pub mod task;
pub mod laws;
