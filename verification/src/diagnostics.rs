//! Configuration of the process-wide diagnostics sink.
use vstd::prelude::*;

verus! {

/// Severity of a diagnostic line, most severe first.
#[derive(Clone, Copy, Debug, PartialEq, Eq, Structural)]
pub enum Severity {
    Error,
    Warn,
    Info,
    Debug,
    Trace,
}

/// What the sink is configured with: the tag under which the host's log viewer
/// finds the lines, and the least severe level that is still written.
#[derive(Clone, Debug, PartialEq, Eq)]
pub struct DiagnosticsConfig {
    pub tag: String,
    pub min_severity: Severity,
}

/// The tag of every line that the bridge writes.
pub open spec fn sink_tag() -> Seq<char> {
    "RustServer"@
}

impl DiagnosticsConfig {
    /// The one configuration that the bridge uses: informational lines and
    /// above, under the tag `RustServer`.
    pub fn standard() -> (config: DiagnosticsConfig)
        ensures
            config.tag@ == sink_tag(),
            config.min_severity == Severity::Info,
    {
        DiagnosticsConfig { tag: String::from_str("RustServer"), min_severity: Severity::Info }
    }
}

} // verus!
