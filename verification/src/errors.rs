//! The failure kinds shared by every reader and by the prober.

use vstd::prelude::*;

verus! {

/// Why an operation of the demultiplexing core did not produce a value.
#[derive(Clone, Copy, Debug, PartialEq, Eq, Hash, Structural)]
pub enum Error {
    /// No registered format descriptor matched the source.
    FormatNotRecognized,
    /// The format is known, but the requested capability cannot be offered
    /// for this stream: seeking where no cue covers the target, reading
    /// before any stream is declared.
    Unsupported,
    /// Structurally invalid data: the expected sync pattern was not found,
    /// or a cue table is not in order.
    Malformed,
    /// The source is exhausted. This is the regular end of iteration.
    EndOfStream,
    /// The byte source itself failed.
    Io,
}

} // verus!
