//! The output sink: a write-capable destination for rendered lines, and the
//! terminal-mode probe.
//!
//! The sink holds a dynamically dispatched writer that Verus cannot look
//! into, so the type is opaque and its traffic is modelled by [`sink_chars`]:
//! the sequence of characters the sink has been handed so far.  Write and
//! flush errors are swallowed, as progress reporting is observational and
//! must never abort the caller.

use vstd::prelude::*;

verus! {

/// A destination accepting raw writes plus an explicit flush.  The writer
/// must be shareable across threads, since a bar's state — this sink
/// included — sits behind a lock that its handles share.
#[verifier::external_body]
pub struct ByteSink {
    inner: Box<dyn std::io::Write + Send + Sync>,
}

/// The characters handed to this sink so far, oldest first.
pub uninterp spec fn sink_chars(s: ByteSink) -> Seq<char>;

/// Relies on `std::io::Write::write_all`: it hands every byte of its
/// argument to the writer, in order.  A write error is swallowed.
#[verifier::external_body]
pub(crate) fn sink_write_str(s: &mut ByteSink, text: &str)
    ensures
        sink_chars(*final(s)) == sink_chars(*old(s)) + text@,
{
    let _ = s.inner.write_all(text.as_bytes());
}

/// Relies on `std::io::Write::flush`: it forwards buffered bytes and hands
/// the sink nothing new.  A flush error is swallowed.
#[verifier::external_body]
pub(crate) fn sink_flush(s: &mut ByteSink)
    ensures
        sink_chars(*final(s)) == sink_chars(*old(s)),
{
    let _ = s.inner.flush();
}

/// Relies on `std::io::stdout`: a handle to standard output.  This sink
/// value has been handed nothing yet.
#[verifier::external_body]
pub(crate) fn stdout_sink() -> (s: ByteSink)
    ensures
        sink_chars(s) == Seq::<char>::empty(),
{
    ByteSink { inner: Box::new(std::io::stdout()) }
}

/// Wraps a caller-supplied writer as a sink.  Relies on `Box::new` alone;
/// the fresh sink value has been handed nothing yet.
#[verifier::external_body]
pub fn sink_from_writer<W: std::io::Write + Send + Sync + 'static>(w: W) -> (s: ByteSink)
    ensures
        sink_chars(s) == Seq::<char>::empty(),
{
    ByteSink { inner: Box::new(w) }
}

/// Relies on `std::io::IsTerminal::is_terminal` on the standard output
/// handle.  Nothing can be promised of the answer.
#[verifier::external_body]
pub(crate) fn is_stdout_tty() -> bool {
    std::io::IsTerminal::is_terminal(&std::io::stdout())
}

} // verus!
