//! The public API: a builder that configures and starts a bar, and a
//! cloneable, thread-safe handle that shares one render state behind a
//! verified lock.
//!
//! Every handle operation acquires the lock, performs its full
//! read-modify-write-render sequence against [`crate::state::ProgressBarState`],
//! and releases the lock, so operations from different threads are strictly
//! ordered.  The lock invariant carries the construction-time facts
//! ([`BarParams`]), which is how the fixed total, appearance and mode are
//! known to every operation for the bar's whole lifetime.

use vstd::prelude::*;
use vstd::rwlock::RwLock;
use crate::sink::{is_stdout_tty, stdout_sink, ByteSink};
use crate::state::{BarConfig, ProgressBarState};
use std::sync::Arc;

verus! {

/// The construction-time facts that stay fixed for a bar's lifetime.
pub struct BarParams {
    pub total: u64,
    pub width: usize,
    pub fill: char,
    pub empty: char,
    pub is_tty: bool,
}

/// The lock invariant of one bar: well-formed counters and the fixed
/// construction facts.
pub open spec fn bar_inv(p: BarParams) -> spec_fn(ProgressBarState) -> bool {
    |s: ProgressBarState|
        {
            &&& s@.wf()
            &&& s.total == p.total
            &&& s.config.width == p.width
            &&& s.config.fill == p.fill
            &&& s.config.empty == p.empty
            &&& s.is_tty == p.is_tty
        }
}

/// A total of zero is promoted to one at construction, so the ratio is
/// always defined.
pub open spec fn normalized_total(total: u64) -> u64 {
    if total == 0 {
        1
    } else {
        total
    }
}

/// Builder for configuring and starting a [`ProgressBar`].
///
/// Created via [`ProgressBar::new`].  Chain configuration methods and call
/// [`ProgressBarBuilder::start`] to begin rendering.
pub struct ProgressBarBuilder {
    pub total: u64,
    pub config: BarConfig,
    pub message: String,
    pub writer: Option<ByteSink>,
    pub tty_override: Option<bool>,
}

impl ProgressBarBuilder {
    /// Sets the width of the bar track in characters.  Default: 40.
    pub fn width(self, width: usize) -> (b: Self)
        ensures
            b == (ProgressBarBuilder { config: BarConfig { width, ..self.config }, ..self }),
    {
        ProgressBarBuilder { config: BarConfig { width, ..self.config }, ..self }
    }

    /// Sets the fill character for completed progress.  Default: `█`.
    pub fn fill(self, ch: char) -> (b: Self)
        ensures
            b == (ProgressBarBuilder { config: BarConfig { fill: ch, ..self.config }, ..self }),
    {
        ProgressBarBuilder { config: BarConfig { fill: ch, ..self.config }, ..self }
    }

    /// Sets the empty character for remaining progress.  Default: `░`.
    pub fn empty(self, ch: char) -> (b: Self)
        ensures
            b == (ProgressBarBuilder { config: BarConfig { empty: ch, ..self.config }, ..self }),
    {
        ProgressBarBuilder { config: BarConfig { empty: ch, ..self.config }, ..self }
    }

    /// Sets an initial message displayed after the count.
    pub fn message(self, msg: &str) -> (b: Self)
        ensures
            b.message@ == msg@,
            b.total == self.total,
            b.config == self.config,
            b.writer == self.writer,
            b.tty_override == self.tty_override,
    {
        ProgressBarBuilder { message: msg.to_owned(), ..self }
    }

    /// Directs output to a custom sink instead of standard output.  A
    /// custom sink defaults to non-terminal mode unless overridden with
    /// [`ProgressBarBuilder::tty`].
    pub fn writer(self, sink: ByteSink) -> (b: Self)
        ensures
            b == (ProgressBarBuilder { writer: Some(sink), ..self }),
    {
        ProgressBarBuilder { writer: Some(sink), ..self }
    }

    /// Forces the terminal-mode decision, overriding auto-detection and the
    /// custom-sink default.
    pub fn tty(self, is_tty: bool) -> (b: Self)
        ensures
            b == (ProgressBarBuilder { tty_override: Some(is_tty), ..self }),
    {
        ProgressBarBuilder { tty_override: Some(is_tty), ..self }
    }

    /// Builds and starts the progress bar: normalizes the total, resolves
    /// the sink and the terminal mode, renders the initial state, and
    /// returns the running handle.
    pub fn start(self) -> (bar: ProgressBar)
        ensures
            bar.wf(),
            bar.params().total == normalized_total(self.total),
            bar.params().width == self.config.width,
            bar.params().fill == self.config.fill,
            bar.params().empty == self.config.empty,
            self.tty_override matches Some(t) ==> bar.params().is_tty == t,
            self.tty_override is None && self.writer is Some ==> !bar.params().is_tty,
    {
        let ProgressBarBuilder { total, config, message, writer, tty_override } = self;
        let total = if total == 0 {
            1
        } else {
            total
        };
        let has_custom_writer = writer.is_some();
        let sink = match writer {
            Some(s) => s,
            None => stdout_sink(),
        };
        let is_tty = match tty_override {
            Some(t) => t,
            None => if has_custom_writer {
                false
            } else {
                is_stdout_tty()
            },
        };
        let ghost params = BarParams {
            total,
            width: config.width,
            fill: config.fill,
            empty: config.empty,
            is_tty,
        };
        let mut state = ProgressBarState {
            current: 0,
            total,
            message,
            finished: false,
            sink,
            config,
            is_tty,
        };
        state.render();
        let lock = RwLock::new(state, Ghost(bar_inv(params)));
        ProgressBar { state: Arc::new(lock), params: Ghost(params) }
    }
}

/// A thread-safe terminal progress bar handle.
///
/// Clone it to share one bar across threads; every clone drives the same
/// state.  When the work is over, call [`ProgressBar::success`] or
/// [`ProgressBar::fail`] once, and hand each clone to
/// [`ProgressBar::release`].  Verus does not model destructors, so the
/// cleanup that a drop hook would perform runs through that explicit
/// release instead: the last release of an unfinished bar writes one
/// trailing newline to leave the terminal on a fresh line.
#[derive(Clone)]
pub struct ProgressBar {
    state: Arc<RwLock<ProgressBarState, spec_fn(ProgressBarState) -> bool>>,
    params: Ghost<BarParams>,
}

/// Relies on `std::sync::Arc::into_inner`: the inner value comes back
/// exactly when this was the last reference to it.
#[verifier::external_body]
fn arc_into_inner(a: Arc<RwLock<ProgressBarState, spec_fn(ProgressBarState) -> bool>>) -> (r:
    Option<RwLock<ProgressBarState, spec_fn(ProgressBarState) -> bool>>)
    ensures
        r matches Some(l) ==> l == a,
{
    Arc::into_inner(a)
}

impl ProgressBar {
    /// The construction facts this handle was built with.
    pub closed spec fn params(&self) -> BarParams {
        self.params@
    }

    /// The handle's lock carries the invariant built from its own
    /// construction facts.
    pub closed spec fn wf(&self) -> bool {
        self.state.pred() == bar_inv(self.params@)
    }

    /// Creates a new builder with the given total.  A total of 0 is
    /// normalized to 1 to avoid division by zero.
    pub fn new(total: u64) -> (b: ProgressBarBuilder)
        ensures
            b.total == total,
            b.config.width == 40,
            b.config.fill == '█',
            b.config.empty == '░',
            b.message@ == Seq::<char>::empty(),
            b.writer is None,
            b.tty_override is None,
    {
        ProgressBarBuilder {
            total,
            config: Default::default(),
            message: String::new(),
            writer: None,
            tty_override: None,
        }
    }

    /// Increments progress by `amount`, clamped to the total, and
    /// re-renders the bar.  A no-op once the bar has been finalized.
    pub fn tick(&self, amount: u64)
        requires
            self.wf(),
    {
        let (mut s, handle) = self.state.acquire_write();
        s.tick(amount);
        handle.release_write(s);
    }

    /// Updates the displayed message.  Takes effect on the next render.
    pub fn set_message(&self, msg: &str)
        requires
            self.wf(),
    {
        let (mut s, handle) = self.state.acquire_write();
        s.set_message(msg);
        handle.release_write(s);
    }

    /// Finalizes with a green `✔` and the given message.  Stops further
    /// ticks.
    pub fn success(&self, msg: &str)
        requires
            self.wf(),
    {
        let (mut s, handle) = self.state.acquire_write();
        s.finalize(true, msg);
        handle.release_write(s);
    }

    /// Finalizes with a red `✖` and the given message.  Stops further
    /// ticks.
    pub fn fail(&self, msg: &str)
        requires
            self.wf(),
    {
        let (mut s, handle) = self.state.acquire_write();
        s.finalize(false, msg);
        handle.release_write(s);
    }

    /// The bar's total, as fixed at construction.
    pub fn total(&self) -> (t: u64)
        requires
            self.wf(),
        ensures
            t == self.params().total,
    {
        let (s, handle) = self.state.acquire_write();
        let t = s.total;
        handle.release_write(s);
        t
    }

    /// The bar's current counter value, never past the total.
    pub fn current(&self) -> (c: u64)
        requires
            self.wf(),
        ensures
            c <= self.params().total,
    {
        let (s, handle) = self.state.acquire_write();
        let c = s.current;
        handle.release_write(s);
        c
    }

    /// Releases this handle.  The last release of a bar that was never
    /// finalized performs the cleanup write: exactly one trailing newline.
    /// The last release of a finalized bar writes nothing.
    pub fn release(self)
        requires
            self.wf(),
    {
        match arc_into_inner(self.state) {
            Some(lock) => {
                let mut state = lock.into_inner();
                state.cleanup();
            },
            None => {},
        }
    }
}

} // verus!
