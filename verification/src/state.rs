//! The render state: the counters, message, finished flag and sink of one
//! progress bar, together with the transitions every handle operation
//! performs while it holds the bar's lock.
//!
//! Each transition is specified against [`BarView`], the mathematical model
//! of a bar: its scalar fields plus `out`, the characters handed to the sink
//! so far.  The laws of the lifecycle (idempotent finalization, clamped
//! accumulation, post-finalize tick rejection, cleanup-on-release) are proved
//! here over the same model.

use vstd::prelude::*;
use vstd::math::min;
use crate::render::{finalize_chars, line_chars, progress_frame, render_line};
use crate::sink::{sink_chars, sink_flush, sink_write_str, ByteSink};
use crate::text::push_char;

verus! {

/// Construction-time appearance options: the track width in cells and the
/// two glyphs the track is drawn with.  Immutable after the bar starts.
pub struct BarConfig {
    pub width: usize,
    pub fill: char,
    pub empty: char,
}

impl Default for BarConfig {
    /// A forty-cell track drawn with solid and light block glyphs.
    fn default() -> (c: Self)
        ensures
            c.width == 40,
            c.fill == '█',
            c.empty == '░',
    {
        BarConfig { width: 40, fill: '█', empty: '░' }
    }
}

/// The mathematical model of one progress bar: its counters, message,
/// lifecycle flag, appearance, mode, and the characters handed to its sink
/// so far.
pub struct BarView {
    pub current: u64,
    pub total: u64,
    pub message: Seq<char>,
    pub finished: bool,
    pub width: usize,
    pub fill: char,
    pub empty: char,
    pub is_tty: bool,
    pub out: Seq<char>,
}

impl BarView {
    /// The counters a bar maintains at all times: a positive total and a
    /// current value that never passes it.
    pub open spec fn wf(self) -> bool {
        1 <= self.total && self.current <= self.total
    }

    /// The in-progress line this state renders to.
    pub open spec fn line(self) -> Seq<char> {
        line_chars(self.current, self.total, self.width, self.fill, self.empty, self.message)
    }
}

/// `current + amount`, clamped to `total`; equals
/// `min(total, current.saturating_add(amount))` whenever `current <= total`.
pub open spec fn clamped_add(current: u64, amount: u64, total: u64) -> u64 {
    if current + amount > total {
        total
    } else {
        (current + amount) as u64
    }
}

/// One render: the framed in-progress line is handed to the sink.
pub open spec fn render_step(v: BarView) -> BarView {
    BarView { out: v.out + progress_frame(v.is_tty, v.line()), ..v }
}

/// One tick: a no-op once finished, otherwise the counter advances by
/// `amount` (clamped to the total) and the bar re-renders.
pub open spec fn tick_step(v: BarView, amount: u64) -> BarView {
    if v.finished {
        v
    } else {
        render_step(BarView { current: clamped_add(v.current, amount, v.total), ..v })
    }
}

/// One message update: the text is replaced and nothing is written.
pub open spec fn message_step(v: BarView, message: Seq<char>) -> BarView {
    BarView { message, ..v }
}

/// One finalization: a no-op once finished, otherwise the bar becomes
/// finished and the finalization line is handed to the sink.
pub open spec fn finalize_step(v: BarView, success: bool, message: Seq<char>) -> BarView {
    if v.finished {
        v
    } else {
        BarView {
            finished: true,
            out: v.out + finalize_chars(v.is_tty, success, message),
            ..v
        }
    }
}

/// Releasing the last reference: an unfinished bar is left with exactly one
/// trailing newline; a finished bar is left untouched.
pub open spec fn release_step(v: BarView) -> BarView {
    if v.finished {
        v
    } else {
        BarView { out: v.out + seq!['\n'], ..v }
    }
}

/// The mutable state behind one progress bar.
pub struct ProgressBarState {
    pub current: u64,
    pub total: u64,
    pub message: String,
    pub finished: bool,
    pub sink: ByteSink,
    pub config: BarConfig,
    pub is_tty: bool,
}

impl View for ProgressBarState {
    type V = BarView;

    open spec fn view(&self) -> BarView {
        BarView {
            current: self.current,
            total: self.total,
            message: self.message@,
            finished: self.finished,
            width: self.config.width,
            fill: self.config.fill,
            empty: self.config.empty,
            is_tty: self.is_tty,
            out: sink_chars(self.sink),
        }
    }
}

impl ProgressBarState {
    /// Writes the current line, framed for the resolved mode, and flushes.
    pub fn render(&mut self)
        requires
            old(self)@.wf(),
        ensures
            final(self)@ == render_step(old(self)@),
    {
        let line = render_line(
            self.current,
            self.total,
            self.config.width,
            self.config.fill,
            self.config.empty,
            self.message.as_str(),
        );
        let mut framed = if self.is_tty {
            let mut f = String::new();
            push_char(&mut f, '\r');
            f
        } else {
            String::new()
        };
        framed.append(line.as_str());
        if !self.is_tty {
            push_char(&mut framed, '\n');
        }
        proof {
            assert(framed@ =~= progress_frame(self.is_tty, old(self)@.line()));
        }
        sink_write_str(&mut self.sink, framed.as_str());
        sink_flush(&mut self.sink);
    }

    /// Advances the counter by `amount`, clamped to the total, and
    /// re-renders; a no-op once the bar is finished.
    pub fn tick(&mut self, amount: u64)
        requires
            old(self)@.wf(),
        ensures
            final(self)@ == tick_step(old(self)@, amount),
            final(self)@.wf(),
    {
        if self.finished {
            return ;
        }
        self.current = if amount > self.total - self.current {
            self.total
        } else {
            self.current + amount
        };
        self.render();
    }

    /// Replaces the message; it shows on the next render.
    pub fn set_message(&mut self, message: &str)
        ensures
            final(self)@ == message_step(old(self)@, message@),
    {
        self.message = message.to_owned();
    }

    /// Emits the finalization line and stops further updates; a no-op once
    /// the bar is finished.
    pub fn finalize(&mut self, success: bool, message: &str)
        ensures
            final(self)@ == finalize_step(old(self)@, success, message@),
    {
        if self.finished {
            return ;
        }
        self.finished = true;
        let symbol = if success {
            '✔'
        } else {
            '✖'
        };
        let mut framed = String::new();
        if self.is_tty {
            push_char(&mut framed, '\r');
            push_char(&mut framed, '\u{1b}');
            push_char(&mut framed, '[');
            push_char(&mut framed, '2');
            push_char(&mut framed, 'K');
            push_char(&mut framed, '\u{1b}');
            push_char(&mut framed, '[');
            push_char(&mut framed, '3');
            push_char(
                &mut framed,
                if success {
                    '2'
                } else {
                    '1'
                },
            );
            push_char(&mut framed, 'm');
            push_char(&mut framed, symbol);
            push_char(&mut framed, '\u{1b}');
            push_char(&mut framed, '[');
            push_char(&mut framed, '0');
            push_char(&mut framed, 'm');
            push_char(&mut framed, ' ');
        } else {
            push_char(&mut framed, symbol);
            push_char(&mut framed, ' ');
        }
        framed.append(message);
        push_char(&mut framed, '\n');
        proof {
            assert(framed@ =~= finalize_chars(self.is_tty, success, message@));
        }
        sink_write_str(&mut self.sink, framed.as_str());
        sink_flush(&mut self.sink);
    }

    /// The cleanup write for an unfinished bar whose last reference is
    /// going away: exactly one newline, so the cursor lands on a fresh
    /// line; nothing at all for a finished bar.
    pub fn cleanup(&mut self)
        ensures
            final(self)@ == release_step(old(self)@),
    {
        if !self.finished {
            let mut nl = String::new();
            push_char(&mut nl, '\n');
            proof {
                assert(nl@ =~= seq!['\n']);
            }
            sink_write_str(&mut self.sink, nl.as_str());
            sink_flush(&mut self.sink);
        }
    }
}

/// The state after a sequence of ticks, applied oldest first.
pub open spec fn run_ticks(v: BarView, amounts: Seq<u64>) -> BarView
    decreases amounts.len(),
{
    if amounts.len() == 0 {
        v
    } else {
        run_ticks(tick_step(v, amounts[0]), amounts.drop_first())
    }
}

/// The exact sum of a sequence of tick amounts.
pub open spec fn amount_sum(amounts: Seq<u64>) -> int
    decreases amounts.len(),
{
    if amounts.len() == 0 {
        0
    } else {
        amounts[0] + amount_sum(amounts.drop_first())
    }
}

/// The sum of a sequence of tick amounts under saturating addition.
pub open spec fn saturating_sum(amounts: Seq<u64>) -> u64 {
    if amount_sum(amounts) > u64::MAX {
        u64::MAX
    } else {
        amount_sum(amounts) as u64
    }
}

proof fn lemma_amount_sum_nonneg(amounts: Seq<u64>)
    ensures
        amount_sum(amounts) >= 0,
    decreases amounts.len(),
{
    if amounts.len() > 0 {
        lemma_amount_sum_nonneg(amounts.drop_first());
    }
}

proof fn lemma_run_ticks_unfinished(v: BarView, amounts: Seq<u64>)
    requires
        v.wf(),
        !v.finished,
    ensures
        run_ticks(v, amounts).current == min(v.total as int, v.current + amount_sum(amounts)),
        run_ticks(v, amounts).total == v.total,
        !run_ticks(v, amounts).finished,
    decreases amounts.len(),
{
    lemma_amount_sum_nonneg(amounts);
    if amounts.len() > 0 {
        let v1 = tick_step(v, amounts[0]);
        lemma_amount_sum_nonneg(amounts.drop_first());
        lemma_run_ticks_unfinished(v1, amounts.drop_first());
    }
}

/// Law: clamped accumulation.  Starting from zero, any sequence of tick
/// amounts leaves the counter at `min(total, saturating_sum(amounts))`.
pub proof fn lemma_clamped_accumulation(v: BarView, amounts: Seq<u64>)
    requires
        v.wf(),
        !v.finished,
        v.current == 0,
    ensures
        run_ticks(v, amounts).current == min(v.total as int, saturating_sum(amounts) as int),
{
    lemma_amount_sum_nonneg(amounts);
    lemma_run_ticks_unfinished(v, amounts);
}

proof fn lemma_amount_sum_remove(amounts: Seq<u64>, i: int)
    requires
        0 <= i < amounts.len(),
    ensures
        amount_sum(amounts.remove(i)) == amount_sum(amounts) - amounts[i],
    decreases amounts.len(),
{
    if i == 0 {
        assert(amounts.remove(0) =~= amounts.drop_first());
    } else {
        assert(amounts.remove(i).drop_first() =~= amounts.drop_first().remove(i - 1));
        lemma_amount_sum_remove(amounts.drop_first(), i - 1);
    }
}

proof fn lemma_amount_sum_multiset(a1: Seq<u64>, a2: Seq<u64>)
    requires
        a1.to_multiset() == a2.to_multiset(),
    ensures
        amount_sum(a1) == amount_sum(a2),
    decreases a1.len(),
{
    broadcast use vstd::seq_lib::group_to_multiset_ensures;

    if a1.len() == 0 {
        assert(a2.len() == a2.to_multiset().len());
    } else {
        let x = a1[0];
        assert(a1.contains(x));
        assert(a2.to_multiset().count(x) > 0);
        assert(a2.contains(x));
        let i = choose|i: int| 0 <= i < a2.len() && a2[i] == x;
        lemma_amount_sum_remove(a2, i);
        assert(a1.remove(0) =~= a1.drop_first());
        assert(a1.drop_first().to_multiset() =~= a1.to_multiset().remove(x));
        assert(a2.remove(i).to_multiset() =~= a2.to_multiset().remove(x));
        lemma_amount_sum_multiset(a1.drop_first(), a2.remove(i));
    }
}

/// Law: the final counter does not depend on the order the tick amounts
/// arrive in.  Two interleavings that apply the same multiset of amounts
/// leave the counter at the same value.
pub proof fn lemma_tick_order_irrelevant(v: BarView, a1: Seq<u64>, a2: Seq<u64>)
    requires
        v.wf(),
        !v.finished,
        a1.to_multiset() == a2.to_multiset(),
    ensures
        run_ticks(v, a1).current == run_ticks(v, a2).current,
{
    lemma_amount_sum_multiset(a1, a2);
    lemma_run_ticks_unfinished(v, a1);
    lemma_run_ticks_unfinished(v, a2);
}

/// Law: finalization is idempotent.  After a first finalization, a second
/// one — success or failure, any message, in any order — changes neither the
/// counters nor the emitted output.
pub proof fn lemma_finalize_idempotent(
    v: BarView,
    s1: bool,
    m1: Seq<char>,
    s2: bool,
    m2: Seq<char>,
)
    ensures
        finalize_step(finalize_step(v, s1, m1), s2, m2) == finalize_step(v, s1, m1),
{
}

/// Law: once finalized, a tick leaves both the counter and the emitted
/// output byte-for-byte unchanged.
pub proof fn lemma_finalized_rejects_tick(v: BarView, s: bool, m: Seq<char>, amount: u64)
    ensures
        v.finished ==> tick_step(v, amount) == v,
        tick_step(finalize_step(v, s, m), amount) == finalize_step(v, s, m),
{
}

/// Law: an unfinished bar's release appends exactly one newline and no
/// other character; a finished bar's release appends nothing.
pub proof fn lemma_release_output(v: BarView)
    ensures
        !v.finished ==> release_step(v).out == v.out + seq!['\n'],
        v.finished ==> release_step(v) == v,
        release_step(v).current == v.current,
        release_step(v).total == v.total,
{
}

} // verus!
