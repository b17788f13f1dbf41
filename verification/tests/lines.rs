//! Exact-format tests: byte-for-byte expected lines, truncation and
//! rounding at boundary ratios, clamped accumulation, and the release
//! protocol.

use nanoprogress::{sink_from_writer, ByteSink, ProgressBar};
use std::io;
use std::sync::{Arc, Mutex};

#[derive(Clone)]
struct CaptureWriter(Arc<Mutex<Vec<u8>>>);

impl CaptureWriter {
    fn new() -> Self {
        CaptureWriter(Arc::new(Mutex::new(Vec::new())))
    }

    fn output(&self) -> String {
        String::from_utf8_lossy(&self.0.lock().unwrap()).to_string()
    }
}

impl io::Write for CaptureWriter {
    fn write(&mut self, buf: &[u8]) -> io::Result<usize> {
        self.0.lock().unwrap().write(buf)
    }
    fn flush(&mut self) -> io::Result<()> {
        Ok(())
    }
}

fn capture() -> (CaptureWriter, ByteSink) {
    let cw = CaptureWriter::new();
    let sink = sink_from_writer(cw.clone());
    (cw, sink)
}

#[test]
fn test_exact_line_truncated_percent() {
    let (cw, w) = capture();
    let bar = ProgressBar::new(3).writer(w).width(3).fill('#').empty('-').start();
    bar.tick(1);
    // 1/3 of a 3-cell track rounds to 1 fill; the percent truncates to 33.
    assert_eq!(cw.output(), "[---]   0% 0/3\n[#--]  33% 1/3\n");
}

#[test]
fn test_exact_line_rounds_half_up() {
    let (cw, w) = capture();
    let bar = ProgressBar::new(2).writer(w).width(3).fill('#').empty('-').start();
    bar.tick(1);
    // 1/2 of a 3-cell track is 1.5 cells, which rounds up to 2.
    assert_eq!(cw.output(), "[---]   0% 0/2\n[##-]  50% 1/2\n");
}

#[test]
fn test_exact_line_full_bar() {
    let (cw, w) = capture();
    let bar = ProgressBar::new(10).writer(w).width(10).fill('#').empty('-').start();
    bar.tick(10);
    assert_eq!(
        cw.output(),
        "[----------]   0% 0/10\n[##########] 100% 10/10\n"
    );
}

#[test]
fn test_exact_line_with_message() {
    let (cw, w) = capture();
    let _bar = ProgressBar::new(5)
        .writer(w)
        .width(4)
        .fill('#')
        .empty('-')
        .message("work")
        .start();
    assert_eq!(cw.output(), "[----]   0% 0/5 work\n");
}

#[test]
fn test_zero_width_track() {
    let (cw, w) = capture();
    let _bar = ProgressBar::new(10).writer(w).width(0).start();
    assert_eq!(cw.output(), "[]   0% 0/10\n");
}

#[test]
fn test_tick_clamps_at_total() {
    let (cw, w) = capture();
    let bar = ProgressBar::new(10).writer(w).width(2).fill('#').empty('-').start();
    bar.tick(7);
    bar.tick(7);
    assert_eq!(bar.current(), 10);
    assert!(cw.output().contains("10/10"));
}

#[test]
fn test_tick_saturates_on_overflow() {
    let (cw, w) = capture();
    let bar = ProgressBar::new(10).writer(w).width(2).start();
    bar.tick(u64::MAX);
    bar.tick(u64::MAX);
    assert_eq!(bar.current(), 10);
    assert!(cw.output().contains("10/10"));
}

#[test]
fn test_set_message_alone_does_not_render() {
    let (cw, w) = capture();
    let bar = ProgressBar::new(10).writer(w).start();
    let before = cw.output();
    bar.set_message("quiet");
    assert_eq!(cw.output(), before, "set_message must not write by itself");
}

#[test]
fn test_tty_in_progress_has_no_newline() {
    let (cw, w) = capture();
    let bar = ProgressBar::new(10).writer(w).tty(true).start();
    bar.tick(3);
    assert!(!cw.output().contains('\n'));
}

#[test]
fn test_tty_finalize_exact_line() {
    let (cw, w) = capture();
    let bar = ProgressBar::new(4).writer(w).width(4).fill('#').empty('-').tty(true).start();
    bar.fail("bad");
    assert_eq!(cw.output(), "\r[----]   0% 0/4\r\x1b[2K\x1b[31m✖\x1b[0m bad\n");
}

#[test]
fn test_non_tty_finalize_exact_line() {
    let (cw, w) = capture();
    let bar = ProgressBar::new(4).writer(w).width(4).fill('#').empty('-').start();
    bar.success("ok");
    assert_eq!(cw.output(), "[----]   0% 0/4\n✔ ok\n");
}

#[test]
fn test_release_appends_exactly_one_newline() {
    let (cw, w) = capture();
    let bar = ProgressBar::new(10).writer(w).start();
    bar.tick(4);
    let before = cw.output();
    bar.release();
    let after = cw.output();
    assert_eq!(after, format!("{before}\n"));
}

#[test]
fn test_release_of_clone_keeps_bar_alive() {
    let (cw, w) = capture();
    let bar = ProgressBar::new(10).writer(w).start();
    let other = bar.clone();
    let before = cw.output();
    other.release();
    assert_eq!(cw.output(), before, "releasing a clone must write nothing");
    bar.tick(5);
    assert!(cw.output().contains("5/10"), "the remaining handle still works");
}

#[test]
fn test_finalized_tick_leaves_output_and_counter() {
    let (cw, w) = capture();
    let bar = ProgressBar::new(10).writer(w).start();
    bar.tick(3);
    bar.success("done");
    let before = cw.output();
    let counter_before = bar.current();
    bar.tick(5);
    assert_eq!(cw.output(), before);
    assert_eq!(bar.current(), counter_before);
}

#[test]
fn test_scenario_half_then_success() {
    let (cw, w) = capture();
    let bar = ProgressBar::new(10).writer(w).width(10).start();
    bar.tick(5);
    let out = cw.output();
    assert!(out.contains("█████░░░░░"), "five fill then five empty cells");
    assert!(out.contains("50%"));
    assert!(out.contains("5/10"));
    bar.success("done");
    let out = cw.output();
    let last = out.lines().last().unwrap();
    assert!(last.contains('✔') && last.contains("done") && !last.contains('✖'));
    bar.tick(1);
    assert_eq!(bar.current(), 5);
}

#[test]
fn test_shared_ticks_accumulate() {
    let (cw, w) = capture();
    let bar = ProgressBar::new(100).writer(w).start();
    let clones: Vec<ProgressBar> = vec![bar.clone(), bar.clone(), bar.clone(), bar.clone()];
    for c in &clones {
        c.tick(7);
    }
    assert_eq!(bar.current(), 28);
    for c in clones {
        c.release();
    }
    assert!(cw.output().contains("28/100"));
}
