//! The behavioral test suite: builder defaults, custom writers, terminal
//! and non-terminal framing, finalization, and release.

use nanoprogress::{sink_from_writer, ByteSink, ProgressBar};
use std::io;
use std::sync::{Arc, Mutex};

#[derive(Clone)]
struct TestWriter(Arc<Mutex<Vec<u8>>>);

impl TestWriter {
    fn new() -> Self {
        TestWriter(Arc::new(Mutex::new(Vec::new())))
    }

    fn output(&self) -> String {
        String::from_utf8_lossy(&self.0.lock().unwrap()).to_string()
    }
}

impl io::Write for TestWriter {
    fn write(&mut self, buf: &[u8]) -> io::Result<usize> {
        self.0.lock().unwrap().write(buf)
    }
    fn flush(&mut self) -> io::Result<()> {
        Ok(())
    }
}

fn make_writer() -> (TestWriter, ByteSink) {
    let tw = TestWriter::new();
    let sink = sink_from_writer(tw.clone());
    (tw, sink)
}

#[test]
fn test_builder_defaults() {
    let (tw, w) = make_writer();
    let _bar = ProgressBar::new(100).writer(w).start();
    let out = tw.output();
    // Default bar: 40 chars of empty char, 0%, 0/100
    assert!(
        out.contains("0% 0/100"),
        "expected default render, got: {out}"
    );
}

#[test]
fn test_custom_writer_receives_output() {
    let (tw, w) = make_writer();
    let bar = ProgressBar::new(10).writer(w).start();
    bar.tick(5);
    let out = tw.output();
    assert!(!out.is_empty(), "custom writer should receive output");
    assert!(out.contains("5/10"));
}

#[test]
fn test_start_produces_initial_render() {
    let (tw, w) = make_writer();
    let _bar = ProgressBar::new(50).writer(w).start();
    let out = tw.output();
    assert!(out.contains("0/50"), "start should render initial state");
}

#[test]
fn test_tty_mode_uses_cr() {
    let (tw, w) = make_writer();
    let _bar = ProgressBar::new(10).writer(w).tty(true).start();
    let out = tw.output();
    assert!(
        out.starts_with('\r'),
        "TTY mode should start with \\r, got: {out}"
    );
}

#[test]
fn test_non_tty_mode_uses_newlines_no_ansi() {
    let (tw, w) = make_writer();
    let bar = ProgressBar::new(10).writer(w).start(); // custom writer defaults non-TTY
    bar.tick(5);
    bar.success("done");
    let out = tw.output();
    assert!(!out.contains("\x1b["), "non-TTY should have no ANSI codes");
    assert!(out.contains('\n'), "non-TTY should use newlines");
}

#[test]
fn test_custom_writer_defaults_non_tty() {
    let (tw, w) = make_writer();
    let _bar = ProgressBar::new(10).writer(w).start();
    let out = tw.output();
    // Non-TTY: no \r prefix, uses newline
    assert!(
        !out.starts_with('\r'),
        "custom writer should default to non-TTY"
    );
}

#[test]
fn test_non_tty_finalization_omits_ansi() {
    let (tw, w) = make_writer();
    let bar = ProgressBar::new(10).writer(w).start();
    bar.success("all good");
    let out = tw.output();
    assert!(
        !out.contains("\x1b["),
        "non-TTY finalization should omit ANSI"
    );
    assert!(out.contains("✔"));
    assert!(out.contains("all good"));
}

#[test]
fn test_drop_without_finalization_writes_newline() {
    let (tw, w) = make_writer();
    {
        let bar = ProgressBar::new(10).writer(w).start();
        // released here without success/fail
        bar.release();
    }
    let out = tw.output();
    assert!(out.ends_with('\n'), "drop should write trailing newline");
}

#[test]
fn test_drop_after_finalization_no_extra_output() {
    let (tw, w) = make_writer();
    let out_before;
    {
        let bar = ProgressBar::new(10).writer(w).start();
        bar.success("done");
        out_before = tw.output();
        bar.release();
    }
    let out_after = tw.output();
    assert_eq!(
        out_before, out_after,
        "drop after finalization should add nothing"
    );
}

fn assert_send_sync<T: Send + Sync>() {}

#[test]
fn test_progress_bar_is_send_and_sync() {
    assert_send_sync::<ProgressBar>();
}

#[test]
fn test_fill_and_empty_builder_methods() {
    let (tw, w) = make_writer();
    let bar = ProgressBar::new(10).writer(w).fill('#').empty('-').start();
    bar.tick(5);
    let out = tw.output();
    assert!(out.contains('#'), "custom fill char should appear");
    assert!(out.contains('-'), "custom empty char should appear");
}

#[test]
fn test_set_message_updates_output() {
    let (tw, w) = make_writer();
    let bar = ProgressBar::new(10).writer(w).start();
    bar.set_message("hello");
    bar.tick(1);
    let out = tw.output();
    assert!(out.contains("hello"), "set_message should update displayed text");
}

#[test]
fn test_tty_finalize_success_has_ansi() {
    let (tw, w) = make_writer();
    let bar = ProgressBar::new(10).writer(w).tty(true).start();
    bar.success("completed");
    let out = tw.output();
    assert!(out.contains("\x1b[32m"), "TTY success should have green ANSI code");
    assert!(out.contains("✔"), "TTY success should have checkmark");
    assert!(out.contains("completed"));
}

#[test]
fn test_tty_finalize_fail_has_ansi() {
    let (tw, w) = make_writer();
    let bar = ProgressBar::new(10).writer(w).tty(true).start();
    bar.fail("broken");
    let out = tw.output();
    assert!(out.contains("\x1b[31m"), "TTY fail should have red ANSI code");
    assert!(out.contains("✖"), "TTY fail should have cross mark");
    assert!(out.contains("broken"));
}

#[test]
fn test_double_finalization_is_noop() {
    let (tw, w) = make_writer();
    let bar = ProgressBar::new(10).writer(w).tty(true).start();
    bar.success("first");
    let out_after_first = tw.output();
    bar.fail("second");
    let out_after_second = tw.output();
    assert_eq!(out_after_first, out_after_second, "double finalization should be a no-op");
}

#[test]
fn test_total_zero_normalized_to_one() {
    let (tw, w) = make_writer();
    let bar = ProgressBar::new(0).writer(w).start();
    let _ = tw;
    assert_eq!(bar.total(), 1, "total of 0 should be normalized to 1");
}
