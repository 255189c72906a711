//! The run-loop state: buttons, pausing, stepping, and snapshots.

use mos6502::computer::{Computer, Info};
use mos6502::hexfmt::to_hex_string;

fn boot(prog: &[u8]) -> Computer {
    let mut data = vec![0u8; 0x400];
    data.extend_from_slice(prog);
    Computer::new(data)
}

#[test]
fn button_slower_doubles_and_faster_halves() {
    let mut c = boot(&[]);
    assert_eq!(c.speed, 0);
    c.handle_button("slower");
    assert_eq!(c.speed, 2);
    c.handle_button("slower");
    assert_eq!(c.speed, 4);
    c.handle_button("slower");
    assert_eq!(c.speed, 8);
    c.handle_button("faster");
    assert_eq!(c.speed, 4);
    c.handle_button("faster");
    assert_eq!(c.speed, 2);
    c.handle_button("faster");
    assert_eq!(c.speed, 1);
    c.handle_button("faster");
    assert_eq!(c.speed, 0);
    c.handle_button("faster"); // at zero it stays
    assert_eq!(c.speed, 0);
}

#[test]
fn button_slower_stops_above_limit() {
    let mut c = boot(&[]);
    c.handle_button("slower");
    for _ in 0..13 {
        c.handle_button("slower");
    }
    assert_eq!(c.speed, 16384); // doubled past 10000 once
    c.handle_button("slower");
    assert_eq!(c.speed, 16384); // and never again
}

#[test]
fn button_pause_toggles() {
    let mut c = boot(&[]);
    assert!(c.paused);
    c.handle_button("pause");
    assert!(!c.paused);
    c.handle_button("pause");
    assert!(c.paused);
}

#[test]
fn button_unknown_does_nothing() {
    let mut c = boot(&[]);
    c.handle_button("reset");
    assert!(c.paused);
    assert_eq!(c.speed, 0);
    assert!(!c.step);
}

#[test]
fn advance_idles_while_paused() {
    let mut c = boot(&[0xA9, 0x42]);
    let ms = c.advance();
    assert_eq!(ms, 100);
    assert_eq!(c.processor.pc, 0x400); // nothing ran
}

#[test]
fn advance_runs_one_step_when_latched() {
    let mut c = boot(&[0xA9, 0x42, 0xA9, 0x43]);
    c.handle_button("step");
    let ms = c.advance();
    assert_eq!(ms, 0); // throttle is zero: no rest
    assert_eq!(c.processor.acc, 0x42);
    assert!(!c.step); // the latch is consumed
    assert_eq!(c.advance(), 100); // paused again
    assert_eq!(c.processor.acc, 0x42);
}

#[test]
fn advance_runs_freely_when_unpaused() {
    let mut c = boot(&[0xA9, 0x42, 0xA9, 0x43]);
    c.handle_button("pause");
    c.advance();
    c.advance();
    assert_eq!(c.processor.acc, 0x43);
    assert_eq!(c.processor.pc, 0x404);
}

#[test]
fn advance_returns_throttle_after_instruction() {
    let mut c = boot(&[0xA9, 0x42]);
    c.handle_button("slower");
    c.handle_button("pause");
    let ms = c.advance();
    assert_eq!(ms, 2);
}

#[test]
fn snapshot_hands_out_stack_output_and_test_window() {
    let mut data = vec![0u8; 0x10000];
    data[0x100] = 0x11;
    data[0x1FF] = 0x22;
    data[0xF000] = 0x33;
    data[0xF0FF] = 0x44;
    data[0x200] = 0x55;
    data[0x21F] = 0x66;
    let mut c = Computer::new(data);
    let (proc_copy, stack, output) = c.snapshot();
    assert_eq!(stack.len(), 256);
    assert_eq!(stack[0], 0x11);
    assert_eq!(stack[255], 0x22);
    assert_eq!(output.len(), 256);
    assert_eq!(output[0], 0x33);
    assert_eq!(output[255], 0x44);
    assert_eq!(proc_copy.test.len(), 32);
    assert_eq!(proc_copy.test[0], 0x55);
    assert_eq!(proc_copy.test[31], 0x66);
    assert_eq!(proc_copy.pc, 0x400);
    assert_eq!(proc_copy.flags, 0x30);
    assert!(!c.start); // the first snapshot clears the start marker
}

#[test]
fn snapshot_caps_trace_at_thirty() {
    let mut c = boot(&[]);
    for i in 0..40 {
        c.add_info(format!("entry {}", i));
    }
    let (proc_copy, _, _) = c.snapshot();
    assert_eq!(proc_copy.info.len(), 30);
    assert_eq!(proc_copy.info[0].msg, "entry 10");
    assert_eq!(proc_copy.info[29].msg, "entry 39");
}

#[test]
fn add_info_folds_repeats() {
    let mut c = boot(&[]);
    c.handle_button("pause"); // start running
    assert!(!c.paused);
    c.add_info(String::from("one"));
    c.add_info(String::from("two"));
    c.add_info(String::from("two"));
    c.add_info(String::from("two"));
    assert_eq!(c.processor.info.len(), 2);
    let last: &Info = &c.processor.info[1];
    assert_eq!(last.msg, "two");
    assert_eq!(last.qty, 3);
    // A folded repeat pauses the machine.
    assert!(c.paused);
}

#[test]
fn run_instruction_leaves_trace_alone() {
    let mut c = boot(&[0xA9, 0x42]);
    c.add_info(String::from("hello"));
    c.run_instruction();
    assert_eq!(c.processor.info.len(), 1);
    assert_eq!(c.processor.info[0].msg, "hello");
}

#[test]
fn hex_string_formats_bytes() {
    assert_eq!(to_hex_string(vec![0xAB, 0x01, 0xFF]), "AB 01 FF");
    assert_eq!(to_hex_string(vec![]), "");
    assert_eq!(to_hex_string(vec![0x0E]), "0E");
}
