use std::cell::Cell;

use altdss::context::{BufferLocation, DSSContext, Registration};
use altdss::error::ErrorKind;

fn active() -> DSSContext {
    let loc = BufferLocation { count: 0x20, data: 0x28 };
    let reg = Registration { error_number: 0x10, float64: loc, int32: loc, int8: loc, text: loc };
    DSSContext::new(0x1234, reg).ok().unwrap()
}

fn disposed() -> DSSContext {
    let mut c = active();
    c.dispose().unwrap();
    c
}

const DATA: usize = 0x5000;

#[test]
fn complex_array_pairs_elements() {
    let c = active();
    let mut flag: i32 = 0;
    let buf = vec![1.0f64, 2.0, 3.0, -4.5];
    let v = c.GetComplexArrayGR(&mut flag, String::new(), 4, DATA, |n| &buf[..n]).unwrap();
    assert_eq!(v.len(), 2);
    assert_eq!((v[0].re, v[0].im), (1.0, 2.0));
    assert_eq!((v[1].re, v[1].im), (3.0, -4.5));
}

#[test]
fn complex_array_single_element_is_empty() {
    let c = active();
    let mut flag: i32 = 0;
    let buf = vec![0.0f64];
    let v = c.GetComplexArrayGR(&mut flag, String::new(), 1, DATA, |n| &buf[..n]).unwrap();
    assert_eq!(v.len(), 0);
}

#[test]
fn complex_array_empty_buffer() {
    let c = active();
    let mut flag: i32 = 0;
    let buf: Vec<f64> = vec![];
    let v = c.GetComplexArrayGR(&mut flag, String::new(), 0, 0, |n| &buf[..n]).unwrap();
    assert!(v.is_empty());
}

#[test]
fn complex_array_odd_count_is_refused() {
    let c = active();
    let mut flag: i32 = 0;
    let buf = vec![1.0f64, 2.0, 3.0];
    let e = c.GetComplexArrayGR(&mut flag, String::new(), 3, DATA, |n| &buf[..n]).unwrap_err();
    assert_eq!(e.kind, ErrorKind::Marshaling);
    assert_eq!(e.number, 0);
}

#[test]
fn complex_scalar_needs_two_elements() {
    let c = active();
    let mut flag: i32 = 0;
    let buf = vec![0.5f64, -1.25];
    let v = c.GetComplexSimpleGR(&mut flag, String::new(), 2, DATA, |n| &buf[..n]).unwrap();
    assert_eq!(v.re, 0.5);
    assert_eq!(v.im, -1.25);
    for bad in [vec![], vec![1.0f64], vec![1.0f64, 2.0, 3.0], vec![1.0f64, 2.0, 3.0, 4.0]] {
        let count = bad.len() as i32;
        let e = c.GetComplexSimpleGR(&mut flag, String::new(), count, DATA, |n| &bad[..n]).unwrap_err();
        assert_eq!(e.kind, ErrorKind::Marshaling);
    }
}

#[test]
fn plain_arrays_are_copied() {
    let c = active();
    let mut flag: i32 = 0;
    let f = vec![1.5f64, 2.5, 3.5];
    assert_eq!(c.GetFloat64ArrayGR(&mut flag, String::new(), 3, DATA, |n| &f[..n]).unwrap(), f);
    let i = vec![3i32, -1, 7];
    assert_eq!(c.GetInt32ArrayGR(&mut flag, String::new(), 2, DATA, |n| &i[..n]).unwrap(), vec![3, -1]);
    let b = vec![0i8, -128, 127];
    assert_eq!(c.GetInt8ArrayGR(&mut flag, String::new(), 3, DATA, |n| &b[..n]).unwrap(), b);
    assert!(c.GetInt32ArrayGR(&mut flag, String::new(), 0, 0, |n| &i[..n]).unwrap().is_empty());
}

#[test]
fn set_flag_is_reported_and_buffer_not_read() {
    let c = active();
    let read = Cell::new(false);
    let buf = vec![1i32, 2];
    let mut flag: i32 = 42;
    let e = c
        .GetInt32ArrayGR(&mut flag, "No active circuit.".to_string(), 2, DATA, |n| {
            read.set(true);
            &buf[..n]
        })
        .unwrap_err();
    assert_eq!(e.kind, ErrorKind::Engine);
    assert_eq!(e.number, 42);
    assert_eq!(e.message, "No active circuit.");
    assert_eq!(flag, 0);
    assert!(!read.get());
    let v = c.GetInt32ArrayGR(&mut flag, String::new(), 2, DATA, |n| &buf[..n]).unwrap();
    assert_eq!(v, buf);
}

#[test]
fn set_flag_is_reported_before_strings_are_read() {
    let c = active();
    let read = Cell::new(false);
    let mut flag: i32 = 7;
    let e = c
        .GetStringArray(&mut flag, "bad".to_string(), 1, DATA, |_| {
            read.set(true);
            vec![b"x".to_vec()]
        })
        .unwrap_err();
    assert_eq!((e.kind, e.number, e.message.as_str()), (ErrorKind::Engine, 7, "bad"));
    assert_eq!(flag, 0);
    assert!(!read.get());
}

#[test]
fn invalid_counts_are_refused_before_reading() {
    let c = active();
    let read = Cell::new(false);
    let mut flag: i32 = 0;
    let e = c
        .GetStringArray(&mut flag, String::new(), -1, DATA, |_| {
            read.set(true);
            vec![]
        })
        .unwrap_err();
    assert_eq!(e.kind, ErrorKind::Marshaling);
    let buf = vec![1.0f64];
    let e = c
        .GetFloat64ArrayGR(&mut flag, String::new(), 1, 0, |n| {
            read.set(true);
            &buf[..n]
        })
        .unwrap_err();
    assert_eq!(e.kind, ErrorKind::Marshaling);
    assert!(!read.get());
}

#[test]
fn disposed_handle_reads_nothing() {
    let c = disposed();
    let read = Cell::new(false);
    let buf = vec![1i8];
    let mut flag: i32 = 3;
    let e = c
        .GetInt8ArrayGR(&mut flag, String::new(), 1, DATA, |n| {
            read.set(true);
            &buf[..n]
        })
        .unwrap_err();
    assert_eq!(e.kind, ErrorKind::Lifecycle);
    assert_eq!(flag, 3);
    assert!(!read.get());
}

#[test]
fn checked_len_validates_counts() {
    assert_eq!(DSSContext::checked_len(4, 0x1000).unwrap(), 4);
    assert_eq!(DSSContext::checked_len(0, 0).unwrap(), 0);
    assert_eq!(DSSContext::checked_len(-1, 0x1000).unwrap_err().kind, ErrorKind::Marshaling);
    assert_eq!(DSSContext::checked_len(3, 0).unwrap_err().kind, ErrorKind::Marshaling);
    assert_eq!(DSSContext::checked_len(i32::MAX, 8).unwrap(), i32::MAX as usize);
}

#[test]
fn checked_read_checks_flag_then_count() {
    let c = active();
    let mut flag: i32 = 5;
    let e = c.checked_read(&mut flag, "oops".to_string(), -3, 0).unwrap_err();
    assert_eq!((e.kind, e.number), (ErrorKind::Engine, 5));
    assert_eq!(flag, 0);
    assert_eq!(c.checked_read(&mut flag, String::new(), -3, 0).unwrap_err().kind, ErrorKind::Marshaling);
    assert_eq!(c.checked_read(&mut flag, String::new(), 6, DATA).unwrap(), 6);
    let d = disposed();
    let mut flag: i32 = 5;
    assert_eq!(d.checked_read(&mut flag, String::new(), 6, DATA).unwrap_err().kind, ErrorKind::Lifecycle);
    assert_eq!(flag, 5);
}

#[test]
fn prepare_string_array_terminates_each_text() {
    let values = vec!["new circuit.test".to_string(), "".to_string(), "é".to_string()];
    let prepared = DSSContext::PrepareStringArray(&values).unwrap();
    assert_eq!(prepared.len(), 3);
    assert_eq!(prepared[0], b"new circuit.test\0".to_vec());
    assert_eq!(prepared[1], vec![0u8]);
    assert_eq!(prepared[2], vec![0xc3u8, 0xa9, 0]);
}

#[test]
fn prepare_string_array_refuses_interior_nul() {
    let values = vec!["ok".to_string(), "bad\0text".to_string()];
    let e = DSSContext::PrepareStringArray(&values).unwrap_err();
    assert_eq!(e.kind, ErrorKind::Marshaling);
}

#[test]
fn string_array_decodes_in_order() {
    let c = active();
    let mut flag: i32 = 0;
    let data = vec![b"line.l1".to_vec(), b"load.a".to_vec(), vec![]];
    let out = c.GetStringArray(&mut flag, String::new(), 3, DATA, |n| data[..n].to_vec()).unwrap();
    assert_eq!(out, vec!["line.l1".to_string(), "load.a".to_string(), String::new()]);
}

#[test]
fn string_array_replaces_invalid_utf8() {
    let c = active();
    let mut flag: i32 = 0;
    let out = c.GetStringArray(&mut flag, String::new(), 1, DATA, |_| vec![vec![b'a', 0xff, b'b']]).unwrap();
    assert_eq!(out, vec!["a\u{FFFD}b".to_string()]);
}

#[test]
fn text_array_round_trip() {
    let c = active();
    let mut flag: i32 = 0;
    let values = vec!["redirect master.dss".to_string(), "solve".to_string(), "ünïcode ✓".to_string(), String::new()];
    let prepared = DSSContext::PrepareStringArray(&values).unwrap();
    let read_back: Vec<Vec<u8>> = prepared
        .iter()
        .map(|b| b.iter().take_while(|x| **x != 0).cloned().collect())
        .collect();
    let count = read_back.len() as i32;
    let out = c.GetStringArray(&mut flag, String::new(), count, DATA, |n| read_back[..n].to_vec()).unwrap();
    assert_eq!(out, values);
}
