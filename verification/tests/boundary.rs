use wasm_context::add_numbers;
use wasm_context::context::WasmContext;
use wasm_context::decimal::u32_to_decimal;
use wasm_context::rust_hello;

#[test]
fn greeting_is_fixed() {
    assert_eq!(rust_hello(), "Hello World from Rust!");
    assert_eq!(rust_hello(), rust_hello());
}

#[test]
fn add_small() {
    assert_eq!(add_numbers(2, 3), 5);
}

#[test]
fn add_negative() {
    assert_eq!(add_numbers(-7, 2), -5);
    assert_eq!(add_numbers(-1, -1), -2);
}

#[test]
fn add_large_in_range() {
    assert_eq!(add_numbers(1_000_000_000, 1_000_000_000), 2_000_000_000);
    assert_eq!(add_numbers(i32::MAX, 0), i32::MAX);
    assert_eq!(add_numbers(i32::MIN, 0), i32::MIN);
}

#[test]
fn add_wraps_on_overflow() {
    assert_eq!(add_numbers(i32::MAX, 1), i32::MIN);
    assert_eq!(add_numbers(i32::MIN, -1), i32::MAX);
}

#[test]
fn fresh_context_reports_zero() {
    let c = WasmContext::new();
    assert_eq!(c.count(), 0);
    assert_eq!(c.get_status(), "메시지: WASM Context 초기화됨, 카운트: 0");
}

#[test]
fn three_increments_report_three() {
    let mut c = WasmContext::new();
    c.increment();
    c.increment();
    c.increment();
    assert_eq!(c.count(), 3);
    let status = c.get_status();
    assert!(status.contains("3"));
    assert_eq!(status, "메시지: WASM Context 초기화됨, 카운트: 3");
}

#[test]
fn increment_keeps_message() {
    let mut c = WasmContext::new();
    let before = c.get_status();
    c.increment();
    let after = c.get_status();
    assert!(before.contains("WASM Context 초기화됨"));
    assert!(after.contains("WASM Context 초기화됨"));
}

#[test]
fn many_increments_count_exactly() {
    let mut c = WasmContext::new();
    for _ in 0..12 {
        c.increment();
    }
    assert_eq!(c.count(), 12);
    assert_eq!(c.get_status(), "메시지: WASM Context 초기화됨, 카운트: 12");
}

#[test]
fn decimal_rendering() {
    assert_eq!(u32_to_decimal(0), "0");
    assert_eq!(u32_to_decimal(7), "7");
    assert_eq!(u32_to_decimal(10), "10");
    assert_eq!(u32_to_decimal(1_234_567_890), "1234567890");
    assert_eq!(u32_to_decimal(u32::MAX), "4294967295");
}
