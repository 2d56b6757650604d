use std::cell::Cell;

use unsync_lazy::UnsyncLazy;

#[test]
fn read_returns_produced_value() {
    let calls = Cell::new(0u32);
    let mut lazy = UnsyncLazy::from(|| {
        calls.set(calls.get() + 1);
        42
    });
    assert_eq!(*lazy.read(), 42);
    assert_eq!(calls.get(), 1);
}

#[test]
fn repeated_reads_share_one_address() {
    let calls = Cell::new(0u32);
    let mut lazy = UnsyncLazy::from(|| {
        calls.set(calls.get() + 1);
        42
    });
    let first = format!("{:p}", lazy.read());
    let second = format!("{:p}", lazy.read());
    let third = format!("{:p}", lazy.read());
    assert_eq!(first, second);
    assert_eq!(second, third);
    assert_eq!(*lazy.read(), 42);
    assert_eq!(calls.get(), 1);
}

#[test]
fn construction_does_not_run_producer() {
    let calls = Cell::new(0u32);
    let lazy = UnsyncLazy::from(|| {
        calls.set(calls.get() + 1);
        "hello"
    });
    assert_eq!(calls.get(), 0);
    assert!(lazy.debug_string().contains("<uninitialized>"));
    assert_eq!(calls.get(), 0);
}

#[test]
fn read_renders_value_after_access() {
    let calls = Cell::new(0u32);
    let mut lazy = UnsyncLazy::from(|| {
        calls.set(calls.get() + 1);
        "hello"
    });
    assert_eq!(*lazy.read(), "hello");
    assert_eq!(calls.get(), 1);
    assert_eq!(lazy.debug_string(), format!("{:?}", "hello"));
    assert_eq!(lazy.debug_string(), "\"hello\"");
    assert_eq!(calls.get(), 1);
}

#[test]
fn write_through_read_mut_is_read_back() {
    let calls = Cell::new(0u32);
    let mut lazy = UnsyncLazy::from(|| {
        calls.set(calls.get() + 1);
        vec![1, 2, 3]
    });
    lazy.read_mut().push(4);
    assert_eq!(*lazy.read(), vec![1, 2, 3, 4]);
    assert_eq!(calls.get(), 1);
}

#[test]
fn producer_never_runs_without_access() {
    let calls = Cell::new(0u32);
    {
        let lazy = UnsyncLazy::from(|| {
            calls.set(calls.get() + 1);
            7u8
        });
        let _ = lazy.debug_string();
    }
    assert_eq!(calls.get(), 0);
}

#[test]
fn producer_runs_once_over_mixed_accesses() {
    let calls = Cell::new(0u32);
    let mut lazy = UnsyncLazy::from(|| {
        calls.set(calls.get() + 1);
        10u64
    });
    for _ in 0..5 {
        let _ = lazy.read();
        *lazy.read_mut() += 1;
    }
    assert_eq!(*lazy.read(), 15);
    assert_eq!(calls.get(), 1);
}

#[test]
fn exclusive_then_shared_access_agree() {
    let mut lazy = UnsyncLazy::from(|| String::from("abc"));
    let seen = lazy.read_mut().clone();
    assert_eq!(seen, "abc");
    assert_eq!(*lazy.read(), seen);
}

#[test]
fn debug_of_integer_value() {
    let mut lazy = UnsyncLazy::from(|| 42i32);
    assert_eq!(lazy.debug_string(), "<uninitialized>");
    let _ = lazy.read();
    assert_eq!(lazy.debug_string(), "42");
}

#[test]
fn debug_after_write_shows_new_value() {
    let mut lazy = UnsyncLazy::from(|| vec![1u8]);
    lazy.read_mut().push(2);
    assert_eq!(lazy.debug_string(), "[1, 2]");
}
