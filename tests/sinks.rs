use std::cell::RefCell;

use wurm::{
    from_fn, CollectAll, Ignore, KeepFirst, KeepLast, OptionExt, ResultExt, Stderr, Warn,
    WarnExt,
};

#[derive(Debug, Clone, Eq, PartialEq)]
struct Low(u32);

#[derive(Debug, Clone, Eq, PartialEq)]
struct High(u64, &'static str);

impl From<Low> for High {
    fn from(e: Low) -> Self {
        High(e.0 as u64 * 10, "low")
    }
}

fn push_three<W: Warn<Low>>(warn: &mut W) {
    warn.warn(Low(1));
    warn.warn(Low(2));
    warn.warn(Low(3));
}

#[test]
fn keep_first_holds_first_of_three() {
    let mut sink = KeepFirst::default();
    assert_eq!(sink.0, None);
    push_three(&mut sink);
    assert_eq!(sink.0, Some(Low(1)));
}

#[test]
fn keep_last_holds_last_of_three() {
    let mut sink = KeepLast::default();
    assert_eq!(sink.0, None);
    push_three(&mut sink);
    assert_eq!(sink.0, Some(Low(3)));
}

#[test]
fn keep_first_keeps_value_held_before() {
    let mut sink = KeepFirst(Some(Low(9)));
    push_three(&mut sink);
    assert_eq!(sink.0, Some(Low(9)));
}

#[test]
fn collect_all_starts_empty_and_keeps_order() {
    let mut sink: CollectAll<Low> = CollectAll::default();
    assert!(sink.0.is_empty());
    push_three(&mut sink);
    push_three(&mut sink);
    assert_eq!(
        sink.0,
        vec![Low(1), Low(2), Low(3), Low(1), Low(2), Low(3)]
    );
}

#[test]
fn ignore_and_stderr_accept_everything() {
    let mut ignore = Ignore;
    push_three(&mut ignore);
    let mut stderr = Stderr;
    stderr.warn(std::fmt::Error);
}

#[test]
fn adapt_converts_through_from() {
    let mut sink: CollectAll<High> = CollectAll::default();
    sink.warn(High(0, "direct"));
    push_three(&mut sink.adapt());
    assert_eq!(
        sink.0,
        vec![
            High(0, "direct"),
            High(10, "low"),
            High(20, "low"),
            High(30, "low")
        ]
    );
}

#[test]
fn adapt_map_applies_function() {
    let mut sink: CollectAll<High> = CollectAll::default();
    push_three(&mut sink.adapt_map(|e: Low| High(e.0 as u64 + 100, "mapped")));
    assert_eq!(
        sink.0,
        vec![High(101, "mapped"), High(102, "mapped"), High(103, "mapped")]
    );
}

#[test]
fn adapters_nest() {
    let mut sink: KeepLast<High> = KeepLast::default();
    {
        let mut outer = sink.adapt_map(|e: High| High(e.0 + 1, e.1));
        push_three(&mut outer.adapt());
    }
    assert_eq!(sink.0, Some(High(31, "low")));
}

#[test]
fn from_fn_hands_each_diagnostic_over() {
    let seen = RefCell::new(Vec::new());
    let mut sink = from_fn(|e: Low| seen.borrow_mut().push(e.0));
    push_three(&mut sink);
    sink.warn(Low(7));
    assert_eq!(*seen.borrow(), vec![1, 2, 3, 7]);
}

#[test]
fn or_warn_with_on_present_value_pushes_nothing() {
    let mut sink: CollectAll<Low> = CollectAll::default();
    assert_eq!(Some("kept").or_warn_with(Low(5), &mut sink), Some("kept"));
    assert!(sink.0.is_empty());
    assert_eq!(None::<u8>.or_warn_with(Low(5), &mut sink), None);
    assert_eq!(sink.0, vec![Low(5)]);
}

#[test]
fn or_warn_converts_the_error() {
    let mut sink: CollectAll<High> = CollectAll::default();
    let ok: Result<u8, Low> = Ok(4);
    assert_eq!(ok.or_warn(&mut sink), Some(4));
    assert!(sink.0.is_empty());
    let err: Result<u8, Low> = Err(Low(6));
    assert_eq!(err.or_warn(&mut sink), None);
    assert_eq!(sink.0, vec![High(60, "low")]);
}

#[test]
fn or_warn_map_applies_function_to_error() {
    let mut sink: KeepLast<High> = KeepLast::default();
    let ok: Result<&str, Low> = Ok("fine");
    assert_eq!(ok.or_warn_map(|e| High(e.0 as u64, "m"), &mut sink), Some("fine"));
    assert_eq!(sink.0, None);
    let err: Result<&str, Low> = Err(Low(8));
    assert_eq!(err.or_warn_map(|e| High(e.0 as u64 * 2, "m"), &mut sink), None);
    assert_eq!(sink.0, Some(High(16, "m")));
}
