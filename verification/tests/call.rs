use zenoh_jni::call::{deliver, finish_call, finish_with_status};

#[test]
fn success_fills_out_and_returns_null() {
    let mut out: Option<i64> = None;
    assert_eq!(deliver(Ok::<i64, String>(42), &mut out), None);
    assert_eq!(out, Some(42));
}

#[test]
fn failure_leaves_out_unchanged() {
    let mut out: Option<i64> = Some(7);
    assert_eq!(deliver(Err::<i64, String>("bad".to_string()), &mut out), Some("bad".to_string()));
    assert_eq!(out, Some(7));
}

#[test]
fn finish_call_returns_the_message() {
    assert_eq!(finish_call(Ok::<(), String>(())), None);
    assert_eq!(finish_call(Err::<(), String>("e".to_string())), Some("e".to_string()));
}

#[test]
fn status_calls_answer_zero_or_minus_one() {
    let mut error_out = None;
    assert_eq!(finish_with_status(Ok(()), &mut error_out), 0);
    assert_eq!(error_out, None);
    assert_eq!(finish_with_status(Err("x".to_string()), &mut error_out), -1);
    assert_eq!(error_out, Some("x".to_string()));
}
