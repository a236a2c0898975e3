use zenoh_jni::key_expr::{autocanonize, concat_key_expr, includes, intersects, join, relation_to, try_from, key_expr_decoding_error};

fn s(v: &str) -> String {
    v.to_string()
}

#[test]
fn try_from_keeps_a_valid_key_expression() {
    assert_eq!(try_from(s("a/b/c")), Ok(s("a/b/c")));
    assert_eq!(try_from(s("demo/**")), Ok(s("demo/**")));
}

#[test]
fn try_from_refuses_an_empty_chunk() {
    let err = try_from(s("a//b")).unwrap_err();
    assert!(err.starts_with("Unable to create key expression: '"), "{err}");
    assert!(err.ends_with("'."), "{err}");
}

#[test]
fn try_from_refuses_a_non_canon_expression() {
    assert!(try_from(s("a/**/**")).is_err());
}

#[test]
fn autocanonize_canonizes() {
    assert_eq!(autocanonize(s("a/**/**")), Ok(s("a/**")));
    assert_eq!(autocanonize(s("a/**/*")), Ok(s("a/*/**")));
    assert_eq!(autocanonize(s("a/b")), Ok(s("a/b")));
}

#[test]
fn autocanonize_refuses_what_canonization_cannot_mend() {
    let err = autocanonize(s("a/b#")).unwrap_err();
    assert!(err.starts_with("Unable to create key expression: '"), "{err}");
    assert!(err.ends_with('\''), "{err}");
    assert!(!err.ends_with("'."), "{err}");
}

#[test]
fn what_autocanonize_gives_try_from_accepts() {
    let canon = autocanonize(s("x/**/**/y")).unwrap();
    assert_eq!(try_from(canon.clone()), Ok(canon));
}

#[test]
fn intersects_answers_one_or_zero() {
    assert_eq!(intersects(s("a/*"), s("a/b")), Ok(1));
    assert_eq!(intersects(s("a/*"), s("*/b")), Ok(1));
    assert_eq!(intersects(s("a/b"), s("c/d")), Ok(0));
    assert_eq!(intersects(s("a/**"), s("b/**")), Ok(0));
}

#[test]
fn includes_answers_one_or_zero() {
    assert_eq!(includes(s("a/**"), s("a/b/c")), Ok(1));
    assert_eq!(includes(s("a/b"), s("a/**")), Ok(0));
    assert_eq!(includes(s("a/*/**"), s("a/b/**")), Ok(1));
}

#[test]
fn every_key_expression_includes_itself() {
    for k in ["a", "a/b", "a/*", "a/**", "*/x/**"] {
        assert_eq!(includes(s(k), s(k)), Ok(1), "{k}");
        assert_eq!(relation_to(s(k), s(k)), Ok(3), "{k}");
    }
}

#[test]
fn relation_to_gives_the_ordinal_of_the_relation() {
    assert_eq!(relation_to(s("a/b"), s("a/c")), Ok(0));
    assert_eq!(relation_to(s("a/*/c"), s("a/b/*")), Ok(1));
    assert_eq!(relation_to(s("a/**"), s("a/b")), Ok(2));
    assert_eq!(relation_to(s("a/b"), s("a/**")), Ok(1));
    assert_eq!(relation_to(s("a/b"), s("a/b")), Ok(3));
}

#[test]
fn relation_to_agrees_with_intersects_and_includes() {
    let pairs = [("a/b", "a/c"), ("a/*/c", "a/b/*"), ("a/**", "a/b"), ("a/b", "a/**"), ("x", "x")];
    for (a, b) in pairs {
        let rel = relation_to(s(a), s(b)).unwrap();
        let int = intersects(s(a), s(b)).unwrap();
        let inc = includes(s(a), s(b)).unwrap();
        assert_eq!(rel >= 1, int == 1, "{a} {b}");
        assert_eq!(rel >= 2, inc == 1, "{a} {b}");
    }
}

#[test]
fn binary_operations_refuse_an_invalid_key_expression() {
    assert!(intersects(s("a//b"), s("a")).is_err());
    assert!(includes(s("a"), s("b/")).is_err());
    assert!(relation_to(s("a?"), s("a")).is_err());
}

#[test]
fn join_inserts_a_separator() {
    assert_eq!(join(s("a/b"), "c/d"), Ok(s("a/b/c/d")));
}

#[test]
fn join_canonizes_the_joined_path() {
    assert_eq!(join(s("a/**"), "**"), Ok(s("a/**")));
    assert_eq!(join(s("a/**"), "**"), autocanonize(s("a/**/**")));
}

#[test]
fn join_refuses_an_empty_chunk() {
    assert!(join(s("a"), "/b").is_err());
}

#[test]
fn concat_glues_without_separator() {
    assert_eq!(concat_key_expr(s("a/b"), "c"), Ok(s("a/bc")));
    assert_eq!(concat_key_expr(s("a/b"), "/c"), Ok(s("a/b/c")));
}

#[test]
fn concat_refuses_meeting_stars() {
    let err = concat_key_expr(s("a/*"), "*/b").unwrap_err();
    assert!(err.contains("Tried to concatenate"), "{err}");
}

#[test]
fn concat_does_not_canonize() {
    assert!(concat_key_expr(s("a/**"), "/**").is_err());
}

#[test]
fn decoding_failures_are_framed() {
    assert_eq!(key_expr_decoding_error("boom"), "Unable to get key expression string value: 'boom'.");
}

#[test]
fn autocanonize_refuses_what_the_canonizer_could_overrun() {
    assert_eq!(
        autocanonize(s("a$*$*")),
        Err(s("Unable to canonize key expression: 'a$*$*'"))
    );
    assert_eq!(
        autocanonize(s("a$*$*b")),
        Err(s("Unable to canonize key expression: 'a$*$*b'"))
    );
}

#[test]
fn autocanonize_collapses_repeated_dollar_stars() {
    assert_eq!(autocanonize(s("hello/foo$*$*/bar")), Ok(s("hello/foo$*/bar")));
}

#[test]
fn join_refuses_a_path_the_canonizer_could_overrun() {
    assert_eq!(
        join(s("a"), "c$*$*"),
        Err(s("Unable to canonize key expression: 'a/c$*$*'"))
    );
}

#[test]
fn intersection_is_symmetric() {
    assert_eq!(intersects(s("a/*"), s("a/b")), Ok(1));
    assert_eq!(intersects(s("a/b"), s("a/*")), Ok(1));
    assert_eq!(intersects(s("a/b"), s("a/c")), Ok(0));
    assert_eq!(intersects(s("a/c"), s("a/b")), Ok(0));
}

#[test]
fn autocanonize_strips_a_leading_run_of_dollar_stars() {
    assert_eq!(autocanonize(s("a/$*$*")), Ok(s("a/*")));
    assert_eq!(autocanonize(s("$*$*x")), Ok(s("$*x")));
}

#[test]
fn autocanonize_refuses_a_scan_that_jumps_into_the_last_chunk() {
    assert_eq!(
        autocanonize(s("a$*$*b/$*$*")),
        Err(s("Unable to canonize key expression: 'a$*$*b/$*$*'"))
    );
}
