use cw::{Error, LogGroupRef, TailArgs};

fn tail_args(group_and_stream_prefix: &str) -> TailArgs {
    TailArgs {
        group_and_stream_prefix: group_and_stream_prefix.to_string(),
        follow: false,
        filter: None,
        start_time: None,
        timestamp: false,
        event_id: false,
        stream_name: false,
        group_name: false,
        output: cw::args::OutputType::Text,
        local: false,
    }
}

#[test]
fn multi_token_reference_list() {
    let refs = LogGroupRef::parse("a:x, b ,, c:").unwrap();
    assert_eq!(refs.len(), 3);
    assert_eq!(refs[0].group_name, "a");
    assert_eq!(refs[0].stream_prefix.as_deref(), Some("x"));
    assert_eq!(refs[1].group_name, "b");
    assert_eq!(refs[1].stream_prefix, None);
    assert_eq!(refs[2].group_name, "c");
    assert_eq!(refs[2].stream_prefix, None);
}

#[test]
fn empty_reference_is_rejected() {
    match LogGroupRef::parse("") {
        Err(Error::InvalidSourceReference(_)) => {}
        other => panic!("expected InvalidSourceReference, got {:?}", other),
    }
}

#[test]
fn colon_only_reference_is_rejected() {
    match LogGroupRef::parse(":") {
        Err(Error::InvalidSourceReference(t)) => assert_eq!(t, ":"),
        other => panic!("expected InvalidSourceReference, got {:?}", other),
    }
}

#[test]
fn whitespace_only_reference_is_rejected() {
    assert!(matches!(
        LogGroupRef::parse("  ,  "),
        Err(Error::InvalidSourceReference(_))
    ));
}

#[test]
fn single_token_reference() {
    let refs = LogGroupRef::parse("grp:pre").unwrap();
    assert_eq!(refs.len(), 1);
    assert_eq!(refs[0].group_name, "grp");
    assert_eq!(refs[0].stream_prefix.as_deref(), Some("pre"));
}

#[test]
fn duplicates_are_preserved() {
    let refs = LogGroupRef::parse("a,a").unwrap();
    assert_eq!(refs.len(), 2);
    assert_eq!(refs[0], refs[1]);
}

#[test]
fn first_bad_token_is_reported() {
    match LogGroupRef::parse("good, :bad, another") {
        Err(Error::InvalidSourceReference(t)) => assert_eq!(t, ":bad"),
        other => panic!("expected InvalidSourceReference, got {:?}", other),
    }
}

#[test]
fn name_parts_are_trimmed() {
    let refs = LogGroupRef::parse(" a : x ").unwrap();
    assert_eq!(refs.len(), 1);
    assert_eq!(refs[0].group_name, "a");
    assert_eq!(refs[0].stream_prefix.as_deref(), Some("x"));
}

#[test]
fn new_trims_and_rejects_empty_name() {
    let r = LogGroupRef::new("  g  ", "   ").unwrap();
    assert_eq!(r.group_name, "g");
    assert_eq!(r.stream_prefix, None);

    match LogGroupRef::new("   ", "x") {
        Err(Error::InvalidSourceReference(t)) => assert_eq!(t, "   "),
        other => panic!("expected InvalidSourceReference, got {:?}", other),
    }
}

#[test]
fn group_and_stream_both_present() {
    let (g, s) = tail_args("a:x").parse_group_and_stream();
    assert_eq!(g.as_deref(), Some("a"));
    assert_eq!(s.as_deref(), Some("x"));
}

#[test]
fn group_and_stream_empty_input() {
    assert_eq!(tail_args("").parse_group_and_stream(), (None, None));
}

#[test]
fn group_and_stream_empty_group() {
    assert_eq!(tail_args(":x").parse_group_and_stream(), (None, None));
}

#[test]
fn group_and_stream_trailing_colon() {
    let (g, s) = tail_args("a:").parse_group_and_stream();
    assert_eq!(g.as_deref(), Some("a"));
    assert_eq!(s, None);
}
