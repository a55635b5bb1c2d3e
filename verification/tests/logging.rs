use meerkly::logging::log_directive;

fn s(v: &str) -> Option<String> {
    Some(v.to_owned())
}

#[test]
fn the_environment_filter_wins_when_it_parses() {
    assert_eq!(log_directive(s("meerkly=debug"), s("warn")), "meerkly=debug");
}

#[test]
fn an_unparsable_environment_filter_falls_back_to_the_configured_one() {
    assert_eq!(log_directive(s("meerkly=loud"), s("warn")), "warn");
    assert_eq!(log_directive(None, s("trace")), "trace");
}

#[test]
fn with_nothing_usable_the_filter_is_info() {
    assert_eq!(log_directive(None, None), "info");
    assert_eq!(log_directive(s("x=nope"), s("y=nope")), "info");
}

#[test]
fn a_piece_starting_with_white_space_is_not_handed_to_the_parser() {
    assert_eq!(log_directive(s(" \u{e9}=info"), s("warn")), "warn");
    assert_eq!(log_directive(s("info, x\u{e9}=debug"), None), "info");
    assert_eq!(log_directive(s(" debug"), s(" trace")), "info");
    assert_eq!(log_directive(s("info,meerkly=debug"), None), "info,meerkly=debug");
}
