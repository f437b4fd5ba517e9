use grammers_dialogs::update::{Args, ArgsError, ArgsErrorKind, Argument, Lit, UpdateType};

fn named(name: &str, lit: Lit) -> Argument {
    Argument::NameValue { name: Some(name.to_string()), lit }
}

fn text(s: &str) -> Lit {
    Lit::Str(s.to_string())
}

#[test]
fn update_types_have_their_names() {
    assert_eq!(UpdateType::Message.as_str(), "Message");
    assert_eq!(UpdateType::CallbackQuery.as_str(), "Callback_Query");
    assert_eq!(UpdateType::InlineQuery.as_str(), "Inline_Query");
}

#[test]
fn a_bare_string_is_the_pattern() {
    assert_eq!(
        Args::new(vec![Argument::Lit(text("^/start"))]),
        Ok(Args { pattern: "^/start".to_string(), is_regex: false, is_command: false })
    );
}

#[test]
fn a_named_pattern_is_the_pattern() {
    assert_eq!(
        Args::new(vec![named("pattern", text("hello"))]),
        Ok(Args { pattern: "hello".to_string(), is_regex: false, is_command: false })
    );
}

#[test]
fn switches_are_read_in_any_place() {
    assert_eq!(
        Args::new(vec![
            named("is_command", Lit::Bool(true)),
            Argument::Lit(text("start")),
            named("is_regex", Lit::Bool(true)),
        ]),
        Ok(Args { pattern: "start".to_string(), is_regex: true, is_command: true })
    );
    assert_eq!(
        Args::new(vec![named("is_regex", Lit::Bool(false)), named("pattern", text("x"))]),
        Ok(Args { pattern: "x".to_string(), is_regex: false, is_command: false })
    );
}

#[test]
fn a_later_switch_overrides_an_earlier_one() {
    assert_eq!(
        Args::new(vec![
            Argument::Lit(text("x")),
            named("is_regex", Lit::Bool(true)),
            named("is_regex", Lit::Bool(false)),
            named("is_command", Lit::Bool(false)),
            named("is_command", Lit::Bool(true)),
        ]),
        Ok(Args { pattern: "x".to_string(), is_regex: false, is_command: true })
    );
}

#[test]
fn a_second_pattern_is_refused() {
    assert_eq!(
        Args::new(vec![Argument::Lit(text("a")), Argument::Lit(text("b"))]),
        Err(ArgsError { kind: ArgsErrorKind::MultiplePatterns, index: Some(1) })
    );
    assert_eq!(
        Args::new(vec![Argument::Lit(text("a")), named("pattern", text("b"))]),
        Err(ArgsError { kind: ArgsErrorKind::MultiplePatterns, index: Some(1) })
    );
    assert_eq!(
        Args::new(vec![
            named("pattern", text("a")),
            named("is_regex", Lit::Bool(true)),
            Argument::Lit(text("b")),
        ]),
        Err(ArgsError { kind: ArgsErrorKind::MultiplePatterns, index: Some(2) })
    );
}

#[test]
fn a_pattern_must_be_a_string() {
    assert_eq!(
        Args::new(vec![named("pattern", Lit::Bool(true))]),
        Err(ArgsError { kind: ArgsErrorKind::PatternExpectsStr, index: Some(0) })
    );
    assert_eq!(
        Args::new(vec![Argument::Lit(text("a")), named("pattern", Lit::Other)]),
        Err(ArgsError { kind: ArgsErrorKind::PatternExpectsStr, index: Some(1) })
    );
}

#[test]
fn a_switch_must_be_a_boolean() {
    assert_eq!(
        Args::new(vec![Argument::Lit(text("a")), named("is_regex", text("yes"))]),
        Err(ArgsError { kind: ArgsErrorKind::IsRegexExpectsBool, index: Some(1) })
    );
    assert_eq!(
        Args::new(vec![named("is_command", Lit::Other), Argument::Lit(text("a"))]),
        Err(ArgsError { kind: ArgsErrorKind::IsCommandExpectsBool, index: Some(0) })
    );
}

#[test]
fn anything_else_is_unknown() {
    assert_eq!(
        Args::new(vec![Argument::Lit(text("a")), Argument::Other]),
        Err(ArgsError { kind: ArgsErrorKind::UnknownAttribute, index: Some(1) })
    );
    assert_eq!(
        Args::new(vec![Argument::Lit(Lit::Bool(true))]),
        Err(ArgsError { kind: ArgsErrorKind::UnknownAttribute, index: Some(0) })
    );
    assert_eq!(
        Args::new(vec![Argument::Lit(Lit::Other)]),
        Err(ArgsError { kind: ArgsErrorKind::UnknownAttribute, index: Some(0) })
    );
}

#[test]
fn the_first_fault_is_the_one_reported() {
    assert_eq!(
        Args::new(vec![
            named("is_regex", Lit::Other),
            Argument::Other,
            named("pattern", Lit::Other),
        ]),
        Err(ArgsError { kind: ArgsErrorKind::IsRegexExpectsBool, index: Some(0) })
    );
}

#[test]
fn a_pattern_is_expected() {
    assert_eq!(
        Args::new(Vec::new()),
        Err(ArgsError { kind: ArgsErrorKind::PatternExpected, index: None })
    );
    assert_eq!(
        Args::new(vec![named("is_regex", Lit::Bool(true))]),
        Err(ArgsError { kind: ArgsErrorKind::PatternExpected, index: None })
    );
}

#[test]
fn other_names_are_let_through() {
    assert_eq!(
        Args::new(vec![
            named("priority", Lit::Other),
            Argument::NameValue { name: None, lit: Lit::Bool(true) },
            named("Pattern", Lit::Bool(true)),
            Argument::Lit(text("a")),
        ]),
        Ok(Args { pattern: "a".to_string(), is_regex: false, is_command: false })
    );
}

#[test]
fn each_error_has_its_message() {
    assert_eq!(
        ArgsErrorKind::MultiplePatterns.message(),
        "multiple patterns specified, expected one."
    );
    assert_eq!(ArgsErrorKind::PatternExpectsStr.message(), "attribute pattern expects &str.");
    assert_eq!(ArgsErrorKind::IsRegexExpectsBool.message(), "attribute is_regex expects bool.");
    assert_eq!(
        ArgsErrorKind::IsCommandExpectsBool.message(),
        "attribute is_command expects bool."
    );
    assert_eq!(ArgsErrorKind::UnknownAttribute.message(), "unknown attribute.");
    assert_eq!(ArgsErrorKind::PatternExpected.message(), "attribute pattern expected.");
}
