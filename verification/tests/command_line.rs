use persona_system::{
    CommandLine, CommandLineArgument, Error, FocusCommand, Input, InputSource, ObserveFocus,
    SubscribeFocus, SystemTarget,
};

fn argument(text: &str) -> CommandLineArgument {
    CommandLineArgument {
        encoded: text.as_bytes().to_vec(),
        text: Some(text.to_string()),
        lossy: text.to_string(),
        debug: format!("{text:?}"),
    }
}

fn invalid_inline_argument() -> CommandLineArgument {
    CommandLineArgument {
        encoded: vec![b'(', 0xff],
        text: None,
        lossy: "(\u{fffd}".to_string(),
        debug: "\"(\\xFF\"".to_string(),
    }
}

#[test]
fn input_runs_as_focus_command() {
    let target = SystemTarget::niri_window(198);
    assert_eq!(
        Input::ObserveFocus(ObserveFocus { target }).run(),
        FocusCommand::Observe { target }
    );
    assert_eq!(
        Input::SubscribeFocus(SubscribeFocus { target }).run(),
        FocusCommand::Subscribe { target }
    );
    assert_eq!(Input::SubscribeFocus(SubscribeFocus { target }).target(), target);
}

#[test]
fn missing_input_is_typed() {
    let command_line = CommandLine::from_arguments(Vec::new());
    assert_eq!(command_line.decode_input(), Err(Error::MissingInput));
}

#[test]
fn second_argument_is_refused() {
    let command_line = CommandLine::from_arguments(vec![
        argument("(ObserveFocus (NiriWindow 198))"),
        argument("extra"),
    ]);
    assert_eq!(
        command_line.decode_input(),
        Err(Error::UnexpectedArgument { got: "extra".to_string() })
    );
}

#[test]
fn inline_record_is_the_input_text() {
    let command_line = CommandLine::from_arguments(vec![argument("(ObserveFocus (NiriWindow 198))")]);
    assert_eq!(
        command_line.decode_input(),
        Ok(InputSource::Inline("(ObserveFocus (NiriWindow 198))".to_string()))
    );
}

#[test]
fn inline_record_must_be_unicode() {
    let command_line = CommandLine::from_arguments(vec![invalid_inline_argument()]);
    assert_eq!(
        command_line.decode_input(),
        Err(Error::InvalidInlineNotaArgument { got: "\"(\\xFF\"".to_string() })
    );
}

#[test]
fn other_argument_names_the_input_file() {
    let command_line = CommandLine::from_arguments(vec![argument("/tmp/command.nota")]);
    assert_eq!(
        command_line.decode_input(),
        Ok(InputSource::File(b"/tmp/command.nota".to_vec()))
    );
    assert!(!argument("").starts_inline_record());
    assert!(argument("(").starts_inline_record());
}

fn observe(id: u64) -> Input {
    Input::ObserveFocus(ObserveFocus { target: SystemTarget::niri_window(id) })
}

fn subscribe(id: u64) -> Input {
    Input::SubscribeFocus(SubscribeFocus { target: SystemTarget::niri_window(id) })
}

#[test]
fn nota_commands_decode() {
    assert_eq!(Input::from_nota("(ObserveFocus (NiriWindow 198))"), Ok(observe(198)));
    assert_eq!(Input::from_nota("(SubscribeFocus (NiriWindow 198))"), Ok(subscribe(198)));
    assert_eq!(Input::from_nota("(FocusSubscription (NiriWindow 198))"), Ok(subscribe(198)));
    assert_eq!(
        Input::from_nota("  ( ObserveFocus\n(NiriWindow\t007 ) )\n"),
        Ok(observe(7))
    );
    assert_eq!(
        Input::from_nota("(ObserveFocus (NiriWindow 18446744073709551615))"),
        Ok(observe(u64::MAX))
    );
}

#[test]
fn malformed_nota_commands_are_refused() {
    for text in [
        "",
        "ObserveFocus",
        "(ObserveFocus (NiriWindow x))",
        "(ObserveFocus (NiriWindow 18446744073709551616))",
        "(ObserveFocus (NiriWindow -1))",
        "(Other (NiriWindow 1))",
        "(ObserveFocus (NiriWindow 1)) extra",
        "(ObserveFocus (Window 1))",
        "(ObserveFocus (NiriWindow 1)",
        "(ObserveFocus NiriWindow 1)",
    ] {
        let error = Input::from_nota(text).expect_err(text);
        assert_eq!(
            error.message(),
            "nota error: expected (ObserveFocus (NiriWindow <id>)) or (SubscribeFocus (NiriWindow <id>))"
        );
    }
}

#[test]
fn nota_text_reads_back() {
    for input in [observe(0), observe(198), subscribe(u64::MAX), subscribe(42)] {
        assert_eq!(Input::from_nota(&input.to_nota()), Ok(input));
    }
    assert_eq!(observe(198).to_nota(), "(ObserveFocus (NiriWindow 198))");
    assert_eq!(subscribe(3).to_nota(), "(SubscribeFocus (NiriWindow 3))");
}

#[test]
fn observation_writes_as_nota() {
    let observation = persona_system::FocusObservation::new(SystemTarget::niri_window(42), true, 7);
    assert_eq!(observation.to_nota(), "(FocusObservation (NiriWindow 42) true 7)");
    let observation =
        persona_system::FocusObservation::new(SystemTarget::niri_window(10), false, 1_000_000_005);
    assert_eq!(observation.to_nota(), "(FocusObservation (NiriWindow 10) false 1000000005)");
}

#[test]
fn inline_argument_resolves_to_its_command() {
    let command_line = CommandLine::from_arguments(vec![argument("(FocusSubscription (NiriWindow 198))")]);
    assert_eq!(
        command_line.resolve_input(),
        Ok(persona_system::ResolvedInput::Command(subscribe(198)))
    );
    let command_line = CommandLine::from_arguments(vec![argument("(ObserveFocus (Window 1))")]);
    assert_eq!(
        command_line.resolve_input().expect_err("not a command").message(),
        "nota error: expected (ObserveFocus (NiriWindow <id>)) or (SubscribeFocus (NiriWindow <id>))"
    );
    let command_line = CommandLine::from_arguments(vec![argument("/tmp/command.nota")]);
    assert_eq!(
        command_line.resolve_input(),
        Ok(persona_system::ResolvedInput::File(b"/tmp/command.nota".to_vec()))
    );
    assert_eq!(
        CommandLine::from_arguments(Vec::new()).resolve_input(),
        Err(Error::MissingInput)
    );
}
