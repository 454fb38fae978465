use vstd::prelude::*;

use crate::error::Error;
use crate::nota::{
    atom_is, is_atom_char, lemma_decimal_round_trip, lemma_tokens_after_atom,
    lemma_tokens_after_close, lemma_tokens_after_open, lemma_tokens_after_space, next_lexeme,
    parse_u64, spec_parse_u64, tokens, Lexeme, Token,
};
use crate::target::{NiriWindow, NiriWindowId, SystemTarget};
use crate::text::{chars_of, decimal, push_decimal, push_str};

verus! {

/// Observe a target's focus once.
#[derive(Debug, Clone, Copy, PartialEq, Eq, Structural)]
pub struct ObserveFocus {
    pub target: SystemTarget,
}

/// Follow a target's focus as it changes.
#[derive(Debug, Clone, Copy, PartialEq, Eq, Structural)]
pub struct SubscribeFocus {
    pub target: SystemTarget,
}

/// The one command that the `system` CLI accepts.
#[derive(Debug, Clone, Copy, PartialEq, Eq, Structural)]
pub enum Input {
    ObserveFocus(ObserveFocus),
    SubscribeFocus(SubscribeFocus),
}

/// What running an input asks of the focus source: one observation of a target written
/// out, or a subscription to the target's focus that writes each observation out.
#[derive(Debug, Clone, Copy, PartialEq, Eq, Structural)]
pub enum FocusCommand {
    Observe { target: SystemTarget },
    Subscribe { target: SystemTarget },
}

impl Input {
    /// The focus command that running this input performs.
    pub open spec fn spec_run(self) -> FocusCommand {
        match self {
            Input::ObserveFocus(command) => FocusCommand::Observe { target: command.target },
            Input::SubscribeFocus(command) => FocusCommand::Subscribe { target: command.target },
        }
    }

    pub fn run(self) -> (command: FocusCommand)
        ensures
            command == self.spec_run(),
    {
        match self {
            Self::ObserveFocus(command) => FocusCommand::Observe { target: command.target },
            Self::SubscribeFocus(command) => FocusCommand::Subscribe { target: command.target },
        }
    }

    /// Reads the command that a NOTA text spells, such as `(ObserveFocus (NiriWindow 198))`.
    pub fn from_nota(text: &str) -> (input: Result<Self, Error>)
        ensures
            match spec_input_from_text(text@) {
                Some(expected) => input == Ok::<Input, Error>(expected),
                None => input matches Err(Error::Nota { detail }) && detail@
                    == unrecognized_command_detail(),
            },
    {
        let characters = chars_of(text);
        match parse_input(&characters) {
            Some(input) => Ok(input),
            None => {
                let mut detail: String = String::new();
                push_str(
                    &mut detail,
                    "expected (ObserveFocus (NiriWindow <id>)) or (SubscribeFocus (NiriWindow <id>))",
                );
                Err(Error::Nota { detail })
            },
        }
    }

    /// The NOTA text of this input.
    pub fn to_nota(&self) -> (text: String)
        ensures
            text@ == spec_input_text(*self),
    {
        let mut buffer: String = String::new();
        push_str(&mut buffer, "(");
        let target = match self {
            Self::ObserveFocus(command) => {
                push_str(&mut buffer, "ObserveFocus");
                command.target
            },
            Self::SubscribeFocus(command) => {
                push_str(&mut buffer, "SubscribeFocus");
                command.target
            },
        };
        push_str(&mut buffer, " (NiriWindow ");
        match target {
            SystemTarget::NiriWindow(window) => push_decimal(&mut buffer, window.id.0),
        }
        push_str(&mut buffer, "))");
        proof {
            assert(buffer@ =~= spec_input_text(*self));
        }
        buffer
    }

    /// The target that the input names.
    pub fn target(self) -> (target: SystemTarget)
        ensures
            target == self.target_spec(),
    {
        match self {
            Self::ObserveFocus(command) => command.target,
            Self::SubscribeFocus(command) => command.target,
        }
    }
}

/// The command that a record head names for `target`: `ObserveFocus`, or
/// `SubscribeFocus` (also read under its documented name `FocusSubscription`).
pub open spec fn command_for_head(head: Seq<char>, target: SystemTarget) -> Option<Input> {
    if head == "ObserveFocus"@ {
        Some(Input::ObserveFocus(ObserveFocus { target }))
    } else if head == "SubscribeFocus"@ || head == "FocusSubscription"@ {
        Some(Input::SubscribeFocus(SubscribeFocus { target }))
    } else {
        None
    }
}

/// The input that a token sequence spells: exactly
/// `( Head ( NiriWindow Id ) )`, where Head names a command and Id is a `u64`.
pub open spec fn input_from_tokens(t: Seq<Token>) -> Option<Input> {
    if t.len() == 7 {
        match (t[0], t[1], t[2], t[3], t[4], t[5], t[6]) {
            (
                Token::Open,
                Token::Atom(head),
                Token::Open,
                Token::Atom(kind),
                Token::Atom(number),
                Token::Close,
                Token::Close,
            ) => if kind == "NiriWindow"@ {
                match spec_parse_u64(number) {
                    Some(id) => command_for_head(
                        head,
                        SystemTarget::NiriWindow(NiriWindow { id: NiriWindowId(id) }),
                    ),
                    None => None,
                }
            } else {
                None
            },
            _ => None,
        }
    } else {
        None
    }
}

/// The input that a NOTA text spells, if it spells one.
pub open spec fn spec_input_from_text(text: Seq<char>) -> Option<Input> {
    input_from_tokens(tokens(text))
}

/// The detail of the error for a text that spells no command.
pub open spec fn unrecognized_command_detail() -> Seq<char> {
    "expected (ObserveFocus (NiriWindow <id>)) or (SubscribeFocus (NiriWindow <id>))"@
}

/// The record head that an input is written with.
pub open spec fn input_head(input: Input) -> Seq<char> {
    match input {
        Input::ObserveFocus(_) => "ObserveFocus"@,
        Input::SubscribeFocus(_) => "SubscribeFocus"@,
    }
}

/// The NOTA text of an input.
pub open spec fn spec_input_text(input: Input) -> Seq<char> {
    match input.target_spec() {
        SystemTarget::NiriWindow(window) => "("@ + input_head(input) + " (NiriWindow "@ + decimal(
            window.id.0 as nat,
        ) + "))"@,
    }
}

/// Reads the command that a character buffer spells.
fn parse_input(text: &Vec<char>) -> (input: Option<Input>)
    ensures
        input == spec_input_from_text(text@),
{
    assert(text@.skip(0) =~= text@);
    let (first, at) = next_lexeme(text, 0);
    if first != Some(Lexeme::Open) {
        return None;
    }
    let (second, at) = next_lexeme(text, at);
    let (head_start, head_end) = match second {
        Some(Lexeme::Atom { start, end }) => (start, end),
        _ => {
            return None;
        },
    };
    let (third, at) = next_lexeme(text, at);
    if third != Some(Lexeme::Open) {
        return None;
    }
    let (fourth, at) = next_lexeme(text, at);
    let (kind_start, kind_end) = match fourth {
        Some(Lexeme::Atom { start, end }) => (start, end),
        _ => {
            return None;
        },
    };
    let (fifth, at) = next_lexeme(text, at);
    let (number_start, number_end) = match fifth {
        Some(Lexeme::Atom { start, end }) => (start, end),
        _ => {
            return None;
        },
    };
    let (sixth, at) = next_lexeme(text, at);
    if sixth != Some(Lexeme::Close) {
        return None;
    }
    let (seventh, at) = next_lexeme(text, at);
    if seventh != Some(Lexeme::Close) {
        return None;
    }
    let (eighth, _) = next_lexeme(text, at);
    if eighth.is_some() {
        return None;
    }
    if !atom_is(text, kind_start, kind_end, "NiriWindow") {
        return None;
    }
    let id = match parse_u64(text, number_start, number_end) {
        Some(id) => id,
        None => {
            return None;
        },
    };
    let target = SystemTarget::niri_window(id);
    if atom_is(text, head_start, head_end, "ObserveFocus") {
        Some(Input::ObserveFocus(ObserveFocus { target }))
    } else if atom_is(text, head_start, head_end, "SubscribeFocus") || atom_is(
        text,
        head_start,
        head_end,
        "FocusSubscription",
    ) {
        Some(Input::SubscribeFocus(SubscribeFocus { target }))
    } else {
        None
    }
}

/// What the command line's logic reads of one operating-system argument: its encoded
/// bytes, its text where it is valid Unicode, its lossy text, and its debug rendering.
#[derive(Debug, Clone, PartialEq, Eq)]
pub struct CommandLineArgument {
    pub encoded: Vec<u8>,
    pub text: Option<String>,
    pub lossy: String,
    pub debug: String,
}

impl CommandLineArgument {
    /// An argument opens an inline NOTA record when its first byte is `(`.
    pub open spec fn spec_starts_inline_record(self) -> bool {
        self.encoded@.len() > 0 && self.encoded@[0] == 40u8
    }

    pub fn starts_inline_record(&self) -> (starts: bool)
        ensures
            starts == self.spec_starts_inline_record(),
    {
        self.encoded.len() > 0 && self.encoded[0] == 40u8
    }
}

/// Where the command's NOTA text comes from: the argument itself, or the file that the
/// argument names (by its encoded bytes).
#[derive(Debug, Clone, PartialEq, Eq)]
pub enum InputSource {
    Inline(String),
    File(Vec<u8>),
}

/// What the command line resolves to: the command itself, read from an inline record,
/// or the file (by its encoded path) whose text holds it.
#[derive(Debug, Clone, PartialEq, Eq)]
pub enum ResolvedInput {
    Command(Input),
    File(Vec<u8>),
}

/// The `system` CLI's arguments.
#[derive(Debug, Clone, PartialEq, Eq)]
pub struct CommandLine {
    arguments: Vec<CommandLineArgument>,
}

impl View for CommandLine {
    type V = Seq<CommandLineArgument>;

    closed spec fn view(&self) -> Seq<CommandLineArgument> {
        self.arguments@
    }
}

/// The one argument must stand alone: a second one is refused, named by its lossy text.
pub open spec fn single_argument_check(arguments: Seq<CommandLineArgument>) -> Result<(), Error> {
    if arguments.len() >= 2 {
        Err(Error::UnexpectedArgument { got: arguments[1].lossy })
    } else {
        Ok(())
    }
}

/// Where the command line takes its input from: no argument is `MissingInput`; a second
/// argument is refused; an argument that opens an inline record is the input's text, and
/// must be valid Unicode; any other argument names the file that holds it.
pub open spec fn spec_decode_input(arguments: Seq<CommandLineArgument>) -> Result<InputSource, Error> {
    if arguments.len() == 0 {
        Err(Error::MissingInput)
    } else if arguments.len() >= 2 {
        Err(Error::UnexpectedArgument { got: arguments[1].lossy })
    } else if arguments[0].spec_starts_inline_record() {
        match arguments[0].text {
            Some(text) => Ok(InputSource::Inline(text)),
            None => Err(Error::InvalidInlineNotaArgument { got: arguments[0].debug }),
        }
    } else {
        Ok(InputSource::File(arguments[0].encoded))
    }
}

impl CommandLine {
    pub fn from_arguments(arguments: Vec<CommandLineArgument>) -> (command_line: Self)
        ensures
            command_line@ == arguments@,
    {
        Self { arguments }
    }

    pub fn decode_input(&self) -> (source: Result<InputSource, Error>)
        ensures
            match spec_decode_input(self@) {
                Ok(InputSource::File(path)) => source matches Ok(InputSource::File(copy))
                    && copy@ == path@,
                expected => source == expected,
            },
    {
        if self.arguments.len() == 0 {
            return Err(Error::MissingInput);
        }
        if let Err(error) = self.require_single_argument() {
            return Err(error);
        }
        let first = &self.arguments[0];
        if first.starts_inline_record() {
            match &first.text {
                Some(text) => Ok(InputSource::Inline(text.clone())),
                None => Err(Error::InvalidInlineNotaArgument { got: first.debug.clone() }),
            }
        } else {
            let encoded = copy_bytes(&first.encoded);
            Ok(InputSource::File(encoded))
        }
    }

    /// The command that the command line gives: an inline record is read here as the
    /// command (or refused with its NOTA error); a file argument is handed back for the
    /// caller to read, and every other refusal is that of `decode_input`.
    pub fn resolve_input(&self) -> (resolved: Result<ResolvedInput, Error>)
        ensures
            match spec_decode_input(self@) {
                Ok(InputSource::Inline(text)) => match spec_input_from_text(text@) {
                    Some(input) => resolved == Ok::<ResolvedInput, Error>(
                        ResolvedInput::Command(input),
                    ),
                    None => resolved matches Err(Error::Nota { detail }) && detail@
                        == unrecognized_command_detail(),
                },
                Ok(InputSource::File(path)) => resolved matches Ok(ResolvedInput::File(copy))
                    && copy@ == path@,
                Err(error) => resolved == Err::<ResolvedInput, Error>(error),
            },
    {
        match self.decode_input() {
            Ok(InputSource::Inline(text)) => match Input::from_nota(text.as_str()) {
                Ok(input) => Ok(ResolvedInput::Command(input)),
                Err(error) => Err(error),
            },
            Ok(InputSource::File(path)) => Ok(ResolvedInput::File(path)),
            Err(error) => Err(error),
        }
    }

    fn require_single_argument(&self) -> (checked: Result<(), Error>)
        ensures
            checked == single_argument_check(self@),
    {
        if self.arguments.len() >= 2 {
            return Err(Error::UnexpectedArgument { got: self.arguments[1].lossy.clone() });
        }
        Ok(())
    }
}

/// A copy of `bytes`.
pub fn copy_bytes(bytes: &Vec<u8>) -> (copy: Vec<u8>)
    ensures
        copy@ == bytes@,
{
    let mut copy: Vec<u8> = Vec::new();
    let mut index: usize = 0;
    while index < bytes.len()
        invariant
            index <= bytes.len(),
            copy@ == bytes@.subrange(0, index as int),
        decreases bytes.len() - index,
    {
        copy.push(bytes[index]);
        index = index + 1;
        assert(copy@ =~= bytes@.subrange(0, index as int));
    }
    assert(bytes@.subrange(0, bytes.len() as int) =~= bytes@);
    copy
}

} // verus!

verus! {

/// Every character of `word` may stand in an atom.
proof fn lemma_word_is_atom(word: Seq<char>)
    requires
        forall|i: int| 0 <= i < word.len() ==> 'A' <= #[trigger] word[i] <= 'z',
    ensures
        forall|i: int| 0 <= i < word.len() ==> is_atom_char(#[trigger] word[i]),
{
}

/// Reading the NOTA text of an input gives that input back.
pub proof fn lemma_input_text_round_trip(input: Input)
    ensures
        spec_input_from_text(spec_input_text(input)) == Some(input),
{
    reveal_strlit("(");
    reveal_strlit(" (NiriWindow ");
    reveal_strlit("))");
    reveal_strlit("ObserveFocus");
    reveal_strlit("SubscribeFocus");
    reveal_strlit("NiriWindow");
    let target = input.target_spec();
    let id = match target {
        SystemTarget::NiriWindow(window) => window.id.0,
    };
    let head = input_head(input);
    let window_word = "NiriWindow"@;
    let digits = decimal(id as nat);
    crate::text::lemma_decimal_digits(id as nat);
    lemma_decimal_round_trip(id as nat);
    lemma_word_is_atom(head);
    lemma_word_is_atom(window_word);
    assert(forall|i: int| 0 <= i < digits.len() ==> is_atom_char(#[trigger] digits[i]));

    let r7 = seq![')', ')'];
    let r6 = digits + r7;
    let r5 = seq![' '] + r6;
    let r4 = window_word + r5;
    let r3 = seq!['('] + r4;
    let r2 = seq![' '] + r3;
    let r1 = head + r2;
    let whole = seq!['('] + r1;
    assert(spec_input_text(input) =~= whole);

    lemma_tokens_after_close(Seq::<char>::empty());
    assert(seq![')'] =~= seq![')'] + Seq::<char>::empty());
    lemma_tokens_after_close(seq![')']);
    assert(r7 =~= seq![')'] + seq![')']);
    lemma_tokens_after_atom(digits, r7);
    lemma_tokens_after_space(r6);
    lemma_tokens_after_atom(window_word, r5);
    lemma_tokens_after_open(r4);
    lemma_tokens_after_space(r3);
    lemma_tokens_after_atom(head, r2);
    lemma_tokens_after_open(r1);
    assert(tokens(Seq::<char>::empty()) =~= Seq::<Token>::empty());

    let expected = seq![
        Token::Open,
        Token::Atom(head),
        Token::Open,
        Token::Atom(window_word),
        Token::Atom(digits),
        Token::Close,
        Token::Close,
    ];
    assert(tokens(whole) =~= expected);
    assert(spec_parse_u64(digits) == Some(id));
    assert(target == SystemTarget::NiriWindow(NiriWindow { id: NiriWindowId(id) }));
    match input {
        Input::ObserveFocus(_) => {},
        Input::SubscribeFocus(_) => {
            assert(head != "ObserveFocus"@);
        },
    }
}

impl Input {
    /// The target that an input names.
    pub open spec fn target_spec(self) -> SystemTarget {
        match self {
            Input::ObserveFocus(command) => command.target,
            Input::SubscribeFocus(command) => command.target,
        }
    }
}

} // verus!

verus! {

/// Whether an argument is an inline command depends on its first byte alone: a lone
/// argument whose first byte is not `(` (or that is empty) names the input file, whatever
/// brackets it holds later; one whose first byte is `(` is never read as a file.
pub proof fn lemma_only_a_leading_bracket_makes_an_inline_command(argument: CommandLineArgument)
    ensures
        (argument.encoded@.len() == 0 || argument.encoded@[0] != 40u8) ==> spec_decode_input(
            seq![argument],
        ) == Ok::<InputSource, Error>(InputSource::File(argument.encoded)),
        (argument.encoded@.len() > 0 && argument.encoded@[0] == 40u8) ==> !(spec_decode_input(
            seq![argument],
        ) matches Ok(InputSource::File(_))),
{
}

} // verus!
