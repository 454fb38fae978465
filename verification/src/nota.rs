use vstd::prelude::*;

verus! {

/// A lexical token of NOTA text: an opening or closing bracket, or an atom (a maximal run
/// of characters that are neither whitespace nor brackets).
pub enum Token {
    Open,
    Close,
    Atom(Seq<char>),
}

pub open spec fn is_space(c: char) -> bool {
    c == ' ' || c == '\t' || c == '\n' || c == '\r'
}

pub open spec fn is_atom_char(c: char) -> bool {
    !is_space(c) && c != '(' && c != ')'
}

/// The length of the atom that opens `text` (0 where it opens with no atom character).
pub open spec fn atom_length(text: Seq<char>) -> nat
    decreases text.len(),
{
    if text.len() > 0 && is_atom_char(text[0]) {
        1 + atom_length(text.drop_first())
    } else {
        0
    }
}

/// An atom is never longer than the text, and is at least one character where the text
/// opens with an atom character.
pub proof fn lemma_atom_length_bounds(text: Seq<char>)
    ensures
        atom_length(text) <= text.len(),
        text.len() > 0 && is_atom_char(text[0]) ==> atom_length(text) >= 1,
    decreases text.len(),
{
    if text.len() > 0 && is_atom_char(text[0]) {
        lemma_atom_length_bounds(text.drop_first());
    }
}

/// The tokens of `text`, in order; whitespace only separates them.
pub open spec fn tokens(text: Seq<char>) -> Seq<Token>
    decreases text.len(),
{
    if text.len() == 0 {
        Seq::empty()
    } else if is_space(text[0]) {
        tokens(text.drop_first())
    } else if text[0] == '(' {
        seq![Token::Open] + tokens(text.drop_first())
    } else if text[0] == ')' {
        seq![Token::Close] + tokens(text.drop_first())
    } else {
        proof {
            lemma_atom_length_bounds(text);
        }
        seq![Token::Atom(text.take(atom_length(text) as int))] + tokens(
            text.skip(atom_length(text) as int),
        )
    }
}

/// The atom length of a run of atom characters that ends at a delimiter or at the end.
proof fn lemma_atom_length_of_run(text: Seq<char>, length: int)
    requires
        0 <= length <= text.len(),
        forall|k: int| 0 <= k < length ==> is_atom_char(text[k]),
        length == text.len() || !is_atom_char(text[length]),
    ensures
        atom_length(text) == length,
    decreases length,
{
    if length > 0 {
        lemma_atom_length_of_run(text.drop_first(), length - 1);
    }
}

/// One lexeme found in a character buffer: a bracket, or the atom at `start..end`.
#[derive(Debug, Clone, Copy, PartialEq, Eq, Structural)]
pub enum Lexeme {
    Open,
    Close,
    Atom { start: usize, end: usize },
}

/// The token that a lexeme of `text` stands for.
pub open spec fn lexeme_token(text: Seq<char>, lexeme: Lexeme) -> Token {
    match lexeme {
        Lexeme::Open => Token::Open,
        Lexeme::Close => Token::Close,
        Lexeme::Atom { start, end } => Token::Atom(text.subrange(start as int, end as int)),
    }
}

/// The next lexeme at or after `from`, and the position after it; `None` where only
/// whitespace is left.
pub fn next_lexeme(text: &Vec<char>, from: usize) -> (found: (Option<Lexeme>, usize))
    requires
        from <= text.len(),
    ensures
        from <= found.1 <= text.len(),
        match found.0 {
            None => tokens(text@.skip(from as int)) == Seq::<Token>::empty(),
            Some(lexeme) => {
                &&& tokens(text@.skip(from as int)) == seq![lexeme_token(text@, lexeme)] + tokens(
                    text@.skip(found.1 as int),
                )
                &&& lexeme matches Lexeme::Atom { start, end } ==> from <= start < end == found.1
            },
        },
{
    let length = text.len();
    let mut index = from;
    while index < length && (text[index] == ' ' || text[index] == '\t' || text[index] == '\n'
        || text[index] == '\r')
        invariant
            length == text.len(),
            from <= index <= length,
            tokens(text@.skip(from as int)) == tokens(text@.skip(index as int)),
        decreases length - index,
    {
        assert(text@.skip(index as int).drop_first() =~= text@.skip(index + 1));
        index = index + 1;
    }
    if index == length {
        assert(text@.skip(index as int) =~= Seq::<char>::empty());
        return (None, length);
    }
    let rest = Ghost(text@.skip(index as int));
    assert(rest@[0] == text@[index as int]);
    assert(rest@.drop_first() =~= text@.skip(index + 1));
    if text[index] == '(' {
        return (Some(Lexeme::Open), index + 1);
    }
    if text[index] == ')' {
        return (Some(Lexeme::Close), index + 1);
    }
    let start = index;
    let mut end = index + 1;
    while end < length && text[end] != ' ' && text[end] != '\t' && text[end] != '\n'
        && text[end] != '\r' && text[end] != '(' && text[end] != ')'
        invariant
            length == text.len(),
            start < end <= length,
            forall|k: int| start <= k < end ==> is_atom_char(text@[k]),
        decreases length - end,
    {
        end = end + 1;
    }
    proof {
        let rest = text@.skip(start as int);
        lemma_atom_length_of_run(rest, end - start);
        assert(rest.take(end - start) =~= text@.subrange(start as int, end as int));
        assert(rest.skip(end - start) =~= text@.skip(end as int));
    }
    (Some(Lexeme::Atom { start, end }), end)
}

} // verus!

verus! {

pub open spec fn is_decimal_digit(c: char) -> bool {
    '0' <= c <= '9'
}

/// The value of a numeral of decimal digits, most significant first.
pub open spec fn decimal_value(digits: Seq<char>) -> nat
    decreases digits.len(),
{
    if digits.len() == 0 {
        0
    } else {
        decimal_value(digits.drop_last()) * 10 + (digits.last() as int - 48) as nat
    }
}

/// An atom read as a `u64`: one or more decimal digits whose value fits.
pub open spec fn spec_parse_u64(atom: Seq<char>) -> Option<u64> {
    if atom.len() > 0 && (forall|i: int| 0 <= i < atom.len() ==> is_decimal_digit(atom[i]))
        && decimal_value(atom) <= u64::MAX {
        Some(decimal_value(atom) as u64)
    } else {
        None
    }
}

/// The value of a prefix of a decimal numeral is at most the value of the whole.
proof fn lemma_decimal_prefix_at_most_whole(digits: Seq<char>, length: int)
    requires
        0 <= length <= digits.len(),
        forall|i: int| 0 <= i < digits.len() ==> is_decimal_digit(digits[i]),
    ensures
        decimal_value(digits.subrange(0, length)) <= decimal_value(digits),
    decreases digits.len(),
{
    if length < digits.len() {
        let shorter = digits.drop_last();
        assert(shorter.subrange(0, length) =~= digits.subrange(0, length));
        lemma_decimal_prefix_at_most_whole(shorter, length);
    } else {
        assert(digits.subrange(0, length) =~= digits);
    }
}

/// Reads the atom `text[start..end]` as a `u64`.
pub fn parse_u64(text: &Vec<char>, start: usize, end: usize) -> (value: Option<u64>)
    requires
        start <= end <= text.len(),
    ensures
        value == spec_parse_u64(text@.subrange(start as int, end as int)),
{
    let ghost atom = text@.subrange(start as int, end as int);
    if start == end {
        return None;
    }
    let mut value: u64 = 0;
    let mut index = start;
    while index < end
        invariant
            start <= index <= end <= text.len(),
            atom == text@.subrange(start as int, end as int),
            forall|i: int| start <= i < index ==> is_decimal_digit(text@[i]),
            value as nat == decimal_value(text@.subrange(start as int, index as int)),
        decreases end - index,
    {
        let c = text[index];
        if c < '0' || c > '9' {
            assert(atom[index - start] == c);
            return None;
        }
        let ghost before = text@.subrange(start as int, index as int);
        let ghost after = text@.subrange(start as int, index + 1);
        assert(after.drop_last() =~= before);
        let digit = (c as u32 - '0' as u32) as u64;
        match value.checked_mul(10) {
            Some(scaled) => match scaled.checked_add(digit) {
                Some(next) => {
                    value = next;
                },
                None => {
                    proof {
                        if forall|i: int| 0 <= i < atom.len() ==> is_decimal_digit(atom[i]) {
                            assert(atom.subrange(0, index + 1 - start) =~= after);
                            lemma_decimal_prefix_at_most_whole(atom, index + 1 - start);
                        }
                    }
                    return None;
                },
            },
            None => {
                proof {
                    if forall|i: int| 0 <= i < atom.len() ==> is_decimal_digit(atom[i]) {
                        assert(atom.subrange(0, index + 1 - start) =~= after);
                        lemma_decimal_prefix_at_most_whole(atom, index + 1 - start);
                    }
                }
                return None;
            },
        }
        index = index + 1;
    }
    Some(value)
}

/// Whether the atom `text[start..end]` is `expected`.
pub fn atom_is(text: &Vec<char>, start: usize, end: usize, expected: &str) -> (same: bool)
    requires
        start <= end <= text.len(),
    ensures
        same == (text@.subrange(start as int, end as int) == expected@),
{
    let wanted = crate::text::chars_of(expected);
    if end - start != wanted.len() {
        return false;
    }
    let mut offset: usize = 0;
    while offset < wanted.len()
        invariant
            wanted@ == expected@,
            end - start == wanted.len(),
            start <= end <= text.len(),
            offset <= wanted.len(),
            forall|k: int| 0 <= k < offset ==> text@[start + k] == wanted@[k],
        decreases wanted.len() - offset,
    {
        if text[start + offset] != wanted[offset] {
            assert(text@.subrange(start as int, end as int)[offset as int] != expected@[offset as int]);
            return false;
        }
        offset = offset + 1;
    }
    assert(text@.subrange(start as int, end as int) =~= expected@);
    true
}

} // verus!

verus! {

/// An opening bracket is a token of its own.
pub proof fn lemma_tokens_after_open(rest: Seq<char>)
    ensures
        tokens(seq!['('] + rest) == seq![Token::Open] + tokens(rest),
{
    assert((seq!['('] + rest).drop_first() =~= rest);
}

/// A closing bracket is a token of its own.
pub proof fn lemma_tokens_after_close(rest: Seq<char>)
    ensures
        tokens(seq![')'] + rest) == seq![Token::Close] + tokens(rest),
{
    assert((seq![')'] + rest).drop_first() =~= rest);
}

/// Whitespace only separates tokens.
pub proof fn lemma_tokens_after_space(rest: Seq<char>)
    ensures
        tokens(seq![' '] + rest) == tokens(rest),
{
    assert((seq![' '] + rest).drop_first() =~= rest);
}

/// A run of atom characters followed by a delimiter (or nothing) is one atom token.
pub proof fn lemma_tokens_after_atom(atom: Seq<char>, rest: Seq<char>)
    requires
        atom.len() > 0,
        forall|i: int| 0 <= i < atom.len() ==> is_atom_char(atom[i]),
        rest.len() == 0 || !is_atom_char(rest[0]),
    ensures
        tokens(atom + rest) == seq![Token::Atom(atom)] + tokens(rest),
{
    let text = atom + rest;
    lemma_atom_length_of_run(text, atom.len() as int);
    assert(text.take(atom.len() as int) =~= atom);
    assert(text.skip(atom.len() as int) =~= rest);
}

} // verus!

verus! {

/// Reading back a decimal numeral gives the number that it was written from.
pub proof fn lemma_decimal_round_trip(n: nat)
    ensures
        decimal_value(crate::text::decimal(n)) == n,
    decreases n,
{
    let text = crate::text::decimal(n);
    let digit = crate::text::digit_char(n % 10);
    assert(digit as int == n % 10 + 48);
    assert(text.last() == digit);
    assert(text.len() > 0);
    assert(decimal_value(text) == decimal_value(text.drop_last()) * 10 + (text.last() as int
        - 48) as nat);
    if n >= 10 {
        lemma_decimal_round_trip(n / 10);
        assert(text.drop_last() =~= crate::text::decimal(n / 10));
        assert(n == (n / 10) * 10 + n % 10);
    } else {
        assert(text.drop_last() =~= Seq::<char>::empty());
        assert(decimal_value(Seq::<char>::empty()) == 0);
    }
}

} // verus!
