use vstd::prelude::*;

verus! {

/// The decimal digit character for `digit`.
pub open spec fn digit_char(digit: nat) -> char {
    (digit + 48) as char
}

/// The decimal numeral of `n`, without sign or leading zeros.
pub open spec fn decimal(n: nat) -> Seq<char>
    decreases n,
{
    if n < 10 {
        seq![digit_char(n)]
    } else {
        decimal(n / 10).push(digit_char(n % 10))
    }
}

/// std's `String::push`: appends one character to the string.
pub assume_specification[ String::push ](string: &mut String, ch: char)
    ensures
        final(string)@ == old(string)@.push(ch),
;

/// Appends the decimal numeral of `n` to `buffer`.
pub fn push_decimal(buffer: &mut String, n: u64)
    ensures
        final(buffer)@ == old(buffer)@ + decimal(n as nat),
    decreases n,
{
    if n >= 10 {
        push_decimal(buffer, n / 10);
    }
    let digit: u8 = (n % 10) as u8;
    buffer.push((digit + 48) as char);
    proof {
        assert(old(buffer)@ + decimal(n as nat) =~= if n >= 10 {
            (old(buffer)@ + decimal((n / 10) as nat)).push(digit_char((n % 10) as nat))
        } else {
            old(buffer)@.push(digit_char(n as nat))
        });
    }
}

/// Appends the characters of `text` to `buffer`.
pub fn push_str(buffer: &mut String, text: &str)
    ensures
        final(buffer)@ == old(buffer)@ + text@,
{
    let length = text.unicode_len();
    let mut index: usize = 0;
    while index < length
        invariant
            length == text@.len(),
            index <= length,
            buffer@ == old(buffer)@ + text@.subrange(0, index as int),
        decreases length - index,
    {
        buffer.push(text.get_char(index));
        index = index + 1;
        assert(buffer@ =~= old(buffer)@ + text@.subrange(0, index as int));
    }
    assert(text@.subrange(0, length as int) =~= text@);
}

/// The characters of `text`, one by one.
pub fn chars_of(text: &str) -> (characters: Vec<char>)
    ensures
        characters@ == text@,
{
    let mut characters: Vec<char> = Vec::new();
    let length = text.unicode_len();
    let mut index: usize = 0;
    while index < length
        invariant
            length == text@.len(),
            index <= length,
            characters@ == text@.subrange(0, index as int),
        decreases length - index,
    {
        characters.push(text.get_char(index));
        index = index + 1;
        assert(characters@ =~= text@.subrange(0, index as int));
    }
    assert(text@.subrange(0, length as int) =~= text@);
    characters
}

} // verus!

verus! {

/// A decimal numeral is one or more digits `0` to `9`.
pub proof fn lemma_decimal_digits(n: nat)
    ensures
        decimal(n).len() >= 1,
        forall|i: int| 0 <= i < decimal(n).len() ==> '0' <= #[trigger] decimal(n)[i] <= '9',
    decreases n,
{
    if n >= 10 {
        lemma_decimal_digits(n / 10);
    }
}

} // verus!
