//! File names: the timestamp of the run, the caller's label and the number of the file in the
//! run, as `{timestamp}_{label}_{number}.parquet`, the number in decimal with at least four
//! digits.

use vstd::prelude::*;
use vstd::string::StringExecFns;

verus! {

/// What stands between the parts of a file name.
pub const SEPARATOR: &'static str = "_";

/// What every file name ends with.
pub const FILE_EXTENSION: &'static str = ".parquet";

/// The least number of digits that a sequence number is written with.
pub const SEQUENCE_WIDTH: usize = 4;

/// `String::push` of the standard library appends the given character to the end of the
/// string.
pub assume_specification[ String::push ](text: &mut String, character: char)
    ensures
        final(text)@ == old(text)@.push(character),
;

/// The character for a decimal digit.
pub open spec fn digit_char(digit: nat) -> char
    recommends
        digit < 10,
{
    if digit == 0 {
        '0'
    } else if digit == 1 {
        '1'
    } else if digit == 2 {
        '2'
    } else if digit == 3 {
        '3'
    } else if digit == 4 {
        '4'
    } else if digit == 5 {
        '5'
    } else if digit == 6 {
        '6'
    } else if digit == 7 {
        '7'
    } else if digit == 8 {
        '8'
    } else {
        '9'
    }
}

/// The digit that a character stands for; zero for a character that is no digit.
pub open spec fn digit_value(character: char) -> nat {
    if character == '1' {
        1
    } else if character == '2' {
        2
    } else if character == '3' {
        3
    } else if character == '4' {
        4
    } else if character == '5' {
        5
    } else if character == '6' {
        6
    } else if character == '7' {
        7
    } else if character == '8' {
        8
    } else if character == '9' {
        9
    } else {
        0
    }
}

/// A number in decimal, without leading zeros.
pub open spec fn decimal(number: nat) -> Seq<char>
    decreases number,
{
    if number < 10 {
        seq![digit_char(number)]
    } else {
        decimal(number / 10).push(digit_char(number % 10))
    }
}

/// The number that a string of digits stands for.
pub open spec fn decimal_value(digits: Seq<char>) -> nat
    decreases digits.len(),
{
    if digits.len() == 0 {
        0
    } else {
        decimal_value(digits.drop_last()) * 10 + digit_value(digits.last())
    }
}

/// `count` zeros.
pub open spec fn zeros(count: nat) -> Seq<char> {
    Seq::new(count, |i: int| '0')
}

/// A number in decimal, with zeros in front of it where it has fewer than `width` digits.
pub open spec fn zero_padded(number: nat, width: nat) -> Seq<char> {
    let digits = decimal(number);
    if digits.len() >= width {
        digits
    } else {
        zeros((width - digits.len()) as nat) + digits
    }
}

/// The name of file number `sequence_number` of a run.
pub open spec fn file_name_spec(
    timestamp: Seq<char>,
    label: Seq<char>,
    sequence_number: nat,
) -> Seq<char> {
    timestamp + SEPARATOR@ + label + SEPARATOR@ + zero_padded(
        sequence_number,
        SEQUENCE_WIDTH as nat,
    ) + FILE_EXTENSION@
}

/// A number written in decimal reads back as itself.
pub proof fn lemma_decimal_value(number: nat)
    ensures
        decimal_value(decimal(number)) == number,
    decreases number,
{
    if number < 10 {
        assert(decimal_value(decimal(number).drop_last()) == 0);
    } else {
        lemma_decimal_value(number / 10);
        assert(decimal(number).drop_last() =~= decimal(number / 10));
    }
}

/// Zeros in front of a string of digits do not change the number it stands for.
pub proof fn lemma_leading_zeros(count: nat, digits: Seq<char>)
    ensures
        decimal_value(zeros(count) + digits) == decimal_value(digits),
    decreases digits.len(), count,
{
    if digits.len() == 0 {
        if count > 0 {
            assert(zeros(count).drop_last() =~= zeros((count - 1) as nat) + digits);
            lemma_leading_zeros((count - 1) as nat, digits);
        }
    } else {
        assert((zeros(count) + digits).drop_last() =~= zeros(count) + digits.drop_last());
        lemma_leading_zeros(count, digits.drop_last());
    }
}

/// A zero-padded number reads back as itself, so two numbers are never written alike.
pub proof fn lemma_zero_padded_value(number: nat, width: nat)
    ensures
        decimal_value(zero_padded(number, width)) == number,
{
    lemma_decimal_value(number);
    if decimal(number).len() < width {
        lemma_leading_zeros((width - decimal(number).len()) as nat, decimal(number));
    }
}

/// Within one run, files with different sequence numbers have different names.
pub proof fn lemma_file_names_differ(
    timestamp: Seq<char>,
    label: Seq<char>,
    first: nat,
    second: nat,
)
    requires
        first != second,
    ensures
        file_name_spec(timestamp, label, first) != file_name_spec(timestamp, label, second),
{
    let head = timestamp + SEPARATOR@ + label + SEPARATOR@;
    let one = zero_padded(first, SEQUENCE_WIDTH as nat);
    let other = zero_padded(second, SEQUENCE_WIDTH as nat);
    let tail = FILE_EXTENSION@;
    lemma_zero_padded_value(first, SEQUENCE_WIDTH as nat);
    lemma_zero_padded_value(second, SEQUENCE_WIDTH as nat);
    if head + one + tail == head + other + tail {
        assert(one.len() == other.len()) by {
            assert((head + one + tail).len() == (head + other + tail).len());
        }
        assert(one =~= (head + one + tail).subrange(
            head.len() as int,
            head.len() + one.len() as int,
        ));
        assert(other =~= (head + other + tail).subrange(
            head.len() as int,
            head.len() + other.len() as int,
        ));
    }
}

/// The character for the decimal digit `digit`.
fn digit_to_char(digit: u8) -> (character: char)
    requires
        digit < 10,
    ensures
        character == digit_char(digit as nat),
{
    (48u8 + digit) as char
}

/// Appends `number` in decimal, without leading zeros.
fn push_decimal(text: &mut String, number: u64)
    ensures
        final(text)@ == old(text)@ + decimal(number as nat),
    decreases number,
{
    if number >= 10 {
        push_decimal(text, number / 10);
    }
    text.push(digit_to_char((number % 10) as u8));
}

/// The number of digits of `number` in decimal.
fn decimal_len(number: u64) -> (digits: usize)
    ensures
        digits == decimal(number as nat).len(),
        1 <= digits <= 20,
    decreases number,
{
    if number < 10 {
        1
    } else {
        let shorter = decimal_len(number / 10);
        assert(shorter <= 19) by {
            lemma_decimal_len_bound(number as nat);
        }
        shorter + 1
    }
}

/// A number that fits in 64 bits has at most twenty digits.
proof fn lemma_decimal_len_bound(number: nat)
    ensures
        number <= u64::MAX ==> decimal(number).len() <= 20,
        number >= 10 && number <= u64::MAX ==> decimal(number / 10).len() <= 19,
{
    reveal_with_fuel(decimal, 21);
}

/// Appends `number` in decimal, with zeros in front of it where it has fewer than `width`
/// digits.
fn push_zero_padded(text: &mut String, number: u64, width: usize)
    ensures
        final(text)@ == old(text)@ + zero_padded(number as nat, width as nat),
{
    let digits = decimal_len(number);
    let mut written: usize = digits;
    while written < width
        invariant
            digits == decimal(number as nat).len(),
            digits <= written,
            written <= width || written == digits,
            text@ == old(text)@ + zeros((written - digits) as nat),
        decreases width - written,
    {
        text.push('0');
        written = written + 1;
    }
    push_decimal(text, number);
}

/// The name of file number `sequence_number` of the run that began at `timestamp` under
/// `label`.
pub fn file_name(timestamp: &str, label: &str, sequence_number: u64) -> (name: String)
    ensures
        name@ == file_name_spec(timestamp@, label@, sequence_number as nat),
{
    let mut name = String::from_str(timestamp);
    name.append(SEPARATOR);
    name.append(label);
    name.append(SEPARATOR);
    push_zero_padded(&mut name, sequence_number, SEQUENCE_WIDTH);
    name.append(FILE_EXTENSION);
    name
}

} // verus!
