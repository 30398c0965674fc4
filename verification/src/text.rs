//! Characters, numbers and fields: the text handling that the installer's rules are written in.

use vstd::prelude::*;
use vstd::string::*;

verus! {

broadcast use vstd::seq_lib::group_seq_properties;

/// `String::push` appends the one given character and leaves what stood before it as it was.
pub assume_specification[ String::push ](string: &mut String, character: char)
    ensures
        final(string)@ == old(string)@.push(character),
;

/// The characters of a text, one element each.
pub fn chars_of(text: &str) -> (result: Vec<char>)
    ensures
        result@ == text@,
{
    let mut result: Vec<char> = Vec::new();
    for character in letters: text.chars()
        invariant
            result@ == text@.take(letters.index() as int),
            letters.seq() == text@,
    {
        assert(text@.take(letters.index() as int + 1) == text@.take(letters.index() as int).push(
            character,
        ));
        result.push(character);
    }
    assert(text@.take(text@.len() as int) == text@);
    result
}

/// The text that the characters from `from` up to `to` spell.
pub fn text_between(characters: &Vec<char>, from: usize, to: usize) -> (result: String)
    requires
        from <= to <= characters@.len(),
    ensures
        result@ == characters@.subrange(from as int, to as int),
{
    let mut result = String::new();
    let mut index: usize = from;
    while index < to
        invariant
            from <= index <= to <= characters@.len(),
            result@ == characters@.subrange(from as int, index as int),
        decreases to - index,
    {
        assert(characters@.subrange(from as int, index as int + 1) == characters@.subrange(
            from as int,
            index as int,
        ).push(characters@[index as int]));
        result.push(characters[index]);
        index += 1;
    }
    result
}

/// Two texts, one behind the other.
pub fn join2(first: &str, second: &str) -> (result: String)
    ensures
        result@ == first@ + second@,
{
    let mut result = first.to_owned();
    result.append(second);
    result
}

/// Three texts, one behind the other.
pub fn join3(first: &str, second: &str, third: &str) -> (result: String)
    ensures
        result@ == first@ + second@ + third@,
{
    let mut result = join2(first, second);
    result.append(third);
    result
}

/// Whether two texts consist of the same characters.
pub fn same_text(left: &str, right: &str) -> (same: bool)
    ensures
        same == (left@ == right@),
{
    let left_characters = chars_of(left);
    let right_characters = chars_of(right);
    same_characters(&left_characters, &right_characters)
}

/// Whether two runs of characters are the same.
pub fn same_characters(left: &Vec<char>, right: &Vec<char>) -> (same: bool)
    ensures
        same == (left@ == right@),
{
    if left.len() != right.len() {
        return false;
    }
    let mut index: usize = 0;
    while index < left.len()
        invariant
            index <= left@.len(),
            left@.len() == right@.len(),
            forall|i: int| 0 <= i < index ==> left@[i] == right@[i],
        decreases left@.len() - index,
    {
        if left[index] != right[index] {
            return false;
        }
        index += 1;
    }
    assert(left@ =~= right@);
    true
}

/// The view of an optional text.
pub open spec fn optional_text(value: Option<String>) -> Option<Seq<char>> {
    match value {
        Some(held) => Some(held@),
        None => None,
    }
}

/// A copy of an optional text.
pub fn copy_text(text: &Option<String>) -> (result: Option<String>)
    ensures
        result == *text,
{
    match text {
        Some(value) => Some(value.clone()),
        None => None,
    }
}

// ---------------------------------------------------------------------------------------------
// Character classes
// ---------------------------------------------------------------------------------------------

/// A decimal digit.
pub open spec fn is_digit(c: char) -> bool {
    '0' <= c <= '9'
}

/// A hexadecimal digit of either case.
pub open spec fn is_hex_digit(c: char) -> bool {
    is_digit(c) || 'a' <= c <= 'f' || 'A' <= c <= 'F'
}

/// An ASCII letter of either case.
pub open spec fn is_ascii_letter(c: char) -> bool {
    'a' <= c <= 'z' || 'A' <= c <= 'Z'
}

/// The characters with the Unicode property `White_Space`.
pub open spec fn is_white(c: char) -> bool {
    ||| 0x09 <= c as int <= 0x0d
    ||| c as int == 0x20
    ||| c as int == 0x85
    ||| c as int == 0xa0
    ||| c as int == 0x1680
    ||| 0x2000 <= c as int <= 0x200a
    ||| c as int == 0x2028
    ||| c as int == 0x2029
    ||| c as int == 0x202f
    ||| c as int == 0x205f
    ||| c as int == 0x3000
}

/// Whether every character is a decimal digit.
pub open spec fn all_digits(s: Seq<char>) -> bool {
    forall|i: int| 0 <= i < s.len() ==> is_digit(#[trigger] s[i])
}

/// Whether every character is a hexadecimal digit.
pub open spec fn all_hex(s: Seq<char>) -> bool {
    forall|i: int| 0 <= i < s.len() ==> is_hex_digit(#[trigger] s[i])
}

pub fn char_is_digit(c: char) -> (result: bool)
    ensures
        result == is_digit(c),
{
    '0' <= c && c <= '9'
}

pub fn char_is_hex_digit(c: char) -> (result: bool)
    ensures
        result == is_hex_digit(c),
{
    ('0' <= c && c <= '9') || ('a' <= c && c <= 'f') || ('A' <= c && c <= 'F')
}

pub fn char_is_ascii_letter(c: char) -> (result: bool)
    ensures
        result == is_ascii_letter(c),
{
    ('a' <= c && c <= 'z') || ('A' <= c && c <= 'Z')
}

pub fn char_is_white(c: char) -> (result: bool)
    ensures
        result == is_white(c),
{
    let code: u32 = c as u32;
    (0x09 <= code && code <= 0x0d) || code == 0x20 || code == 0x85 || code == 0xa0 || code == 0x1680
        || (0x2000 <= code && code <= 0x200a) || code == 0x2028 || code == 0x2029 || code == 0x202f
        || code == 0x205f || code == 0x3000
}

/// Whether the characters from `from` up to `to` are decimal digits.
pub fn digits_between(characters: &Vec<char>, from: usize, to: usize) -> (result: bool)
    requires
        from <= to <= characters@.len(),
    ensures
        result == all_digits(characters@.subrange(from as int, to as int)),
{
    let ghost part = characters@.subrange(from as int, to as int);
    let mut index: usize = from;
    while index < to
        invariant
            from <= index <= to <= characters@.len(),
            part == characters@.subrange(from as int, to as int),
            forall|i: int| 0 <= i < index - from ==> is_digit(#[trigger] part[i]),
        decreases to - index,
    {
        if !char_is_digit(characters[index]) {
            assert(!is_digit(part[index - from]));
            return false;
        }
        assert(part[index - from] == characters@[index as int]);
        index += 1;
    }
    true
}

/// Whether the characters from `from` up to `to` are hexadecimal digits.
pub fn hex_between(characters: &Vec<char>, from: usize, to: usize) -> (result: bool)
    requires
        from <= to <= characters@.len(),
    ensures
        result == all_hex(characters@.subrange(from as int, to as int)),
{
    let ghost part = characters@.subrange(from as int, to as int);
    let mut index: usize = from;
    while index < to
        invariant
            from <= index <= to <= characters@.len(),
            part == characters@.subrange(from as int, to as int),
            forall|i: int| 0 <= i < index - from ==> is_hex_digit(#[trigger] part[i]),
        decreases to - index,
    {
        if !char_is_hex_digit(characters[index]) {
            assert(!is_hex_digit(part[index - from]));
            return false;
        }
        assert(part[index - from] == characters@[index as int]);
        index += 1;
    }
    true
}

// ---------------------------------------------------------------------------------------------
// Trimming
// ---------------------------------------------------------------------------------------------

/// The text without the white space that leads it.
pub open spec fn trim_start(s: Seq<char>) -> Seq<char>
    decreases s.len(),
{
    if s.len() > 0 && is_white(s[0]) {
        trim_start(s.drop_first())
    } else {
        s
    }
}

/// The text without the white space that ends it.
pub open spec fn trim_end(s: Seq<char>) -> Seq<char>
    decreases s.len(),
{
    if s.len() > 0 && is_white(s.last()) {
        trim_end(s.drop_last())
    } else {
        s
    }
}

/// The text without the white space around it.
pub open spec fn trimmed(s: Seq<char>) -> Seq<char> {
    trim_end(trim_start(s))
}

/// The text without the white space around it.
pub fn trim(text: &str) -> (result: String)
    ensures
        result@ == trimmed(text@),
{
    let characters = chars_of(text);
    let ghost all = characters@;
    let mut from: usize = 0;
    assert(all.subrange(0, all.len() as int) == all);
    while from < characters.len() && char_is_white(characters[from])
        invariant
            from <= characters@.len(),
            characters@ == all,
            trim_start(all) == trim_start(all.subrange(from as int, all.len() as int)),
        decreases characters@.len() - from,
    {
        assert(all.subrange(from as int, all.len() as int).drop_first() == all.subrange(
            from as int + 1,
            all.len() as int,
        ));
        from += 1;
    }
    let ghost rest = all.subrange(from as int, all.len() as int);
    assert(trim_start(all) == rest);
    let mut to: usize = characters.len();
    while from < to && char_is_white(characters[to - 1])
        invariant
            from <= to <= characters@.len(),
            characters@ == all,
            trim_end(rest) == trim_end(all.subrange(from as int, to as int)),
        decreases to,
    {
        assert(all.subrange(from as int, to as int).drop_last() == all.subrange(
            from as int,
            to as int - 1,
        ));
        to -= 1;
    }
    text_between(&characters, from, to)
}

// ---------------------------------------------------------------------------------------------
// Decimal numbers
// ---------------------------------------------------------------------------------------------

/// The character of one decimal digit.
pub open spec fn digit_char(digit: nat) -> char {
    ('0' as nat + digit) as char
}

/// The number that one decimal digit stands for.
pub open spec fn digit_value(c: char) -> nat {
    (c as nat - '0' as nat) as nat
}

/// A number in decimal, without leading zeros.
pub open spec fn decimal(n: nat) -> Seq<char>
    decreases n,
{
    if n < 10 {
        seq![digit_char(n)]
    } else {
        decimal(n / 10).push(digit_char(n % 10))
    }
}

/// The number that a run of decimal digits stands for.
pub open spec fn digits_value(s: Seq<char>) -> nat
    decreases s.len(),
{
    if s.len() == 0 {
        0
    } else {
        digits_value(s.drop_last()) * 10 + digit_value(s.last())
    }
}

/// A decimal number is a non-empty run of digits that reads back as the number.
pub proof fn decimal_reads_back(n: nat)
    ensures
        decimal(n).len() > 0,
        all_digits(decimal(n)),
        digits_value(decimal(n)) == n,
        decimal(n)[0] == '0' ==> n == 0,
    decreases n,
{
    if n < 10 {
        let s = decimal(n);
        assert(s.drop_last().len() == 0);
        assert(digits_value(s.drop_last()) == 0);
        assert(digits_value(s) == digits_value(s.drop_last()) * 10 + digit_value(s.last()));
    } else {
        decimal_reads_back(n / 10);
        let s = decimal(n);
        assert(s.drop_last() == decimal(n / 10));
        assert(digits_value(s) == digits_value(s.drop_last()) * 10 + digit_value(s.last()));
        assert forall|i: int| 0 <= i < s.len() implies is_digit(#[trigger] s[i]) by {
            if i < s.len() - 1 {
                assert(s[i] == decimal(n / 10)[i]);
            }
        }
    }
}

/// A run of digits that does not start with a zero is the decimal form of its value.
pub proof fn digits_are_decimal(s: Seq<char>)
    requires
        s.len() > 0,
        all_digits(s),
        s[0] != '0',
    ensures
        decimal(digits_value(s)) == s,
        digits_value(s) > 0,
    decreases s.len(),
{
    let head = s.drop_last();
    let last = digit_value(s.last());
    assert(is_digit(s.last()));
    assert(digits_value(s) == digits_value(head) * 10 + last);
    if s.len() == 1 {
        assert(digits_value(head) == 0);
        assert(decimal(digits_value(s)) == s);
    } else {
        assert forall|i: int| 0 <= i < head.len() implies is_digit(#[trigger] head[i]) by {
            assert(head[i] == s[i]);
        }
        assert(head[0] == s[0]);
        digits_are_decimal(head);
        let n = digits_value(s);
        assert(n / 10 == digits_value(head));
        assert(n % 10 == last);
        assert(decimal(n) == decimal(n / 10).push(digit_char(n % 10)));
        assert(decimal(n) =~= s);
    }
}

/// A number in decimal.
pub fn decimal_text(n: u64) -> (result: String)
    ensures
        result@ == decimal(n as nat),
{
    wide_decimal_text(n as u128)
}

/// A large number in decimal.
pub fn wide_decimal_text(n: u128) -> (result: String)
    ensures
        result@ == decimal(n as nat),
{
    let mut reversed: Vec<char> = Vec::new();
    let mut rest: u128 = n;
    let ghost mut done: Seq<char> = Seq::empty();
    while rest >= 10
        invariant
            done.len() == reversed@.len(),
            forall|i: int| 0 <= i < done.len() ==> done[i] == reversed@[done.len() - 1 - i],
            decimal(n as nat) == decimal(rest as nat) + done,
        decreases rest,
    {
        let digit: u8 = (rest % 10) as u8;
        let character: char = (48u8 + digit) as char;
        assert(character == digit_char((rest % 10) as nat));
        proof {
            let old_done = done;
            done = seq![character] + old_done;
            assert(decimal(rest as nat) + old_done == decimal((rest / 10) as nat) + done);
        }
        reversed.push(character);
        rest = rest / 10;
    }
    let last: char = (48u8 + rest as u8) as char;
    let mut result = String::new();
    result.push(last);
    assert(result@ == decimal(rest as nat));
    let ghost head = result@;
    let mut index: usize = reversed.len();
    while index > 0
        invariant
            index <= reversed@.len(),
            done.len() == reversed@.len(),
            forall|i: int| 0 <= i < done.len() ==> done[i] == reversed@[done.len() - 1 - i],
            result@ == head + done.take(reversed@.len() - index),
        decreases index,
    {
        index -= 1;
        let ghost at = reversed@.len() - index - 1;
        assert(done.take(at + 1) == done.take(at).push(done[at]));
        result.push(reversed[index]);
        assert(result@ == head + done.take(reversed@.len() - index));
    }
    assert(done.take(done.len() as int) == done);
    result
}

/// Why a text is not an unsigned number of the wanted width.
#[derive(Clone, Copy, Debug, PartialEq, Eq, Structural)]
pub enum ParseFault {
    Empty,
    InvalidDigit,
    TooLarge,
}

impl ParseFault {
    /// The sentence that describes the fault.
    pub open spec fn text(self) -> Seq<char> {
        match self {
            ParseFault::Empty => "cannot parse integer from empty string"@,
            ParseFault::InvalidDigit => "invalid digit found in string"@,
            ParseFault::TooLarge => "number too large to fit in target type"@,
        }
    }

    /// The sentence that describes the fault.
    pub fn message(self) -> (result: &'static str)
        ensures
            result@ == self.text(),
    {
        match self {
            ParseFault::Empty => "cannot parse integer from empty string",
            ParseFault::InvalidDigit => "invalid digit found in string",
            ParseFault::TooLarge => "number too large to fit in target type",
        }
    }
}

/// The value of a run of digits that has to stay within `max`; the fault is that of the first
/// character at which the run cannot go on.
pub open spec fn scan_digits(s: Seq<char>, max: nat) -> Result<nat, ParseFault>
    decreases s.len(),
{
    if s.len() == 0 {
        Ok(0)
    } else {
        match scan_digits(s.drop_last(), max) {
            Err(fault) => Err(fault),
            Ok(value) => if !is_digit(s.last()) {
                Err(ParseFault::InvalidDigit)
            } else if value * 10 + digit_value(s.last()) > max {
                Err(ParseFault::TooLarge)
            } else {
                Ok(value * 10 + digit_value(s.last()))
            },
        }
    }
}

/// How a text reads as an unsigned number of at most `max`. One leading plus sign is allowed.
pub open spec fn parse_unsigned(s: Seq<char>, max: nat) -> Result<nat, ParseFault> {
    if s.len() == 0 {
        Err(ParseFault::Empty)
    } else if s[0] == '+' {
        if s.len() == 1 {
            Err(ParseFault::InvalidDigit)
        } else {
            scan_digits(s.drop_first(), max)
        }
    } else {
        scan_digits(s, max)
    }
}

/// Scanning a run of digits gives its value exactly where the value is within the bound.
pub proof fn scan_of_digits(s: Seq<char>, max: nat)
    requires
        all_digits(s),
    ensures
        scan_digits(s, max) == (if digits_value(s) <= max {
            Ok::<nat, ParseFault>(digits_value(s))
        } else {
            Err(ParseFault::TooLarge)
        }),
    decreases s.len(),
{
    if s.len() > 0 {
        let head = s.drop_last();
        assert forall|i: int| 0 <= i < head.len() implies is_digit(#[trigger] head[i]) by {
            assert(head[i] == s[i]);
        }
        assert(is_digit(s.last()));
        scan_of_digits(head, max);
    }
}

/// A fault in the first part of a run is the fault of the whole run.
proof fn scan_fault_stays(s: Seq<char>, upto: int, max: nat)
    requires
        0 <= upto <= s.len(),
        scan_digits(s.take(upto), max) is Err,
    ensures
        scan_digits(s, max) == scan_digits(s.take(upto), max),
    decreases s.len() - upto,
{
    if upto < s.len() {
        assert(s.take(upto + 1).drop_last() == s.take(upto));
        scan_fault_stays(s, upto + 1, max);
    } else {
        assert(s.take(upto) == s);
    }
}

/// How a text reads as an unsigned number of at most `max`.
pub fn parse_bounded(text: &str, max: u64) -> (result: Result<u64, ParseFault>)
    ensures
        match result {
            Ok(value) => parse_unsigned(text@, max as nat) == Ok::<nat, ParseFault>(value as nat),
            Err(fault) => parse_unsigned(text@, max as nat) == Err::<nat, ParseFault>(fault),
        },
{
    let characters = chars_of(text);
    if characters.len() == 0 {
        return Err(ParseFault::Empty);
    }
    let from: usize = if characters[0] == '+' {
        1
    } else {
        0
    };
    if from == characters.len() {
        return Err(ParseFault::InvalidDigit);
    }
    let ghost run = characters@.subrange(from as int, characters@.len() as int);
    proof {
        if from == 1 {
            assert(run == text@.drop_first());
        } else {
            assert(run == text@);
        }
        assert(run.take(0).len() == 0);
    }
    let mut value: u64 = 0;
    let mut index: usize = from;
    while index < characters.len()
        invariant
            from <= index <= characters@.len(),
            run == characters@.subrange(from as int, characters@.len() as int),
            value <= max,
            scan_digits(run.take(index - from), max as nat) == Ok::<nat, ParseFault>(value as nat),
            parse_unsigned(text@, max as nat) == scan_digits(run, max as nat),
        decreases characters@.len() - index,
    {
        let character: char = characters[index];
        let ghost upto = index - from + 1;
        assert(run.take(upto).drop_last() == run.take(upto - 1));
        assert(run.take(upto).last() == character);
        if !char_is_digit(character) {
            proof {
                scan_fault_stays(run, upto, max as nat);
            }
            return Err(ParseFault::InvalidDigit);
        }
        let digit: u64 = (character as u32 - 48) as u64;
        assert(digit == digit_value(character));
        if value > (max / 10) || digit > max || value * 10 > max - digit {
            proof {
                assert(value * 10 + digit > max);
                scan_fault_stays(run, upto, max as nat);
            }
            return Err(ParseFault::TooLarge);
        }
        value = value * 10 + digit;
        index += 1;
    }
    assert(run.take(run.len() as int) == run);
    Ok(value)
}

// ---------------------------------------------------------------------------------------------
// Case
// ---------------------------------------------------------------------------------------------

/// The lower-case form of an ASCII letter; every other character as it is.
pub open spec fn ascii_lower(c: char) -> char {
    if 'A' <= c <= 'Z' {
        (c as int + 32) as char
    } else {
        c
    }
}

/// The upper-case form of an ASCII letter; every other character as it is.
pub open spec fn ascii_upper(c: char) -> char {
    if 'a' <= c <= 'z' {
        (c as int - 32) as char
    } else {
        c
    }
}

/// The upper case of a letter is a letter in upper case.
pub proof fn upper_letter_is_a_letter(c: char)
    requires
        is_ascii_letter(c),
    ensures
        is_ascii_letter(ascii_upper(c)),
        ascii_upper(ascii_upper(c)) == ascii_upper(c),
{
}

/// A text with its ASCII letters in lower case.
pub open spec fn lower_text(s: Seq<char>) -> Seq<char> {
    Seq::new(s.len(), |i: int| ascii_lower(s[i]))
}

/// A text with its ASCII letters in upper case.
pub open spec fn upper_text(s: Seq<char>) -> Seq<char> {
    Seq::new(s.len(), |i: int| ascii_upper(s[i]))
}

fn lower_char(c: char) -> (result: char)
    ensures
        result == ascii_lower(c),
{
    if 'A' <= c && c <= 'Z' {
        (c as u8 + 32) as char
    } else {
        c
    }
}

fn upper_char(c: char) -> (result: char)
    ensures
        result == ascii_upper(c),
{
    if 'a' <= c && c <= 'z' {
        (c as u8 - 32) as char
    } else {
        c
    }
}

/// A text with its ASCII letters in lower case.
pub fn to_lower(text: &str) -> (result: String)
    ensures
        result@ == lower_text(text@),
{
    let characters = chars_of(text);
    let mut result = String::new();
    let mut index: usize = 0;
    while index < characters.len()
        invariant
            index <= characters@.len(),
            characters@ == text@,
            result@ == lower_text(text@).take(index as int),
        decreases characters@.len() - index,
    {
        assert(lower_text(text@).take(index as int + 1) == lower_text(text@).take(
            index as int,
        ).push(lower_text(text@)[index as int]));
        result.push(lower_char(characters[index]));
        index += 1;
    }
    assert(lower_text(text@).take(text@.len() as int) == lower_text(text@));
    result
}

/// A text with its ASCII letters in upper case.
pub fn to_upper(text: &str) -> (result: String)
    ensures
        result@ == upper_text(text@),
{
    let characters = chars_of(text);
    let mut result = String::new();
    let mut index: usize = 0;
    while index < characters.len()
        invariant
            index <= characters@.len(),
            characters@ == text@,
            result@ == upper_text(text@).take(index as int),
        decreases characters@.len() - index,
    {
        assert(upper_text(text@).take(index as int + 1) == upper_text(text@).take(
            index as int,
        ).push(upper_text(text@)[index as int]));
        result.push(upper_char(characters[index]));
        index += 1;
    }
    assert(upper_text(text@).take(text@.len() as int) == upper_text(text@));
    result
}

/// Whether two texts differ at most in the case of ASCII letters.
pub fn same_ignoring_case(left: &str, right: &str) -> (same: bool)
    ensures
        same == (lower_text(left@) == lower_text(right@)),
{
    let left_lower = to_lower(left);
    let right_lower = to_lower(right);
    left_lower == right_lower
}

// ---------------------------------------------------------------------------------------------
// Searching and splitting
// ---------------------------------------------------------------------------------------------

/// The place of the first `c`, or the length where there is none.
pub open spec fn find(s: Seq<char>, c: char) -> int
    decreases s.len(),
{
    if s.len() == 0 || s[0] == c {
        0
    } else {
        1 + find(s.drop_first(), c)
    }
}

/// The place of the last `c`, or -1 where there is none.
pub open spec fn rfind(s: Seq<char>, c: char) -> int
    decreases s.len(),
{
    if s.len() == 0 {
        -1
    } else if s.last() == c {
        s.len() - 1
    } else {
        rfind(s.drop_last(), c)
    }
}

/// [`find`] is the one place with the character at it and nowhere before it.
pub proof fn find_is(s: Seq<char>, c: char, at: int)
    requires
        0 <= at <= s.len(),
        at < s.len() ==> s[at] == c,
        forall|i: int| 0 <= i < at ==> s[i] != c,
    ensures
        find(s, c) == at,
    decreases s.len(),
{
    if at > 0 {
        let rest = s.drop_first();
        assert forall|i: int| 0 <= i < at - 1 implies rest[i] != c by {
            assert(rest[i] == s[i + 1]);
        }
        find_is(rest, c, at - 1);
    }
}

/// What [`find`] promises of its result.
pub proof fn find_bounds(s: Seq<char>, c: char)
    ensures
        0 <= find(s, c) <= s.len(),
        find(s, c) < s.len() ==> s[find(s, c)] == c,
        forall|i: int| 0 <= i < find(s, c) ==> s[i] != c,
    decreases s.len(),
{
    if s.len() > 0 && s[0] != c {
        let rest = s.drop_first();
        find_bounds(rest, c);
        assert forall|i: int| 0 <= i < find(s, c) implies s[i] != c by {
            if i > 0 {
                assert(rest[i - 1] == s[i]);
            }
        }
    }
}

/// [`rfind`] is the one place with the character at it and nowhere behind it.
pub proof fn rfind_is(s: Seq<char>, c: char, at: int)
    requires
        -1 <= at < s.len(),
        at >= 0 ==> s[at] == c,
        forall|i: int| at < i < s.len() ==> s[i] != c,
    ensures
        rfind(s, c) == at,
    decreases s.len(),
{
    if s.len() > 0 && at < s.len() - 1 {
        let rest = s.drop_last();
        assert(s.last() == s[s.len() - 1]);
        rfind_is(rest, c, at);
    }
}

/// The place of the first `c`, or the length where there is none.
pub fn find_char(characters: &Vec<char>, c: char) -> (at: usize)
    ensures
        at as int == find(characters@, c),
        at <= characters@.len(),
        at < characters@.len() ==> characters@[at as int] == c,
{
    let mut index: usize = 0;
    while index < characters.len() && characters[index] != c
        invariant
            index <= characters@.len(),
            forall|i: int| 0 <= i < index ==> characters@[i] != c,
        decreases characters@.len() - index,
    {
        index += 1;
    }
    proof {
        find_is(characters@, c, index as int);
    }
    index
}

/// The place of the last `c`, if there is one.
pub fn rfind_char(characters: &Vec<char>, c: char) -> (at: Option<usize>)
    ensures
        match at {
            Some(place) => place as int == rfind(characters@, c) && place < characters@.len()
                && characters@[place as int] == c,
            None => rfind(characters@, c) == -1,
        },
{
    let mut index: usize = characters.len();
    while index > 0
        invariant
            index <= characters@.len(),
            forall|i: int| index <= i < characters@.len() ==> characters@[i] != c,
        decreases index,
    {
        index -= 1;
        if characters[index] == c {
            proof {
                rfind_is(characters@, c, index as int);
            }
            return Some(index);
        }
    }
    proof {
        rfind_is(characters@, c, -1);
    }
    None
}

/// Whether `prefix` stands at the start of `s`.
pub open spec fn starts_with(s: Seq<char>, prefix: Seq<char>) -> bool {
    prefix.len() <= s.len() && s.take(prefix.len() as int) == prefix
}

/// Whether `prefix` stands at the start of the characters.
pub fn has_prefix(characters: &Vec<char>, prefix: &str) -> (result: Option<usize>)
    ensures
        match result {
            Some(length) => starts_with(characters@, prefix@) && length == prefix@.len() && length
                <= characters@.len(),
            None => !starts_with(characters@, prefix@),
        },
{
    let wanted = chars_of(prefix);
    if wanted.len() > characters.len() {
        return None;
    }
    let mut index: usize = 0;
    while index < wanted.len()
        invariant
            index <= wanted@.len() <= characters@.len(),
            wanted@ == prefix@,
            forall|i: int| 0 <= i < index ==> characters@[i] == prefix@[i],
        decreases wanted@.len() - index,
    {
        if characters[index] != wanted[index] {
            assert(characters@.take(prefix@.len() as int)[index as int] != prefix@[index as int]);
            return None;
        }
        index += 1;
    }
    assert(characters@.take(prefix@.len() as int) =~= prefix@);
    Some(wanted.len())
}

/// The parts of a text that the separator leaves between, one more than there are separators.
pub open spec fn split_on(s: Seq<char>, separator: char) -> Seq<Seq<char>>
    decreases s.len(),
{
    if s.len() == 0 {
        seq![Seq::empty()]
    } else {
        let before = split_on(s.drop_last(), separator);
        if s.last() == separator {
            before.push(Seq::empty())
        } else {
            before.drop_last().push(before.last().push(s.last()))
        }
    }
}

/// There is always at least one part.
pub proof fn split_is_never_empty(s: Seq<char>, separator: char)
    ensures
        split_on(s, separator).len() > 0,
    decreases s.len(),
{
    if s.len() > 0 {
        split_is_never_empty(s.drop_last(), separator);
    }
}

/// What holds no separator only makes the last part longer.
pub proof fn split_of_appended(front: Seq<char>, name: Seq<char>, separator: char)
    requires
        forall|i: int| 0 <= i < name.len() ==> #[trigger] name[i] != separator,
    ensures
        split_on(front + name, separator) == split_on(front, separator).drop_last().push(
            split_on(front, separator).last() + name,
        ),
        split_on(front, separator).len() > 0,
    decreases front.len() + name.len(),
{
    if name.len() == 0 {
        assert(front + name =~= front);
        split_is_never_empty(front, separator);
        let pieces = split_on(front, separator);
        assert(pieces.last() + name =~= pieces.last());
        assert(pieces.drop_last().push(pieces.last()) =~= pieces);
    } else {
        let head = name.drop_last();
        let whole = front + name;
        split_of_appended(front, head, separator);
        assert(whole.drop_last() =~= front + head);
        assert(whole.last() == name.last());
        let pieces = split_on(front, separator);
        let before = split_on(front + head, separator);
        assert(before.drop_last() =~= pieces.drop_last());
        assert((pieces.last() + head).push(name.last()) =~= pieces.last() + name);
    }
}

/// A separator at the end starts an empty part.
pub proof fn split_ends_empty_after_separator(s: Seq<char>, separator: char)
    requires
        s.len() > 0,
        s.last() == separator,
    ensures
        split_on(s, separator) == split_on(s.drop_last(), separator).push(Seq::empty()),
{
}

/// No part holds the separator.
pub proof fn pieces_hold_no_separator(s: Seq<char>, separator: char)
    ensures
        forall|i: int, j: int|
            #![trigger split_on(s, separator)[i][j]]
            0 <= i < split_on(s, separator).len() && 0 <= j < split_on(s, separator)[i].len()
                ==> split_on(s, separator)[i][j] != separator,
    decreases s.len(),
{
    if s.len() > 0 {
        pieces_hold_no_separator(s.drop_last(), separator);
        split_is_never_empty(s.drop_last(), separator);
        let before = split_on(s.drop_last(), separator);
        let after = split_on(s, separator);
        assert forall|i: int, j: int| #![trigger after[i][j]]
            0 <= i < after.len() && 0 <= j < after[i].len() implies after[i][j] != separator by {
            if i < before.len() - 1 || (i < before.len() && s.last() == separator) {
                assert(after[i] == before[i]);
                assert(before[i][j] != separator);
            } else if s.last() != separator && j < before.last().len() {
                assert(after[i] == before.last().push(s.last()));
                assert(before[before.len() - 1][j] != separator);
            }
        }
    }
}

/// Every character of a part is one of the text.
pub proof fn pieces_are_made_of_the_text(s: Seq<char>, separator: char, i: int, j: int)
    requires
        0 <= i < split_on(s, separator).len(),
        0 <= j < split_on(s, separator)[i].len(),
    ensures
        s.contains(split_on(s, separator)[i][j]),
    decreases s.len(),
{
    if s.len() > 0 {
        let front = s.drop_last();
        let before = split_on(front, separator);
        split_is_never_empty(front, separator);
        if i < before.len() && j < before[i].len() {
            pieces_are_made_of_the_text(front, separator, i, j);
            let k = choose|k: int| 0 <= k < front.len() && front[k] == before[i][j];
            assert(s[k] == before[i][j]);
        } else {
            assert(s[s.len() - 1] == split_on(s, separator)[i][j]);
        }
    }
}

/// A line without the carriage return that stands before its line feed.
pub open spec fn without_return(line: Seq<char>) -> Seq<char> {
    if line.len() > 0 && line.last() == '\r' {
        line.drop_last()
    } else {
        line
    }
}

/// The lines of a text. A line ends at a line feed, with or without a carriage return before it;
/// the end of the text ends the last line, and an empty last line is none.
pub open spec fn lines(s: Seq<char>) -> Seq<Seq<char>> {
    let parts = split_on(s, '\n');
    let ended = Seq::new((parts.len() - 1) as nat, |i: int| without_return(parts[i]));
    if parts.last().len() == 0 {
        ended
    } else {
        ended.push(parts.last())
    }
}

/// The fields of a text: its longest runs of characters that are not white space.
pub open spec fn fields(s: Seq<char>) -> Seq<Seq<char>>
    decreases s.len(),
{
    if s.len() == 0 {
        Seq::empty()
    } else {
        let before = fields(s.drop_last());
        if is_white(s.last()) {
            before
        } else if s.len() >= 2 && !is_white(s[s.len() - 2]) {
            before.drop_last().push(before.last().push(s.last()))
        } else {
            before.push(seq![s.last()])
        }
    }
}

/// The views of a list of texts.
pub open spec fn texts(list: Seq<String>) -> Seq<Seq<char>> {
    Seq::new(list.len(), |i: int| list[i]@)
}

proof fn fields_end_in_the_last_run(s: Seq<char>)
    ensures
        s.len() > 0 && !is_white(s.last()) ==> fields(s).len() > 0,
    decreases s.len(),
{
    if s.len() > 0 {
        fields_end_in_the_last_run(s.drop_last());
    }
}

/// What the separator leaves between.
pub fn split_text(text: &str, separator: char) -> (result: Vec<String>)
    ensures
        texts(result@) == split_on(text@, separator),
        result@.len() > 0,
{
    let characters = chars_of(text);
    let mut result: Vec<String> = Vec::new();
    let mut current = String::new();
    let mut index: usize = 0;
    assert(text@.take(0) =~= Seq::<char>::empty());
    assert(texts(result@).push(current@) =~= split_on(text@.take(0), separator));
    while index < characters.len()
        invariant
            index <= characters@.len(),
            characters@ == text@,
            texts(result@).push(current@) == split_on(text@.take(index as int), separator),
        decreases characters@.len() - index,
    {
        let character: char = characters[index];
        let ghost upto = text@.take(index as int + 1);
        let ghost before = texts(result@).push(current@);
        assert(upto.drop_last() == text@.take(index as int));
        assert(upto.last() == character);
        if character == separator {
            let ghost finished = current@;
            result.push(current);
            current = String::new();
            assert(texts(result@) =~= before);
            assert(texts(result@).push(current@) == split_on(upto, separator));
        } else {
            assert(before.drop_last() =~= texts(result@));
            assert(before.last() == current@);
            current.push(character);
            assert(texts(result@).push(current@) == split_on(upto, separator));
        }
        index += 1;
    }
    assert(text@.take(text@.len() as int) == text@);
    let ghost whole = texts(result@).push(current@);
    result.push(current);
    assert(texts(result@) =~= whole);
    result
}

/// The lines of a text.
pub fn lines_of(text: &str) -> (result: Vec<String>)
    ensures
        texts(result@) == lines(text@),
{
    let parts = split_text(text, '\n');
    let mut result: Vec<String> = Vec::new();
    let ghost wanted = Seq::new((parts@.len() - 1) as nat, |i: int| without_return(parts@[i]@));
    let mut index: usize = 0;
    while index < parts.len() - 1
        invariant
            index < parts@.len(),
            wanted == Seq::new((parts@.len() - 1) as nat, |i: int| without_return(parts@[i]@)),
            texts(result@) == wanted.take(index as int),
        decreases parts@.len() - index,
    {
        let line = chars_of(parts[index].as_str());
        let end: usize = if line.len() > 0 && line[line.len() - 1] == '\r' {
            line.len() - 1
        } else {
            line.len()
        };
        let ghost before = texts(result@);
        let cut = text_between(&line, 0, end);
        assert(cut@ =~= without_return(parts@[index as int]@));
        result.push(cut);
        assert(texts(result@) =~= before.push(cut@));
        assert(wanted.take(index as int + 1) =~= wanted.take(index as int).push(
            wanted[index as int],
        ));
        index += 1;
    }
    assert(wanted.take(wanted.len() as int) =~= wanted);
    let ghost split = split_on(text@, '\n');
    assert(wanted =~= Seq::new((split.len() - 1) as nat, |i: int| without_return(split[i])));
    let last: &String = &parts[parts.len() - 1];
    assert(split.last() == last@);
    if !last.as_str().is_empty() {
        let ghost before = texts(result@);
        result.push(last.clone());
        assert(texts(result@) =~= before.push(last@));
    }
    result
}

/// The fields of a text.
pub fn fields_of(text: &str) -> (result: Vec<String>)
    ensures
        texts(result@) == fields(text@),
{
    let characters = chars_of(text);
    let mut result: Vec<String> = Vec::new();
    let mut index: usize = 0;
    assert(text@.take(0) =~= Seq::<char>::empty());
    assert(texts(result@) =~= fields(text@.take(0)));
    while index < characters.len()
        invariant
            index <= characters@.len(),
            characters@ == text@,
            texts(result@) == fields(text@.take(index as int)),
        decreases characters@.len() - index,
    {
        let character: char = characters[index];
        let ghost upto = text@.take(index as int + 1);
        assert(upto.drop_last() == text@.take(index as int));
        assert(upto.last() == character);
        if !char_is_white(character) {
            let ghost before = texts(result@);
            if index >= 1 && !char_is_white(characters[index - 1]) {
                proof {
                    fields_end_in_the_last_run(upto.drop_last());
                    assert(upto.drop_last().last() == text@[index - 1]);
                    assert(upto[upto.len() - 2] == text@[index - 1]);
                    assert(before.len() == result@.len());
                }
                let ghost held = result@;
                match result.pop() {
                    Some(field) => {
                        let mut longer = field;
                        longer.push(character);
                        assert(texts(result@) =~= before.drop_last());
                        let ghost kept = texts(result@);
                        result.push(longer);
                        assert(texts(result@) =~= kept.push(longer@));
                    },
                    None => {},
                }
            } else {
                let mut field = String::new();
                field.push(character);
                assert(field@ =~= seq![character]);
                result.push(field);
                assert(texts(result@) =~= before.push(field@));
            }
        }
        index += 1;
    }
    assert(text@.take(text@.len() as int) == text@);
    result
}

// ---------------------------------------------------------------------------------------------
// What holds of every text
// ---------------------------------------------------------------------------------------------

/// The last place of a character is one where it stands, and it stands nowhere behind it.
pub proof fn rfind_bounds(s: Seq<char>, c: char)
    ensures
        -1 <= rfind(s, c) < s.len(),
        rfind(s, c) >= 0 ==> s[rfind(s, c)] == c,
        forall|i: int| rfind(s, c) < i < s.len() ==> s[i] != c,
    decreases s.len(),
{
    if s.len() > 0 && s.last() != c {
        let front = s.drop_last();
        rfind_bounds(front, c);
        assert forall|i: int| rfind(s, c) < i < s.len() implies s[i] != c by {
            if i < front.len() {
                assert(front[i] == s[i]);
            }
        }
    }
}

/// Trimming takes away white space at both ends and nothing else: what is left stands in the text,
/// starts and ends with other characters, and only white space stands before and behind it.
pub proof fn trimming_takes_only_white_space(s: Seq<char>) -> (ends: (int, int))
    ensures
        0 <= ends.0 <= ends.1 <= s.len(),
        trimmed(s) == s.subrange(ends.0, ends.1),
        forall|i: int| 0 <= i < ends.0 ==> is_white(#[trigger] s[i]),
        forall|i: int| ends.1 <= i < s.len() ==> is_white(#[trigger] s[i]),
        trimmed(s).len() > 0 ==> !is_white(trimmed(s)[0]) && !is_white(trimmed(s).last()),
        trimmed(trimmed(s)) == trimmed(s),
{
    let from = leading_white_space(s);
    let rest = trim_start(s);
    let upto = ending_white_space(rest);
    assert(trimmed(s) =~= s.subrange(from, from + upto));
    assert forall|i: int| from + upto <= i < s.len() implies is_white(#[trigger] s[i]) by {
        assert(rest[i - from] == s[i]);
    }
    if upto > 0 {
        assert(trimmed(s)[0] == rest[0]);
    }
    (from, from + upto)
}

proof fn leading_white_space(s: Seq<char>) -> (from: int)
    ensures
        0 <= from <= s.len(),
        trim_start(s) == s.subrange(from, s.len() as int),
        forall|i: int| 0 <= i < from ==> is_white(#[trigger] s[i]),
        trim_start(s).len() > 0 ==> !is_white(trim_start(s)[0]),
    decreases s.len(),
{
    if s.len() > 0 && is_white(s[0]) {
        let rest = s.drop_first();
        let from = leading_white_space(rest);
        assert forall|i: int| 0 <= i < from + 1 implies is_white(#[trigger] s[i]) by {
            if i > 0 {
                assert(rest[i - 1] == s[i]);
            }
        }
        assert(trim_start(s) =~= s.subrange(from + 1, s.len() as int));
        from + 1
    } else {
        assert(s =~= s.subrange(0, s.len() as int));
        0
    }
}

proof fn ending_white_space(s: Seq<char>) -> (upto: int)
    ensures
        0 <= upto <= s.len(),
        trim_end(s) == s.take(upto),
        forall|i: int| upto <= i < s.len() ==> is_white(#[trigger] s[i]),
        trim_end(s).len() > 0 ==> !is_white(trim_end(s).last()),
    decreases s.len(),
{
    if s.len() > 0 && is_white(s.last()) {
        let front = s.drop_last();
        let upto = ending_white_space(front);
        assert forall|i: int| upto <= i < s.len() implies is_white(#[trigger] s[i]) by {
            if i < front.len() {
                assert(front[i] == s[i]);
            }
        }
        assert(trim_end(s) =~= s.take(upto));
        upto
    } else {
        assert(s =~= s.take(s.len() as int));
        s.len() as int
    }
}

proof fn scanned_digits_are_digits(s: Seq<char>, max: nat)
    requires
        scan_digits(s, max) is Ok,
    ensures
        all_digits(s),
        scan_digits(s, max) == Ok::<nat, ParseFault>(digits_value(s)),
        s.len() > 0 ==> digits_value(s) <= max,
    decreases s.len(),
{
    if s.len() > 0 {
        let front = s.drop_last();
        scanned_digits_are_digits(front, max);
        assert forall|i: int| 0 <= i < s.len() implies is_digit(#[trigger] s[i]) by {
            if i < front.len() {
                assert(front[i] == s[i]);
            }
        }
    }
}

/// A text reads as a number exactly where it is a run of digits within the bound, with one plus sign
/// before it at most, and then as the number that the digits spell; so every number reads back from
/// its decimal text.
pub proof fn number_is_what_its_digits_spell(s: Seq<char>, n: nat, max: nat)
    ensures
        ({
            let digits = if s.len() > 0 && s[0] == '+' {
                s.drop_first()
            } else {
                s
            };
            let spelled = digits.len() > 0 && all_digits(digits) && digits_value(digits) <= max;
            &&& parse_unsigned(s, max) is Ok <==> spelled
            &&& spelled ==> parse_unsigned(s, max) == Ok::<nat, ParseFault>(digits_value(digits))
        }),
        n <= max ==> parse_unsigned(decimal(n), max) == Ok::<nat, ParseFault>(n),
{
    let digits = if s.len() > 0 && s[0] == '+' {
        s.drop_first()
    } else {
        s
    };
    if all_digits(digits) {
        scan_of_digits(digits, max);
    }
    if scan_digits(digits, max) is Ok {
        scanned_digits_are_digits(digits, max);
    }
    decimal_reads_back(n);
    assert(is_digit(decimal(n)[0]));
    scan_of_digits(decimal(n), max);
}

/// Pieces with a separator between each two.
pub open spec fn rejoined(pieces: Seq<Seq<char>>, separator: char) -> Seq<char>
    decreases pieces.len(),
{
    if pieces.len() == 0 {
        Seq::empty()
    } else if pieces.len() == 1 {
        pieces[0]
    } else {
        rejoined(pieces.drop_last(), separator).push(separator) + pieces.last()
    }
}

/// Splitting takes nothing away but the separators: with them between the pieces, the text is whole
/// again.
pub proof fn split_text_is_rejoined(s: Seq<char>, separator: char)
    ensures
        rejoined(split_on(s, separator), separator) == s,
    decreases s.len(),
{
    let pieces = split_on(s, separator);
    if s.len() == 0 {
        assert(rejoined(pieces, separator) =~= s);
    } else {
        let front = s.drop_last();
        let before = split_on(front, separator);
        split_text_is_rejoined(front, separator);
        split_is_never_empty(front, separator);
        assert(front.push(s.last()) =~= s);
        if s.last() == separator {
            assert(pieces.drop_last() =~= before);
            assert(rejoined(pieces, separator) =~= s);
        } else {
            assert(pieces.drop_last() =~= before.drop_last());
            assert(pieces.last() == before.last().push(s.last()));
            if pieces.len() == 1 {
                assert(before =~= seq![before.last()]);
                assert(rejoined(pieces, separator) =~= s);
            } else {
                assert(rejoined(pieces, separator) =~= rejoined(before, separator).push(s.last()));
            }
        }
    }
}

/// Two texts agree without regard to case exactly where they agree at each place but for the case of
/// an ASCII letter.
pub proof fn case_is_all_that_is_disregarded(left: Seq<char>, right: Seq<char>)
    ensures
        lower_text(left) == lower_text(right) <==> left.len() == right.len() && forall|i: int|
            0 <= i < left.len() ==> #[trigger] left[i] == right[i] || (is_ascii_letter(left[i])
                && is_ascii_letter(right[i]) && (left[i] as int - right[i] as int == 32
                || right[i] as int - left[i] as int == 32)),
{
    let (low, other) = (lower_text(left), lower_text(right));
    if low == other {
        assert(low.len() == left.len() && other.len() == right.len());
        assert forall|i: int| 0 <= i < left.len() implies #[trigger] left[i] == right[i] || (
        is_ascii_letter(left[i]) && is_ascii_letter(right[i]) && (left[i] as int - right[i] as int
            == 32 || right[i] as int - left[i] as int == 32)) by {
            assert(low[i] == ascii_lower(left[i]));
            assert(other[i] == ascii_lower(right[i]));
        }
    }
    if left.len() == right.len() && forall|i: int|
        0 <= i < left.len() ==> #[trigger] left[i] == right[i] || (is_ascii_letter(left[i])
            && is_ascii_letter(right[i]) && (left[i] as int - right[i] as int == 32
            || right[i] as int - left[i] as int == 32)) {
        assert(low =~= other);
    }
}

/// White space at the end of a text adds no field, and a word behind white space adds itself: the
/// fields are the words, in their order, whatever white space stands between them.
pub proof fn fields_are_the_words(front: Seq<char>, white: char, word: Seq<char>)
    requires
        is_white(white),
        word.len() > 0,
        forall|i: int| 0 <= i < word.len() ==> !is_white(#[trigger] word[i]),
    ensures
        fields(front.push(white)) == fields(front),
        fields(word) == seq![word],
        fields(front.push(white) + word) == fields(front).push(word),
    decreases word.len(),
{
    assert(front.push(white).drop_last() =~= front);
    let head = word.drop_last();
    let whole = front.push(white) + word;
    assert(whole.last() == word.last());
    assert(!is_white(word[word.len() - 1]));
    if head.len() == 0 {
        assert(head =~= Seq::empty());
        assert(fields(head) =~= Seq::empty());
        assert(seq![word.last()] =~= word);
        assert(whole.drop_last() =~= front.push(white));
        assert(whole[whole.len() - 2] == white);
        assert(Seq::<Seq<char>>::empty().push(word) =~= seq![word]);
    } else {
        assert forall|i: int| 0 <= i < head.len() implies !is_white(#[trigger] head[i]) by {
            assert(head[i] == word[i]);
        }
        fields_are_the_words(front, white, head);
        assert(whole.drop_last() =~= front.push(white) + head);
        assert(!is_white(word[word.len() - 2]));
        assert(whole[whole.len() - 2] == word[word.len() - 2]);
        assert(head.push(word.last()) =~= word);
        let one = fields(head);
        assert(one.drop_last().push(one.last().push(word.last())) =~= seq![word]);
        let before = fields(front.push(white) + head);
        assert(before =~= fields(front).push(head));
        assert(before.drop_last() =~= fields(front));
    }
}

/// A line that is ended, with or without a carriage return, is a line of the text behind those
/// before it; and what stands behind the last line feed is one too, unless it is empty.
pub proof fn ended_lines_are_the_lines(front: Seq<char>, line: Seq<char>)
    requires
        front.len() == 0 || front.last() == '\n',
        forall|i: int| 0 <= i < line.len() ==> #[trigger] line[i] != '\n',
    ensures
        lines(front + line.push('\n')) == lines(front).push(without_return(line)),
        line.len() > 0 ==> lines(front + line) == lines(front).push(line),
        line.len() == 0 ==> lines(front + line) == lines(front),
        line.len() > 0 && line.last() == '\r' ==> without_return(line) == line.drop_last(),
        !(line.len() > 0 && line.last() == '\r') ==> without_return(line) == line,
{
    split_of_appended(front, line, '\n');
    let pieces = split_on(front, '\n');
    assert(pieces.last().len() == 0) by {
        if front.len() > 0 {
            split_ends_empty_after_separator(front, '\n');
        }
    }
    assert(pieces.last() + line =~= line);
    let whole = split_on(front + line, '\n');
    assert(whole =~= pieces.drop_last().push(line));
    let ended = front + line.push('\n');
    assert(ended.drop_last() =~= front + line);
    split_ends_empty_after_separator(ended, '\n');
    let parts = split_on(ended, '\n');
    assert(parts =~= whole.push(Seq::empty()));
    assert(lines(ended) =~= lines(front).push(without_return(line)));
    if line.len() > 0 {
        assert(lines(front + line) =~= lines(front).push(line));
    } else {
        assert(front + line =~= front);
    }
}

/// A text starts with a prefix exactly where it is that prefix with something behind it.
pub proof fn prefix_stands_before_the_rest(s: Seq<char>, prefix: Seq<char>)
    ensures
        starts_with(s, prefix) <==> prefix.len() <= s.len() && s == prefix + s.subrange(
            prefix.len() as int,
            s.len() as int,
        ),
        starts_with(prefix + s, prefix),
{
    if starts_with(s, prefix) {
        assert(s =~= s.take(prefix.len() as int) + s.subrange(
            prefix.len() as int,
            s.len() as int,
        ));
    }
    if prefix.len() <= s.len() && s == prefix + s.subrange(prefix.len() as int, s.len() as int) {
        assert(s.take(prefix.len() as int) =~= prefix);
    }
    assert((prefix + s).take(prefix.len() as int) =~= prefix);
}

} // verus!
