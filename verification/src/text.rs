//! Text primitives shared by the formatter and the middleware: numerals of
//! base 16 and base 10, quotation, comparison without regard to case, and
//! character-wise access to strings.

use vstd::prelude::*;
use vstd::std_specs::iter::IteratorSpec;

verus! {

/// `std::string::String::push` appends exactly the given character.
pub assume_specification[ String::push ](s: &mut String, c: char)
    ensures
        final(s)@ == old(s)@.push(c),
;

/// What `std`'s lossy decoding makes of a byte sequence: the text that the
/// bytes encode in UTF-8, with U+FFFD in place of each ill-formed part.
pub uninterp spec fn utf8_lossy(bytes: Seq<u8>) -> Seq<char>;

/// Calls `String::from_utf8_lossy` and copies the result. The result is
/// named, not described: how an ill-formed sequence is cut into replacement
/// characters is `std`'s.
#[verifier::external_body]
pub(crate) fn decode_lossy(bytes: &[u8]) -> (out: String)
    ensures
        out@ == utf8_lossy(bytes@),
{
    String::from_utf8_lossy(bytes).into_owned()
}

/// The digit that stands for `d` in a base up to 16, letters in lower case.
pub open spec fn digit(d: int) -> char {
    if d == 0 { '0' }
    else if d == 1 { '1' }
    else if d == 2 { '2' }
    else if d == 3 { '3' }
    else if d == 4 { '4' }
    else if d == 5 { '5' }
    else if d == 6 { '6' }
    else if d == 7 { '7' }
    else if d == 8 { '8' }
    else if d == 9 { '9' }
    else if d == 10 { 'a' }
    else if d == 11 { 'b' }
    else if d == 12 { 'c' }
    else if d == 13 { 'd' }
    else if d == 14 { 'e' }
    else { 'f' }
}

/// The shortest lowercase base-16 numeral of `n`: no leading zeros, and `"0"`
/// for zero.
pub open spec fn lower_hex(n: nat) -> Seq<char>
    decreases n,
{
    if n < 16 {
        seq![digit(n as int)]
    } else {
        lower_hex(n / 16).push(digit((n % 16) as int))
    }
}

/// The base-16 numeral of `n` in exactly `width` lowercase digits: padded
/// with zeros on the left, and cut to the low digits where `n` needs more.
pub open spec fn padded_hex(n: nat, width: nat) -> Seq<char>
    decreases width,
{
    if width == 0 {
        Seq::empty()
    } else {
        padded_hex(n / 16, (width - 1) as nat).push(digit((n % 16) as int))
    }
}

/// The shortest base-10 numeral of `n`.
pub open spec fn decimal(n: nat) -> Seq<char>
    decreases n,
{
    if n < 10 {
        seq![digit(n as int)]
    } else {
        decimal(n / 10).push(digit((n % 10) as int))
    }
}

/// The characters of `s`, in order.
pub fn chars_of(s: &str) -> (out: Vec<char>)
    ensures
        out@ == s@,
{
    broadcast use vstd::string::group_string_axioms;

    let mut out: Vec<char> = Vec::new();
    let mut rest = s.chars();
    loop
        invariant
            rest.obeys_prophetic_iter_laws(),
            rest.decrease() is Some,
            out@ + rest.remaining() == s@,
        ensures
            out@ == s@,
        decreases rest.decrease()->0,
    {
        let ghost before = rest;
        match rest.next() {
            Some(c) => {
                proof {
                    assert(before.remaining() == seq![c] + rest.remaining());
                }
                out.push(c);
            },
            None => {
                break;
            },
        }
    }
    out
}

/// The digit character for a value below 16.
fn digit_char(d: u8) -> (c: char)
    requires
        d < 16,
    ensures
        c == digit(d as int),
{
    if d == 0 { '0' }
    else if d == 1 { '1' }
    else if d == 2 { '2' }
    else if d == 3 { '3' }
    else if d == 4 { '4' }
    else if d == 5 { '5' }
    else if d == 6 { '6' }
    else if d == 7 { '7' }
    else if d == 8 { '8' }
    else if d == 9 { '9' }
    else if d == 10 { 'a' }
    else if d == 11 { 'b' }
    else if d == 12 { 'c' }
    else if d == 13 { 'd' }
    else if d == 14 { 'e' }
    else { 'f' }
}

/// Appends the characters of `digits` to `out`, last one first.
fn push_reversed(out: &mut String, digits: &Vec<char>)
    ensures
        final(out)@ == old(out)@ + digits@.reverse(),
{
    let mut i: usize = digits.len();
    while i > 0
        invariant
            i <= digits.len(),
            out@ == old(out)@ + digits@.reverse().take(digits.len() - i),
        decreases i,
    {
        i = i - 1;
        out.push(digits[i]);
        assert(digits@.reverse().take(digits.len() - i) == digits@.reverse().take(
            digits.len() - i - 1,
        ).push(digits@[i as int]));
    }
    assert(digits@.reverse().take(digits.len() as int) == digits@.reverse());
}

/// Renders `n` in base 16 with lowercase digits and no padding.
pub fn lower_hex_string(n: u128) -> (out: String)
    ensures
        out@ == lower_hex(n as nat),
{
    let mut digits: Vec<char> = Vec::new();
    let mut rest: u128 = n;
    while rest >= 16
        invariant
            lower_hex(n as nat) == lower_hex(rest as nat) + digits@.reverse(),
        decreases rest,
    {
        let d: u8 = (rest % 16) as u8;
        let ghost before = digits@;
        digits.push(digit_char(d));
        assert(digits@.reverse() == seq![digit(d as int)] + before.reverse());
        rest = rest / 16;
    }
    let mut out = String::new();
    out.push(digit_char(rest as u8));
    push_reversed(&mut out, &digits);
    out
}

/// Renders `n` in base 10.
pub fn decimal_string(n: u64) -> (out: String)
    ensures
        out@ == decimal(n as nat),
{
    let mut digits: Vec<char> = Vec::new();
    let mut rest: u64 = n;
    while rest >= 10
        invariant
            decimal(n as nat) == decimal(rest as nat) + digits@.reverse(),
        decreases rest,
    {
        let d: u8 = (rest % 10) as u8;
        let ghost before = digits@;
        digits.push(digit_char(d));
        assert(digits@.reverse() == seq![digit(d as int)] + before.reverse());
        rest = rest / 10;
    }
    let mut out = String::new();
    out.push(digit_char(rest as u8));
    push_reversed(&mut out, &digits);
    out
}

/// How one character is written between quotes: a double quote and a
/// backslash are preceded by a backslash; line feed, carriage return,
/// tabulator and the null character are written `\n`, `\r`, `\t` and `\0`;
/// any other ASCII control character is written as `\u{..}` with its code in
/// base 16; every other character stands for itself.
pub open spec fn escaped_char(c: char) -> Seq<char> {
    if c == '"' {
        seq!['\\', '"']
    } else if c == '\\' {
        seq!['\\', '\\']
    } else if c == '\n' {
        seq!['\\', 'n']
    } else if c == '\r' {
        seq!['\\', 'r']
    } else if c == '\t' {
        seq!['\\', 't']
    } else if c == '\0' {
        seq!['\\', '0']
    } else if (c as u32) < 32 || c as u32 == 127 {
        seq!['\\', 'u', '{'] + lower_hex(c as nat) + seq!['}']
    } else {
        seq![c]
    }
}

/// A text with each character written as between quotes.
pub open spec fn escaped(text: Seq<char>) -> Seq<char>
    decreases text.len(),
{
    if text.len() == 0 {
        Seq::empty()
    } else {
        escaped(text.drop_last()) + escaped_char(text.last())
    }
}

/// A text between double quotes, with its characters escaped. A quoted text
/// never holds a line feed.
pub open spec fn quoted(text: Seq<char>) -> Seq<char> {
    seq!['"'] + escaped(text) + seq!['"']
}

/// A text that holds no line feed.
pub open spec fn single_line(text: Seq<char>) -> bool {
    forall|i: int| 0 <= i < text.len() ==> text[i] != '\n'
}

/// Joining two texts without line feeds gives a text without line feeds, and
/// the other way round.
pub proof fn lemma_single_line_concat(a: Seq<char>, b: Seq<char>)
    ensures
        single_line(a + b) <==> single_line(a) && single_line(b),
{
    if single_line(a + b) {
        assert forall|i: int| 0 <= i < a.len() implies a[i] != '\n' by {
            assert((a + b)[i] == a[i]);
        }
        assert forall|i: int| 0 <= i < b.len() implies b[i] != '\n' by {
            assert((a + b)[a.len() + i] == b[i]);
        }
    }
}

/// A numeral of base 16 holds no line feed.
pub proof fn lemma_lower_hex_single_line(n: nat)
    ensures
        single_line(lower_hex(n)),
    decreases n,
{
    if n >= 16 {
        lemma_lower_hex_single_line(n / 16);
    }
}

/// A numeral of base 10 holds no line feed.
pub proof fn lemma_decimal_single_line(n: nat)
    ensures
        single_line(decimal(n)),
    decreases n,
{
    if n >= 10 {
        lemma_decimal_single_line(n / 10);
    }
}

/// Escaping takes the line feeds out of a text.
pub proof fn lemma_escaped_single_line(text: Seq<char>)
    ensures
        single_line(escaped(text)),
    decreases text.len(),
{
    if text.len() > 0 {
        lemma_escaped_single_line(text.drop_last());
        let c = text.last();
        lemma_lower_hex_single_line(c as nat);
        lemma_single_line_concat(seq!['\\', 'u', '{'], lower_hex(c as nat));
        lemma_single_line_concat(seq!['\\', 'u', '{'] + lower_hex(c as nat), seq!['}']);
        assert(single_line(escaped_char(c)));
        lemma_single_line_concat(escaped(text.drop_last()), escaped_char(c));
    }
}

/// A quoted text is a single line, whatever was quoted.
pub proof fn lemma_quoted_single_line(text: Seq<char>)
    ensures
        single_line(quoted(text)),
{
    lemma_escaped_single_line(text);
    lemma_single_line_concat(seq!['"'], escaped(text));
    lemma_single_line_concat(seq!['"'] + escaped(text), seq!['"']);
}

/// Appends one character, escaped, to a text under construction.
fn push_escaped(out: &mut String, c: char)
    ensures
        final(out)@ == old(out)@ + escaped_char(c),
{
    if c == '"' {
        out.push('\\');
        out.push('"');
    } else if c == '\\' {
        out.push('\\');
        out.push('\\');
    } else if c == '\n' {
        out.push('\\');
        out.push('n');
    } else if c == '\r' {
        out.push('\\');
        out.push('r');
    } else if c == '\t' {
        out.push('\\');
        out.push('t');
    } else if c == '\0' {
        out.push('\\');
        out.push('0');
    } else if (c as u32) < 32 || c as u32 == 127 {
        out.push('\\');
        out.push('u');
        out.push('{');
        let code = lower_hex_string(c as u128);
        out.append(code.as_str());
        out.push('}');
    } else {
        out.push(c);
    }
    assert(out@ =~= old(out)@ + escaped_char(c));
}

/// Writes a text between double quotes, escaping what would break the
/// quotation or the line.
pub fn quote(text: &str) -> (out: String)
    ensures
        out@ == quoted(text@),
{
    let chars = chars_of(text);
    let mut out = String::new();
    out.push('"');
    let mut i: usize = 0;
    while i < chars.len()
        invariant
            i <= chars.len(),
            out@ == seq!['"'] + escaped(chars@.take(i as int)),
        decreases chars.len() - i,
    {
        push_escaped(&mut out, chars[i]);
        assert(chars@.take(i + 1).drop_last() == chars@.take(i as int));
        assert(chars@.take(i + 1).last() == chars@[i as int]);
        assert(out@ =~= seq!['"'] + escaped(chars@.take(i + 1)));
        i = i + 1;
    }
    assert(chars@.take(i as int) == chars@);
    out.push('"');
    out
}

/// `c` with an ASCII capital letter replaced by its small letter.
pub open spec fn ascii_lower(c: char) -> char {
    if 'A' <= c && c <= 'Z' {
        ((c as u8) + 32) as u8 as char
    } else {
        c
    }
}

/// Whether two texts are equal when ASCII letters are compared without case.
pub open spec fn same_ignoring_ascii_case(a: Seq<char>, b: Seq<char>) -> bool {
    a.len() == b.len() && forall|i: int| 0 <= i < a.len() ==> ascii_lower(#[trigger] a[i])
        == ascii_lower(b[i])
}

/// Equality without regard to ASCII case is an equivalence: every text
/// equals itself, and two texts that equal a third equal each other.
pub proof fn lemma_same_ignoring_case_is_equivalence(a: Seq<char>, b: Seq<char>, c: Seq<char>)
    ensures
        same_ignoring_ascii_case(a, a),
        same_ignoring_ascii_case(a, b) ==> same_ignoring_ascii_case(b, a),
        same_ignoring_ascii_case(a, b) && same_ignoring_ascii_case(b, c)
            ==> same_ignoring_ascii_case(a, c),
{
    if same_ignoring_ascii_case(a, b) {
        assert forall|i: int| 0 <= i < b.len() implies ascii_lower(#[trigger] b[i]) == ascii_lower(
            a[i],
        ) by {
            assert(ascii_lower(a[i]) == ascii_lower(b[i]));
        }
        if same_ignoring_ascii_case(b, c) {
            assert forall|i: int| 0 <= i < a.len() implies ascii_lower(#[trigger] a[i])
                == ascii_lower(c[i]) by {
                assert(ascii_lower(b[i]) == ascii_lower(c[i]));
            }
        }
    }
}

/// Folds an ASCII capital letter to its small letter and keeps any other
/// character.
pub fn to_ascii_lower(c: char) -> (out: char)
    ensures
        out == ascii_lower(c),
{
    if c >= 'A' && c <= 'Z' {
        ((c as u8) + 32) as char
    } else {
        c
    }
}

/// Compares two sequences of characters without regard to ASCII case.
pub fn eq_ignore_ascii_case(a: &Vec<char>, b: &Vec<char>) -> (same: bool)
    ensures
        same == same_ignoring_ascii_case(a@, b@),
{
    if a.len() != b.len() {
        return false;
    }
    let mut i: usize = 0;
    while i < a.len()
        invariant
            a.len() == b.len(),
            i <= a.len(),
            forall|j: int| 0 <= j < i ==> ascii_lower(#[trigger] a@[j]) == ascii_lower(b@[j]),
        decreases a.len() - i,
    {
        if to_ascii_lower(a[i]) != to_ascii_lower(b[i]) {
            return false;
        }
        i = i + 1;
    }
    true
}

} // verus!
