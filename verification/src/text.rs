//! Text that the shell computes: numbers, replacements and the lines of a script.

use vstd::prelude::*;
use vstd::string::*;

verus! {

/// `String::push` of std: appends one character to the end of the string.
pub assume_specification[ String::push ](text: &mut String, c: char)
    ensures
        final(text)@ == old(text)@.push(c),
;

/// The character of a decimal digit.
pub open spec fn digit(d: int) -> char {
    ('0' as int + d) as char
}

/// The texts of a sequence of strings.
pub open spec fn string_views(strings: Seq<String>) -> Seq<Seq<char>> {
    strings.map_values(|s: String| s@)
}

/// The texts of strings are as many as the strings, and each is that of the string in its place.
pub proof fn lemma_string_views_by_position(strings: Seq<String>)
    ensures
        string_views(strings).len() == strings.len(),
        forall|i: int| 0 <= i < strings.len() ==> #[trigger] string_views(strings)[i] == strings[i]@,
{
}

/// A natural number in decimal notation, without leading zeros.
pub open spec fn decimal(n: nat) -> Seq<char>
    decreases n,
{
    if n < 10 {
        seq![digit(n as int)]
    } else {
        decimal(n / 10).push(digit((n % 10) as int))
    }
}

/// An integer in decimal notation, with a sign only when it is negative.
pub open spec fn signed_decimal(i: int) -> Seq<char> {
    if i < 0 {
        seq!['-'] + decimal((-i) as nat)
    } else {
        decimal(i as nat)
    }
}

/// A natural number in decimal notation, filled up with zeros on the left to `width` characters.
pub open spec fn zero_padded(n: nat, width: nat) -> Seq<char> {
    let digits = decimal(n);
    let missing = if digits.len() < width {
        (width - digits.len()) as nat
    } else {
        0
    };
    Seq::new(missing, |i: int| '0') + digits
}

/// The number that a sequence of decimal digits denotes.
pub open spec fn decimal_value(text: Seq<char>) -> int
    decreases text.len(),
{
    if text.len() == 0 {
        0
    } else {
        10 * decimal_value(text.drop_last()) + (text.last() as int - '0' as int)
    }
}

/// Reading a number's decimal notation gives the number back, and the notation holds digits only.
pub proof fn lemma_decimal_reads_back(n: nat)
    ensures
        decimal_value(decimal(n)) == n,
        decimal(n).len() > 0,
        forall|i: int| 0 <= i < decimal(n).len() ==> '0' <= #[trigger] decimal(n)[i] <= '9',
    decreases n,
{
    reveal_with_fuel(decimal_value, 2);
    if n < 10 {
        assert(decimal(n).drop_last() =~= Seq::<char>::empty());
    } else {
        lemma_decimal_reads_back(n / 10);
        assert(decimal(n).drop_last() =~= decimal(n / 10));
    }
}

/// Two different integers never share a decimal notation.
pub proof fn lemma_signed_decimal_injective(a: int, b: int)
    requires
        signed_decimal(a) == signed_decimal(b),
    ensures
        a == b,
{
    let abs_a = if a < 0 { (-a) as nat } else { a as nat };
    let abs_b = if b < 0 { (-b) as nat } else { b as nat };
    lemma_decimal_reads_back(abs_a);
    lemma_decimal_reads_back(abs_b);
    if a < 0 {
        assert(signed_decimal(a)[0] == '-');
        assert(signed_decimal(a).skip(1) =~= decimal(abs_a));
    } else {
        assert('0' <= decimal(abs_a)[0]);
    }
    if b < 0 {
        assert(signed_decimal(b)[0] == '-');
        assert(signed_decimal(b).skip(1) =~= decimal(abs_b));
    } else {
        assert('0' <= decimal(abs_b)[0]);
    }
}

/// The decimal notation of a number below ten is its digit, and that of a larger number is the
/// notation of its tens followed by the digit of its ones.
pub proof fn lemma_decimal_by_digits(tens: nat, ones: nat)
    requires
        ones < 10,
    ensures
        decimal(ones) == seq![(48 + ones) as char],
        tens > 0 ==> decimal(10 * tens + ones) == decimal(tens).push((48 + ones) as char),
{
    assert((10 * tens + ones) / 10 == tens);
    assert((10 * tens + ones) % 10 == ones);
}

/// The number that a text denotes: nothing denotes zero, and a further digit makes ten times as much
/// and the digit.
pub proof fn lemma_decimal_value_by_digits(text: Seq<char>, ones: nat)
    requires
        ones < 10,
    ensures
        decimal_value(Seq::empty()) == 0,
        decimal_value(text.push((48 + ones) as char)) == 10 * decimal_value(text) + ones,
{
    assert(text.push((48 + ones) as char).drop_last() =~= text);
}

/// A negative number has a minus sign before the notation of its amount, and no other number has a
/// sign.
pub proof fn lemma_sign_only_when_negative(i: int)
    ensures
        i >= 0 ==> signed_decimal(i) == decimal(i as nat),
        i < 0 ==> {
            let amount = decimal((-i) as nat);
            &&& signed_decimal(i).len() == amount.len() + 1
            &&& signed_decimal(i)[0] == '-'
            &&& forall|k: int|
                0 <= k < amount.len() ==> signed_decimal(i)[k + 1] == #[trigger] amount[k]
        },
{
}

/// A number is filled up to the width with zeros, which stand before its notation and change nothing
/// of its value. One that is wide enough is left alone.
pub proof fn lemma_zero_padded_reads_back(n: nat, width: nat)
    ensures
        decimal_value(zero_padded(n, width)) == n,
        decimal(n).len() >= width ==> zero_padded(n, width) == decimal(n),
        decimal(n).len() < width ==> {
            let missing = width - decimal(n).len();
            &&& zero_padded(n, width).len() == width
            &&& forall|k: int| 0 <= k < missing ==> #[trigger] zero_padded(n, width)[k] == '0'
            &&& forall|k: int|
                0 <= k < decimal(n).len() ==> zero_padded(n, width)[missing + k]
                    == #[trigger] decimal(n)[k]
        },
{
    lemma_decimal_reads_back(n);
    let digits = decimal(n);
    if digits.len() < width {
        lemma_leading_zeros((width - digits.len()) as nat, digits);
    } else {
        assert(zero_padded(n, width) =~= digits);
    }
}

/// Zeros on the left do not change the number that a text denotes.
proof fn lemma_leading_zeros(count: nat, digits: Seq<char>)
    ensures
        decimal_value(Seq::new(count, |i: int| '0') + digits) == decimal_value(digits),
    decreases count + digits.len(),
{
    let text = Seq::new(count, |i: int| '0') + digits;
    if digits.len() > 0 {
        lemma_leading_zeros(count, digits.drop_last());
        assert(text.drop_last() =~= Seq::new(count, |i: int| '0') + digits.drop_last());
    } else if count > 0 {
        let fewer = (count - 1) as nat;
        lemma_leading_zeros(fewer, digits);
        assert(text.drop_last() =~= Seq::new(fewer, |i: int| '0') + digits);
    } else {
        assert(text =~= digits);
    }
}

/// A number of nanoseconds below one second fills up to exactly nine digits.
pub proof fn lemma_nine_digits(n: nat)
    requires
        n < 1_000_000_000,
    ensures
        zero_padded(n, 9).len() == 9,
{
    reveal_with_fuel(decimal, 10);
}

/// The decimal notation of `n`.
pub fn decimal_text(n: u64) -> (text: String)
    ensures
        text@ == decimal(n as nat),
    decreases n,
{
    let d: u8 = (n % 10) as u8;
    let mut text = if n < 10 {
        String::new()
    } else {
        decimal_text(n / 10)
    };
    text.push((48u8 + d) as char);
    assert(n < 10 ==> Seq::<char>::empty().push(digit(n as int)) =~= seq![digit(n as int)]);
    text
}

/// The decimal notation of `i`.
pub fn signed_decimal_text(i: i32) -> (text: String)
    ensures
        text@ == signed_decimal(i as int),
{
    if i < 0 {
        let mut text = String::new();
        text.push('-');
        let digits = decimal_text((-(i as i64)) as u64);
        text.append(digits.as_str());
        assert(Seq::<char>::empty().push('-') =~= seq!['-']);
        text
    } else {
        decimal_text(i as u64)
    }
}

/// The decimal notation of `n`, filled up with zeros on the left to `width` characters.
pub fn zero_padded_text(n: u64, width: usize) -> (text: String)
    ensures
        text@ == zero_padded(n as nat, width as nat),
{
    let digits = decimal_text(n);
    let mut filled: usize = digits.as_str().unicode_len();
    let mut text = String::new();
    let ghost start = filled as int;
    while filled < width
        invariant
            start <= filled,
            filled <= width || filled == start,
            text@ =~= Seq::new((filled - start) as nat, |i: int| '0'),
        decreases width - filled,
    {
        text.push('0');
        filled = filled + 1;
    }
    text.append(digits.as_str());
    text
}

/// A text with every occurrence of one character replaced by another.
pub open spec fn replaced(text: Seq<char>, old_char: char, new_char: char) -> Seq<char> {
    text.map_values(
        |c: char|
            if c == old_char {
                new_char
            } else {
                c
            },
    )
}

/// A replacement keeps every position: the new character stands exactly where the old one stood, and
/// at every other position what stood there before.
pub proof fn lemma_replaced_by_position(text: Seq<char>, old_char: char, new_char: char)
    ensures
        replaced(text, old_char, new_char).len() == text.len(),
        forall|i: int|
            0 <= i < text.len() ==> #[trigger] replaced(text, old_char, new_char)[i] == (if text[i]
                == old_char {
                new_char
            } else {
                text[i]
            }),
{
}

/// Replaces every occurrence of `old_char` in `text` by `new_char`.
pub fn ascii_replace(text: &str, old_char: char, new_char: char) -> (result: String)
    ensures
        result@ == replaced(text@, old_char, new_char),
{
    let mut result = String::new();
    for c in it: text.chars()
        invariant
            it.seq() == text@,
            result@ =~= replaced(text@.take(it.index() as int), old_char, new_char),
    {
        if c == old_char {
            result.push(new_char);
        } else {
            result.push(c);
        }
    }
    assert(text@.take(text@.len() as int) =~= text@);
    result
}

/// A line without the carriage return that stands right before its line feed.
pub open spec fn without_carriage_return(line: Seq<char>) -> Seq<char> {
    if line.len() > 0 && line.last() == '\r' {
        line.drop_last()
    } else {
        line
    }
}

/// The lines of a text. A line ends at a line feed, or at a carriage return directly followed by a
/// line feed; the ending of the last line is optional.
pub open spec fn lines(text: Seq<char>) -> Seq<Seq<char>>
    decreases text.len(),
{
    if text.len() == 0 {
        Seq::empty()
    } else if !text.contains('\n') {
        seq![text]
    } else {
        let end = text.index_of_first('\n').unwrap();
        proof {
            text.index_of_first_ensures('\n');
        }
        seq![without_carriage_return(text.take(end))] + lines(text.skip(end + 1))
    }
}

/// The first line of a text that starts with `line` and a line feed.
proof fn lemma_first_line(line: Seq<char>, rest: Seq<char>)
    requires
        !line.contains('\n'),
    ensures
        lines(line.push('\n') + rest) == seq![without_carriage_return(line)] + lines(rest),
{
    let text = line.push('\n') + rest;
    assert(text[line.len() as int] == '\n');
    assert(text.contains('\n'));
    text.index_of_first_ensures('\n');
    let end = text.index_of_first('\n').unwrap();
    if end < line.len() {
        assert(line[end] == '\n');
    }
    assert(end == line.len());
    assert(text.take(end) =~= line);
    assert(text.skip(end + 1) =~= rest);
}

/// The lines of a text, from its start on: an empty text has none, a text without a line feed is one
/// line, and a text with one has what stands before it as its first line, less a carriage return at
/// its end, and then the lines of what stands after it.
pub proof fn lemma_lines_from_the_start(line: Seq<char>, rest: Seq<char>)
    requires
        !line.contains('\n'),
    ensures
        lines(Seq::empty()).len() == 0,
        line.len() > 0 ==> lines(line) == seq![line],
        line.len() > 0 && line.last() == '\r' ==> lines(line + seq!['\n'] + rest)
            == seq![line.drop_last()] + lines(rest),
        !(line.len() > 0 && line.last() == '\r') ==> lines(line + seq!['\n'] + rest) == seq![line]
            + lines(rest),
{
    lemma_first_line(line, rest);
    assert(line + seq!['\n'] + rest =~= line.push('\n') + rest);
}

/// No line holds a line feed.
pub proof fn lemma_lines_hold_no_line_feed(text: Seq<char>)
    ensures
        forall|i: int| 0 <= i < lines(text).len() ==> !(#[trigger] lines(text)[i]).contains('\n'),
    decreases text.len(),
{
    if text.contains('\n') {
        text.index_of_first_ensures('\n');
        let end = text.index_of_first('\n').unwrap();
        let first = without_carriage_return(text.take(end));
        if first.contains('\n') {
            let j = choose|j: int| 0 <= j < first.len() && first[j] == '\n';
            assert(text[j] == '\n');
        }
        lemma_lines_hold_no_line_feed(text.skip(end + 1));
        assert forall|i: int| 0 <= i < lines(text).len() implies !(#[trigger] lines(
            text,
        )[i]).contains('\n') by {
            if i > 0 {
                assert(lines(text)[i] == lines(text.skip(end + 1))[i - 1]);
            }
        }
    }
}

/// The ending of a line: a line feed, with a carriage return before it or without.
pub open spec fn line_end(with_return: bool) -> Seq<char> {
    if with_return {
        seq!['\r', '\n']
    } else {
        seq!['\n']
    }
}

/// The text that holds the given lines. `marks` says of each one whether its ending has a carriage
/// return, and `closed` whether the last one has an ending at all.
pub open spec fn written(script: Seq<Seq<char>>, marks: Seq<bool>, closed: bool) -> Seq<char>
    decreases script.len(),
{
    if script.len() == 0 {
        Seq::empty()
    } else if script.len() == 1 && !closed {
        script[0]
    } else {
        script[0] + line_end(marks[0]) + written(
            script.drop_first(),
            marks.drop_first(),
            closed,
        )
    }
}

/// Whether the lines can be told from their endings: none holds a line feed, a line that itself ends
/// in a carriage return has an ending with a carriage return of its own or none, and a last line
/// without an ending is not empty.
pub open spec fn is_writable(script: Seq<Seq<char>>, marks: Seq<bool>, closed: bool) -> bool {
    &&& marks.len() == script.len()
    &&& forall|i: int| 0 <= i < script.len() ==> !(#[trigger] script[i]).contains('\n')
    &&& forall|i: int|
        0 <= i < script.len() && (#[trigger] script[i]).len() > 0 && script[i].last() == '\r'
            ==> marks[i] || (!closed && i == script.len() - 1)
    &&& !closed && script.len() > 0 ==> script.last().len() > 0
}

/// Lines are read back as they were written, whichever endings they were given: a line feed or a
/// carriage return with a line feed, in any mixture, and after the last line none at all.
pub proof fn lemma_lines_read_back(script: Seq<Seq<char>>, marks: Seq<bool>, closed: bool)
    requires
        is_writable(script, marks, closed),
    ensures
        lines(written(script, marks, closed)) == script,
    decreases script.len(),
{
    if script.len() == 1 && !closed {
        assert(!script[0].contains('\n'));
        assert(script =~= seq![script[0]]);
    } else if script.len() > 0 {
        let line = script[0];
        let rest = script.drop_first();
        let rest_marks = marks.drop_first();
        let text = written(rest, rest_marks, closed);
        assert(!line.contains('\n'));
        assert(is_writable(rest, rest_marks, closed)) by {
            assert forall|i: int| 0 <= i < rest.len() implies !(#[trigger] rest[i]).contains(
                '\n',
            ) by {
                assert(rest[i] == script[i + 1]);
            }
            assert forall|i: int|
                0 <= i < rest.len() && (#[trigger] rest[i]).len() > 0 && rest[i].last()
                    == '\r' implies rest_marks[i] || (!closed && i == rest.len() - 1) by {
                assert(rest[i] == script[i + 1]);
                assert(rest_marks[i] == marks[i + 1]);
            }
            if rest.len() > 0 {
                assert(rest.last() == script.last());
            }
        }
        lemma_lines_read_back(rest, rest_marks, closed);
        if marks[0] {
            let ended = line.push('\r');
            if ended.contains('\n') {
                let j = choose|j: int| 0 <= j < ended.len() && ended[j] == '\n';
                assert(line[j] == '\n');
            }
            lemma_first_line(ended, text);
            assert(without_carriage_return(ended) =~= line);
            assert(line + line_end(true) + text =~= ended.push('\n') + text);
        } else {
            lemma_first_line(line, text);
            assert(line + line_end(false) + text =~= line.push('\n') + text);
        }
        assert(seq![line] + rest =~= script);
    }
}

/// Two texts that differ only in the endings of their lines have the same lines.
pub proof fn lemma_line_ends_do_not_matter(
    script: Seq<Seq<char>>,
    marks: Seq<bool>,
    closed: bool,
    other_marks: Seq<bool>,
    other_closed: bool,
)
    requires
        is_writable(script, marks, closed),
        is_writable(script, other_marks, other_closed),
    ensures
        lines(written(script, marks, closed)) == lines(
            written(script, other_marks, other_closed),
        ),
{
    lemma_lines_read_back(script, marks, closed);
    lemma_lines_read_back(script, other_marks, other_closed);
}

/// The line feed after the last line of a text is optional.
pub proof fn lemma_final_line_feed_optional(text: Seq<char>)
    requires
        text.len() > 0,
        text.last() != '\n',
        text.last() != '\r',
    ensures
        lines(text.push('\n')) == lines(text),
    decreases text.len(),
{
    let empty = Seq::<char>::empty();
    if !text.contains('\n') {
        assert(text.push('\n') + empty =~= text.push('\n'));
        lemma_first_line(text, empty);
        assert(seq![text] + lines(empty) =~= seq![text]);
    } else {
        text.index_of_first_ensures('\n');
        let end = text.index_of_first('\n').unwrap();
        let line = text.take(end);
        let rest = text.skip(end + 1);
        if line.contains('\n') {
            let j = choose|j: int| 0 <= j < line.len() && line[j] == '\n';
            assert(text[j] == '\n');
        }
        lemma_final_line_feed_optional(rest);
        lemma_first_line(line, rest);
        lemma_first_line(line, rest.push('\n'));
        assert(line.push('\n') + rest =~= text);
        assert(line.push('\n') + rest.push('\n') =~= text.push('\n'));
    }
}

/// The text of `line`.
fn line_text(line: &Vec<char>) -> (text: String)
    ensures
        text@ == line@,
{
    let mut text = String::new();
    for i in 0..line.len()
        invariant
            text@ =~= line@.take(i as int),
    {
        text.push(line[i]);
    }
    assert(line@.take(line@.len() as int) =~= line@);
    text
}

/// Splits `text` into its lines.
pub fn split_lines(text: &str) -> (result: Vec<String>)
    ensures
        string_views(result@) == lines(text@),
{
    let mut result: Vec<String> = Vec::new();
    let mut line: Vec<char> = Vec::new();
    assert(line@ + text@.skip(0) =~= text@);
    assert(string_views(result@) + lines(text@) =~= lines(text@));
    for c in it: text.chars()
        invariant
            it.seq() == text@,
            !line@.contains('\n'),
            lines(text@) == string_views(result@) + lines(line@ + text@.skip(it.index() as int)),
    {
        let ghost k = it.index() as int;
        let ghost rest = text@.skip(k + 1);
        let ghost done = result@;
        let ghost before = line@;
        assert(before + text@.skip(k) =~= before.push(c) + rest);
        if c == '\n' {
            if line.len() > 0 && line[line.len() - 1] == '\r' {
                line.pop();
                assert(line@ =~= before.drop_last());
            }
            result.push(line_text(&line));
            line = Vec::new();
            proof {
                lemma_first_line(before, rest);
                assert(string_views(result@) =~= string_views(done).push(
                    without_carriage_return(before),
                ));
                assert(string_views(done) + (seq![without_carriage_return(before)] + lines(rest))
                    =~= string_views(result@) + lines(rest));
                assert(line@ + rest =~= rest);
            }
        } else {
            line.push(c);
            assert(line@ == before.push(c));
        }
    }
    assert(text@.skip(text@.len() as int) =~= Seq::<char>::empty());
    assert(line@ + Seq::<char>::empty() =~= line@);
    let ghost done = result@;
    if line.len() > 0 {
        result.push(line_text(&line));
        assert(string_views(result@) =~= string_views(done) + seq![line@]);
    } else {
        assert(string_views(done) + Seq::<Seq<char>>::empty() =~= string_views(done));
    }
    result
}

} // verus!
