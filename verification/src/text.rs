//! Text as the serial link carries it: decimal numbers, colon-separated
//! fields and trailing white space, each with its mathematical model over
//! sequences of characters.

use vstd::prelude::*;

verus! {

/// The character that separates the fields of a response line.
pub const SEPARATOR: char = ':';

/// `String::push` of the standard library: the character is appended to the
/// text and nothing else changes.
pub assume_specification[ String::push ](s: &mut String, c: char)
    ensures
        final(s)@ == old(s)@.push(c),
;

/// Whether `c` is one of the ten ASCII digits.
pub open spec fn is_digit(c: char) -> bool {
    '0' <= c <= '9'
}

/// The digit that stands for `d` (below ten).
pub open spec fn digit_char(d: nat) -> char {
    if d == 0 {
        '0'
    } else if d == 1 {
        '1'
    } else if d == 2 {
        '2'
    } else if d == 3 {
        '3'
    } else if d == 4 {
        '4'
    } else if d == 5 {
        '5'
    } else if d == 6 {
        '6'
    } else if d == 7 {
        '7'
    } else if d == 8 {
        '8'
    } else {
        '9'
    }
}

/// The number that an ASCII digit stands for.
pub open spec fn digit_value(c: char) -> nat {
    (c as nat - '0' as nat) as nat
}

/// The number that a run of ASCII digits writes in base ten.
pub open spec fn digits_value(s: Seq<char>) -> nat
    decreases s.len(),
{
    if s.len() == 0 {
        0
    } else {
        10 * digits_value(s.drop_last()) + digit_value(s.last())
    }
}

/// Whether every character of `s` is an ASCII digit.
pub open spec fn all_digits(s: Seq<char>) -> bool {
    forall|i: int| 0 <= i < s.len() ==> is_digit(#[trigger] s[i])
}

/// What is left of a number's text once an optional leading `+` is taken off.
pub open spec fn unsigned_part(s: Seq<char>) -> Seq<char> {
    if s.len() > 0 && s[0] == '+' {
        s.drop_first()
    } else {
        s
    }
}

/// The unsigned number that `s` writes, if it writes one that is at most
/// `max`: an optional `+`, then one or more ASCII digits, nothing else.
pub open spec fn number_of(s: Seq<char>, max: nat) -> Option<nat> {
    let body = unsigned_part(s);
    if body.len() > 0 && all_digits(body) && digits_value(body) <= max {
        Some(digits_value(body))
    } else {
        None
    }
}

/// The shortest decimal text of `n`.
pub open spec fn decimal(n: nat) -> Seq<char>
    decreases n,
{
    if n < 10 {
        seq![digit_char(n)]
    } else {
        decimal(n / 10).push(digit_char(n % 10))
    }
}

/// The fields of `line`: the stretches between its separators, in order.
/// A line without separator is one field, and so is the empty line.
pub open spec fn fields(line: Seq<char>) -> Seq<Seq<char>>
    decreases line.len(),
{
    if line.len() == 0 {
        seq![Seq::<char>::empty()]
    } else if line.last() == SEPARATOR {
        fields(line.drop_last()).push(Seq::<char>::empty())
    } else {
        let before = fields(line.drop_last());
        before.drop_last().push(before.last().push(line.last()))
    }
}

/// The characters that Unicode lists as white space.
pub open spec fn is_white_space(c: char) -> bool {
    ||| '\u{9}' <= c <= '\u{d}'
    ||| c == ' '
    ||| c == '\u{85}'
    ||| c == '\u{a0}'
    ||| c == '\u{1680}'
    ||| '\u{2000}' <= c <= '\u{200a}'
    ||| c == '\u{2028}'
    ||| c == '\u{2029}'
    ||| c == '\u{202f}'
    ||| c == '\u{205f}'
    ||| c == '\u{3000}'
}

/// `s` without the white space at its end.
pub open spec fn trim_end(s: Seq<char>) -> Seq<char>
    decreases s.len(),
{
    if s.len() > 0 && is_white_space(s.last()) {
        trim_end(s.drop_last())
    } else {
        s
    }
}

/// How often the separator occurs in `line`.
pub open spec fn separators(line: Seq<char>) -> nat
    decreases line.len(),
{
    if line.len() == 0 {
        0
    } else if line.last() == SEPARATOR {
        separators(line.drop_last()) + 1
    } else {
        separators(line.drop_last())
    }
}

/// The fields put together again, with a separator between each two.
pub open spec fn joined(fs: Seq<Seq<char>>) -> Seq<char>
    decreases fs.len(),
{
    if fs.len() == 0 {
        Seq::<char>::empty()
    } else if fs.len() == 1 {
        fs[0]
    } else {
        joined(fs.drop_last()).push(SEPARATOR) + fs.last()
    }
}

/// A line has one field more than it has separators, no field holds a
/// separator, and the fields joined by separators are the line again.
pub proof fn lemma_fields(line: Seq<char>)
    ensures
        fields(line).len() == separators(line) + 1,
        forall|k: int, i: int|
            0 <= k < fields(line).len() && 0 <= i < fields(line)[k].len() ==> fields(
                line,
            )[k][i] != SEPARATOR,
        joined(fields(line)) == line,
    decreases line.len(),
{
    if line.len() > 0 {
        let shorter = line.drop_last();
        lemma_fields(shorter);
        let before = fields(shorter);
        if line.last() == SEPARATOR {
            let now = before.push(Seq::<char>::empty());
            assert(now.drop_last() == before);
            assert(joined(now) == joined(before).push(SEPARATOR) + Seq::<char>::empty());
            assert(joined(now) == line);
        } else {
            let last = before.last().push(line.last());
            let now = before.drop_last().push(last);
            assert(now.len() == before.len());
            assert forall|k: int, i: int|
                0 <= k < now.len() && 0 <= i < now[k].len() implies now[k][i] != SEPARATOR by {
                if k < now.len() - 1 {
                    assert(now[k] == before[k]);
                } else if i < before.last().len() {
                    assert(now[k][i] == before.last()[i]);
                }
            }
            if before.len() == 1 {
                assert(joined(before) == before[0]);
                assert(joined(now) == last);
                assert(joined(now) == line);
            } else {
                assert(now.drop_last() == before.drop_last());
                assert(joined(now) == joined(before.drop_last()).push(SEPARATOR) + last);
                assert(joined(before) == joined(before.drop_last()).push(SEPARATOR)
                    + before.last());
                assert(joined(now) == joined(before).push(line.last()));
                assert(joined(now) == line);
            }
        }
    } else {
        assert(joined(fields(line)) == line);
    }
}

/// Whether `s` holds no separator.
pub open spec fn unbroken(s: Seq<char>) -> bool {
    forall|i: int| 0 <= i < s.len() ==> #[trigger] s[i] != SEPARATOR
}

/// Text without a separator, put behind a line, lengthens the line's last
/// field and makes no new one.
pub proof fn lemma_fields_of_longer_line(line: Seq<char>, more: Seq<char>)
    requires
        unbroken(more),
    ensures
        fields(line + more) == fields(line).drop_last().push(fields(line).last() + more),
    decreases more.len(),
{
    lemma_fields(line);
    if more.len() == 0 {
        assert(line + more == line);
        assert(fields(line).last() + more == fields(line).last());
        assert(fields(line).drop_last().push(fields(line).last()) == fields(line));
    } else {
        let shorter = more.drop_last();
        assert(unbroken(shorter)) by {
            assert forall|i: int| 0 <= i < shorter.len() implies #[trigger] shorter[i]
                != SEPARATOR by {
                assert(shorter[i] == more[i]);
            }
        }
        lemma_fields_of_longer_line(line, shorter);
        assert((line + more).drop_last() == line + shorter);
        assert((line + more).last() == more.last());
        assert(more[more.len() - 1] != SEPARATOR);
        let before = fields(line + shorter);
        assert(before.last().push(more.last()) == fields(line).last() + more);
        assert(before.drop_last() == fields(line).drop_last());
    }
}

/// Fields without separators, joined by separators, come apart again as they
/// were.
pub proof fn lemma_joined_comes_apart(fs: Seq<Seq<char>>)
    requires
        fs.len() >= 1,
        forall|k: int| 0 <= k < fs.len() ==> unbroken(#[trigger] fs[k]),
    ensures
        fields(joined(fs)) == fs,
    decreases fs.len(),
{
    let nothing = Seq::<char>::empty();
    if fs.len() == 1 {
        lemma_fields_of_longer_line(nothing, fs[0]);
        assert(nothing + fs[0] == fs[0]);
        assert(fields(nothing) == seq![nothing]);
        assert(fields(nothing).drop_last().push(nothing + fs[0]) == fs);
    } else {
        let front = fs.drop_last();
        assert forall|k: int| 0 <= k < front.len() implies unbroken(#[trigger] front[k]) by {
            assert(front[k] == fs[k]);
        }
        lemma_joined_comes_apart(front);
        let line = joined(front).push(SEPARATOR);
        assert(line.drop_last() == joined(front));
        assert(fields(line) == front.push(nothing));
        lemma_fields_of_longer_line(line, fs.last());
        assert(front.push(nothing).drop_last() == front);
        assert(nothing + fs.last() == fs.last());
        assert(front.push(fs.last()) == fs);
    }
}

/// The decimal text of a number is made of digits and reads back as the
/// number.
pub proof fn lemma_decimal_reads_back(n: nat, max: nat)
    ensures
        decimal(n).len() >= 1,
        all_digits(decimal(n)),
        digits_value(decimal(n)) == n,
        n <= max ==> number_of(decimal(n), max) == Some(n),
    decreases n,
{
    if n < 10 {
        let text = decimal(n);
        assert(text.drop_last() == Seq::<char>::empty());
        assert(text.last() == digit_char(n));
        assert(digits_value(text.drop_last()) == 0);
    } else {
        lemma_decimal_reads_back(n / 10, max);
        let text = decimal(n);
        assert(text.drop_last() == decimal(n / 10));
        assert(text.last() == digit_char(n % 10));
        assert(digit_value(digit_char(n % 10)) == n % 10);
    }
    assert(decimal(n)[0] != '+');
}

/// A run of digits is worth at least as much as any of its prefixes.
proof fn lemma_digits_value_grows(s: Seq<char>, n: int)
    requires
        0 <= n <= s.len(),
    ensures
        digits_value(s.take(n)) <= digits_value(s),
    decreases s.len(),
{
    if n < s.len() {
        assert(s.drop_last().take(n) == s.take(n));
        lemma_digits_value_grows(s.drop_last(), n);
    } else {
        assert(s.take(n) == s);
    }
}

/// The characters of a text, one by one.
pub fn chars_of(s: &str) -> (v: Vec<char>)
    ensures
        v@ == s@,
{
    let mut v: Vec<char> = Vec::new();
    for c in it: s.chars()
        invariant
            v@ == it.seq().take(it.index() as int),
            it.seq() == s@,
    {
        v.push(c);
    }
    v
}

/// The text that a run of characters spells.
pub fn string_of(chars: &Vec<char>) -> (s: String)
    ensures
        s@ == chars@,
{
    let mut s = String::new();
    let mut i: usize = 0;
    while i < chars.len()
        invariant
            i <= chars.len(),
            s@ == chars@.take(i as int),
        decreases chars.len() - i,
    {
        s.push(chars[i]);
        i += 1;
    }
    s
}

/// Appends a run of characters to a text.
pub fn push_chars(s: &mut String, chars: &Vec<char>)
    ensures
        final(s)@ == old(s)@ + chars@,
{
    let mut i: usize = 0;
    while i < chars.len()
        invariant
            i <= chars.len(),
            s@ == old(s)@ + chars@.take(i as int),
        decreases chars.len() - i,
    {
        s.push(chars[i]);
        i += 1;
    }
}

/// Whether a run of characters spells exactly `word`.
pub fn spells(text: &Vec<char>, word: &str) -> (r: bool)
    ensures
        r == (text@ == word@),
{
    let letters = chars_of(word);
    if letters.len() != text.len() {
        return false;
    }
    let mut i: usize = 0;
    while i < text.len()
        invariant
            i <= text.len(),
            letters.len() == text.len(),
            letters@ == word@,
            text@.take(i as int) == letters@.take(i as int),
        decreases text.len() - i,
    {
        if text[i] != letters[i] {
            return false;
        }
        i += 1;
    }
    assert(text@.take(i as int) == text@);
    assert(letters@.take(i as int) == letters@);
    true
}

/// The digit for a number below ten.
fn digit_for(d: u8) -> (c: char)
    requires
        d < 10,
    ensures
        c == digit_char(d as nat),
{
    if d == 0 {
        '0'
    } else if d == 1 {
        '1'
    } else if d == 2 {
        '2'
    } else if d == 3 {
        '3'
    } else if d == 4 {
        '4'
    } else if d == 5 {
        '5'
    } else if d == 6 {
        '6'
    } else if d == 7 {
        '7'
    } else if d == 8 {
        '8'
    } else {
        '9'
    }
}

/// Appends the shortest decimal text of `n` to `s`.
pub fn push_decimal(s: &mut String, n: u8)
    ensures
        final(s)@ == old(s)@ + decimal(n as nat),
{
    reveal_with_fuel(decimal, 3);
    if n >= 100 {
        s.push(digit_for(n / 100));
    }
    if n >= 10 {
        s.push(digit_for((n / 10) % 10));
    }
    s.push(digit_for(n % 10));
}

/// Reads an unsigned decimal number that is at most `max`.
pub fn parse_number(text: &Vec<char>, max: u32) -> (r: Option<u32>)
    ensures
        match r {
            Some(n) => number_of(text@, max as nat) == Some(n as nat),
            None => number_of(text@, max as nat) is None,
        },
{
    let start: usize = if text.len() > 0 && text[0] == '+' { 1 } else { 0 };
    let ghost body = unsigned_part(text@);
    assert(body == text@.subrange(start as int, text.len() as int));
    if start == text.len() {
        return None;
    }
    let mut value: u64 = 0;
    let mut i: usize = start;
    while i < text.len()
        invariant
            start <= i <= text.len(),
            body == unsigned_part(text@),
            body == text@.subrange(start as int, text.len() as int),
            all_digits(body.take(i - start)),
            value == digits_value(body.take(i - start)),
            value <= max,
        decreases text.len() - i,
    {
        let c = text[i];
        let ghost next = body.take(i - start + 1);
        assert(next.drop_last() == body.take(i - start));
        assert(next.last() == c);
        if !('0' <= c && c <= '9') {
            assert(!is_digit(body[i - start]));
            return None;
        }
        let d: u64 = (c as u32 - '0' as u32) as u64;
        value = value * 10 + d;
        if value > max as u64 {
            proof {
                lemma_digits_value_grows(body, i - start + 1);
            }
            return None;
        }
        i += 1;
    }
    assert(body.take(i - start) == body);
    Some(value as u32)
}

/// How many characters of `text` are left once the white space at its end is
/// taken off.
pub fn trimmed_len(text: &Vec<char>) -> (n: usize)
    ensures
        n <= text.len(),
        text@.take(n as int) == trim_end(text@),
{
    let mut n: usize = text.len();
    assert(text@.take(n as int) == text@);
    while n > 0 && white_space(text[n - 1])
        invariant
            n <= text.len(),
            trim_end(text@.take(n as int)) == trim_end(text@),
        decreases n,
    {
        assert(text@.take(n as int).drop_last() == text@.take(n - 1));
        n -= 1;
    }
    n
}

/// Whether `c` is white space.
pub fn white_space(c: char) -> (r: bool)
    ensures
        r == is_white_space(c),
{
    ('\u{9}' <= c && c <= '\u{d}') || c == ' ' || c == '\u{85}' || c == '\u{a0}' || c
        == '\u{1680}' || ('\u{2000}' <= c && c <= '\u{200a}') || c == '\u{2028}' || c
        == '\u{2029}' || c == '\u{202f}' || c == '\u{205f}' || c == '\u{3000}'
}

/// Cuts a line into its fields.
pub fn split_fields(line: &Vec<char>) -> (r: Vec<Vec<char>>)
    ensures
        r.len() == fields(line@).len(),
        forall|k: int| 0 <= k < r.len() ==> (#[trigger] r[k])@ == fields(line@)[k],
{
    let mut done: Vec<Vec<char>> = Vec::new();
    let mut current: Vec<char> = Vec::new();
    let mut i: usize = 0;
    assert(line@.take(0) == Seq::<char>::empty());
    while i < line.len()
        invariant
            i <= line.len(),
            fields(line@.take(i as int)).len() == done.len() + 1,
            forall|k: int| 0 <= k < done.len() ==> (#[trigger] done[k])@ == fields(line@.take(i as int))[k],
            current@ == fields(line@.take(i as int)).last(),
        decreases line.len() - i,
    {
        let c = line[i];
        let ghost before = line@.take(i as int);
        let ghost now = line@.take(i + 1);
        assert(now.drop_last() == before);
        assert(now.last() == c);
        if c == SEPARATOR {
            done.push(current);
            current = Vec::new();
        } else {
            current.push(c);
        }
        i += 1;
    }
    assert(line@.take(i as int) == line@);
    done.push(current);
    done
}

} // verus!
