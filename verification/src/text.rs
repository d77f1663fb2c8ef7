//! Character sequences: prefixes, suffixes, lines, and the removal of a pattern.

use vstd::prelude::*;

verus! {

/// Whether `pattern` stands in `s` at position `at`.
pub open spec fn occurs_at(s: Seq<char>, pattern: Seq<char>, at: int) -> bool {
    &&& 0 <= at
    &&& at + pattern.len() <= s.len()
    &&& s.subrange(at, at + pattern.len()) == pattern
}

/// Whether `s` begins with `prefix`.
pub open spec fn starts_with(s: Seq<char>, prefix: Seq<char>) -> bool {
    occurs_at(s, prefix, 0)
}

/// Whether `s` ends with `suffix`.
pub open spec fn ends_with(s: Seq<char>, suffix: Seq<char>) -> bool {
    occurs_at(s, suffix, s.len() - suffix.len())
}

/// The pieces of `s` between line feeds. There is always at least one piece,
/// and a piece may be empty.
pub open spec fn pieces(s: Seq<char>) -> Seq<Seq<char>>
    decreases s.len(),
{
    if s.len() == 0 {
        seq![Seq::empty()]
    } else {
        let before = pieces(s.drop_last());
        if s.last() == '\n' {
            before.push(Seq::empty())
        } else {
            before.drop_last().push(before.last().push(s.last()))
        }
    }
}

/// The lines of `s`: its pieces, without the empty piece that follows a final
/// line feed (or that an empty text consists of).
pub open spec fn lines(s: Seq<char>) -> Seq<Seq<char>> {
    let all = pieces(s);
    if all.last().len() == 0 {
        all.drop_last()
    } else {
        all
    }
}

/// The first of `ls` that begins with `prefix`, if there is one.
pub open spec fn first_starting_with(ls: Seq<Seq<char>>, prefix: Seq<char>) -> Option<Seq<char>>
    decreases ls.len(),
{
    if ls.len() == 0 {
        None
    } else if starts_with(ls[0], prefix) {
        Some(ls[0])
    } else {
        first_starting_with(ls.skip(1), prefix)
    }
}

/// The first of `ls` that ends with `suffix`, if there is one.
pub open spec fn first_ending_with(ls: Seq<Seq<char>>, suffix: Seq<char>) -> Option<Seq<char>>
    decreases ls.len(),
{
    if ls.len() == 0 {
        None
    } else if ends_with(ls[0], suffix) {
        Some(ls[0])
    } else {
        first_ending_with(ls.skip(1), suffix)
    }
}

/// `s` without the occurrences of `pattern`, found from left to right and not
/// overlapping. An empty pattern removes nothing.
pub open spec fn remove_all(s: Seq<char>, pattern: Seq<char>) -> Seq<char>
    decreases s.len(),
{
    if pattern.len() == 0 || s.len() == 0 {
        s
    } else if starts_with(s, pattern) {
        remove_all(s.skip(pattern.len() as int), pattern)
    } else {
        seq![s[0]] + remove_all(s.skip(1), pattern)
    }
}

/// The views of the vectors in `ls`.
pub open spec fn views(ls: Seq<Vec<char>>) -> Seq<Seq<char>> {
    ls.map_values(|l: Vec<char>| l@)
}

/// The characters of `s`, in order.
pub fn chars_of(s: &str) -> (v: Vec<char>)
    ensures
        v@ == s@,
{
    let mut v: Vec<char> = Vec::new();
    let it = s.chars();
    for c in iter: it
        invariant
            iter.seq() == s@,
            v@ == s@.take(iter.index() as int),
    {
        v.push(c);
    }
    v
}

/// Tests whether `pattern` stands in `s` at position `at`.
pub fn matches_at(s: &Vec<char>, pattern: &Vec<char>, at: usize) -> (found: bool)
    ensures
        found == occurs_at(s@, pattern@, at as int),
{
    if pattern.len() > s.len() || at > s.len() - pattern.len() {
        return false;
    }
    let mut k: usize = 0;
    while k < pattern.len()
        invariant
            at + pattern.len() <= s.len(),
            k <= pattern.len(),
            forall|j: int| 0 <= j < k ==> s@[at + j] == pattern@[j],
        decreases pattern.len() - k,
    {
        if s[at + k] != pattern[k] {
            return false;
        }
        k += 1;
    }
    assert(s@.subrange(at as int, at + pattern.len()) =~= pattern@);
    true
}

/// Tests whether `s` begins with `prefix`.
pub fn has_prefix(s: &Vec<char>, prefix: &Vec<char>) -> (found: bool)
    ensures
        found == starts_with(s@, prefix@),
{
    matches_at(s, prefix, 0)
}

/// Tests whether `s` ends with `suffix`.
pub fn has_suffix(s: &Vec<char>, suffix: &Vec<char>) -> (found: bool)
    ensures
        found == ends_with(s@, suffix@),
{
    if suffix.len() > s.len() {
        return false;
    }
    matches_at(s, suffix, s.len() - suffix.len())
}

/// Splits `s` into its lines.
pub fn split_lines(s: &Vec<char>) -> (ls: Vec<Vec<char>>)
    ensures
        views(ls@) == lines(s@),
{
    let mut done: Vec<Vec<char>> = Vec::new();
    let mut current: Vec<char> = Vec::new();
    let mut i: usize = 0;
    while i < s.len()
        invariant
            i <= s.len(),
            pieces(s@.take(i as int)) == views(done@).push(current@),
        decreases s.len() - i,
    {
        let c = s[i];
        assert(s@.take(i + 1).drop_last() =~= s@.take(i as int));
        if c == '\n' {
            done.push(current);
            current = Vec::new();
        } else {
            current.push(c);
        }
        i += 1;
    }
    assert(s@.take(i as int) =~= s@);
    if current.len() > 0 {
        done.push(current);
    }
    done
}

/// Finds the first of `ls` that begins with `prefix`.
pub fn find_starting_with(ls: &Vec<Vec<char>>, prefix: &Vec<char>) -> (found: Option<usize>)
    ensures
        match found {
            Some(i) => i < ls.len() && first_starting_with(views(ls@), prefix@) == Some(
                ls[i as int]@,
            ),
            None => first_starting_with(views(ls@), prefix@) is None,
        },
{
    let mut i: usize = 0;
    assert(views(ls@).skip(0) =~= views(ls@));
    while i < ls.len()
        invariant
            i <= ls.len(),
            first_starting_with(views(ls@), prefix@) == first_starting_with(
                views(ls@).skip(i as int),
                prefix@,
            ),
        decreases ls.len() - i,
    {
        if has_prefix(&ls[i], prefix) {
            return Some(i);
        }
        assert(views(ls@).skip(i as int).skip(1) =~= views(ls@).skip(i + 1));
        i += 1;
    }
    None
}

/// Finds the first of `ls` that ends with `suffix`.
pub fn find_ending_with(ls: &Vec<Vec<char>>, suffix: &Vec<char>) -> (found: Option<usize>)
    ensures
        match found {
            Some(i) => i < ls.len() && first_ending_with(views(ls@), suffix@) == Some(
                ls[i as int]@,
            ),
            None => first_ending_with(views(ls@), suffix@) is None,
        },
{
    let mut i: usize = 0;
    assert(views(ls@).skip(0) =~= views(ls@));
    while i < ls.len()
        invariant
            i <= ls.len(),
            first_ending_with(views(ls@), suffix@) == first_ending_with(
                views(ls@).skip(i as int),
                suffix@,
            ),
        decreases ls.len() - i,
    {
        if has_suffix(&ls[i], suffix) {
            return Some(i);
        }
        assert(views(ls@).skip(i as int).skip(1) =~= views(ls@).skip(i + 1));
        i += 1;
    }
    None
}

/// Copies `s` without the occurrences of `pattern`.
pub fn without(s: &Vec<char>, pattern: &Vec<char>) -> (kept: Vec<char>)
    ensures
        kept@ == remove_all(s@, pattern@),
{
    let mut kept: Vec<char> = Vec::new();
    let mut i: usize = 0;
    assert(s@.skip(0) =~= s@);
    while i < s.len()
        invariant
            i <= s.len(),
            remove_all(s@, pattern@) == kept@ + remove_all(s@.skip(i as int), pattern@),
        decreases s.len() - i,
    {
        let ghost rest = s@.skip(i as int);
        if pattern.len() > 0 && matches_at(s, pattern, i) {
            proof {
                assert(rest.subrange(0, pattern@.len() as int) =~= s@.subrange(
                    i as int,
                    i + pattern@.len(),
                ));
                assert(rest.skip(pattern@.len() as int) =~= s@.skip(i + pattern@.len()));
            }
            i += pattern.len();
        } else {
            proof {
                if pattern@.len() > 0 && starts_with(rest, pattern@) {
                    assert(rest.subrange(0, pattern@.len() as int) =~= s@.subrange(
                        i as int,
                        i + pattern@.len(),
                    ));
                }
                assert(rest.skip(1) =~= s@.skip(i + 1));
            }
            kept.push(s[i]);
            i += 1;
        }
    }
    kept
}

/// Whether `c` is one of the ten decimal digits.
pub open spec fn is_digit(c: char) -> bool {
    '0' <= c && c <= '9'
}

/// What the digit `c` stands for.
pub open spec fn digit_value(c: char) -> nat {
    (c as int - '0' as int) as nat
}

/// Whether `s` holds decimal digits only.
pub open spec fn all_digits(s: Seq<char>) -> bool {
    forall|i: int| 0 <= i < s.len() ==> is_digit(#[trigger] s[i])
}

/// The number that the digits of `s` write in base ten; 0 for no digits.
pub open spec fn decimal_value(s: Seq<char>) -> nat
    decreases s.len(),
{
    if s.len() == 0 {
        0
    } else {
        decimal_value(s.drop_last()) * 10 + digit_value(s.last())
    }
}

/// The number that `s` writes, where `s` is one or more decimal digits.
pub open spec fn decimal(s: Seq<char>) -> Option<nat> {
    if s.len() > 0 && all_digits(s) {
        Some(decimal_value(s))
    } else {
        None
    }
}

/// The number that `s` writes, where `s` is one or more decimal digits, with
/// or without a plus sign in front.
pub open spec fn number(s: Seq<char>) -> Option<nat> {
    if s.len() > 0 && s[0] == '+' {
        decimal(s.skip(1))
    } else {
        decimal(s)
    }
}

/// `n` as a `usize`, where it is one.
pub open spec fn in_usize(n: Option<nat>) -> Option<usize> {
    match n {
        Some(v) => if v <= usize::MAX {
            Some(v as usize)
        } else {
            None
        },
        None => None,
    }
}

/// A longer run of digits writes no smaller number than its beginning.
pub proof fn lemma_decimal_value_grows(s: Seq<char>, k: int)
    requires
        0 <= k <= s.len(),
    ensures
        decimal_value(s.take(k)) <= decimal_value(s),
    decreases s.len(),
{
    if k < s.len() {
        lemma_decimal_value_grows(s.drop_last(), k);
        assert(s.drop_last().take(k) =~= s.take(k));
    } else {
        assert(s.take(k) =~= s);
    }
}

/// The value of the digit `c`, if it is one.
pub fn digit_of(c: char) -> (d: Option<usize>)
    ensures
        d == if is_digit(c) {
            Some(digit_value(c) as usize)
        } else {
            None
        },
{
    if '0' <= c && c <= '9' {
        Some((c as u32 - '0' as u32) as usize)
    } else {
        None
    }
}

/// Reads the part of `s` from `from` up to `to` as a run of decimal digits.
/// Where that is no part of `s`, there is nothing to read.
pub fn read_decimal(s: &Vec<char>, from: usize, to: usize) -> (value: Option<usize>)
    ensures
        value == if from <= to <= s.len() {
            in_usize(decimal(s@.subrange(from as int, to as int)))
        } else {
            None
        },
{
    let ghost run = s@.subrange(from as int, to as int);
    if from >= to || to > s.len() {
        return None;
    }
    let mut value: usize = 0;
    let mut k: usize = from;
    while k < to
        invariant
            from <= k <= to <= s.len(),
            run == s@.subrange(from as int, to as int),
            all_digits(run.take(k - from)),
            value == decimal_value(run.take(k - from)),
        decreases to - k,
    {
        assert(run.take(k - from + 1).drop_last() =~= run.take(k - from));
        let d = match digit_of(s[k]) {
            Some(d) => d,
            None => {
                assert(run[k - from] == s@[k as int]);
                return None;
            },
        };
        let next = match value.checked_mul(10) {
            Some(tens) => tens.checked_add(d),
            None => None,
        };
        match next {
            Some(n) => {
                value = n;
            },
            None => {
                proof {
                    lemma_decimal_value_grows(run, k - from + 1);
                }
                return None;
            },
        }
        k += 1;
    }
    assert(run.take(k - from) =~= run);
    Some(value)
}

/// Reads `s` as a number: decimal digits, with or without a plus sign in
/// front.
pub fn read_number(s: &Vec<char>) -> (value: Option<usize>)
    ensures
        value == in_usize(number(s@)),
{
    if s.len() > 0 && s[0] == '+' {
        read_decimal(s, 1, s.len())
    } else {
        assert(s@ =~= s@.subrange(0, s@.len() as int));
        read_decimal(s, 0, s.len())
    }
}

/// Whether `c` is white space, as Unicode defines it.
pub open spec fn is_space(c: char) -> bool {
    ||| '\t' <= c && c <= '\r'
    ||| c == ' '
    ||| c == '\u{85}'
    ||| c == '\u{a0}'
    ||| c == '\u{1680}'
    ||| '\u{2000}' <= c && c <= '\u{200a}'
    ||| c == '\u{2028}'
    ||| c == '\u{2029}'
    ||| c == '\u{202f}'
    ||| c == '\u{205f}'
    ||| c == '\u{3000}'
}

/// Where the run of white space that begins at `from` ends: the first
/// position at or after `from` that holds no white space, or the end of `s`.
pub open spec fn spaces_end(s: Seq<char>, from: int) -> int
    decreases s.len() - from,
{
    if 0 <= from < s.len() && is_space(s[from]) {
        spaces_end(s, from + 1)
    } else {
        from
    }
}

/// Where the run of digits that begins at `from` ends: the first position at
/// or after `from` that holds no digit, or the end of `s`.
pub open spec fn digits_end(s: Seq<char>, from: int) -> int
    decreases s.len() - from,
{
    if 0 <= from < s.len() && is_digit(s[from]) {
        digits_end(s, from + 1)
    } else {
        from
    }
}

/// A run of digits consists of digits and ends no earlier than it begins.
pub proof fn lemma_digits_end(s: Seq<char>, from: int)
    requires
        0 <= from <= s.len(),
    ensures
        from <= digits_end(s, from) <= s.len(),
        all_digits(s.subrange(from, digits_end(s, from))),
    decreases s.len() - from,
{
    if from < s.len() && is_digit(s[from]) {
        lemma_digits_end(s, from + 1);
        let run = s.subrange(from, digits_end(s, from));
        assert forall|i: int| 0 <= i < run.len() implies is_digit(#[trigger] run[i]) by {
            if i > 0 {
                assert(run[i] == s.subrange(from + 1, digits_end(s, from))[i - 1]);
            }
        }
    }
}

/// Tests whether `c` is white space.
pub fn space(c: char) -> (yes: bool)
    ensures
        yes == is_space(c),
{
    ('\t' <= c && c <= '\r') || c == ' ' || c == '\u{85}' || c == '\u{a0}' || c == '\u{1680}' || (
    '\u{2000}' <= c && c <= '\u{200a}') || c == '\u{2028}' || c == '\u{2029}' || c == '\u{202f}'
        || c == '\u{205f}' || c == '\u{3000}'
}

/// Passes over the white space that begins at `from`.
pub fn skip_spaces(s: &Vec<char>, from: usize) -> (end: usize)
    ensures
        end == spaces_end(s@, from as int),
        from <= end,
        from <= s.len() ==> end <= s.len(),
{
    let mut k: usize = from;
    while k < s.len() && space(s[k])
        invariant
            from <= k,
            from <= s.len() ==> k <= s.len(),
            spaces_end(s@, from as int) == spaces_end(s@, k as int),
        decreases s.len() - k,
    {
        k += 1;
    }
    k
}

/// Passes over the digits that begin at `from`.
pub fn skip_digits(s: &Vec<char>, from: usize) -> (end: usize)
    ensures
        end == digits_end(s@, from as int),
        from <= end,
        from <= s.len() ==> end <= s.len(),
{
    let mut k: usize = from;
    while k < s.len() && digit_of(s[k]).is_some()
        invariant
            from <= k,
            from <= s.len() ==> k <= s.len(),
            digits_end(s@, from as int) == digits_end(s@, k as int),
        decreases s.len() - k,
    {
        k += 1;
    }
    k
}

/// Whether `s` is white space only, and at least one character of it.
pub open spec fn is_gap(s: Seq<char>) -> bool {
    s.len() > 0 && forall|i: int| 0 <= i < s.len() ==> is_space(#[trigger] s[i])
}

/// Whether `s` is decimal digits only, and at least one.
pub open spec fn is_count(s: Seq<char>) -> bool {
    s.len() > 0 && all_digits(s)
}

/// White space that stands at `from`, with none behind it, is the run of
/// white space that begins there.
pub proof fn lemma_spaces_end(s: Seq<char>, from: int, gap: Seq<char>)
    requires
        occurs_at(s, gap, from),
        forall|i: int| 0 <= i < gap.len() ==> is_space(#[trigger] gap[i]),
        from + gap.len() == s.len() || !is_space(s[from + gap.len()]),
    ensures
        spaces_end(s, from) == from + gap.len(),
    decreases gap.len(),
{
    if gap.len() > 0 {
        assert(is_space(gap[0]));
        assert(s.subrange(from + 1, from + 1 + gap.skip(1).len()) =~= gap.skip(1));
        lemma_spaces_end(s, from + 1, gap.skip(1));
    }
}

/// Digits that stand at `from`, with none behind them, are the run of digits
/// that begins there.
pub proof fn lemma_digits_run(s: Seq<char>, from: int, digits: Seq<char>)
    requires
        occurs_at(s, digits, from),
        all_digits(digits),
        from + digits.len() == s.len() || !is_digit(s[from + digits.len()]),
    ensures
        digits_end(s, from) == from + digits.len(),
    decreases digits.len(),
{
    if digits.len() > 0 {
        assert(is_digit(digits[0]));
        assert(s.subrange(from + 1, from + 1 + digits.skip(1).len()) =~= digits.skip(1));
        lemma_digits_run(s, from + 1, digits.skip(1));
    }
}

/// Where the first character of a pattern stands nowhere that the pattern
/// would fit, nothing is removed.
pub proof fn lemma_remove_all_keeps(s: Seq<char>, pattern: Seq<char>)
    requires
        pattern.len() > 0,
        forall|at: int| 0 <= at && at + pattern.len() <= s.len() ==> s[at] != pattern[0],
    ensures
        remove_all(s, pattern) == s,
    decreases s.len(),
{
    if s.len() > 0 {
        lemma_remove_all_keeps(s.skip(1), pattern);
    }
}

/// What comes before the first place where the first character of a pattern
/// stands is kept, and the removal goes on behind it.
pub proof fn lemma_remove_all_passes(kept: Seq<char>, rest: Seq<char>, pattern: Seq<char>)
    requires
        pattern.len() > 0,
        forall|i: int| 0 <= i < kept.len() ==> kept[i] != pattern[0],
    ensures
        remove_all(kept + rest, pattern) == kept + remove_all(rest, pattern),
    decreases kept.len(),
{
    if kept.len() > 0 {
        assert((kept + rest).skip(1) =~= kept.skip(1) + rest);
        lemma_remove_all_passes(kept.skip(1), rest, pattern);
    }
}

/// A text of one line, with or without the line feed that ends it, has that
/// line and no other.
pub proof fn lemma_one_line(line: Seq<char>)
    requires
        line.len() > 0,
        forall|i: int| 0 <= i < line.len() ==> line[i] != '\n',
    ensures
        pieces(line) == seq![line],
        lines(line) == seq![line],
        lines(line.push('\n')) == seq![line],
    decreases line.len(),
{
    let before = line.drop_last();
    if before.len() > 0 {
        lemma_one_line(before);
    }
    assert(pieces(before) =~= seq![before]) by {
        if before.len() == 0 {
            assert(before =~= Seq::<char>::empty());
        }
    }
    assert(before.push(line.last()) =~= line);
    assert(pieces(line) =~= seq![line]);
    assert(line.push('\n').drop_last() =~= line);
}

/// Whether `ls[at]` is the first of `ls` that begins with `prefix`.
pub open spec fn is_first_starting_with(ls: Seq<Seq<char>>, prefix: Seq<char>, at: int) -> bool {
    &&& 0 <= at < ls.len()
    &&& starts_with(ls[at], prefix)
    &&& forall|j: int| 0 <= j < at ==> !starts_with(#[trigger] ls[j], prefix)
}

/// Whether `ls[at]` is the first of `ls` that ends with `suffix`.
pub open spec fn is_first_ending_with(ls: Seq<Seq<char>>, suffix: Seq<char>, at: int) -> bool {
    &&& 0 <= at < ls.len()
    &&& ends_with(ls[at], suffix)
    &&& forall|j: int| 0 <= j < at ==> !ends_with(#[trigger] ls[j], suffix)
}

/// `first_starting_with` gives the first that begins with the prefix.
pub proof fn lemma_first_starting_with(ls: Seq<Seq<char>>, prefix: Seq<char>, at: int)
    requires
        is_first_starting_with(ls, prefix, at),
    ensures
        first_starting_with(ls, prefix) == Some(ls[at]),
    decreases ls.len(),
{
    if at > 0 {
        lemma_first_starting_with(ls.skip(1), prefix, at - 1);
    }
}

/// `first_starting_with` gives nothing where none begins with the prefix.
pub proof fn lemma_none_starting_with(ls: Seq<Seq<char>>, prefix: Seq<char>)
    requires
        forall|j: int| 0 <= j < ls.len() ==> !starts_with(#[trigger] ls[j], prefix),
    ensures
        first_starting_with(ls, prefix) is None,
    decreases ls.len(),
{
    if ls.len() > 0 {
        lemma_none_starting_with(ls.skip(1), prefix);
    }
}

/// `first_ending_with` gives the first that ends with the suffix.
pub proof fn lemma_first_ending_with(ls: Seq<Seq<char>>, suffix: Seq<char>, at: int)
    requires
        is_first_ending_with(ls, suffix, at),
    ensures
        first_ending_with(ls, suffix) == Some(ls[at]),
    decreases ls.len(),
{
    if at > 0 {
        lemma_first_ending_with(ls.skip(1), suffix, at - 1);
    }
}

/// `first_ending_with` gives nothing where none ends with the suffix.
pub proof fn lemma_none_ending_with(ls: Seq<Seq<char>>, suffix: Seq<char>)
    requires
        forall|j: int| 0 <= j < ls.len() ==> !ends_with(#[trigger] ls[j], suffix),
    ensures
        first_ending_with(ls, suffix) is None,
    decreases ls.len(),
{
    if ls.len() > 0 {
        lemma_none_ending_with(ls.skip(1), suffix);
    }
}

} // verus!
