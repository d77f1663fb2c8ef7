//! The two reports of the checkers, read into counts.
//!
//! The electrical rules report closes with one summary line,
//! ` ** ERC messages: 5  Errors 3  Warnings 2`. The design rules report
//! has one line for each count, `** Found 3 DRC errors **` and
//! `** Found 7 unconnected pads **`.

use vstd::prelude::*;
use crate::text::{
    chars_of, decimal, decimal_value, digits_end, ends_with, find_ending_with, find_starting_with,
    first_ending_with, first_starting_with, in_usize, is_count, is_digit, is_gap,
    lemma_digits_end, lemma_digits_run, lemma_first_ending_with, lemma_first_starting_with,
    lemma_none_ending_with, lemma_none_starting_with, lemma_one_line, lemma_remove_all_keeps,
    lemma_remove_all_passes, lemma_spaces_end, lines, matches_at, number, occurs_at, read_decimal,
    read_number, remove_all, skip_digits, skip_spaces, spaces_end, split_lines, starts_with,
    without,
};

verus! {

/// Why a report could not be read.
#[derive(Debug, Clone, Copy, PartialEq, Eq, Structural)]
pub enum ParseError {
    /// No line of the electrical rules report begins with the summary marker.
    MissingSummaryLine,
    /// The summary line does not hold the three counts in their places.
    MalformedSummaryLine,
    /// The total of the summary line is not the sum of its errors and warnings.
    InconsistentTotals,
    /// The design rules report lacks the line of one of its two counts.
    MissingField,
    /// A count is no number, or one too large to hold.
    MalformedCount,
}

/// What the electrical rules checker found.
#[derive(Debug, Clone, Copy, PartialEq, Eq, Structural)]
pub struct ErcOutput {
    pub num_errors: usize,
    pub num_warnings: usize,
}

/// What the design rules checker found.
#[derive(Debug, Clone, Copy, PartialEq, Eq, Structural)]
pub struct DrcOutput {
    pub num_errors: usize,
    pub num_unconnected_pads: usize,
}

/// What the summary line of an electrical rules report begins with.
pub open spec fn erc_marker() -> Seq<char> {
    " ** ERC messages"@
}

/// What the counts of a summary line follow.
pub open spec fn erc_head() -> Seq<char> {
    " ** ERC messages:"@
}

/// The word between the total and the number of errors.
pub open spec fn erc_errors_word() -> Seq<char> {
    "Errors"@
}

/// The word between the number of errors and the number of warnings.
pub open spec fn erc_warnings_word() -> Seq<char> {
    "Warnings"@
}

/// The three runs of digits of a summary: total, errors, warnings.
pub struct SummaryDigits {
    pub total: Seq<char>,
    pub errors: Seq<char>,
    pub warnings: Seq<char>,
}

/// The summary that stands in `line` at position `at`: the head, then three
/// times white space and digits, with the word `Errors` before the second run
/// of white space and digits and `Warnings` before the third, each word after
/// white space. Every run of white space and of digits is as long as it can
/// be and not empty.
pub open spec fn summary_at(line: Seq<char>, at: int) -> Option<SummaryDigits> {
    let total_from = spaces_end(line, at + erc_head().len());
    let total_to = digits_end(line, total_from);
    let errors_word = spaces_end(line, total_to);
    let errors_from = spaces_end(line, errors_word + erc_errors_word().len());
    let errors_to = digits_end(line, errors_from);
    let warnings_word = spaces_end(line, errors_to);
    let warnings_from = spaces_end(line, warnings_word + erc_warnings_word().len());
    let warnings_to = digits_end(line, warnings_from);
    if occurs_at(line, erc_head(), at) && at + erc_head().len() < total_from && total_from
        < total_to && total_to < errors_word && occurs_at(line, erc_errors_word(), errors_word)
        && errors_word + erc_errors_word().len() < errors_from && errors_from < errors_to
        && errors_to < warnings_word && occurs_at(line, erc_warnings_word(), warnings_word)
        && warnings_word + erc_warnings_word().len() < warnings_from && warnings_from
        < warnings_to {
        Some(
            SummaryDigits {
                total: line.subrange(total_from, total_to),
                errors: line.subrange(errors_from, errors_to),
                warnings: line.subrange(warnings_from, warnings_to),
            },
        )
    } else {
        None
    }
}

/// The first summary that stands in `line` at position `at` or later.
pub open spec fn summary_from(line: Seq<char>, at: int) -> Option<SummaryDigits>
    decreases line.len() - at,
{
    if at < 0 || at > line.len() {
        None
    } else if summary_at(line, at) is Some {
        summary_at(line, at)
    } else if at == line.len() {
        None
    } else {
        summary_from(line, at + 1)
    }
}

/// What the counts `digits` amount to.
pub open spec fn erc_counts(digits: SummaryDigits) -> Result<ErcOutput, ParseError> {
    match (
        in_usize(decimal(digits.total)),
        in_usize(decimal(digits.errors)),
        in_usize(decimal(digits.warnings)),
    ) {
        (Some(total), Some(errors), Some(warnings)) => if total == errors + warnings {
            Ok(ErcOutput { num_errors: errors, num_warnings: warnings })
        } else {
            Err(ParseError::InconsistentTotals)
        },
        _ => Err(ParseError::MalformedCount),
    }
}

/// What an electrical rules report with the text `text` says: the counts of
/// the first summary in the first line that begins with the marker.
pub open spec fn erc_output(text: Seq<char>) -> Result<ErcOutput, ParseError> {
    match first_starting_with(lines(text), erc_marker()) {
        None => Err(ParseError::MissingSummaryLine),
        Some(line) => match summary_from(line, 0) {
            None => Err(ParseError::MalformedSummaryLine),
            Some(digits) => erc_counts(digits),
        },
    }
}

/// Where the three runs of digits of a summary stand in a line.
struct SummaryPlaces {
    total: (usize, usize),
    errors: (usize, usize),
    warnings: (usize, usize),
}

impl SummaryPlaces {
    spec fn within(self, line: Seq<char>) -> bool {
        &&& self.total.0 <= self.total.1 <= line.len()
        &&& self.errors.0 <= self.errors.1 <= line.len()
        &&& self.warnings.0 <= self.warnings.1 <= line.len()
    }

    spec fn digits(self, line: Seq<char>) -> SummaryDigits {
        SummaryDigits {
            total: line.subrange(self.total.0 as int, self.total.1 as int),
            errors: line.subrange(self.errors.0 as int, self.errors.1 as int),
            warnings: line.subrange(self.warnings.0 as int, self.warnings.1 as int),
        }
    }
}

/// Passes over white space and then digits from `from`, and gives the place
/// of the digits where neither run is empty.
fn spaced_digits(line: &Vec<char>, from: usize) -> (place: Option<(usize, usize)>)
    requires
        from <= line.len(),
    ensures
        ({
            let digits_from = spaces_end(line@, from as int);
            let digits_to = digits_end(line@, digits_from);
            match place {
                Some(p) => from < digits_from < digits_to <= line.len() && p.0 == digits_from
                    && p.1 == digits_to,
                None => !(from < digits_from && digits_from < digits_to),
            }
        }),
{
    let digits_from = skip_spaces(line, from);
    let digits_to = skip_digits(line, digits_from);
    if from < digits_from && digits_from < digits_to {
        Some((digits_from, digits_to))
    } else {
        None
    }
}

/// Passes over white space and then `word` from `from`, and gives the
/// position after the word where the white space is not empty and the word
/// follows it.
fn spaced_word(line: &Vec<char>, from: usize, word: &Vec<char>) -> (after: Option<usize>)
    requires
        from <= line.len(),
    ensures
        ({
            let word_from = spaces_end(line@, from as int);
            match after {
                Some(a) => from < word_from && occurs_at(line@, word@, word_from) && a
                    == word_from + word@.len(),
                None => !(from < word_from && occurs_at(line@, word@, word_from)),
            }
        }),
{
    let word_from = skip_spaces(line, from);
    if from < word_from && matches_at(line, word, word_from) {
        Some(word_from + word.len())
    } else {
        None
    }
}

/// Looks for a summary in `line` at position `at`.
fn find_summary_at(
    line: &Vec<char>,
    at: usize,
    head: &Vec<char>,
    errors_word: &Vec<char>,
    warnings_word: &Vec<char>,
) -> (places: Option<SummaryPlaces>)
    requires
        at <= line.len(),
        head@ == erc_head(),
        errors_word@ == erc_errors_word(),
        warnings_word@ == erc_warnings_word(),
    ensures
        match places {
            Some(p) => p.within(line@) && summary_at(line@, at as int) == Some(p.digits(line@)),
            None => summary_at(line@, at as int) is None,
        },
{
    if !matches_at(line, head, at) {
        return None;
    }
    let total = match spaced_digits(line, at + head.len()) {
        Some(place) => place,
        None => {
            return None;
        },
    };
    let after_errors = match spaced_word(line, total.1, errors_word) {
        Some(after) => after,
        None => {
            return None;
        },
    };
    let errors = match spaced_digits(line, after_errors) {
        Some(place) => place,
        None => {
            return None;
        },
    };
    let after_warnings = match spaced_word(line, errors.1, warnings_word) {
        Some(after) => after,
        None => {
            return None;
        },
    };
    let warnings = match spaced_digits(line, after_warnings) {
        Some(place) => place,
        None => {
            return None;
        },
    };
    Some(SummaryPlaces { total, errors, warnings })
}

/// Looks for the first summary in `line`.
fn find_summary(line: &Vec<char>) -> (places: Option<SummaryPlaces>)
    ensures
        match places {
            Some(p) => p.within(line@) && summary_from(line@, 0) == Some(p.digits(line@)),
            None => summary_from(line@, 0) is None,
        },
{
    let head = chars_of(" ** ERC messages:");
    let errors_word = chars_of("Errors");
    let warnings_word = chars_of("Warnings");
    let mut at: usize = 0;
    loop
        invariant
            at <= line.len(),
            head@ == erc_head(),
            errors_word@ == erc_errors_word(),
            warnings_word@ == erc_warnings_word(),
            summary_from(line@, 0) == summary_from(line@, at as int),
        decreases line.len() - at,
    {
        let places = find_summary_at(line, at, &head, &errors_word, &warnings_word);
        if places.is_some() {
            return places;
        }
        if at == line.len() {
            return None;
        }
        at += 1;
    }
}

/// Reads the three counts at `places` in `line`.
fn read_counts(line: &Vec<char>, places: &SummaryPlaces) -> (counts: Result<ErcOutput, ParseError>)
    requires
        places.within(line@),
    ensures
        counts == erc_counts(places.digits(line@)),
{
    let total = read_decimal(line, places.total.0, places.total.1);
    let errors = read_decimal(line, places.errors.0, places.errors.1);
    let warnings = read_decimal(line, places.warnings.0, places.warnings.1);
    match (total, errors, warnings) {
        (Some(total), Some(errors), Some(warnings)) => {
            match errors.checked_add(warnings) {
                Some(sum) => if total == sum {
                    Ok(ErcOutput { num_errors: errors, num_warnings: warnings })
                } else {
                    Err(ParseError::InconsistentTotals)
                },
                None => Err(ParseError::InconsistentTotals),
            }
        },
        _ => Err(ParseError::MalformedCount),
    }
}

/// Reads the summary of an electrical rules report.
///
/// The summary line is the first line that begins with ` ** ERC messages`.
/// It gives the number of errors and of warnings, and fails where the line
/// is missing, where it holds no summary, where a count is too large, and
/// where the total is not the sum of the other two.
pub fn parse_erc(text: &str) -> (output: Result<ErcOutput, ParseError>)
    ensures
        output == erc_output(text@),
{
    let chars = chars_of(text);
    let ls = split_lines(&chars);
    let marker = chars_of(" ** ERC messages");
    match find_starting_with(&ls, &marker) {
        None => Err(ParseError::MissingSummaryLine),
        Some(i) => {
            let line = &ls[i];
            match find_summary(line) {
                None => Err(ParseError::MalformedSummaryLine),
                Some(places) => read_counts(line, &places),
            }
        },
    }
}

impl ErcOutput {
    /// Reads the summary of the report that eeschema wrote: see [`parse_erc`].
    pub fn try_from_eeschema_output(s: &str) -> (output: Result<Self, ParseError>)
        ensures
            output == erc_output(s@),
    {
        parse_erc(s)
    }
}

/// What the line with the number of rule violations ends with.
pub open spec fn drc_errors_marker() -> Seq<char> {
    "DRC errors **"@
}

/// What the line with the number of unconnected pads ends with.
pub open spec fn drc_pads_marker() -> Seq<char> {
    "unconnected pads **"@
}

/// The words before a count of the design rules report.
pub open spec fn drc_found_words() -> Seq<char> {
    "** Found "@
}

/// The words after the number of rule violations.
pub open spec fn drc_errors_words() -> Seq<char> {
    " DRC errors **"@
}

/// The words after the number of unconnected pads.
pub open spec fn drc_pads_words() -> Seq<char> {
    " unconnected pads **"@
}

/// The count that `line` gives: the number that is left of the line without
/// the words before a count and without `words`.
pub open spec fn drc_count(line: Seq<char>, words: Seq<char>) -> Option<usize> {
    in_usize(number(remove_all(remove_all(line, drc_found_words()), words)))
}

/// What a design rules report with the text `text` says: the count of the
/// first line that ends with the one marker, and the count of the first line
/// that ends with the other.
pub open spec fn drc_output(text: Seq<char>) -> Result<DrcOutput, ParseError> {
    match (
        first_ending_with(lines(text), drc_errors_marker()),
        first_ending_with(lines(text), drc_pads_marker()),
    ) {
        (Some(errors_line), Some(pads_line)) => match (
            drc_count(errors_line, drc_errors_words()),
            drc_count(pads_line, drc_pads_words()),
        ) {
            (Some(errors), Some(pads)) => Ok(
                DrcOutput { num_errors: errors, num_unconnected_pads: pads },
            ),
            _ => Err(ParseError::MalformedCount),
        },
        _ => Err(ParseError::MissingField),
    }
}

/// Reads the count that `line` gives between the words before a count and
/// `words`.
fn read_count(line: &Vec<char>, found: &Vec<char>, words: &Vec<char>) -> (count: Option<usize>)
    requires
        found@ == drc_found_words(),
    ensures
        count == drc_count(line@, words@),
{
    let bare = without(&without(line, found), words);
    read_number(&bare)
}

/// Reads the two counts of a design rules report.
///
/// The number of rule violations stands in the first line that ends with
/// `DRC errors **`, the number of unconnected pads in the first line that ends
/// with `unconnected pads **`. It fails where one of the lines is missing, and
/// where what a line holds beside the words is no number that can be held.
pub fn parse_drc(text: &str) -> (output: Result<DrcOutput, ParseError>)
    ensures
        output == drc_output(text@),
{
    let chars = chars_of(text);
    let ls = split_lines(&chars);
    let errors_marker = chars_of("DRC errors **");
    let pads_marker = chars_of("unconnected pads **");
    let errors_line = find_ending_with(&ls, &errors_marker);
    let pads_line = find_ending_with(&ls, &pads_marker);
    match (errors_line, pads_line) {
        (Some(e), Some(p)) => {
            let found = chars_of("** Found ");
            let errors = read_count(&ls[e], &found, &chars_of(" DRC errors **"));
            let pads = read_count(&ls[p], &found, &chars_of(" unconnected pads **"));
            match (errors, pads) {
                (Some(errors), Some(pads)) => Ok(
                    DrcOutput { num_errors: errors, num_unconnected_pads: pads },
                ),
                _ => Err(ParseError::MalformedCount),
            }
        },
        _ => Err(ParseError::MissingField),
    }
}

impl DrcOutput {
    /// Reads the two counts of the report that pcbnew wrote: see
    /// [`parse_drc`].
    pub fn try_from_pcbnew_output(s: &str) -> (output: Result<Self, ParseError>)
        ensures
            output == drc_output(s@),
    {
        parse_drc(s)
    }
}

/// A summary line: the head and the three counts `digits`, with the white
/// space `gaps` between the parts and `rest` behind the last count.
pub open spec fn summary_line(digits: SummaryDigits, gaps: Seq<Seq<char>>, rest: Seq<char>) -> Seq<
    char,
> {
    erc_head() + gaps[0] + digits.total + gaps[1] + erc_errors_word() + gaps[2] + digits.errors
        + gaps[3] + erc_warnings_word() + gaps[4] + digits.warnings + rest
}

/// Whether `digits`, `gaps` and `rest` make a summary line: three counts,
/// five stretches of white space, and a rest that does not go on with a digit.
pub open spec fn makes_summary_line(
    digits: SummaryDigits,
    gaps: Seq<Seq<char>>,
    rest: Seq<char>,
) -> bool {
    &&& is_count(digits.total)
    &&& is_count(digits.errors)
    &&& is_count(digits.warnings)
    &&& gaps.len() == 5
    &&& forall|i: int| 0 <= i < 5 ==> is_gap(#[trigger] gaps[i])
    &&& rest.len() == 0 || !is_digit(rest[0])
}

/// A summary line begins with the marker, and its summary holds the three
/// counts it was made of.
pub proof fn lemma_summary_line(digits: SummaryDigits, gaps: Seq<Seq<char>>, rest: Seq<char>)
    requires
        makes_summary_line(digits, gaps, rest),
    ensures
        starts_with(summary_line(digits, gaps, rest), erc_marker()),
        summary_from(summary_line(digits, gaps, rest), 0) == Some(digits),
{
    reveal_strlit(" ** ERC messages");
    reveal_strlit(" ** ERC messages:");
    reveal_strlit("Errors");
    reveal_strlit("Warnings");
    let line = summary_line(digits, gaps, rest);
    let after_head = erc_head().len() as int;
    let total_from = after_head + gaps[0].len();
    let total_to = total_from + digits.total.len();
    let errors_word = total_to + gaps[1].len();
    let after_errors_word = errors_word + erc_errors_word().len();
    let errors_from = after_errors_word + gaps[2].len();
    let errors_to = errors_from + digits.errors.len();
    let warnings_word = errors_to + gaps[3].len();
    let after_warnings_word = warnings_word + erc_warnings_word().len();
    let warnings_from = after_warnings_word + gaps[4].len();
    let warnings_to = warnings_from + digits.warnings.len();
    assert(line.subrange(0, erc_marker().len() as int) =~= erc_marker());
    assert(line.subrange(0, after_head) =~= erc_head());
    assert(line.subrange(after_head, total_from) =~= gaps[0]);
    assert(line.subrange(total_from, total_to) =~= digits.total);
    assert(line.subrange(total_to, errors_word) =~= gaps[1]);
    assert(line.subrange(errors_word, after_errors_word) =~= erc_errors_word());
    assert(line.subrange(after_errors_word, errors_from) =~= gaps[2]);
    assert(line.subrange(errors_from, errors_to) =~= digits.errors);
    assert(line.subrange(errors_to, warnings_word) =~= gaps[3]);
    assert(line.subrange(warnings_word, after_warnings_word) =~= erc_warnings_word());
    assert(line.subrange(after_warnings_word, warnings_from) =~= gaps[4]);
    assert(line.subrange(warnings_from, warnings_to) =~= digits.warnings);
    lemma_spaces_end(line, after_head, gaps[0]);
    lemma_digits_run(line, total_from, digits.total);
    lemma_spaces_end(line, total_to, gaps[1]);
    lemma_spaces_end(line, after_errors_word, gaps[2]);
    lemma_digits_run(line, errors_from, digits.errors);
    lemma_spaces_end(line, errors_to, gaps[3]);
    lemma_spaces_end(line, after_warnings_word, gaps[4]);
    lemma_digits_run(line, warnings_from, digits.warnings);
}

/// The counts of a summary are numbers: each is one or more digits. So
/// reading a report fails with `MalformedCount` only where a count of its
/// summary is too large to hold.
pub proof fn lemma_summary_holds_counts(line: Seq<char>, at: int)
    ensures
        summary_at(line, at) matches Some(digits) ==> is_count(digits.total) && is_count(
            digits.errors,
        ) && is_count(digits.warnings),
{
    if summary_at(line, at) is Some {
        let total_from = spaces_end(line, at + erc_head().len());
        let errors_word = spaces_end(line, digits_end(line, total_from));
        let errors_from = spaces_end(line, errors_word + erc_errors_word().len());
        let warnings_word = spaces_end(line, digits_end(line, errors_from));
        let warnings_from = spaces_end(line, warnings_word + erc_warnings_word().len());
        lemma_digits_end(line, total_from);
        lemma_digits_end(line, errors_from);
        lemma_digits_end(line, warnings_from);
    }
}

/// Of every report whose summary line, the first line that begins with the
/// marker, holds three counts that can be held: where the total is the sum of
/// the errors and the warnings, reading the report gives these two; where it
/// is not, reading fails with `InconsistentTotals`.
pub proof fn lemma_erc_summary_is_read(
    text: Seq<char>,
    at: int,
    digits: SummaryDigits,
    gaps: Seq<Seq<char>>,
    rest: Seq<char>,
)
    requires
        makes_summary_line(digits, gaps, rest),
        0 <= at < lines(text).len(),
        lines(text)[at] == summary_line(digits, gaps, rest),
        forall|j: int| 0 <= j < at ==> !starts_with(#[trigger] lines(text)[j], erc_marker()),
        decimal_value(digits.total) <= usize::MAX,
        decimal_value(digits.errors) <= usize::MAX,
        decimal_value(digits.warnings) <= usize::MAX,
    ensures
        decimal_value(digits.total) == decimal_value(digits.errors) + decimal_value(
            digits.warnings,
        ) ==> erc_output(text) == Ok::<ErcOutput, ParseError>(
            ErcOutput {
                num_errors: decimal_value(digits.errors) as usize,
                num_warnings: decimal_value(digits.warnings) as usize,
            },
        ),
        decimal_value(digits.total) != decimal_value(digits.errors) + decimal_value(
            digits.warnings,
        ) ==> erc_output(text) == Err::<ErcOutput, ParseError>(ParseError::InconsistentTotals),
{
    lemma_summary_line(digits, gaps, rest);
    lemma_first_starting_with(lines(text), erc_marker(), at);
}

/// The same of a report that is the summary line and nothing else.
pub proof fn lemma_erc_summary_alone_is_read(
    digits: SummaryDigits,
    gaps: Seq<Seq<char>>,
    rest: Seq<char>,
)
    requires
        makes_summary_line(digits, gaps, rest),
        forall|i: int|
            0 <= i < summary_line(digits, gaps, rest).len() ==> summary_line(digits, gaps, rest)[i]
                != '\n',
        decimal_value(digits.total) <= usize::MAX,
        decimal_value(digits.errors) <= usize::MAX,
        decimal_value(digits.warnings) <= usize::MAX,
    ensures
        erc_output(summary_line(digits, gaps, rest)) == if decimal_value(digits.total)
            == decimal_value(digits.errors) + decimal_value(digits.warnings) {
            Ok::<ErcOutput, ParseError>(
                ErcOutput {
                    num_errors: decimal_value(digits.errors) as usize,
                    num_warnings: decimal_value(digits.warnings) as usize,
                },
            )
        } else {
            Err::<ErcOutput, ParseError>(ParseError::InconsistentTotals)
        },
{
    let line = summary_line(digits, gaps, rest);
    lemma_one_line(line);
    lemma_erc_summary_is_read(line, 0, digits, gaps, rest);
}

/// Of every report without a line that begins with the marker: reading it
/// fails with `MissingSummaryLine`.
pub proof fn lemma_erc_summary_is_missed(text: Seq<char>)
    requires
        forall|i: int|
            0 <= i < lines(text).len() ==> !starts_with(#[trigger] lines(text)[i], erc_marker()),
    ensures
        erc_output(text) == Err::<ErcOutput, ParseError>(ParseError::MissingSummaryLine),
{
    lemma_none_starting_with(lines(text), erc_marker());
}

/// A line of the design rules report: the words before a count, the count
/// `count`, and the words `words` behind it.
pub open spec fn drc_line(count: Seq<char>, words: Seq<char>) -> Seq<char> {
    drc_found_words() + count + words
}

/// A report line with a count of rule violations ends with the marker of
/// that line and gives the count.
pub proof fn lemma_drc_errors_line(count: Seq<char>)
    requires
        is_count(count),
    ensures
        ends_with(drc_line(count, drc_errors_words()), drc_errors_marker()),
        drc_count(drc_line(count, drc_errors_words()), drc_errors_words()) == in_usize(
            Some(decimal_value(count)),
        ),
{
    reveal_strlit("** Found ");
    reveal_strlit(" DRC errors **");
    reveal_strlit("DRC errors **");
    let found = drc_found_words();
    let words = drc_errors_words();
    let line = drc_line(count, words);
    let tail = count + words;
    assert(line.subrange(line.len() - drc_errors_marker().len(), line.len() as int)
        =~= drc_errors_marker());
    assert(line.subrange(0, found.len() as int) =~= found);
    assert(line.skip(found.len() as int) =~= tail);
    lemma_remove_all_keeps(tail, found);
    lemma_remove_all_passes(count, words, words);
    assert(words.subrange(0, words.len() as int) =~= words);
    assert(words.skip(words.len() as int) =~= Seq::<char>::empty());
    assert(remove_all(words, words) == remove_all(Seq::<char>::empty(), words));
}

/// A report line with a count of unconnected pads ends with the marker of
/// that line and gives the count.
pub proof fn lemma_drc_pads_line(count: Seq<char>)
    requires
        is_count(count),
    ensures
        ends_with(drc_line(count, drc_pads_words()), drc_pads_marker()),
        drc_count(drc_line(count, drc_pads_words()), drc_pads_words()) == in_usize(
            Some(decimal_value(count)),
        ),
{
    reveal_strlit("** Found ");
    reveal_strlit(" unconnected pads **");
    reveal_strlit("unconnected pads **");
    let found = drc_found_words();
    let words = drc_pads_words();
    let line = drc_line(count, words);
    let tail = count + words;
    assert(line.subrange(line.len() - drc_pads_marker().len(), line.len() as int)
        =~= drc_pads_marker());
    assert(line.subrange(0, found.len() as int) =~= found);
    assert(line.skip(found.len() as int) =~= tail);
    lemma_remove_all_keeps(tail, found);
    lemma_remove_all_passes(count, words, words);
    assert(words.subrange(0, words.len() as int) =~= words);
    assert(words.skip(words.len() as int) =~= Seq::<char>::empty());
    assert(remove_all(words, words) == remove_all(Seq::<char>::empty(), words));
}

/// Of every report in which the first line that ends with each marker is a
/// report line with a count that can be held: reading the report gives the
/// two counts as they stand there.
pub proof fn lemma_drc_counts_are_read(
    text: Seq<char>,
    errors_at: int,
    errors: Seq<char>,
    pads_at: int,
    pads: Seq<char>,
)
    requires
        is_count(errors),
        is_count(pads),
        decimal_value(errors) <= usize::MAX,
        decimal_value(pads) <= usize::MAX,
        0 <= errors_at < lines(text).len(),
        lines(text)[errors_at] == drc_line(errors, drc_errors_words()),
        forall|j: int|
            0 <= j < errors_at ==> !ends_with(#[trigger] lines(text)[j], drc_errors_marker()),
        0 <= pads_at < lines(text).len(),
        lines(text)[pads_at] == drc_line(pads, drc_pads_words()),
        forall|j: int|
            0 <= j < pads_at ==> !ends_with(#[trigger] lines(text)[j], drc_pads_marker()),
    ensures
        drc_output(text) == Ok::<DrcOutput, ParseError>(
            DrcOutput {
                num_errors: decimal_value(errors) as usize,
                num_unconnected_pads: decimal_value(pads) as usize,
            },
        ),
{
    lemma_drc_errors_line(errors);
    lemma_drc_pads_line(pads);
    lemma_first_ending_with(lines(text), drc_errors_marker(), errors_at);
    lemma_first_ending_with(lines(text), drc_pads_marker(), pads_at);
}

/// Of every report that lacks a line ending with one of the two markers:
/// reading it fails with `MissingField`.
pub proof fn lemma_drc_field_is_missed(text: Seq<char>)
    requires
        (forall|i: int|
            0 <= i < lines(text).len() ==> !ends_with(
                #[trigger] lines(text)[i],
                drc_errors_marker(),
            )) || (forall|i: int|
            0 <= i < lines(text).len() ==> !ends_with(
                #[trigger] lines(text)[i],
                drc_pads_marker(),
            )),
    ensures
        drc_output(text) == Err::<DrcOutput, ParseError>(ParseError::MissingField),
{
    if forall|i: int|
        0 <= i < lines(text).len() ==> !ends_with(#[trigger] lines(text)[i], drc_errors_marker()) {
        lemma_none_ending_with(lines(text), drc_errors_marker());
    } else {
        lemma_none_ending_with(lines(text), drc_pads_marker());
    }
}

} // verus!
