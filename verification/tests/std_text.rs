use kicad_cli::report::{parse_drc, DrcOutput, ParseError};
use kicad_cli::text::{chars_of, read_number, split_lines, without};
use kicad_cli::window::parse_window_ids;

fn text_of(chars: &[char]) -> String {
    chars.iter().collect()
}

/// Every text of up to `length` characters out of `alphabet`.
fn texts(alphabet: &[char], length: usize) -> Vec<String> {
    let mut all = vec![String::new()];
    let mut last = vec![String::new()];
    for _ in 0..length {
        let mut next = Vec::new();
        for text in &last {
            for c in alphabet {
                let mut longer = text.clone();
                longer.push(*c);
                next.push(longer);
            }
        }
        all.extend(next.iter().cloned());
        last = next;
    }
    all
}

#[test]
fn lines_are_what_split_terminator_gives() {
    for text in texts(&['a', '\n', '\r'], 6) {
        let expected: Vec<String> = text.split_terminator('\n').map(|l| l.to_string()).collect();
        let lines: Vec<String> = split_lines(&chars_of(&text)).iter().map(|l| text_of(l)).collect();
        assert_eq!(lines, expected, "{:?}", text);
    }
}

#[test]
fn window_ids_are_the_pieces_that_are_not_empty() {
    for text in texts(&['1', '2', '\n'], 6) {
        let expected: Vec<String> =
            text.split("\n").filter(|line| line != &"").map(|line| line.to_string()).collect();
        let ids: Vec<String> = parse_window_ids(&text).into_iter().map(|h| h.id).collect();
        assert_eq!(ids, expected, "{:?}", text);
    }
}

#[test]
fn removal_is_what_replace_gives() {
    for pattern in ["a", "ab", "aa", "aba", "abab", "b", ""] {
        for text in texts(&['a', 'b'], 8) {
            let expected = text.replace(pattern, "");
            let kept = text_of(&without(&chars_of(&text), &chars_of(pattern)));
            if pattern.is_empty() {
                assert_eq!(kept, text);
            } else {
                assert_eq!(kept, expected, "{:?} without {:?}", text, pattern);
            }
        }
    }
}

#[test]
fn numbers_are_what_parse_gives() {
    for text in texts(&['0', '7', '+', '-', ' '], 5) {
        let expected: Option<usize> = text.parse().ok();
        assert_eq!(read_number(&chars_of(&text)), expected, "{:?}", text);
    }
    for n in [0, 1, 9, 10, 99, 100, 12345, usize::MAX - 1, usize::MAX] {
        assert_eq!(read_number(&chars_of(&n.to_string())), Some(n));
        assert_eq!(read_number(&chars_of(&format!("+{}", n))), Some(n));
        assert_eq!(read_number(&chars_of(&format!("000{}", n))), Some(n));
    }
}

/// The two counts of a report, read with the text functions of std. `None`
/// stands for a report on which those functions fail.
fn by_std(text: &str) -> Option<DrcOutput> {
    let errors: Option<usize> = text
        .split_terminator('\n')
        .find(|line| line.ends_with("DRC errors **"))?
        .replace("** Found ", "")
        .replace(" DRC errors **", "")
        .parse()
        .ok();
    let pads: Option<usize> = text
        .split_terminator('\n')
        .find(|line| line.ends_with("unconnected pads **"))?
        .replace("** Found ", "")
        .replace(" unconnected pads **", "")
        .parse()
        .ok();
    Some(DrcOutput { num_errors: errors?, num_unconnected_pads: pads? })
}

#[test]
fn design_rules_reports_are_read_as_std_reads_them() {
    let errors = [
        "** Found 3 DRC errors **",
        "** Found 12 DRC errors **",
        "** Found  DRC errors **",
        "** Found x DRC errors **",
        "** Found ** Found 4 DRC errors **",
        "5 DRC errors **",
        "6DRC errors **",
        "** Found 7 DRC errors ** DRC errors **",
        "** Found 8 DRC errors ** ",
        "** Found 9 unconnected pads ** DRC errors **",
        "",
    ];
    let pads = [
        "** Found 7 unconnected pads **",
        "** Found +1 unconnected pads **",
        "** Found 99999999999999999999999 unconnected pads **",
        " unconnected pads **",
        "unconnected pads **",
        "** Found 2 unconnected pads",
        "",
    ];
    let others = ["", "** Drc report **\n", "\n\n", "** Found 0 DRC errors **\n"];
    let mut reports = 0;
    for first in errors {
        for second in pads {
            for before in others {
                for end in ["", "\n", "\n** End of Report **\n"] {
                    for text in [
                        format!("{}{}\n{}{}", before, first, second, end),
                        format!("{}{}\n{}{}", before, second, first, end),
                    ] {
                        let read = parse_drc(&text);
                        match by_std(&text) {
                            Some(output) => assert_eq!(read, Ok(output), "{:?}", text),
                            None => assert!(
                                read == Err(ParseError::MissingField)
                                    || read == Err(ParseError::MalformedCount),
                                "{:?}",
                                text
                            ),
                        }
                        reports += 1;
                    }
                }
            }
        }
    }
    assert_eq!(reports, 11 * 7 * 4 * 3 * 2);
}
