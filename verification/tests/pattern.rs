use kicad_cli::report::{parse_erc, ErcOutput, ParseError};
use regex::Regex;

fn summary() -> Regex {
    Regex::new(r" \*\* ERC messages:\s+([0-9]+)\s+Errors\s+([0-9]+)\s+Warnings\s+([0-9]+)")
        .unwrap()
}

/// What the summary line says, read with the pattern of the summary.
fn by_pattern(pattern: &Regex, line: &str) -> Result<ErcOutput, ParseError> {
    if !line.starts_with(" ** ERC messages") {
        return Err(ParseError::MissingSummaryLine);
    }
    let found = match pattern.captures(line) {
        Some(found) => found,
        None => return Err(ParseError::MalformedSummaryLine),
    };
    let counts: Vec<Option<usize>> = (1..4).map(|i| found[i].parse().ok()).collect();
    match (counts[0], counts[1], counts[2]) {
        (Some(total), Some(errors), Some(warnings)) => {
            if errors.checked_add(warnings) == Some(total) {
                Ok(ErcOutput { num_errors: errors, num_warnings: warnings })
            } else {
                Err(ParseError::InconsistentTotals)
            }
        }
        _ => Err(ParseError::MalformedCount),
    }
}

fn agree(pattern: &Regex, line: &str) {
    assert_eq!(parse_erc(line), by_pattern(pattern, line), "{:?}", line);
}

#[test]
fn summary_lines_are_read_as_the_pattern_reads_them() {
    let pattern = summary();
    let heads = [" ** ERC messages:", " ** ERC messages", " ** ERC messages : ** ERC messages:"];
    let gaps = [" ", "\t ", "", "\u{a0}\u{2003}"];
    let counts = ["0", "2", "12", "007", "", "x", "\u{663}"];
    let mut lines = 0;
    for head in heads {
        for first in gaps {
            for second in gaps {
                for total in counts {
                    for errors in counts {
                        for warnings in ["0", "10", "5x", " "] {
                            let line = format!(
                                "{}{}{}{}Errors{}{}{}Warnings{}{}",
                                head, first, total, second, first, errors, second, first, warnings
                            );
                            agree(&pattern, &line);
                            lines += 1;
                        }
                    }
                }
            }
        }
    }
    assert_eq!(lines, 3 * 4 * 4 * 7 * 7 * 4);
}

#[test]
fn large_counts_are_read_as_the_pattern_reads_them() {
    let pattern = summary();
    let most = usize::MAX.to_string();
    let more = format!("{}0", usize::MAX);
    for total in [&most, &more] {
        for errors in [&most, &more, &"0".to_string(), &"1".to_string()] {
            for warnings in [&most, &"0".to_string(), &"1".to_string()] {
                agree(
                    &pattern,
                    &format!(
                        " ** ERC messages: {}  Errors {}  Warnings {}",
                        total, errors, warnings
                    ),
                );
            }
        }
    }
}

#[test]
fn odd_lines_are_read_as_the_pattern_reads_them() {
    let pattern = summary();
    for line in [
        "",
        " ",
        " ** ERC messages",
        " ** ERC messages:",
        " ** ERC messages: 1",
        " ** ERC messages: 1 Errors",
        " ** ERC messages: 1 Errors 1 Warnings",
        " ** ERC messages: 1 Errors 1 Warnings ",
        " ** ERC messages: 1 Errors 1 Warnings 0",
        " ** ERC messages: 1 Errors 1 Warnings 00000",
        " ** ERC messages: 1 Errors 1 Warnings 0 ** ERC messages: 2 Errors 1 Warnings 1",
        " ** ERC messages: 1 Errors x ** ERC messages: 2 Errors 1 Warnings 1",
        " ** ERC messages: ** ERC messages: 2 Errors 1 Warnings 1",
        " ** ERC messages:  ** ERC messages: 2 Errors 1 Warnings 1",
        " ** ERC messages: 3 ErrorsErrors 1 Warnings 2",
        " ** ERC messages: 3 Errors 1Warnings 2",
        " ** ERC messages: 3\u{b}Errors\u{c}1\rWarnings\u{85}2",
        " ** ERC messages: 3\u{200b}Errors 1 Warnings 2",
        " ** ERC messages: 3 Errors 1 Warnings 2\u{663}",
        "  ** ERC messages: 3 Errors 1 Warnings 2",
        "** ERC messages: 3 Errors 1 Warnings 2",
    ] {
        agree(&pattern, line);
    }
}
