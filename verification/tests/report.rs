use kicad_cli::report::{parse_drc, parse_erc, DrcOutput, ErcOutput, ParseError};

#[test]
fn erc_summary_is_read() {
    let text = "ERC report (Mon 01 Jan 2020, Encoding UTF8)\n\n***** Sheet /\n\n ** ERC messages: 5  Errors 3  Warnings 2\n";
    assert_eq!(parse_erc(text), Ok(ErcOutput { num_errors: 3, num_warnings: 2 }));
    assert_eq!(
        ErcOutput::try_from_eeschema_output(text),
        Ok(ErcOutput { num_errors: 3, num_warnings: 2 })
    );
}

#[test]
fn erc_summary_without_findings() {
    let text = " ** ERC messages: 0  Errors 0  Warnings 0";
    assert_eq!(parse_erc(text), Ok(ErcOutput { num_errors: 0, num_warnings: 0 }));
}

#[test]
fn erc_counts_of_several_digits() {
    let text = " ** ERC messages: 112  Errors 12  Warnings 100\n";
    assert_eq!(parse_erc(text), Ok(ErcOutput { num_errors: 12, num_warnings: 100 }));
}

#[test]
fn erc_white_space_of_any_kind_and_length() {
    let text = " ** ERC messages:\t7 \u{a0} Errors \t 4\u{2003}Warnings    3 and more";
    assert_eq!(parse_erc(text), Ok(ErcOutput { num_errors: 4, num_warnings: 3 }));
}

#[test]
fn erc_inconsistent_totals() {
    let text = " ** ERC messages: 6  Errors 3  Warnings 2\n";
    assert_eq!(parse_erc(text), Err(ParseError::InconsistentTotals));
    let text = " ** ERC messages: 0  Errors 0  Warnings 1\n";
    assert_eq!(parse_erc(text), Err(ParseError::InconsistentTotals));
}

#[test]
fn erc_missing_summary_line() {
    assert_eq!(parse_erc(""), Err(ParseError::MissingSummaryLine));
    assert_eq!(parse_erc("ERC report\n\n"), Err(ParseError::MissingSummaryLine));
    assert_eq!(
        parse_erc("** ERC messages: 1  Errors 1  Warnings 0\n"),
        Err(ParseError::MissingSummaryLine)
    );
    assert_eq!(
        parse_erc("x ** ERC messages: 1  Errors 1  Warnings 0\n"),
        Err(ParseError::MissingSummaryLine)
    );
}

#[test]
fn erc_malformed_summary_line() {
    assert_eq!(parse_erc(" ** ERC messages\n"), Err(ParseError::MalformedSummaryLine));
    assert_eq!(
        parse_erc(" ** ERC messages: 5 Errors 3\n"),
        Err(ParseError::MalformedSummaryLine)
    );
    assert_eq!(
        parse_erc(" ** ERC messages:5  Errors 3  Warnings 2\n"),
        Err(ParseError::MalformedSummaryLine)
    );
    assert_eq!(
        parse_erc(" ** ERC messages: five  Errors 3  Warnings 2\n"),
        Err(ParseError::MalformedSummaryLine)
    );
    assert_eq!(
        parse_erc(" ** ERC messages: 5  errors 3  Warnings 2\n"),
        Err(ParseError::MalformedSummaryLine)
    );
}

#[test]
fn erc_count_too_large() {
    let text = " ** ERC messages: 340282366920938463463374607431768211456  Errors 0  Warnings 0\n";
    assert_eq!(parse_erc(text), Err(ParseError::MalformedCount));
}

#[test]
fn erc_largest_counts() {
    let text = format!(" ** ERC messages: {}  Errors {}  Warnings 0\n", usize::MAX, usize::MAX);
    assert_eq!(parse_erc(&text), Ok(ErcOutput { num_errors: usize::MAX, num_warnings: 0 }));
    let text = format!(" ** ERC messages: {}  Errors {}  Warnings 1\n", usize::MAX, usize::MAX);
    assert_eq!(parse_erc(&text), Err(ParseError::InconsistentTotals));
}

#[test]
fn erc_first_summary_line_counts() {
    let text = " ** ERC messages: 1  Errors 1  Warnings 0\n ** ERC messages: 2  Errors 1  Warnings 1\n";
    assert_eq!(parse_erc(text), Ok(ErcOutput { num_errors: 1, num_warnings: 0 }));
    let text = " ** ERC messages (none)\n ** ERC messages: 2  Errors 1  Warnings 1\n";
    assert_eq!(parse_erc(text), Err(ParseError::MalformedSummaryLine));
}

#[test]
fn erc_summary_later_in_the_line() {
    let text = " ** ERC messages ** ERC messages: 2  Errors 1  Warnings 1\n";
    assert_eq!(parse_erc(text), Ok(ErcOutput { num_errors: 1, num_warnings: 1 }));
}

#[test]
fn drc_report_with_both_lines() {
    let text = "** Drc report for board.kicad_pcb **\n** Created on 2020-01-01 **\n\n** Found 3 DRC errors **\n\n** Found 7 unconnected pads **\n\n** End of Report **\n";
    assert_eq!(parse_drc(text), Ok(DrcOutput { num_errors: 3, num_unconnected_pads: 7 }));
    assert_eq!(
        DrcOutput::try_from_pcbnew_output(text),
        Ok(DrcOutput { num_errors: 3, num_unconnected_pads: 7 })
    );
}

#[test]
fn drc_lines_in_any_order_and_without_final_line_feed() {
    let text = "** Found 0 unconnected pads **\n** Found 12 DRC errors **";
    assert_eq!(parse_drc(text), Ok(DrcOutput { num_errors: 12, num_unconnected_pads: 0 }));
}

#[test]
fn drc_missing_field() {
    assert_eq!(parse_drc(""), Err(ParseError::MissingField));
    assert_eq!(parse_drc("** Found 3 DRC errors **\n"), Err(ParseError::MissingField));
    assert_eq!(parse_drc("** Found 7 unconnected pads **\n"), Err(ParseError::MissingField));
    assert_eq!(
        parse_drc("** Found three DRC errors **\n** End of Report **\n"),
        Err(ParseError::MissingField)
    );
    assert_eq!(
        parse_drc("** Found 3 DRC errors ** \n** Found 7 unconnected pads **\n"),
        Err(ParseError::MissingField)
    );
}

#[test]
fn drc_malformed_count() {
    assert_eq!(
        parse_drc("** Found three DRC errors **\n** Found 7 unconnected pads **\n"),
        Err(ParseError::MalformedCount)
    );
    assert_eq!(
        parse_drc("** Found 3 DRC errors **\n** Found  unconnected pads **\n"),
        Err(ParseError::MalformedCount)
    );
    assert_eq!(
        parse_drc("  ** Found 3 DRC errors **\n** Found 7 unconnected pads **\n"),
        Err(ParseError::MalformedCount)
    );
    assert_eq!(
        parse_drc("** Found 99999999999999999999999 DRC errors **\n** Found 7 unconnected pads **\n"),
        Err(ParseError::MalformedCount)
    );
}

#[test]
fn drc_count_between_the_words_only() {
    assert_eq!(
        parse_drc("4 DRC errors **\n** Found +5 unconnected pads **\n"),
        Ok(DrcOutput { num_errors: 4, num_unconnected_pads: 5 })
    );
    assert_eq!(
        parse_drc("** Found ** Found 4 DRC errors **\n** Found 5 unconnected pads **\n"),
        Ok(DrcOutput { num_errors: 4, num_unconnected_pads: 5 })
    );
}

#[test]
fn drc_first_line_of_each_kind_counts() {
    let text = "** Found 1 DRC errors **\n** Found 2 DRC errors **\n** Found 3 unconnected pads **\n** Found 4 unconnected pads **\n";
    assert_eq!(parse_drc(text), Ok(DrcOutput { num_errors: 1, num_unconnected_pads: 3 }));
}
