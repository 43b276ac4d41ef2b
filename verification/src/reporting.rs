//! The report of the leaks that were confirmed, as text, and the exit code
//! of a run.

use crate::information_leak::confirmed_leak::{ConfirmedLeak, ConfirmedLeakView, SortedConfirmedLeak};
use crate::information_leak::leak_set::ConfirmedLeakSet;
use crate::information_leak::LeakedDataType;
use vstd::prelude::*;

verus! {

/// The version of the format of the reports.
pub const REPORT_FORMAT_VERSION: u32 = 1;

/// The exit code of a run that confirmed no leak.
pub const EXIT_CODE_NO_LEAK: i32 = 0;

/// The exit code of a run that confirmed leaks.
pub const EXIT_CODE_LEAKS: i32 = 1;

/// The exit code of a run that failed.
pub const EXIT_CODE_FAILURE: i32 = 2;

/// How a kind of leaked data is called in a report.
pub open spec fn leaked_data_type_text(data_type: LeakedDataType) -> Seq<char> {
    match data_type {
        LeakedDataType::StringLiteral => "string literal"@,
        LeakedDataType::StructName => "struct name"@,
        LeakedDataType::ClassName => "class name"@,
    }
}

/// The digit, in base 10 or 16, for a number below 16: `0` to `9`, then `a`
/// to `f`.
pub open spec fn digit_char(digit: int) -> char {
    if digit < 10 {
        (48 + digit) as char
    } else {
        (87 + digit) as char
    }
}

/// The digits of `value` in base 16, in lower case and without leading
/// zeros.
pub open spec fn hexadecimal_digits(value: nat) -> Seq<char>
    decreases value,
{
    if value < 16 {
        seq![digit_char(value as int)]
    } else {
        hexadecimal_digits(value / 16).push(digit_char((value % 16) as int))
    }
}

/// The digits of `value` in base 10, without leading zeros.
pub open spec fn decimal_digits(value: nat) -> Seq<char>
    decreases value,
{
    if value < 10 {
        seq![digit_char(value as int)]
    } else {
        decimal_digits(value / 10).push(digit_char((value % 10) as int))
    }
}

/// The line of a text report for one leak.
pub open spec fn report_line(leak: ConfirmedLeakView) -> Seq<char> {
    "\""@ + leak.data + "\" ("@ + leaked_data_type_text(leak.data_type)
        + ") leaked at offset 0x"@ + hexadecimal_digits(leak.location.binary.offset as nat) + " in \""@
        + leak.location.binary.file + "\" [declared at "@ + leak.location.source.file + ":"@
        + decimal_digits(leak.location.source.line as nat) + "]"@
}

/// The text report for `leaks`: the line of each leak, each followed by a
/// line feed.
pub open spec fn report_text(leaks: Seq<ConfirmedLeakView>) -> Seq<char>
    decreases leaks.len(),
{
    if leaks.len() == 0 {
        Seq::empty()
    } else {
        report_text(leaks.drop_last()) + report_line(leaks.last()).push('\n')
    }
}

/// The exit code of a run that confirmed `leaks`.
pub open spec fn exit_code_of(leaks: Seq<ConfirmedLeakView>) -> i32 {
    if leaks.len() == 0 {
        EXIT_CODE_NO_LEAK
    } else {
        EXIT_CODE_LEAKS
    }
}

/// The exit code is 0 exactly when no leak was confirmed.
pub proof fn lemma_exit_code_zero_iff_no_leak(leaks: Seq<ConfirmedLeakView>)
    ensures
        exit_code_of(leaks) == 0 <==> leaks.len() == 0,
{
}

/// Returns a text representation of `LeakedDataType`
pub fn display_leaked_data_type(data_type: LeakedDataType) -> (text: String)
    ensures
        text@ == leaked_data_type_text(data_type),
{
    match data_type {
        LeakedDataType::StringLiteral => "string literal".to_owned(),
        LeakedDataType::StructName => "struct name".to_owned(),
        LeakedDataType::ClassName => "class name".to_owned(),
    }
}

/// The character for a digit below 16.
fn digit_to_char(digit: u8) -> (c: char)
    requires
        digit < 16,
    ensures
        c == digit_char(digit as int),
{
    if digit < 10 {
        (48 + digit) as char
    } else {
        (87 + digit) as char
    }
}

/// Appends the digits of `value` in base 16 to `text`.
fn push_hexadecimal(text: &mut String, value: u64)
    ensures
        final(text)@ == old(text)@ + hexadecimal_digits(value as nat),
    decreases value,
{
    if value >= 16 {
        push_hexadecimal(text, value / 16);
    }
    text.push(digit_to_char((value % 16) as u8));
}

/// Appends the digits of `value` in base 10 to `text`.
fn push_decimal(text: &mut String, value: u64)
    ensures
        final(text)@ == old(text)@ + decimal_digits(value as nat),
    decreases value,
{
    if value >= 10 {
        push_decimal(text, value / 10);
    }
    text.push(digit_to_char((value % 10) as u8));
}

/// The digits of `value` in base 16, in lower case.
pub fn to_hexadecimal(value: u64) -> (text: String)
    ensures
        text@ == hexadecimal_digits(value as nat),
{
    let mut text = String::new();
    push_hexadecimal(&mut text, value);
    text
}

/// The digits of `value` in base 10.
pub fn to_decimal(value: u64) -> (text: String)
    ensures
        text@ == decimal_digits(value as nat),
{
    let mut text = String::new();
    push_decimal(&mut text, value);
    text
}

/// Appends the line of the text report for `leak` to `report`.
fn push_report_line(report: &mut String, leak: &ConfirmedLeak)
    ensures
        final(report)@ == old(report)@ + report_line(leak@),
{
    report.append("\"");
    report.append(leak.data.as_str());
    report.append("\" (");
    report.append(display_leaked_data_type(leak.data_type).as_str());
    report.append(") leaked at offset 0x");
    push_hexadecimal(report, leak.location.binary.offset);
    report.append(" in \"");
    report.append(leak.location.binary.file.as_str());
    report.append("\" [declared at ");
    report.append(leak.location.source.file.as_str());
    report.append(":");
    push_decimal(report, leak.location.source.line);
    report.append("]");
}

/// The line of the text report for one leak: its data, its kind, the offset
/// and the binary file where it was found, and the source file and line
/// where it is declared.
pub fn format_confirmed_leak(leak: &ConfirmedLeak) -> (line: String)
    ensures
        line@ == report_line(leak@),
{
    let mut line = String::new();
    push_report_line(&mut line, leak);
    line
}

/// The text report for a set of confirmed leaks: one line for each leak, in
/// the order of the set.
pub fn dump_confirmed_leaks_as_text<L: SortedConfirmedLeak>(
    confirmed_leaks: &ConfirmedLeakSet<L>,
) -> (report: String)
    ensures
        report@ == report_text(confirmed_leaks@),
{
    let mut report = String::new();
    let mut i: usize = 0;
    while i < confirmed_leaks.len()
        invariant
            i <= confirmed_leaks@.len(),
            report@ == report_text(confirmed_leaks@.take(i as int)),
        decreases confirmed_leaks@.len() - i,
    {
        assert(confirmed_leaks@.take(i + 1).drop_last() =~= confirmed_leaks@.take(i as int));
        if let Some(sorted) = confirmed_leaks.get(i) {
            let leak = sorted.leak();
            push_report_line(&mut report, leak);
            report.push('\n');
        }
        i += 1;
    }
    assert(confirmed_leaks@.take(i as int) =~= confirmed_leaks@);
    report
}

/// The exit code of a run: 0 when no leak was confirmed, 1 otherwise.
pub fn exit_code<L: SortedConfirmedLeak>(confirmed_leaks: &ConfirmedLeakSet<L>) -> (code: i32)
    ensures
        code == exit_code_of(confirmed_leaks@),
        code == 0 <==> confirmed_leaks@.len() == 0,
{
    if confirmed_leaks.is_empty() {
        EXIT_CODE_NO_LEAK
    } else {
        EXIT_CODE_LEAKS
    }
}

} // verus!
