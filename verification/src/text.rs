//! The wording of everything the reports say to people.

use crate::active_incident::IncidentStatus;
use vstd::prelude::*;
use vstd::string::StringExecFns;

verus! {

/// The character for a single decimal digit.
pub open spec fn digit_char(digit: nat) -> char {
    if digit == 0 {
        '0'
    } else if digit == 1 {
        '1'
    } else if digit == 2 {
        '2'
    } else if digit == 3 {
        '3'
    } else if digit == 4 {
        '4'
    } else if digit == 5 {
        '5'
    } else if digit == 6 {
        '6'
    } else if digit == 7 {
        '7'
    } else if digit == 8 {
        '8'
    } else {
        '9'
    }
}

/// The decimal numeral of `n`, without sign or leading zeros.
pub open spec fn decimal(n: nat) -> Seq<char>
    decreases n,
{
    if n < 10 {
        seq![digit_char(n)]
    } else {
        decimal(n / 10).push(digit_char(n % 10))
    }
}

/// What a blocked reporter is told.
pub open spec fn blocked_text() -> Seq<char> {
    "You are blocked from making reports"@
}

/// What a reporter is told who reports while an incident is already active.
pub open spec fn active_text(link: Seq<char>) -> Seq<char> {
    "An incident is currently active, see "@ + link
}

/// What a reporter is told whose own incident lost against one created meanwhile.
pub open spec fn overtaken_text(link: Seq<char>) -> Seq<char> {
    "Looks like someone beat you to do it, an incident is currently active: "@ + link
}

/// What the creator of an incident is told.
pub open spec fn created_text(link: Seq<char>) -> Seq<char> {
    "Incident created: "@ + link
}

/// The body of the message that announces an incident raised by `reporter`.
pub open spec fn announcement_text(reporter: u64, status: IncidentStatus) -> Seq<char> {
    "**Downtime Reported**\n<ping-downtime-placeholder>\n\nInitial Reporter: <@"@ + decimal(
        reporter as nat,
    ) + ">\nStatus: **"@ + status.text() + "**\n\n**Are you having issues, what's broken?**"@
}

/// Whether two strings hold the same characters.
pub fn same_text(a: &str, b: &str) -> (same: bool)
    ensures
        same == (a@ == b@),
{
    a.to_owned() == b.to_owned()
}

/// The one-character string for a decimal digit.
fn digit_str(digit: u64) -> (s: &'static str)
    requires
        digit < 10,
    ensures
        s@ == seq![digit_char(digit as nat)],
{
    proof {
        reveal_strlit("0");
        reveal_strlit("1");
        reveal_strlit("2");
        reveal_strlit("3");
        reveal_strlit("4");
        reveal_strlit("5");
        reveal_strlit("6");
        reveal_strlit("7");
        reveal_strlit("8");
        reveal_strlit("9");
    }
    let s: &'static str = match digit {
        0 => "0",
        1 => "1",
        2 => "2",
        3 => "3",
        4 => "4",
        5 => "5",
        6 => "6",
        7 => "7",
        8 => "8",
        _ => "9",
    };
    assert(s@ =~= seq![digit_char(digit as nat)]);
    s
}

/// Appends the decimal numeral of `n` to `out`.
pub fn push_decimal(out: &mut String, n: u64)
    ensures
        final(out)@ == old(out)@ + decimal(n as nat),
    decreases n,
{
    if n >= 10 {
        push_decimal(out, n / 10);
    }
    out.append(digit_str(n % 10));
    assert(out@ =~= old(out)@ + decimal(n as nat));
}

/// The decimal numeral of `n`.
pub fn decimal_string(n: u64) -> (s: String)
    ensures
        s@ == decimal(n as nat),
{
    let mut s = String::new();
    push_decimal(&mut s, n);
    assert(s@ =~= decimal(n as nat));
    s
}

/// Words the refusal of a blocked reporter.
pub fn blocked_message() -> (text: String)
    ensures
        text@ == blocked_text(),
{
    "You are blocked from making reports".to_owned()
}

/// Words the pointer to the incident that is already active at `link`.
pub fn active_message(link: &str) -> (text: String)
    ensures
        text@ == active_text(link@),
{
    "An incident is currently active, see ".to_owned().concat(link)
}

/// Words the pointer to the incident at `link` that won against the reporter's own.
pub fn overtaken_message(link: &str) -> (text: String)
    ensures
        text@ == overtaken_text(link@),
{
    "Looks like someone beat you to do it, an incident is currently active: ".to_owned().concat(
        link,
    )
}

/// Words the confirmation that an incident was created at `link`.
pub fn created_message(link: &str) -> (text: String)
    ensures
        text@ == created_text(link@),
{
    "Incident created: ".to_owned().concat(link)
}

/// Words the message that announces an incident raised by `reporter`.
pub fn announcement(reporter: u64, status: IncidentStatus) -> (text: String)
    ensures
        text@ == announcement_text(reporter, status),
{
    let mut text: String =
        "**Downtime Reported**\n<ping-downtime-placeholder>\n\nInitial Reporter: <@".to_owned();
    push_decimal(&mut text, reporter);
    text.append(">\nStatus: **");
    let status_text: String = status.to_string();
    text.append(status_text.as_str());
    text.append("**\n\n**Are you having issues, what's broken?**");
    text
}

} // verus!
