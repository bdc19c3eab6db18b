//! The event that the ledger logs for each commitment that it records.

use vstd::prelude::*;
use vstd::string::*;

verus! {

/// The JSON form of a string: the text between double quotes, with the
/// characters that JSON reserves escaped.
pub uninterp spec fn json_string(s: Seq<char>) -> Seq<char>;

/// `serde_json::Value`'s `Display` on a `Value::String`: the compact JSON
/// text of the string.
#[verifier::external_body]
pub(crate) fn quote_json(s: &str) -> (r: String)
    ensures
        r@ == json_string(s@),
{
    near_sdk::serde_json::Value::String(s.to_string()).to_string()
}

/// The character that stands for a decimal digit.
pub open spec fn digit_char(d: nat) -> char {
    if d == 0 {
        '0'
    } else if d == 1 {
        '1'
    } else if d == 2 {
        '2'
    } else if d == 3 {
        '3'
    } else if d == 4 {
        '4'
    } else if d == 5 {
        '5'
    } else if d == 6 {
        '6'
    } else if d == 7 {
        '7'
    } else if d == 8 {
        '8'
    } else {
        '9'
    }
}

/// A number in decimal, without sign or leading zeros.
pub open spec fn decimal_digits(n: nat) -> Seq<char>
    decreases n,
{
    if n < 10 {
        seq![digit_char(n)]
    } else {
        decimal_digits(n / 10).push(digit_char(n % 10))
    }
}

fn digit_text(d: u64) -> (r: &'static str)
    requires
        d < 10,
    ensures
        r@ == seq![digit_char(d as nat)],
{
    proof {
        reveal_strlit("0");
        reveal_strlit("1");
        reveal_strlit("2");
        reveal_strlit("3");
        reveal_strlit("4");
        reveal_strlit("5");
        reveal_strlit("6");
        reveal_strlit("7");
        reveal_strlit("8");
        reveal_strlit("9");
    }
    let r = if d == 0 {
        "0"
    } else if d == 1 {
        "1"
    } else if d == 2 {
        "2"
    } else if d == 3 {
        "3"
    } else if d == 4 {
        "4"
    } else if d == 5 {
        "5"
    } else if d == 6 {
        "6"
    } else if d == 7 {
        "7"
    } else if d == 8 {
        "8"
    } else {
        "9"
    };
    assert(r@ =~= seq![digit_char(d as nat)]);
    r
}

/// Writes a number in decimal.
pub fn decimal_text(n: u64) -> (r: String)
    ensures
        r@ == decimal_digits(n as nat),
    decreases n,
{
    if n < 10 {
        String::from_str(digit_text(n))
    } else {
        let mut r = decimal_text(n / 10);
        r.append(digit_text(n % 10));
        assert(r@ =~= decimal_digits(n as nat));
        r
    }
}

/// The log line of an event whose three texts are already in their JSON
/// form: the tag of an event line, then the event's object with its
/// standard, version and name, and one entry of data.
pub open spec fn line_of_quoted(
    quoted_run_id: Seq<char>,
    quoted_root: Seq<char>,
    quoted_total: Seq<char>,
    timestamp: u64,
) -> Seq<char> {
    "EVENT_JSON:"@
        + "{\"standard\":\"nep297\",\"version\":\"1.0.0\",\"event\":\"payroll_committed\",\"data\":[{\"run_id\":"@
        + quoted_run_id + ",\"payroll_root\":"@ + quoted_root + ",\"total_amount\":"@
        + quoted_total + ",\"timestamp\":"@ + decimal_digits(timestamp as nat) + "}]}"@
}

/// The log line that carries the event for one commitment.
pub open spec fn event_line(
    run_id: Seq<char>,
    payroll_root: Seq<char>,
    total_amount: Seq<char>,
    timestamp: u64,
) -> Seq<char> {
    line_of_quoted(
        json_string(run_id),
        json_string(payroll_root),
        json_string(total_amount),
        timestamp,
    )
}

/// Puts the log line of an event together from its three texts, each
/// already in its JSON form, and the time.
pub fn assemble_line(
    quoted_run_id: &str,
    quoted_root: &str,
    quoted_total: &str,
    timestamp: u64,
) -> (line: String)
    ensures
        line@ == line_of_quoted(quoted_run_id@, quoted_root@, quoted_total@, timestamp),
{
    let mut line = String::from_str("EVENT_JSON:");
    line.append(
        "{\"standard\":\"nep297\",\"version\":\"1.0.0\",\"event\":\"payroll_committed\",\"data\":[{\"run_id\":",
    );
    line.append(quoted_run_id);
    line.append(",\"payroll_root\":");
    line.append(quoted_root);
    line.append(",\"total_amount\":");
    line.append(quoted_total);
    line.append(",\"timestamp\":");
    let time = decimal_text(timestamp);
    line.append(time.as_str());
    line.append("}]}");
    assert(line@ =~= line_of_quoted(quoted_run_id@, quoted_root@, quoted_total@, timestamp));
    line
}

/// Builds the log line that carries the event for one commitment.
pub fn payroll_committed_line(
    run_id: &str,
    payroll_root: &str,
    total_amount: &str,
    timestamp: u64,
) -> (line: String)
    ensures
        line@ == event_line(run_id@, payroll_root@, total_amount@, timestamp),
{
    let id = quote_json(run_id);
    let root = quote_json(payroll_root);
    let total = quote_json(total_amount);
    assemble_line(id.as_str(), root.as_str(), total.as_str(), timestamp)
}

} // verus!
