//! The status messages that an import publishes for its observer.

use vstd::prelude::*;

verus! {

/// A message for the observer, with the topic it is published under.
#[derive(Debug, PartialEq, Eq)]
pub struct StatusUpdate {
    pub topic: String,
    pub message: String,
}

/// A `StatusUpdate` with its strings as character sequences.
pub struct StatusUpdateView {
    pub topic: Seq<char>,
    pub message: Seq<char>,
}

impl View for StatusUpdate {
    type V = StatusUpdateView;

    open spec fn view(&self) -> StatusUpdateView {
        StatusUpdateView { topic: self.topic@, message: self.message@ }
    }
}

/// The update that carries `message`: every update of an import goes out
/// under the topic `transfer_update`.
pub open spec fn transfer_update(message: Seq<char>) -> StatusUpdateView {
    StatusUpdateView { topic: "transfer_update"@, message }
}

/// The character of a decimal digit.
pub open spec fn digit(d: nat) -> char {
    if d == 0 {
        '0'
    } else if d == 1 {
        '1'
    } else if d == 2 {
        '2'
    } else if d == 3 {
        '3'
    } else if d == 4 {
        '4'
    } else if d == 5 {
        '5'
    } else if d == 6 {
        '6'
    } else if d == 7 {
        '7'
    } else if d == 8 {
        '8'
    } else {
        '9'
    }
}

/// The decimal numeral of `n`, without leading zeros.
pub open spec fn decimal(n: nat) -> Seq<char>
    decreases n,
{
    if n < 10 {
        seq![digit(n)]
    } else {
        decimal(n / 10).push(digit(n % 10))
    }
}

/// What is published while the profile called `name` is imported and
/// `percentage` hundredths of the work are done.
pub open spec fn progress_text(name: Seq<char>, percentage: nat) -> Seq<char> {
    "Importing profile '"@ + name + "'... "@ + decimal(percentage) + "%"@
}

/// The update that carries `message` to the observer.
pub fn emit_update(message: String) -> (out: StatusUpdate)
    ensures
        out@ == transfer_update(message@),
{
    StatusUpdate { topic: "transfer_update".to_owned(), message }
}

fn digit_str(d: u32) -> (out: &'static str)
    requires
        d < 10,
    ensures
        out@ == seq![digit(d as nat)],
{
    proof {
        reveal_strlit("0");
        reveal_strlit("1");
        reveal_strlit("2");
        reveal_strlit("3");
        reveal_strlit("4");
        reveal_strlit("5");
        reveal_strlit("6");
        reveal_strlit("7");
        reveal_strlit("8");
        reveal_strlit("9");
    }
    let out = if d == 0 {
        "0"
    } else if d == 1 {
        "1"
    } else if d == 2 {
        "2"
    } else if d == 3 {
        "3"
    } else if d == 4 {
        "4"
    } else if d == 5 {
        "5"
    } else if d == 6 {
        "6"
    } else if d == 7 {
        "7"
    } else if d == 8 {
        "8"
    } else {
        "9"
    };
    assert(out@ =~= seq![digit(d as nat)]);
    out
}

/// The decimal numeral of `n`.
pub fn decimal_string(n: u32) -> (out: String)
    ensures
        out@ == decimal(n as nat),
    decreases n,
{
    if n < 10 {
        digit_str(n).to_owned()
    } else {
        let mut out = decimal_string(n / 10);
        out.append(digit_str(n % 10));
        assert(out@ =~= decimal(n as nat));
        out
    }
}

/// The message published while the profile called `name` is imported.
pub fn progress_message(name: &str, percentage: u32) -> (out: String)
    ensures
        out@ == progress_text(name@, percentage as nat),
{
    let mut out = "Importing profile '".to_owned();
    out.append(name);
    out.append("'... ");
    out.append(decimal_string(percentage).as_str());
    out.append("%");
    out
}

/// The update published while the profile called `name` is imported.
pub fn report_progress(name: &str, percentage: u32) -> (out: StatusUpdate)
    ensures
        out@ == transfer_update(progress_text(name@, percentage as nat)),
{
    emit_update(progress_message(name, percentage))
}

} // verus!
