//! What the answer of the server means for a fetch.

use crate::error::TransportError;
use vstd::prelude::*;

verus! {

/// Whether a status code tells of success: the codes from 200 to 299 do.
pub open spec fn is_success(code: int) -> bool {
    200 <= code < 300
}

/// The figure for a number below ten.
pub open spec fn figure(digit: nat) -> Seq<char> {
    if digit == 0 {
        "0"@
    } else if digit == 1 {
        "1"@
    } else if digit == 2 {
        "2"@
    } else if digit == 3 {
        "3"@
    } else if digit == 4 {
        "4"@
    } else if digit == 5 {
        "5"@
    } else if digit == 6 {
        "6"@
    } else if digit == 7 {
        "7"@
    } else if digit == 8 {
        "8"@
    } else {
        "9"@
    }
}

/// A number in decimal figures, without leading zeros.
pub open spec fn decimal(number: nat) -> Seq<char>
    decreases number,
{
    if number < 10 {
        figure(number)
    } else {
        decimal(number / 10) + figure(number % 10)
    }
}

/// A status as it is shown: the code in figures, a blank, the reason.
pub open spec fn status_text(code: nat, reason: Seq<char>) -> Seq<char> {
    decimal(code) + " "@ + reason
}

/// What is said of a fetch from `url` that the server answered with the
/// status `code`, whose reason is `reason`.
pub open spec fn failure_text(url: Seq<char>, code: nat, reason: Seq<char>) -> Seq<char> {
    "Failed to fetch weather data for "@ + url + " with status: "@ + status_text(code, reason)
}

fn figure_of(digit: u16) -> (r: &'static str)
    requires
        digit < 10,
    ensures
        r@ == figure(digit as nat),
{
    match digit {
        0 => "0",
        1 => "1",
        2 => "2",
        3 => "3",
        4 => "4",
        5 => "5",
        6 => "6",
        7 => "7",
        8 => "8",
        _ => "9",
    }
}

/// `number` in decimal figures.
pub fn decimal_text(number: u16) -> (r: String)
    ensures
        r@ == decimal(number as nat),
    decreases number,
{
    if number < 10 {
        String::from_str(figure_of(number))
    } else {
        let mut text = decimal_text(number / 10);
        text.append(figure_of(number % 10));
        text
    }
}

/// Judges the answer to a fetch from `url`: `code` is the status code of the
/// answer and `reason` the reason that goes with it. A code of success lets
/// the fetch go on; any other ends it, with a message that names the address
/// and the status.
pub fn check_status(url: &str, code: u16, reason: &str) -> (r: Result<(), TransportError>)
    ensures
        match r {
            Ok(_) => is_success(code as int),
            Err(e) => !is_success(code as int) && e.message@ == failure_text(
                url@,
                code as nat,
                reason@,
            ),
        },
{
    if 200 <= code && code < 300 {
        Ok(())
    } else {
        let mut message = String::from_str("Failed to fetch weather data for ");
        message.append(url);
        message.append(" with status: ");
        message.append(decimal_text(code).as_str());
        message.append(" ");
        message.append(reason);
        assert(message@ == failure_text(url@, code as nat, reason@));
        Err(TransportError { message })
    }
}

} // verus!
