//! The address of the server's endpoint.
//!
//! The transport is reached at `scheme://host:port/ws`, with the port written
//! in decimal.

use vstd::prelude::*;

verus! {

/// The character for one decimal digit.
pub open spec fn digit_char(digit: nat) -> char
    recommends
        digit < 10,
{
    seq!['0', '1', '2', '3', '4', '5', '6', '7', '8', '9'][digit as int]
}

/// The decimal numeral of a number, without leading zeros.
pub open spec fn decimal(number: nat) -> Seq<char>
    decreases number,
{
    if number < 10 {
        seq![digit_char(number)]
    } else {
        decimal(number / 10).push(digit_char(number % 10))
    }
}

/// The number that one decimal digit stands for.
pub open spec fn digit_value(digit: char) -> nat {
    if digit == '1' {
        1
    } else if digit == '2' {
        2
    } else if digit == '3' {
        3
    } else if digit == '4' {
        4
    } else if digit == '5' {
        5
    } else if digit == '6' {
        6
    } else if digit == '7' {
        7
    } else if digit == '8' {
        8
    } else if digit == '9' {
        9
    } else {
        0
    }
}

/// The number that a decimal numeral stands for.
pub open spec fn numeral_value(numeral: Seq<char>) -> nat
    decreases numeral.len(),
{
    if numeral.len() == 0 {
        0
    } else {
        numeral_value(numeral.drop_last()) * 10 + digit_value(numeral.last())
    }
}

/// The decimal numeral of a number stands for that number, and it is the
/// shortest that does: it has no leading zero, but for zero itself.
pub proof fn lemma_decimal_denotes(number: nat)
    ensures
        numeral_value(decimal(number)) == number,
        decimal(number).len() >= 1,
        decimal(number).len() > 1 ==> decimal(number)[0] != '0',
        number > 0 ==> decimal(number)[0] != '0',
    decreases number,
{
    if number < 10 {
        let numeral = decimal(number);
        assert(numeral_value(numeral.drop_last()) == 0);
    } else {
        lemma_decimal_denotes(number / 10);
        let front = decimal(number / 10);
        let numeral = decimal(number);
        assert(numeral.drop_last() =~= front);
    }
}

/// The address of the endpoint at the given host and port.
pub open spec fn endpoint(scheme: Seq<char>, host: Seq<char>, port: nat) -> Seq<char> {
    scheme + seq![':', '/', '/'] + host + seq![':'] + decimal(port) + seq!['/', 'w', 's']
}

/// One decimal digit as text.
fn digit_text(digit: u16) -> (text: &'static str)
    requires
        digit < 10,
    ensures
        text@ == seq![digit_char(digit as nat)],
{
    proof {
        reveal_strlit("0");
        reveal_strlit("1");
        reveal_strlit("2");
        reveal_strlit("3");
        reveal_strlit("4");
        reveal_strlit("5");
        reveal_strlit("6");
        reveal_strlit("7");
        reveal_strlit("8");
        reveal_strlit("9");
    }
    match digit {
        0 => "0",
        1 => "1",
        2 => "2",
        3 => "3",
        4 => "4",
        5 => "5",
        6 => "6",
        7 => "7",
        8 => "8",
        _ => "9",
    }
}

/// Appends the decimal numeral of a number to a text.
fn append_decimal(text: &mut String, number: u16)
    ensures
        final(text)@ == old(text)@ + decimal(number as nat),
    decreases number,
{
    if number >= 10 {
        append_decimal(text, number / 10);
    }
    text.append(digit_text(number % 10));
}

/// Writes the address of the endpoint at the given host and port.
pub fn endpoint_url(scheme: &str, host: &str, port: u16) -> (url: String)
    ensures
        url@ == endpoint(scheme@, host@, port as nat),
{
    proof {
        reveal_strlit("://");
        reveal_strlit(":");
        reveal_strlit("/ws");
    }
    let mut url = String::from_str(scheme);
    url.append("://");
    url.append(host);
    url.append(":");
    append_decimal(&mut url, port);
    url.append("/ws");
    url
}

} // verus!
