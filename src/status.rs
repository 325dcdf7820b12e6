//! HTTP status codes: the success range and the text shown for a failure.
use vstd::prelude::*;

verus! {

/// A status code that the HTTP client can represent (three digits).
pub open spec fn is_valid_code(code: u16) -> bool {
    100 <= code && code <= 999
}

/// The success range: 2xx.
pub open spec fn is_success_code(code: u16) -> bool {
    200 <= code && code < 300
}

/// The canonical reason phrase that the HTTP client knows for a code, if any.
pub uninterp spec fn reason_of(code: u16) -> Option<Seq<char>>;

/// Relies on `reqwest::StatusCode::from_u16`, which accepts exactly the codes
/// 100..=999, and `StatusCode::is_success`, which holds exactly for 200..=299.
#[verifier::external_body]
fn client_is_success(code: u16) -> (r: bool)
    requires
        is_valid_code(code),
    ensures
        r == is_success_code(code),
{
    match reqwest::StatusCode::from_u16(code) {
        Ok(status) => status.is_success(),
        Err(_) => false,
    }
}

/// Relies on `reqwest::StatusCode::canonical_reason`: the reason phrase of a
/// valid code, which depends on the code alone.
#[verifier::external_body]
fn client_reason(code: u16) -> (r: Option<&'static str>)
    requires
        is_valid_code(code),
    ensures
        r matches Some(s) ==> reason_of(code) == Some(s@),
        r is None ==> reason_of(code) is None,
{
    match reqwest::StatusCode::from_u16(code) {
        Ok(status) => status.canonical_reason(),
        Err(_) => None,
    }
}

/// Whether `code` is a success status.
pub fn is_success(code: u16) -> (r: bool)
    ensures
        r == is_success_code(code),
{
    if code < 100 || code > 999 {
        false
    } else {
        client_is_success(code)
    }
}

/// The character of a decimal digit.
pub open spec fn digit_char(d: nat) -> char {
    if d == 0 { '0' }
    else if d == 1 { '1' }
    else if d == 2 { '2' }
    else if d == 3 { '3' }
    else if d == 4 { '4' }
    else if d == 5 { '5' }
    else if d == 6 { '6' }
    else if d == 7 { '7' }
    else if d == 8 { '8' }
    else { '9' }
}

/// The decimal digits of `n`, most significant first, without leading zeros.
pub open spec fn decimal(n: nat) -> Seq<char>
    decreases n,
{
    if n < 10 {
        seq![digit_char(n)]
    } else {
        decimal(n / 10).push(digit_char(n % 10))
    }
}

fn digit_str(d: u16) -> (r: &'static str)
    requires
        d < 10,
    ensures
        r@ == seq![digit_char(d as nat)],
{
    proof {
        reveal_strlit("0");
        reveal_strlit("1");
        reveal_strlit("2");
        reveal_strlit("3");
        reveal_strlit("4");
        reveal_strlit("5");
        reveal_strlit("6");
        reveal_strlit("7");
        reveal_strlit("8");
        reveal_strlit("9");
    }
    if d == 0 { "0" }
    else if d == 1 { "1" }
    else if d == 2 { "2" }
    else if d == 3 { "3" }
    else if d == 4 { "4" }
    else if d == 5 { "5" }
    else if d == 6 { "6" }
    else if d == 7 { "7" }
    else if d == 8 { "8" }
    else { "9" }
}

/// Appends the decimal digits of `n` to `out`.
pub fn push_decimal(out: &mut String, n: u16)
    ensures
        final(out)@ == old(out)@ + decimal(n as nat),
    decreases n,
{
    if n < 10 {
        out.append(digit_str(n));
    } else {
        push_decimal(out, n / 10);
        out.append(digit_str(n % 10));
        assert(final(out)@ =~= old(out)@ + decimal(n as nat));
    }
}

/// What is shown of a status after its number: the reason phrase, or a
/// placeholder where the code has none.
pub open spec fn reason_text(code: u16) -> Seq<char> {
    if is_valid_code(code) {
        shown_reason(reason_of(code))
    } else {
        shown_reason(None)
    }
}

/// A reason phrase as shown, with a placeholder for a missing one.
pub open spec fn shown_reason(reason: Option<Seq<char>>) -> Seq<char> {
    match reason {
        Some(s) => s,
        None => "<unknown status code>"@,
    }
}

/// Appends a reason phrase, or the placeholder where there is none, to `out`.
pub fn push_reason(out: &mut String, reason: Option<&str>)
    ensures
        final(out)@ == old(out)@ + shown_reason(
            match reason {
                Some(s) => Some(s@),
                None => None,
            },
        ),
{
    match reason {
        Some(s) => out.append(s),
        None => out.append("<unknown status code>"),
    }
}

/// A status as the HTTP client displays it: the number, a space, the reason.
pub open spec fn status_text(code: u16) -> Seq<char> {
    decimal(code as nat) + " "@ + reason_text(code)
}

/// Appends the displayed form of a status to `out`.
pub fn push_status(out: &mut String, code: u16)
    ensures
        final(out)@ == old(out)@ + status_text(code),
{
    push_decimal(out, code);
    out.append(" ");
    let reason = if code < 100 || code > 999 {
        None
    } else {
        client_reason(code)
    };
    push_reason(out, reason);
    assert(final(out)@ =~= old(out)@ + status_text(code));
}

} // verus!
