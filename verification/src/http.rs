//! HTTP statuses, as replies carry them.

use vstd::prelude::*;

use crate::text::{decimal, to_decimal};
use reqwest::StatusCode;

verus! {

/// Whether a status reports success.
pub open spec fn success(status: u16) -> bool {
    200 <= status < 300
}

/// `reqwest::StatusCode::is_success` holds of the statuses from 200 to 299. A
/// number that is no status at all is no success either.
#[verifier::external_body]
pub(crate) fn is_success(status: u16) -> (r: bool)
    ensures
        r == success(status),
{
    StatusCode::from_u16(status).map_or(false, |code| code.is_success())
}

/// The standard phrase for a status, where there is one.
pub uninterp spec fn reason_phrase(status: u16) -> Option<Seq<char>>;

/// `reqwest::StatusCode::canonical_reason` looks the status up in a fixed table.
/// A number that is no status has no phrase.
#[verifier::external_body]
fn canonical_reason(status: u16) -> (r: Option<String>)
    ensures
        r is Some <==> reason_phrase(status) is Some,
        r matches Some(phrase) ==> reason_phrase(status) == Some(phrase@),
{
    StatusCode::from_u16(status).ok().and_then(|code| code.canonical_reason()).map(
        |phrase| phrase.to_string(),
    )
}

/// A status as it is shown: the number and its phrase.
pub open spec fn number_and_phrase(status: u16, phrase: Option<Seq<char>>) -> Seq<char> {
    decimal(status as nat) + " "@ + (match phrase {
        Some(text) => text,
        None => "<unknown status code>"@,
    })
}

/// A status as it is shown, with its standard phrase.
pub open spec fn status_text(status: u16) -> Seq<char> {
    number_and_phrase(status, reason_phrase(status))
}

/// Shows a status with this phrase.
pub fn show_with_phrase(status: u16, phrase: Option<String>) -> (r: String)
    ensures
        r@ == number_and_phrase(
            status,
            match phrase {
                Some(text) => Some(text@),
                None => None,
            },
        ),
{
    let mut out = to_decimal(status as u64);
    out.append(" ");
    match phrase {
        Some(text) => out.append(text.as_str()),
        None => out.append("<unknown status code>"),
    }
    out
}

/// Shows a status.
pub fn show_status(status: u16) -> (r: String)
    ensures
        r@ == status_text(status),
{
    show_with_phrase(status, canonical_reason(status))
}

/// Success is the statuses of the second hundred.
pub proof fn success_is_the_second_hundred(status: u16)
    ensures
        success(status) <==> status / 100 == 2,
{
}

/// A status is shown as its number, one blank and its phrase, and nothing else.
pub proof fn statuses_show_number_and_phrase(status: u16, phrase: Seq<char>)
    ensures
        ({
            let shown = number_and_phrase(status, Some(phrase));
            let number = decimal(status as nat);
            &&& number.is_prefix_of(shown)
            &&& phrase.is_suffix_of(shown)
            &&& shown.len() == number.len() + 1 + phrase.len()
            &&& shown[number.len() as int] == ' '
        }),
{
    reveal_strlit(" ");
    let shown = number_and_phrase(status, Some(phrase));
    let number = decimal(status as nat);
    assert(number =~= shown.subrange(0, number.len() as int));
    assert(phrase =~= shown.subrange(shown.len() - phrase.len(), shown.len() as int));
}

/// A status is shown with its standard phrase, or with words that say it has none.
pub proof fn statuses_show_their_phrase(status: u16)
    ensures
        reason_phrase(status) matches Some(phrase) ==> (" "@ + phrase).is_suffix_of(
            status_text(status),
        ),
        reason_phrase(status) is None ==> " <unknown status code>"@.is_suffix_of(
            status_text(status),
        ),
        decimal(status as nat).is_prefix_of(status_text(status)),
{
    reveal_strlit(" ");
    reveal_strlit("<unknown status code>");
    reveal_strlit(" <unknown status code>");
    let shown = status_text(status);
    let number = decimal(status as nat);
    let phrase = match reason_phrase(status) {
        Some(text) => text,
        None => "<unknown status code>"@,
    };
    assert(" "@ + "<unknown status code>"@ =~= " <unknown status code>"@);
    assert(shown =~= number + (" "@ + phrase));
    assert(number =~= shown.subrange(0, number.len() as int));
    assert(" "@ + phrase =~= shown.subrange(number.len() as int, shown.len() as int));
}

} // verus!
