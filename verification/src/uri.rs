//! URLs, held by their serialization, and the two operations of the `url`
//! crate that the service checks rest on.

use vstd::prelude::*;

verus! {

/// What `url::Url::parse` makes of `input`: the serialization of the parsed
/// URL (`Url::as_str`), or the message (`Display`) of the parse error.
pub uninterp spec fn url_parse_outcome(input: Seq<char>) -> Result<Seq<char>, Seq<char>>;

/// The serialization of the URL that `url::Url::set_path("/")` leaves when
/// applied to `url::Url::parse(serialized)`.
pub uninterp spec fn url_root_of(serialized: Seq<char>) -> Seq<char>;

/// Calls `url::Url::parse`. The contract claims only that the outcome is the
/// one named by `url_parse_outcome` for this input: the serialization on
/// success, the error's message on failure.
#[verifier::external_body]
pub(crate) fn parse_url(input: &str) -> (res: Result<String, String>)
    ensures
        match res {
            Ok(url) => url_parse_outcome(input@) == Ok::<Seq<char>, Seq<char>>(url@),
            Err(msg) => url_parse_outcome(input@) == Err::<Seq<char>, Seq<char>>(msg@),
        },
{
    match url::Url::parse(input) {
        Ok(url) => Ok(url.as_str().to_string()),
        Err(err) => Err(err.to_string()),
    }
}

/// Calls `url::Url::set_path("/")` on the URL whose serialization is given,
/// and returns the new serialization. The contract claims that the result is
/// the one named by `url_root_of` for this input. The text is parsed again
/// with `url::Url::parse` to get the URL back; where it does not parse (it
/// always does for a serialization that `parse` produced) the input is
/// returned unchanged, which `url_root_of` then names as well.
#[verifier::external_body]
pub(crate) fn root_url(serialized: &str) -> (res: String)
    ensures
        res@ == url_root_of(serialized@),
{
    match url::Url::parse(serialized) {
        Ok(mut url) => {
            url.set_path("/");
            url.as_str().to_string()
        },
        Err(_) => serialized.to_string(),
    }
}

} // verus!
