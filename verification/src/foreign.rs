//! The only places where the library leans on code it does not verify:
//! URL validation and UTF-8 decoding. Everything else in this crate is
//! proved; every contract below is believed, and should be read against
//! the function it names.

use vstd::prelude::*;
use vstd::utf8::{encode_utf8, valid_utf8};

verus! {

/// What `url::Url::parse` makes of a string: `Some` of the parsed URL's
/// serialization exactly when the string is a valid absolute URL, `None`
/// otherwise. The serialization is a function of the input alone.
pub uninterp spec fn url_normal_of(s: Seq<char>) -> Option<Seq<char>>;

/// Relies on `url::Url::parse`, which returns `Ok` exactly on a valid
/// absolute URL, and on the `From<Url> for String` impl, which hands back
/// the parsed URL's serialization.
#[verifier::external_body]
pub(crate) fn parse_base_url(s: &str) -> (r: Option<String>)
    ensures
        r is Some <==> url_normal_of(s@) is Some,
        r matches Some(u) ==> Some(u@) == url_normal_of(s@),
{
    url::Url::parse(s).ok().map(String::from)
}

/// Relies on `std::str::from_utf8`, which succeeds exactly on valid UTF-8
/// and decodes the bytes losslessly (the returned text re-encodes to the
/// input bytes).
#[verifier::external_body]
pub(crate) fn utf8_text(bytes: &Vec<u8>) -> (r: Option<String>)
    ensures
        r is Some <==> valid_utf8(bytes@),
        r matches Some(t) ==> encode_utf8(t@) == bytes@,
{
    std::str::from_utf8(bytes).ok().map(str::to_string)
}

} // verus!
