use vstd::prelude::*;

verus! {

#[verifier::external_type_specification]
#[verifier::external_body]
pub struct ExUrlParseError(url::ParseError);

/// What `url::Url::parse` makes of `text`: `None` when it refuses it as an
/// absolute URL, else `Some` of the serialization of the parsed URL.
pub uninterp spec fn url_parse(text: Seq<char>) -> Option<Seq<char>>;

/// Relies on `url::Url::parse` to parse an absolute URL, and on
/// `From<Url> for String` to hand back the parsed URL's serialization.
#[verifier::external_body]
pub(crate) fn parse_url(text: &str) -> (r: Result<String, url::ParseError>)
    ensures
        match r {
            Ok(t) => url_parse(text@) == Some(t@),
            Err(_) => url_parse(text@) is None,
        },
{
    url::Url::parse(text).map(String::from)
}

} // verus!
