use vstd::prelude::*;

verus! {

/// The serialization of the absolute URL that `url::Url::parse` makes of a
/// text, or `None` where it refuses the text.
pub uninterp spec fn parsed_url(s: Seq<char>) -> Option<Seq<char>>;

/// Relies on url::Url::parse, whose result depends on the text alone, and on
/// url::Url::as_str, which gives the parsed URL's serialization.
#[verifier::external_body]
pub(crate) fn parse_url(s: &str) -> (r: Option<String>)
    ensures
        match r {
            Some(u) => parsed_url(s@) == Some(u@),
            None => parsed_url(s@).is_none(),
        },
{
    match url::Url::parse(s) {
        Ok(u) => Some(u.as_str().to_owned()),
        Err(_) => None,
    }
}

} // verus!
