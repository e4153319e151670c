use vstd::prelude::*;

verus! {

/// The text of the URL that `url::Url::parse_with_params` makes of `uri` and `params`: `uri`
/// parsed as an absolute URL with the pairs appended, form-encoded, to its query. `None` where
/// `uri` does not parse.
pub uninterp spec fn url_with_query(
    uri: Seq<char>,
    params: Seq<(Seq<char>, Seq<char>)>,
) -> Option<Seq<char>>;

/// The plain values of a list of query pairs.
pub open spec fn pair_views(params: Seq<(String, String)>) -> Seq<(Seq<char>, Seq<char>)> {
    params.map_values(|p: (String, String)| (p.0@, p.1@))
}

/// Calls `url::Url::parse_with_params` and takes the resulting URL's text. Claims only that the
/// outcome is the named one.
#[verifier::external_body]
pub(crate) fn parse_with_params(uri: &str, params: &Vec<(String, String)>) -> (r: Option<String>)
    ensures
        r is Some <==> url_with_query(uri@, pair_views(params@)) is Some,
        r matches Some(text) ==> url_with_query(uri@, pair_views(params@)) == Some(text@),
{
    match url::Url::parse_with_params(uri, params.iter()) {
        Ok(url) => Some(String::from(url)),
        Err(_) => None,
    }
}

} // verus!
