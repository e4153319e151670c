use vstd::prelude::*;

use crate::support::text::{decimal_text, format_decimal};
use crate::support::urls::{pair_views, parse_with_params, url_with_query};
use crate::web::authorize::submit::error_response::{
    submit_page_reply, AuthorizeSubmitPageErrorResponse, SubmitReply,
};

verus! {

/// An issued authorization code, delivered to the client's redirect URI.
pub struct AuthorizeSubmitResponse {
    pub code: String,
    pub redirect_uri: String,
    pub state: String,
    pub expires_in: u64,
}

/// The query pairs that deliver a code with its state and lifetime to the client.
pub open spec fn code_params(code: Seq<char>, state: Seq<char>, expires_in: u64) -> Seq<
    (Seq<char>, Seq<char>),
> {
    seq![("code"@, code), ("state"@, state), ("expires_in"@, decimal_text(expires_in as nat))]
}

impl AuthorizeSubmitResponse {
    /// How the code is sent: a redirect to the redirect URI with `code`, `state` and `expires_in`
    /// appended to its query, or, where the redirect URI does not parse as a URL, the
    /// server-error page.
    pub fn reply(self) -> (r: SubmitReply)
        ensures
            match url_with_query(self.redirect_uri@, code_params(self.code@, self.state@, self.expires_in)) {
                Some(location) => r matches SubmitReply::Redirect { location: l } && l@ == location,
                None => submit_page_reply(AuthorizeSubmitPageErrorResponse::ServerError, r),
            },
    {
        let ghost params_view = code_params(self.code@, self.state@, self.expires_in);
        let mut params: Vec<(String, String)> = Vec::new();
        params.push((String::from_str("code"), self.code));
        params.push((String::from_str("state"), self.state));
        params.push((String::from_str("expires_in"), format_decimal(self.expires_in)));
        assert(pair_views(params@) =~= params_view);
        match parse_with_params(self.redirect_uri.as_str(), &params) {
            Some(location) => SubmitReply::Redirect { location },
            None => AuthorizeSubmitPageErrorResponse::ServerError.reply(),
        }
    }
}

} // verus!
