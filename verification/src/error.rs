use vstd::prelude::*;

use crate::domain::entity::authorization_request::optional_text;

verus! {

/// An error answered as JSON: HTTP status, OAuth error code and description.
pub struct HttpError {
    pub http_status_code: u16,
    pub error: String,
    pub error_description: String,
}

impl HttpError {
    pub fn new(http_status_code: u16, error: String, error_description: String) -> (e: Self)
        ensures
            e.http_status_code == http_status_code,
            e.error == error,
            e.error_description == error_description,
    {
        Self { http_status_code, error, error_description }
    }
}

/// An error shown to the user as a page, with optional links back to the client and to retry.
pub struct FatalError {
    status_code: u16,
    error: String,
    error_description: String,
    redirect_uri: Option<String>,
    try_again_uri: Option<String>,
}

/// What a [`FatalError`] holds, as plain values.
pub struct FatalErrorModel {
    pub status_code: u16,
    pub error: Seq<char>,
    pub error_description: Seq<char>,
    pub redirect_uri: Option<Seq<char>>,
    pub try_again_uri: Option<Seq<char>>,
}

impl View for FatalError {
    type V = FatalErrorModel;

    closed spec fn view(&self) -> FatalErrorModel {
        FatalErrorModel {
            status_code: self.status_code,
            error: self.error@,
            error_description: self.error_description@,
            redirect_uri: optional_text(self.redirect_uri),
            try_again_uri: optional_text(self.try_again_uri),
        }
    }
}

impl FatalError {
    pub fn new(
        status_code: u16,
        error: String,
        error_description: String,
        redirect_uri: Option<String>,
        try_again_uri: Option<String>,
    ) -> (e: Self)
        ensures
            e@ == (FatalErrorModel {
                status_code,
                error: error@,
                error_description: error_description@,
                redirect_uri: optional_text(redirect_uri),
                try_again_uri: optional_text(try_again_uri),
            }),
    {
        Self { status_code, error, error_description, redirect_uri, try_again_uri }
    }

    pub fn status_code(&self) -> (r: u16)
        ensures
            r == self@.status_code,
    {
        self.status_code
    }

    pub fn error(&self) -> (r: &str)
        ensures
            r@ == self@.error,
    {
        self.error.as_str()
    }

    pub fn error_description(&self) -> (r: &str)
        ensures
            r@ == self@.error_description,
    {
        self.error_description.as_str()
    }

    pub fn redirect_uri(&self) -> (r: Option<String>)
        ensures
            optional_text(r) == self@.redirect_uri,
    {
        self.redirect_uri.clone()
    }

    pub fn try_again_uri(&self) -> (r: Option<String>)
        ensures
            optional_text(r) == self@.try_again_uri,
    {
        self.try_again_uri.clone()
    }
}

} // verus!
