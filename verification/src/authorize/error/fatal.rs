use vstd::prelude::*;

use crate::domain::entity::authorization_request::optional_text;
use crate::error::{FatalError, FatalErrorModel};

verus! {

pub enum FatalAuthorizeErrorKind {
    InvalidRequest(String),
    UnsupportedResponseType,
    UnauthorizedClient,
    InvalidScope,
    ServerError,
}

/// What a [`FatalAuthorizeErrorKind`] holds, as plain values.
pub enum FatalAuthorizeErrorKindModel {
    InvalidRequest(Seq<char>),
    UnsupportedResponseType,
    UnauthorizedClient,
    InvalidScope,
    ServerError,
}

impl View for FatalAuthorizeErrorKind {
    type V = FatalAuthorizeErrorKindModel;

    open spec fn view(&self) -> FatalAuthorizeErrorKindModel {
        match self {
            FatalAuthorizeErrorKind::InvalidRequest(d) => {
                FatalAuthorizeErrorKindModel::InvalidRequest(d@)
            },
            FatalAuthorizeErrorKind::UnsupportedResponseType => {
                FatalAuthorizeErrorKindModel::UnsupportedResponseType
            },
            FatalAuthorizeErrorKind::UnauthorizedClient => {
                FatalAuthorizeErrorKindModel::UnauthorizedClient
            },
            FatalAuthorizeErrorKind::InvalidScope => FatalAuthorizeErrorKindModel::InvalidScope,
            FatalAuthorizeErrorKind::ServerError => FatalAuthorizeErrorKindModel::ServerError,
        }
    }
}

/// An authorize error that is shown to the user as a page.
pub struct FatalAuthorizeError {
    kind: FatalAuthorizeErrorKind,
    redirect_uri: Option<String>,
    try_again_uri: Option<String>,
}

/// What a [`FatalAuthorizeError`] holds, as plain values.
pub struct FatalAuthorizeErrorModel {
    pub kind: FatalAuthorizeErrorKindModel,
    pub redirect_uri: Option<Seq<char>>,
    pub try_again_uri: Option<Seq<char>>,
}

impl View for FatalAuthorizeError {
    type V = FatalAuthorizeErrorModel;

    closed spec fn view(&self) -> FatalAuthorizeErrorModel {
        FatalAuthorizeErrorModel {
            kind: self.kind@,
            redirect_uri: optional_text(self.redirect_uri),
            try_again_uri: optional_text(self.try_again_uri),
        }
    }
}

/// The status code, OAuth error code and description that a page error of `kind` shows.
pub open spec fn fatal_page_content(kind: FatalAuthorizeErrorKindModel) -> (u16, Seq<char>, Seq<char>) {
    match kind {
        FatalAuthorizeErrorKindModel::InvalidRequest(description) => (
            400,
            "invalid_request"@,
            description,
        ),
        FatalAuthorizeErrorKindModel::UnsupportedResponseType => (
            400,
            "unsupported_response_type"@,
            "The response type is not supported."@,
        ),
        FatalAuthorizeErrorKindModel::UnauthorizedClient => (
            400,
            "unauthorized_client"@,
            "The client is not authorized to request an authorization code."@,
        ),
        FatalAuthorizeErrorKindModel::InvalidScope => (
            400,
            "invalid_scope"@,
            "The requested scope is invalid, unknown, or malformed."@,
        ),
        FatalAuthorizeErrorKindModel::ServerError => (
            500,
            "server_error"@,
            "An internal server error occurred."@,
        ),
    }
}

impl FatalAuthorizeError {
    pub fn new(kind: FatalAuthorizeErrorKind) -> (e: Self)
        ensures
            e@ == (FatalAuthorizeErrorModel { kind: kind@, redirect_uri: None, try_again_uri: None }),
    {
        Self { kind, redirect_uri: None, try_again_uri: None }
    }

    pub fn new_invalid_request(description: String) -> (e: Self)
        ensures
            e@ == (FatalAuthorizeErrorModel {
                kind: FatalAuthorizeErrorKindModel::InvalidRequest(description@),
                redirect_uri: None,
                try_again_uri: None,
            }),
    {
        Self::new(FatalAuthorizeErrorKind::InvalidRequest(description))
    }

    pub fn with_redirect_uri(self, redirect_uri: String) -> (e: Self)
        ensures
            e@ == (FatalAuthorizeErrorModel { redirect_uri: Some(redirect_uri@), ..self@ }),
    {
        let mut e = self;
        e.redirect_uri = Some(redirect_uri);
        e
    }

    pub fn with_try_again_uri(self, try_again_uri: String) -> (e: Self)
        ensures
            e@ == (FatalAuthorizeErrorModel { try_again_uri: Some(try_again_uri@), ..self@ }),
    {
        let mut e = self;
        e.try_again_uri = Some(try_again_uri);
        e
    }

    /// The page error this becomes: status, code and description by kind, links kept.
    pub fn into_fatal_error(self) -> (e: FatalError)
        ensures
            ({
                let (status_code, error, error_description) = fatal_page_content(self@.kind);
                e@ == (FatalErrorModel {
                    status_code,
                    error,
                    error_description,
                    redirect_uri: self@.redirect_uri,
                    try_again_uri: self@.try_again_uri,
                })
            }),
    {
        let (status_code, error, description) = match self.kind {
            FatalAuthorizeErrorKind::InvalidRequest(description) => {
                (400u16, "invalid_request", description)
            },
            FatalAuthorizeErrorKind::UnsupportedResponseType => (
                400u16,
                "unsupported_response_type",
                String::from_str("The response type is not supported."),
            ),
            FatalAuthorizeErrorKind::UnauthorizedClient => (
                400u16,
                "unauthorized_client",
                String::from_str("The client is not authorized to request an authorization code."),
            ),
            FatalAuthorizeErrorKind::InvalidScope => (
                400u16,
                "invalid_scope",
                String::from_str("The requested scope is invalid, unknown, or malformed."),
            ),
            FatalAuthorizeErrorKind::ServerError => (
                500u16,
                "server_error",
                String::from_str("An internal server error occurred."),
            ),
        };
        FatalError::new(
            status_code,
            String::from_str(error),
            description,
            self.redirect_uri,
            self.try_again_uri,
        )
    }
}

} // verus!
