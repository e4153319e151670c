use vstd::prelude::*;

use crate::authorize::error::fatal::{
    FatalAuthorizeError, FatalAuthorizeErrorKindModel, FatalAuthorizeErrorModel,
};
use crate::authorize::error::recoverable::RecoverableAuthorizeError;

pub mod fatal;
pub mod recoverable;

verus! {

pub enum AuthorizeError {
    Fatal(FatalAuthorizeError),
    Recoverable(RecoverableAuthorizeError),
}

/// Whether `e` is the page error "invalid request" with `description` and no links.
pub open spec fn is_invalid_request(e: AuthorizeError, description: Seq<char>) -> bool {
    e matches AuthorizeError::Fatal(f) && f@ == (FatalAuthorizeErrorModel {
        kind: FatalAuthorizeErrorKindModel::InvalidRequest(description),
        redirect_uri: None,
        try_again_uri: None,
    })
}

} // verus!
