pub mod authorization_request_validation;
