use vstd::prelude::*;

pub mod authorization_codes;
pub mod clients;
pub mod pars;

verus! {

/// Why a lookup in the user or client store failed.
#[derive(Debug, PartialEq, Eq, Clone, Copy)]
pub enum PersistanceError {
    DatabaseError,
}

} // verus!
