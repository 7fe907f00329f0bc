//! The pipe protocol as the service sees it.
use vstd::prelude::*;
pub use crate::cp_provider::com_types::{AuthMode, AuthRequest, AuthResponse};

verus! {

impl AuthResponse {
    /// Check if authentication was successful
    pub fn is_success(&self) -> (b: bool)
        ensures
            b == (*self is Success),
    {
        match self {
            AuthResponse::Success { .. } => true,
            _ => false,
        }
    }
}

} // verus!
