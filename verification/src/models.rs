//! The identity that a verified bearer token carries.

use vstd::prelude::*;
use vstd::string::*;

pub mod payments;

verus! {

/// How many background jobs may wait for a worker before whoever submits
/// the next one has to wait.
pub const JOB_QUEUE_CAPACITY: usize = 100;

/// The claims of a verified bearer token: who the caller is, in which role,
/// until when, and which admin, if any, acts in the caller's name.
#[derive(Debug)]
pub struct Claims {
    pub sub: String,
    pub role: String,
    pub exp: usize,
    pub impersonated_by: Option<String>,
}

/// The claims as mathematical values.
pub struct ClaimsView {
    pub sub: Seq<char>,
    pub role: Seq<char>,
    pub exp: usize,
    pub impersonated_by: Option<Seq<char>>,
}

/// The characters of an optional string.
pub open spec fn option_text(text: Option<String>) -> Option<Seq<char>> {
    match text {
        Some(s) => Some(s@),
        None => None,
    }
}

impl View for Claims {
    type V = ClaimsView;

    open spec fn view(&self) -> ClaimsView {
        ClaimsView {
            sub: self.sub@,
            role: self.role@,
            exp: self.exp,
            impersonated_by: option_text(self.impersonated_by),
        }
    }
}

impl Clone for Claims {
    fn clone(&self) -> (copy: Claims)
        ensures
            copy@ == self@,
    {
        let impersonated_by = match &self.impersonated_by {
            Some(admin) => Some(admin.clone()),
            None => None,
        };
        Claims { sub: self.sub.clone(), role: self.role.clone(), exp: self.exp, impersonated_by }
    }
}

impl Claims {
    /// Whether an admin acts in the name of this principal.
    pub fn is_impersonated(&self) -> (yes: bool)
        ensures
            yes == (self@.impersonated_by is Some),
    {
        self.impersonated_by.is_some()
    }
}

} // verus!
