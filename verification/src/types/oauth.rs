//! OAuth2 application types.

use vstd::prelude::*;

use crate::types::id::Id;
use crate::types::marker::ApplicationMarker;

verus! {

/// The public flags and ID of an application.
#[derive(Debug, Clone, PartialEq, Eq)]
pub struct PartialApplication {
    pub flags: u64,
    pub id: Id<ApplicationMarker>,
}

} // verus!
