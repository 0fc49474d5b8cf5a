use crate::typedid::{TypedId, TypedIdMarker};
use vstd::prelude::*;

verus! {

pub type UserId = TypedId<User>;

/// A user of the system. Nothing is recorded of users but their identifiers.
#[derive(Copy, Clone, Debug, PartialEq, Eq)]
pub struct User;

impl TypedIdMarker for User {
    open spec fn spec_tag() -> Seq<char> {
        "USR"@
    }

    fn tag() -> &'static str {
        "USR"
    }
}

} // verus!
