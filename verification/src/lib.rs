pub mod creds;
pub mod decode;
pub mod dispatch;
pub mod enumerate;
pub mod filter;
pub mod jsonval;
pub mod model;
pub mod request;
pub mod text;

use vstd::prelude::*;

verus! {

/// Whether a repository is visible to everyone or only to its owner.
#[derive(Clone, Copy, Debug, PartialEq, Eq, Structural)]
pub enum Visibility {
    Public,
    Private,
}

pub fn visibility_is_private(v: Visibility) -> (r: bool)
    ensures
        r == (v is Private),
{
    match v {
        Visibility::Private => true,
        Visibility::Public => false,
    }
}

} // verus!
