//! The privilege that both workflows need.

use crate::error::{Error, ErrorModel};
use vstd::prelude::*;

verus! {

/// What the caller has to do before a workflow may start.
#[derive(Debug, Clone, Copy, PartialEq, Eq, Structural)]
pub enum Privilege {
    /// The process is root; nothing is to be done.
    Root,
    /// The process is root only in effect, as a setuid program is: it has to
    /// make root its real user too.
    Elevate,
}

/// The privilege of a process whose effective user is root or not, and whose
/// real user is root or not.
pub open spec fn privilege_of(effective_root: bool, real_root: bool) -> Result<
    Privilege,
    ErrorModel,
> {
    if !effective_root {
        Err(ErrorModel::Privilege)
    } else if !real_root {
        Ok(Privilege::Elevate)
    } else {
        Ok(Privilege::Root)
    }
}

/// The model of a result that holds a privilege.
pub open spec fn privilege_view(r: Result<Privilege, Error>) -> Result<Privilege, ErrorModel> {
    match r {
        Ok(p) => Ok(p),
        Err(e) => Err(e@),
    }
}

/// Decides whether the process may go on: not unless its effective user is
/// root; and where only its effective user is root, it has to elevate first.
pub fn ensure_root(effective_root: bool, real_root: bool) -> (r: Result<Privilege, Error>)
    ensures
        privilege_view(r) == privilege_of(effective_root, real_root),
{
    if !effective_root {
        Err(Error::Privilege)
    } else if !real_root {
        Ok(Privilege::Elevate)
    } else {
        Ok(Privilege::Root)
    }
}

} // verus!
