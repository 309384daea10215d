//! Internal errors.

use vstd::prelude::*;

verus! {

/// Type alias for a [`Result`] with [`CtraitError`] error type.
pub type CtraitResult<T> = Result<T, CtraitError>;

/// Potential error conditions. The window-system variants carry the
/// message reported by the host's presentation layer; `Other` carries
/// errors of this crate's own making.
#[derive(Debug)]
pub enum CtraitError {
    /// An integer parameter was out of range for the window system.
    IntegerOr(String),
    /// Updating a texture failed.
    UpdateTexture(String),
    /// Building the window failed.
    WindowBuild(String),
    /// Any other error, described by its message.
    Other(String),
}

impl CtraitError {
    /// The message this error displays.
    pub fn message(self) -> (m: String)
        ensures
            self is IntegerOr ==> m@ == self.arrow_IntegerOr_0()@,
            self is UpdateTexture ==> m@ == self.arrow_UpdateTexture_0()@,
            self is WindowBuild ==> m@ == self.arrow_WindowBuild_0()@,
            self is Other ==> m@ == self.arrow_Other_0()@,
    {
        match self {
            CtraitError::IntegerOr(e) => e,
            CtraitError::UpdateTexture(e) => e,
            CtraitError::WindowBuild(e) => e,
            CtraitError::Other(e) => e,
        }
    }
}

impl From<String> for CtraitError {
    /// A plain message becomes an `Other` error.
    fn from(err: String) -> (e: CtraitError)
        ensures
            e == CtraitError::Other(err),
    {
        CtraitError::Other(err)
    }
}

impl vstd::std_specs::convert::FromSpecImpl<String> for CtraitError {
    open spec fn obeys_from_spec() -> bool {
        true
    }

    open spec fn from_spec(err: String) -> CtraitError {
        CtraitError::Other(err)
    }
}

} // verus!
