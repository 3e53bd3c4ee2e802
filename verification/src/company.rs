//! Campaign update submissions. An update may touch any subset of the
//! editable fields; each field distinguishes "absent" from "present
//! but null".

use vstd::prelude::*;

verus! {

/// A campaign update: `None` means the field was not submitted,
/// `Some(None)` that it was submitted as null.
pub struct ApiUpdateCompanyDto {
    pub name: Option<Option<String>>,
    pub system: Option<Option<String>>,
    pub description: Option<Option<String>>,
    pub event_style: Option<Option<String>>,
}

impl ApiUpdateCompanyDto {
    /// Whether the update carries none of the fields that an update
    /// must touch.
    pub fn is_empty(&self) -> (r: bool)
        ensures
            r == (self.name is None && self.system is None && self.description is None),
    {
        self.name.is_none() && self.system.is_none() && self.description.is_none()
    }
}

} // verus!
