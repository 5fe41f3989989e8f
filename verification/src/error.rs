use vstd::prelude::*;
use vstd::string::StringExecFns;

verus! {

/// What can go wrong while a mesh is flattened into columns.
#[derive(Debug, PartialEq, Eq)]
pub enum GeoNodeError {
    /// A vertex attribute does not have the number of components that the
    /// requested column layout needs.
    DataframeFromMeshError,
    /// The mesh lacks the attribute that the named column group is built from.
    FailedToGetColumnError(String),
}

impl GeoNodeError {
    /// The text under which every error of this library is reported.
    pub open spec fn spec_message() -> Seq<char> {
        "GeoNodeError"@
    }

    /// The display text of the error; it does not depend on the variant.
    pub fn message(&self) -> (text: String)
        ensures
            text@ == Self::spec_message(),
    {
        String::from_str("GeoNodeError")
    }
}

} // verus!
