//! Wire-shape helpers shared by the XML endpoints: the response wrapper and
//! the Y/N boolean the format uses. Serialization itself lives with the
//! callers; the mapping between the flag and its wire character is stated
//! here.

use vstd::prelude::*;

verus! {

broadcast use vstd::string::group_string_axioms;

/// Marks a value as destined for an XML response body.
pub struct Xml<T>(pub T);

/// A boolean carried as `Y` or `N` on the wire.
#[derive(Clone, Copy, PartialEq, Eq, Structural, Debug)]
pub struct YesNoVal(pub bool);

impl YesNoVal {
    /// The wire character of this flag.
    pub open spec fn spec_char(self) -> char {
        if self.0 {
            'Y'
        } else {
            'N'
        }
    }

    pub fn to_char(&self) -> (r: char)
        ensures
            r == self.spec_char(),
    {
        if self.0 {
            'Y'
        } else {
            'N'
        }
    }

    /// Read the wire form: exactly `Y` or `N`, nothing else.
    pub fn from_str(s: &str) -> (r: Option<YesNoVal>)
        ensures
            s@ == "Y"@ ==> r == Some(YesNoVal(true)),
            s@ == "N"@ ==> r == Some(YesNoVal(false)),
            s@ != "Y"@ && s@ != "N"@ ==> r is None,
    {
        proof {
            reveal_strlit("Y");
            reveal_strlit("N");
            assert("Y"@.len() == 1 && "N"@.len() == 1);
            assert("Y"@[0] == 'Y' && "N"@[0] == 'N');
            assert("Y"@ != "N"@);
        }
        if crate::text::str_eq(s, "Y") {
            Some(YesNoVal(true))
        } else if crate::text::str_eq(s, "N") {
            Some(YesNoVal(false))
        } else {
            None
        }
    }
}

} // verus!
