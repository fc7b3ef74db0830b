use vstd::prelude::*;

use crate::text::{decimal, push_signed};

verus! {

/// An MCCS version: major and minor number.
#[derive(Clone, Copy, Debug, PartialEq, Eq, Structural)]
pub struct MccsVersion {
    pub major: u8,
    pub minor: u8,
}

impl MccsVersion {
    /// The version written as `major.minor`.
    pub fn to_string(&self) -> (r: String)
        ensures
            r@ == decimal(self.major as nat) + "."@ + decimal(self.minor as nat),
    {
        proof {
            reveal_strlit(".");
        }
        let mut s = String::new();
        push_signed(&mut s, self.major as i32);
        s.append(".");
        push_signed(&mut s, self.minor as i32);
        assert(s@ =~= decimal(self.major as nat) + "."@ + decimal(self.minor as nat));
        s
    }
}

} // verus!
