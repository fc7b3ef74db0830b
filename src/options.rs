use vstd::prelude::*;

verus! {

/// No initialization option.
pub const INIT_OPTIONS_NONE: u32 = 0;

/// Do not read the configuration file.
pub const INIT_OPTIONS_DISABLE_CONFIG_FILE: u32 = 1;

/// The client has opened the system log itself.
pub const INIT_OPTIONS_CLIENT_OPENED_SYSLOG: u32 = 2;

/// Report messages from initialization.
pub const INIT_OPTIONS_ENABLE_INIT_MSGS: u32 = 4;

/// The library was built with USB support.
pub const BUILT_WITH_USB: u32 = 2;

/// The library was built with failure simulation.
pub const BUILT_WITH_FAILSIM: u32 = 4;

/// A set of library initialization options, one bit per option.
#[derive(Clone, Copy, Debug, PartialEq, Eq, Structural)]
pub struct LibInitOpts {
    pub bits: u32,
}

impl LibInitOpts {
    /// The options of both sets.
    pub fn union(self, other: LibInitOpts) -> (r: LibInitOpts)
        ensures
            r.bits == self.bits | other.bits,
    {
        LibInitOpts { bits: self.bits | other.bits }
    }

    /// Whether every option of `other` is in this set.
    pub fn contains(self, other: LibInitOpts) -> (r: bool)
        ensures
            r == (self.bits & other.bits == other.bits),
    {
        self.bits & other.bits == other.bits
    }
}

impl vstd::std_specs::ops::BitOrSpecImpl for LibInitOpts {
    open spec fn obeys_bitor_spec() -> bool {
        true
    }

    open spec fn bitor_req(self, rhs: LibInitOpts) -> bool {
        true
    }

    open spec fn bitor_spec(self, rhs: LibInitOpts) -> LibInitOpts {
        LibInitOpts { bits: self.bits | rhs.bits }
    }
}

impl std::ops::BitOr for LibInitOpts {
    type Output = LibInitOpts;

    fn bitor(self, rhs: LibInitOpts) -> LibInitOpts {
        self.union(rhs)
    }
}

impl From<u32> for LibInitOpts {
    fn from(bits: u32) -> (r: LibInitOpts) {
        LibInitOpts { bits }
    }
}

impl vstd::std_specs::convert::FromSpecImpl<u32> for LibInitOpts {
    open spec fn obeys_from_spec() -> bool {
        true
    }

    open spec fn from_spec(bits: u32) -> LibInitOpts {
        LibInitOpts { bits }
    }
}

/// The options that the library was built with, one bit per option.
#[derive(Clone, Copy, Debug, PartialEq, Eq, Structural)]
pub struct BuildOptionFlags {
    pub bits: u32,
}

impl BuildOptionFlags {
    /// Whether the library was built with every option of `flags`.
    pub fn contains(self, flags: u32) -> (r: bool)
        ensures
            r == (self.bits & flags == flags),
    {
        self.bits & flags == flags
    }
}

} // verus!
