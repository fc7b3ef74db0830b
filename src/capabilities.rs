use vstd::prelude::*;

use crate::feature_set::FeatureSet;
use crate::version::MccsVersion;

verus! {

/// One VCP feature code that a display's capabilities list, with the raw
/// values that it accepts where the capabilities enumerate them.
#[derive(Debug)]
pub struct CapVcp {
    feature_code: u8,
    values: Vec<u8>,
}

impl CapVcp {
    pub closed spec fn spec_feature_code(&self) -> u8 {
        self.feature_code
    }

    pub closed spec fn spec_values(&self) -> Seq<u8> {
        self.values@
    }

    /// A feature code with the values listed for it.
    pub fn new(feature_code: u8, values: Vec<u8>) -> (r: CapVcp)
        ensures
            r.spec_feature_code() == feature_code,
            r.spec_values() == values@,
    {
        CapVcp { feature_code, values }
    }

    /// The feature code.
    #[verifier::when_used_as_spec(spec_feature_code)]
    pub fn feature_code(&self) -> (r: u8)
        ensures
            r == self.spec_feature_code(),
    {
        self.feature_code
    }

    /// The values listed for the feature; empty where none are listed.
    pub fn values(&self) -> (r: &[u8])
        ensures
            r@ == self.spec_values(),
    {
        self.values.as_slice()
    }
}

/// The feature codes listed among a display's capabilities.
pub open spec fn listed_codes(vcp: Seq<CapVcp>) -> Set<u8> {
    Set::new(|x: u8| exists|i: int| 0 <= i < vcp.len() && (#[trigger] vcp[i]).feature_code() == x)
}

/// A display's parsed capability string: MCCS version, supported command
/// codes, supported feature codes with their values, and messages that the
/// parser left.
#[derive(Debug)]
pub struct DisplayCapabilities {
    version: MccsVersion,
    cmd_codes: Vec<u8>,
    vcp_codes: Vec<CapVcp>,
    messages: Vec<String>,
}

impl DisplayCapabilities {
    pub closed spec fn spec_version(&self) -> MccsVersion {
        self.version
    }

    pub closed spec fn spec_cmd_codes(&self) -> Seq<u8> {
        self.cmd_codes@
    }

    pub closed spec fn spec_vcp_codes(&self) -> Seq<CapVcp> {
        self.vcp_codes@
    }

    pub closed spec fn spec_messages(&self) -> Seq<String> {
        self.messages@
    }

    /// Capabilities made of their parsed parts.
    pub fn new(
        version: MccsVersion,
        cmd_codes: Vec<u8>,
        vcp_codes: Vec<CapVcp>,
        messages: Vec<String>,
    ) -> (r: DisplayCapabilities)
        ensures
            r.spec_version() == version,
            r.spec_cmd_codes() == cmd_codes@,
            r.spec_vcp_codes() == vcp_codes@,
            r.spec_messages() == messages@,
    {
        DisplayCapabilities { version, cmd_codes, vcp_codes, messages }
    }

    /// The MCCS version that the display reports.
    pub fn version(&self) -> (r: MccsVersion)
        ensures
            r == self.spec_version(),
    {
        self.version
    }

    /// The supported command codes.
    pub fn cmd_codes(&self) -> (r: &[u8])
        ensures
            r@ == self.spec_cmd_codes(),
    {
        self.cmd_codes.as_slice()
    }

    /// The supported feature codes, each with its values.
    pub fn vcp_codes(&self) -> (r: &[CapVcp])
        ensures
            r@ == self.spec_vcp_codes(),
    {
        self.vcp_codes.as_slice()
    }

    /// The messages that the parser left.
    pub fn get_messages(&self) -> (r: &[String])
        ensures
            r@ == self.spec_messages(),
    {
        self.messages.as_slice()
    }

    /// The set of the supported feature codes.
    pub fn get_feature_bitfield(&self) -> (r: FeatureSet)
        ensures
            r@ == listed_codes(self.spec_vcp_codes()),
    {
        let mut set = FeatureSet::new();
        let mut i: usize = 0;
        while i < self.vcp_codes.len()
            invariant
                i <= self.vcp_codes@.len(),
                set@ == listed_codes(self.vcp_codes@.take(i as int)),
            decreases self.vcp_codes@.len() - i,
        {
            let code = self.vcp_codes[i].feature_code();
            set.insert(code);
            proof {
                let prev = self.vcp_codes@.take(i as int);
                let next = self.vcp_codes@.take(i + 1);
                assert forall|x: u8| #[trigger] listed_codes(next).contains(x) == listed_codes(
                    prev,
                ).insert(code).contains(x) by {
                    if listed_codes(prev).contains(x) {
                        let j = choose|j: int| 0 <= j < prev.len() && (#[trigger] prev[j]).feature_code() == x;
                        assert(next[j] == prev[j]);
                    }
                    if listed_codes(next).contains(x) {
                        let j = choose|j: int| 0 <= j < next.len() && (#[trigger] next[j]).feature_code() == x;
                        if j < i {
                            assert(prev[j] == next[j]);
                        }
                    }
                    if x == code {
                        assert(next[i as int] == self.vcp_codes@[i as int]);
                    }
                }
                assert(listed_codes(next) =~= listed_codes(prev).insert(code));
            }
            i += 1;
        }
        proof {
            assert(self.vcp_codes@.take(i as int) =~= self.vcp_codes@);
        }
        set
    }
}

} // verus!
