use vstd::prelude::*;
use vstd::utf8::{decode_utf8, valid_utf8};

use crate::text::utf8_text;
use crate::version::MccsVersion;

verus! {

/// The most entries of a value table that are read when no terminator
/// turns up.
pub const MAX_SL_VALUES: usize = 256;

/// One entry of a feature's value table: a value code and the bytes of its
/// name, `None` where the name pointer is null.
#[derive(Debug)]
pub struct FeatureValue {
    pub value_code: u8,
    pub value_name: Option<Vec<u8>>,
}

/// Whether an entry ends a value table: code zero and no name.
pub open spec fn is_terminator(v: FeatureValue) -> bool {
    v.value_code == 0 && v.value_name.is_none()
}

/// The number of entries before the first terminator, or all of them where
/// there is none.
pub open spec fn entries_before_terminator(s: Seq<FeatureValue>) -> nat
    decreases s.len(),
{
    if s.len() == 0 || is_terminator(s[0]) {
        0
    } else {
        1 + entries_before_terminator(s.drop_first())
    }
}

/// The entries of a value table: those before its first terminator.
pub open spec fn scan_values(s: Seq<FeatureValue>) -> Seq<FeatureValue> {
    s.take(entries_before_terminator(s) as int)
}

/// The name shown for a value: its decoded name, or `<invalid name>` where
/// it has none or it is not valid UTF-8.
pub open spec fn value_name_text(name: Option<Vec<u8>>) -> Seq<char> {
    match name {
        Some(b) => if valid_utf8(b@) {
            decode_utf8(b@)
        } else {
            "<invalid name>"@
        },
        None => "<invalid name>"@,
    }
}

proof fn lemma_entries_before(s: Seq<FeatureValue>, k: int)
    requires
        0 <= k <= s.len(),
        forall|j: int| 0 <= j < k ==> !is_terminator(#[trigger] s[j]),
        k < s.len() ==> is_terminator(s[k]),
    ensures
        entries_before_terminator(s) == k,
    decreases k,
{
    if k > 0 {
        let t = s.drop_first();
        assert forall|j: int| 0 <= j < k - 1 implies !is_terminator(#[trigger] t[j]) by {
            assert(t[j] == s[j + 1]);
        }
        assert(!is_terminator(s[0]));
        lemma_entries_before(t, k - 1);
    }
}

impl FeatureValue {
    /// The value code.
    pub fn code(&self) -> (r: u8)
        ensures
            r == self.value_code,
    {
        self.value_code
    }

    /// The value's name, or `<invalid name>` where it has none or it is not
    /// valid UTF-8.
    pub fn name(&self) -> (r: String)
        ensures
            r@ == value_name_text(self.value_name),
    {
        proof {
            reveal_strlit("<invalid name>");
        }
        match &self.value_name {
            Some(b) => match utf8_text(b.as_slice()) {
                Some(s) => s,
                None => String::from_str("<invalid name>"),
            },
            None => String::from_str("<invalid name>"),
        }
    }

    /// Whether this entry ends a value table.
    pub fn is_terminator(&self) -> (r: bool)
        ensures
            r == is_terminator(*self),
    {
        self.value_code == 0 && self.value_name.is_none()
    }
}

/// Whether more entries of a value table are to be read, given those read so
/// far: until a terminator turns up, and at most `MAX_SL_VALUES` entries.
pub fn needs_more_values(read: &[FeatureValue]) -> (r: bool)
    ensures
        r <==> (read@.len() < MAX_SL_VALUES && entries_before_terminator(read@) == read@.len()),
{
    let mut i: usize = 0;
    while i < read.len()
        invariant
            i <= read@.len(),
            forall|j: int| 0 <= j < i ==> !is_terminator(#[trigger] read@[j]),
        decreases read@.len() - i,
    {
        if read[i].is_terminator() {
            proof {
                lemma_entries_before(read@, i as int);
            }
            return false;
        }
        i += 1;
    }
    proof {
        lemma_entries_before(read@, i as int);
    }
    read.len() < MAX_SL_VALUES
}

/// What the native library describes of one feature code: its code, the
/// MCCS version the description is for, its flags, name and description,
/// and, for a feature with enumerated values, its value table.
#[derive(Debug)]
pub struct FeatureMetadata {
    feature_code: u8,
    vcp_version: MccsVersion,
    flags: u16,
    name: String,
    desc: String,
    sl_values: Vec<FeatureValue>,
}

impl FeatureMetadata {
    pub closed spec fn spec_feature_code(&self) -> u8 {
        self.feature_code
    }

    pub closed spec fn spec_vcp_version(&self) -> MccsVersion {
        self.vcp_version
    }

    pub closed spec fn spec_flags(&self) -> u16 {
        self.flags
    }

    pub closed spec fn spec_name(&self) -> Seq<char> {
        self.name@
    }

    pub closed spec fn spec_desc(&self) -> Seq<char> {
        self.desc@
    }

    pub closed spec fn spec_sl_values(&self) -> Seq<FeatureValue> {
        self.sl_values@
    }

    /// Builds the metadata from its header fields and the value table as
    /// read: the entries kept are those before the first terminator, whatever
    /// follows it.
    pub fn new(
        feature_code: u8,
        vcp_version: MccsVersion,
        flags: u16,
        name: String,
        desc: String,
        table: Vec<FeatureValue>,
    ) -> (r: FeatureMetadata)
        ensures
            r.spec_feature_code() == feature_code,
            r.spec_vcp_version() == vcp_version,
            r.spec_flags() == flags,
            r.spec_name() == name@,
            r.spec_desc() == desc@,
            r.spec_sl_values() == scan_values(table@),
    {
        let mut table = table;
        let mut i: usize = 0;
        while i < table.len() && !table[i].is_terminator()
            invariant
                i <= table@.len(),
                forall|j: int| 0 <= j < i ==> !is_terminator(#[trigger] table@[j]),
            decreases table@.len() - i,
        {
            i += 1;
        }
        proof {
            lemma_entries_before(table@, i as int);
        }
        table.truncate(i);
        FeatureMetadata { feature_code, vcp_version, flags, name, desc, sl_values: table }
    }

    /// The feature code described.
    pub fn feature_code(&self) -> (r: u8)
        ensures
            r == self.spec_feature_code(),
    {
        self.feature_code
    }

    /// The MCCS version that the description is for.
    pub fn vcp_version(&self) -> (r: MccsVersion)
        ensures
            r == self.spec_vcp_version(),
    {
        self.vcp_version
    }

    /// The feature's flags.
    pub fn flags(&self) -> (r: u16)
        ensures
            r == self.spec_flags(),
    {
        self.flags
    }

    /// The enumerated values of the feature, in table order.
    pub fn sl_values(&self) -> (r: &[FeatureValue])
        ensures
            r@ == self.spec_sl_values(),
    {
        self.sl_values.as_slice()
    }

    /// The feature's name.
    pub fn name(&self) -> (r: &str)
        ensures
            r@ == self.spec_name(),
    {
        self.name.as_str()
    }

    /// The feature's description.
    pub fn description(&self) -> (r: &str)
        ensures
            r@ == self.spec_desc(),
    {
        self.desc.as_str()
    }
}

/// A value table whose terminator stands after `k` entries yields exactly
/// those `k` entries, whatever follows the terminator.
pub proof fn lemma_scan_stops_at_terminator(a: Seq<FeatureValue>, b: Seq<FeatureValue>, k: int)
    requires
        0 <= k < a.len(),
        k < b.len(),
        is_terminator(a[k]),
        forall|j: int| 0 <= j < k ==> !is_terminator(#[trigger] a[j]),
        a.take(k + 1) == b.take(k + 1),
    ensures
        scan_values(a).len() == k,
        scan_values(a) == a.take(k),
        scan_values(b) == scan_values(a),
{
    lemma_entries_before(a, k);
    assert forall|j: int| 0 <= j <= k implies b[j] == a[j] by {
        assert(a.take(k + 1)[j] == a[j]);
        assert(b.take(k + 1)[j] == b[j]);
    }
    lemma_entries_before(b, k);
    assert(b.take(k) =~= a.take(k));
}

} // verus!
