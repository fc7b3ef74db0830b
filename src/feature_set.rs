use vstd::prelude::*;
use vstd::std_specs::cmp::PartialEqSpec;

verus! {

/// Whether bit `k` (0 = least significant) of a byte is set.
pub open spec fn byte_has(b: u8, k: u8) -> bool {
    (b >> k) & 1 == 1
}

/// Whether a 32-byte feature list marks feature code `x`: bit `x % 8` of
/// byte `x / 8`.
pub open spec fn marks(bytes: Seq<u8>, x: u8) -> bool {
    byte_has(bytes[(x / 8) as int], x % 8)
}

proof fn lemma_byte_and(a: u8, b: u8, k: u8)
    requires
        k < 8,
    ensures
        byte_has(a & b, k) == (byte_has(a, k) && byte_has(b, k)),
{
    assert(((a & b) >> k) & 1 == 1 <==> ((a >> k) & 1 == 1 && (b >> k) & 1 == 1)) by (bit_vector)
        requires
            k < 8,
    ;
}

proof fn lemma_byte_or(a: u8, b: u8, k: u8)
    requires
        k < 8,
    ensures
        byte_has(a | b, k) == (byte_has(a, k) || byte_has(b, k)),
{
    assert(((a | b) >> k) & 1 == 1 <==> ((a >> k) & 1 == 1 || (b >> k) & 1 == 1)) by (bit_vector)
        requires
            k < 8,
    ;
}

proof fn lemma_byte_and_not(a: u8, b: u8, k: u8)
    requires
        k < 8,
    ensures
        byte_has(a & !b, k) == (byte_has(a, k) && !byte_has(b, k)),
{
    assert(((a & !b) >> k) & 1 == 1 <==> ((a >> k) & 1 == 1 && !((b >> k) & 1 == 1)))
        by (bit_vector)
        requires
            k < 8,
    ;
}

proof fn lemma_byte_set_bit(a: u8, j: u8, k: u8)
    requires
        j < 8,
        k < 8,
    ensures
        byte_has(a | (1u8 << j), k) == (byte_has(a, k) || j == k),
{
    assert(((a | (1u8 << j)) >> k) & 1 == 1 <==> ((a >> k) & 1 == 1 || j == k)) by (bit_vector)
        requires
            j < 8,
            k < 8,
    ;
}

proof fn lemma_byte_zero(k: u8)
    requires
        k < 8,
    ensures
        !byte_has(0, k),
{
    assert(!(((0u8 >> k) & 1) == 1)) by (bit_vector)
        requires
            k < 8,
    ;
}

proof fn lemma_byte_bits_equal(a: u8, b: u8)
    requires
        forall|k: u8| k < 8 ==> byte_has(a, k) == byte_has(b, k),
    ensures
        a == b,
{
    let (k0, k1, k2, k3, k4, k5, k6, k7) = (0u8, 1u8, 2u8, 3u8, 4u8, 5u8, 6u8, 7u8);
    assert(byte_has(a, k0) == byte_has(b, k0));
    assert(byte_has(a, k1) == byte_has(b, k1));
    assert(byte_has(a, k2) == byte_has(b, k2));
    assert(byte_has(a, k3) == byte_has(b, k3));
    assert(byte_has(a, k4) == byte_has(b, k4));
    assert(byte_has(a, k5) == byte_has(b, k5));
    assert(byte_has(a, k6) == byte_has(b, k6));
    assert(byte_has(a, k7) == byte_has(b, k7));
    assert(a == b) by (bit_vector)
        requires
            ((a >> 0u8) & 1 == 1) == ((b >> 0u8) & 1 == 1),
            ((a >> 1u8) & 1 == 1) == ((b >> 1u8) & 1 == 1),
            ((a >> 2u8) & 1 == 1) == ((b >> 2u8) & 1 == 1),
            ((a >> 3u8) & 1 == 1) == ((b >> 3u8) & 1 == 1),
            ((a >> 4u8) & 1 == 1) == ((b >> 4u8) & 1 == 1),
            ((a >> 5u8) & 1 == 1) == ((b >> 5u8) & 1 == 1),
            ((a >> 6u8) & 1 == 1) == ((b >> 6u8) & 1 == 1),
            ((a >> 7u8) & 1 == 1) == ((b >> 7u8) & 1 == 1),
    ;
}

/// A set of VCP feature codes, one bit for each of the 256 codes, laid out
/// as the native feature list is.
#[derive(Clone, Copy, Debug)]
pub struct FeatureSet {
    bytes: [u8; 32],
}

impl View for FeatureSet {
    type V = Set<u8>;

    open spec fn view(&self) -> Set<u8> {
        Set::new(|x: u8| marks(self.raw(), x))
    }
}

impl FeatureSet {
    /// The 32 bytes of the set.
    pub closed spec fn raw(&self) -> Seq<u8> {
        self.bytes@
    }

    /// The empty set.
    pub fn new() -> (r: FeatureSet)
        ensures
            r@ == Set::<u8>::empty(),
            r.raw() == Seq::new(32, |i: int| 0u8),
    {
        let r = FeatureSet { bytes: [0u8; 32] };
        proof {
            assert(r.bytes@ =~= Seq::new(32, |i: int| 0u8));
            assert forall|x: u8| !r@.contains(x) by {
                lemma_byte_zero(x % 8);
            }
            assert(r@ =~= Set::<u8>::empty());
        }
        r
    }

    /// The set that a native feature list of 32 bytes describes.
    pub fn from_bytes(bytes: [u8; 32]) -> (r: FeatureSet)
        ensures
            r.raw() == bytes@,
    {
        FeatureSet { bytes }
    }

    /// The bytes of the set.
    pub fn as_slice(&self) -> (r: &[u8; 32])
        ensures
            r@ == self.raw(),
    {
        &self.bytes
    }

    /// Removes every code.
    pub fn clear(&mut self)
        ensures
            final(self)@ == Set::<u8>::empty(),
    {
        *self = FeatureSet::new();
    }

    /// Adds a code; adding one that is there already changes nothing.
    pub fn insert(&mut self, code: u8)
        ensures
            final(self)@ == old(self)@.insert(code),
    {
        let i = (code / 8) as usize;
        let j = code % 8;
        let old_bytes = self.bytes;
        self.bytes[i] = self.bytes[i] | (1u8 << j);
        proof {
            assert forall|x: u8| #[trigger] self@.contains(x) == old(self)@.insert(code).contains(x) by {
                lemma_byte_set_bit(old_bytes@[(x / 8) as int], j, x % 8);
            }
            assert(self@ =~= old(self)@.insert(code));
        }
    }

    /// Whether the code is in the set.
    pub fn contains(&self, code: u8) -> (r: bool)
        ensures
            r == self@.contains(code),
    {
        (self.bytes[(code / 8) as usize] >> (code % 8)) & 1 == 1
    }

    /// The number of codes in the set.
    pub fn count(&self) -> (r: i32)
        ensures
            self@.finite(),
            r as int == self@.len(),
    {
        let mut n: i32 = 0;
        let mut c: u16 = 0;
        proof {
            assert(self@.filter(|x: u8| (x as int) < 0) =~= Set::<u8>::empty());
        }
        while c < 256
            invariant
                c <= 256,
                n as int == self@.filter(|x: u8| (x as int) < c).len(),
                n <= c,
                self@.filter(|x: u8| (x as int) < c).finite(),
            decreases 256 - c,
        {
            let ghost below = self@.filter(|x: u8| (x as int) < c);
            let ghost next = self@.filter(|x: u8| (x as int) < c + 1);
            let code = c as u8;
            if self.contains(code) {
                proof {
                    assert(next =~= below.insert(code));
                    assert(!below.contains(code));
                }
                n = n + 1;
            } else {
                proof {
                    assert(next =~= below);
                }
            }
            c = c + 1;
        }
        proof {
            assert(self@.filter(|x: u8| (x as int) < 256) =~= self@);
        }
        n
    }

    /// The codes in both sets.
    pub fn and(&self, other: &FeatureSet) -> (r: FeatureSet)
        ensures
            r@ == self@.intersect(other@),
    {
        let mut bytes = [0u8; 32];
        let mut i: usize = 0;
        while i < 32
            invariant
                i <= 32,
                forall|j: int| 0 <= j < i ==> bytes@[j] == self.bytes@[j] & other.bytes@[j],
            decreases 32 - i,
        {
            bytes[i] = self.bytes[i] & other.bytes[i];
            i += 1;
        }
        let r = FeatureSet { bytes };
        proof {
            assert forall|x: u8| #[trigger] r@.contains(x) == self@.intersect(other@).contains(x) by {
                lemma_byte_and(self.bytes@[(x / 8) as int], other.bytes@[(x / 8) as int], x % 8);
            }
            assert(r@ =~= self@.intersect(other@));
        }
        r
    }

    /// The codes in either set.
    pub fn or(&self, other: &FeatureSet) -> (r: FeatureSet)
        ensures
            r@ == self@.union(other@),
    {
        let mut bytes = [0u8; 32];
        let mut i: usize = 0;
        while i < 32
            invariant
                i <= 32,
                forall|j: int| 0 <= j < i ==> bytes@[j] == self.bytes@[j] | other.bytes@[j],
            decreases 32 - i,
        {
            bytes[i] = self.bytes[i] | other.bytes[i];
            i += 1;
        }
        let r = FeatureSet { bytes };
        proof {
            assert forall|x: u8| #[trigger] r@.contains(x) == self@.union(other@).contains(x) by {
                lemma_byte_or(self.bytes@[(x / 8) as int], other.bytes@[(x / 8) as int], x % 8);
            }
            assert(r@ =~= self@.union(other@));
        }
        r
    }

    /// The codes in this set and not in the other.
    pub fn and_not(&self, other: &FeatureSet) -> (r: FeatureSet)
        ensures
            r@ == self@.difference(other@),
    {
        let mut bytes = [0u8; 32];
        let mut i: usize = 0;
        while i < 32
            invariant
                i <= 32,
                forall|j: int| 0 <= j < i ==> bytes@[j] == self.bytes@[j] & !other.bytes@[j],
            decreases 32 - i,
        {
            bytes[i] = self.bytes[i] & !other.bytes[i];
            i += 1;
        }
        let r = FeatureSet { bytes };
        proof {
            assert forall|x: u8| #[trigger] r@.contains(x) == self@.difference(other@).contains(x) by {
                lemma_byte_and_not(self.bytes@[(x / 8) as int], other.bytes@[(x / 8) as int], x % 8);
            }
            assert(r@ =~= self@.difference(other@));
        }
        r
    }
}

impl PartialEq for FeatureSet {
    fn eq(&self, other: &FeatureSet) -> (r: bool) {
        let mut i: usize = 0;
        while i < 32
            invariant
                i <= 32,
                forall|j: int| 0 <= j < i ==> self.bytes@[j] == other.bytes@[j],
            decreases 32 - i,
        {
            if self.bytes[i] != other.bytes[i] {
                return false;
            }
            i += 1;
        }
        proof {
            assert(self.bytes@ =~= other.bytes@);
        }
        true
    }
}

impl vstd::std_specs::cmp::PartialEqSpecImpl for FeatureSet {
    open spec fn obeys_eq_spec() -> bool {
        true
    }

    open spec fn eq_spec(&self, other: &FeatureSet) -> bool {
        self.raw() == other.raw()
    }
}

impl Eq for FeatureSet {}

/// The feature set that holds exactly the given codes.
pub open spec fn set_holding(codes: Set<u8>) -> FeatureSet {
    choose|c: FeatureSet| c@ == codes
}

/// `base` with bytes `0..n` replaced by those that `f` gives.
spec fn bytes_from(base: [u8; 32], f: spec_fn(int) -> u8, n: nat) -> [u8; 32]
    decreases n,
{
    if n == 0 {
        base
    } else {
        vstd::array::spec_array_update(bytes_from(base, f, (n - 1) as nat), n - 1, f(n - 1))
    }
}

proof fn lemma_bytes_from(base: [u8; 32], f: spec_fn(int) -> u8, n: nat)
    requires
        n <= 32,
    ensures
        bytes_from(base, f, n)@.len() == 32,
        forall|i: int| 0 <= i < n ==> #[trigger] bytes_from(base, f, n)@[i] == f(i),
    decreases n,
{
    vstd::array::array_len_matches_n(&base);
    if n > 0 {
        lemma_bytes_from(base, f, (n - 1) as nat);
        vstd::array::axiom_spec_array_update(bytes_from(base, f, (n - 1) as nat), n - 1, f(n - 1));
    }
}

/// Every union, intersection and difference of two feature sets is the
/// view of a feature set, so the operators' results hold exactly those
/// codes: `&a | &b` holds a code exactly when `a` or `b` does, `&a & &b`
/// exactly when both do, and `&a - &b` exactly when `a` does and `b` does
/// not.
pub proof fn lemma_operator_results(a: FeatureSet, b: FeatureSet)
    ensures
        set_holding(a@.union(b@))@ == a@.union(b@),
        set_holding(a@.intersect(b@))@ == a@.intersect(b@),
        set_holding(a@.difference(b@))@ == a@.difference(b@),
{
    let ra = a.bytes@;
    let rb = b.bytes@;
    let f_or = |i: int| ra[i] | rb[i];
    let f_and = |i: int| ra[i] & rb[i];
    let f_diff = |i: int| ra[i] & !rb[i];
    lemma_bytes_from(a.bytes, f_or, 32);
    lemma_bytes_from(a.bytes, f_and, 32);
    lemma_bytes_from(a.bytes, f_diff, 32);
    let u = FeatureSet { bytes: bytes_from(a.bytes, f_or, 32) };
    let n = FeatureSet { bytes: bytes_from(a.bytes, f_and, 32) };
    let d = FeatureSet { bytes: bytes_from(a.bytes, f_diff, 32) };
    assert forall|x: u8| #[trigger] u@.contains(x) == a@.union(b@).contains(x) by {
        assert(u.bytes@[(x / 8) as int] == f_or((x / 8) as int));
        lemma_byte_or(ra[(x / 8) as int], rb[(x / 8) as int], x % 8);
    }
    assert forall|x: u8| #[trigger] n@.contains(x) == a@.intersect(b@).contains(x) by {
        assert(n.bytes@[(x / 8) as int] == f_and((x / 8) as int));
        lemma_byte_and(ra[(x / 8) as int], rb[(x / 8) as int], x % 8);
    }
    assert forall|x: u8| #[trigger] d@.contains(x) == a@.difference(b@).contains(x) by {
        assert(d.bytes@[(x / 8) as int] == f_diff((x / 8) as int));
        lemma_byte_and_not(ra[(x / 8) as int], rb[(x / 8) as int], x % 8);
    }
    assert(u@ =~= a@.union(b@));
    assert(n@ =~= a@.intersect(b@));
    assert(d@ =~= a@.difference(b@));
}

/// A feature set is determined by the codes it holds.
proof fn lemma_view_determines(r: FeatureSet, codes: Set<u8>)
    requires
        r@ == codes,
    ensures
        r == set_holding(codes),
{
    let c = set_holding(codes);
    lemma_eq_iff_same_codes(r, c);
    vstd::array::axiom_array_ext_equal(r.bytes, c.bytes);
}

/// `BitAnd` as an operator: the codes in both sets, as `and` gives them.
impl<'a> vstd::std_specs::ops::BitAndSpecImpl for &'a FeatureSet {
    open spec fn obeys_bitand_spec() -> bool {
        true
    }

    open spec fn bitand_req(self, rhs: &'a FeatureSet) -> bool {
        true
    }

    open spec fn bitand_spec(self, rhs: &'a FeatureSet) -> FeatureSet {
        set_holding(self@.intersect(rhs@))
    }
}

impl<'a> std::ops::BitAnd for &'a FeatureSet {
    type Output = FeatureSet;

    fn bitand(self, rhs: &'a FeatureSet) -> FeatureSet {
        let r = self.and(rhs);
        proof {
            lemma_view_determines(r, self@.intersect(rhs@));
        }
        r
    }
}

/// `BitOr` as an operator: the codes in either set, as `or` gives them.
impl<'a> vstd::std_specs::ops::BitOrSpecImpl for &'a FeatureSet {
    open spec fn obeys_bitor_spec() -> bool {
        true
    }

    open spec fn bitor_req(self, rhs: &'a FeatureSet) -> bool {
        true
    }

    open spec fn bitor_spec(self, rhs: &'a FeatureSet) -> FeatureSet {
        set_holding(self@.union(rhs@))
    }
}

impl<'a> std::ops::BitOr for &'a FeatureSet {
    type Output = FeatureSet;

    fn bitor(self, rhs: &'a FeatureSet) -> FeatureSet {
        let r = self.or(rhs);
        proof {
            lemma_view_determines(r, self@.union(rhs@));
        }
        r
    }
}

/// `Sub` as an operator: the codes in the left set and not in the right, as `and_not` gives them.
impl<'a> vstd::std_specs::ops::SubSpecImpl for &'a FeatureSet {
    open spec fn obeys_sub_spec() -> bool {
        true
    }

    open spec fn sub_req(self, rhs: &'a FeatureSet) -> bool {
        true
    }

    open spec fn sub_spec(self, rhs: &'a FeatureSet) -> FeatureSet {
        set_holding(self@.difference(rhs@))
    }
}

impl<'a> std::ops::Sub for &'a FeatureSet {
    type Output = FeatureSet;

    fn sub(self, rhs: &'a FeatureSet) -> FeatureSet {
        let r = self.and_not(rhs);
        proof {
            lemma_view_determines(r, self@.difference(rhs@));
        }
        r
    }
}

/// Two feature sets are equal, bit for bit, exactly when they hold the same
/// codes.
pub proof fn lemma_eq_iff_same_codes(a: FeatureSet, b: FeatureSet)
    ensures
        (a.raw() == b.raw()) <==> (a@ == b@),
{
    assert(a.bytes@.len() == 32 && b.bytes@.len() == 32);
    if a@ == b@ {
        assert forall|i: int| 0 <= i < 32 implies a.raw()[i] == b.raw()[i] by {
            assert forall|k: u8| k < 8 implies byte_has(a.raw()[i], k) == byte_has(b.raw()[i], k) by {
                let x = (i * 8 + k) as u8;
                assert(x / 8 == i && x % 8 == k);
                assert(a@.contains(x) == b@.contains(x));
            }
            lemma_byte_bits_equal(a.raw()[i], b.raw()[i]);
        }
        assert(a.raw() =~= b.raw());
    }
}

} // verus!
