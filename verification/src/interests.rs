//! Interests: a non-empty bitset of requested readiness kinds.

use vstd::prelude::*;
use vstd::string::StringExecFns;

verus! {

/// Bit for readable readiness.
pub const READABLE_BIT: u8 = 0x01;

/// Bit for writable readiness.
pub const WRITABLE_BIT: u8 = 0x02;

/// Bit for AIO-completion readiness (only meaningful on platforms that
/// deliver AIO events through the poller).
pub const AIO_BIT: u8 = 0x04;

/// Bit for LIO-completion readiness (only meaningful on platforms that
/// deliver LIO events through the poller).
pub const LIO_BIT: u8 = 0x08;

/// Interests are used when registering a socket with the poller: they say
/// which readiness kinds should be monitored. A value is never empty; it is
/// constructed only from the named constructors and unions of them.
#[derive(Clone, Copy, PartialEq, Eq, Structural, Hash, Debug)]
pub struct Interests {
    bits: u8,
}

impl Interests {
    /// The raw bits of the set.
    pub closed spec fn spec_bits(self) -> u8 {
        self.bits
    }

    /// A well-formed set is non-empty and stays within the flag universe.
    pub open spec fn wf(self) -> bool {
        self.spec_bits() != 0 && self.spec_bits() <= 15
    }

    #[verifier::type_invariant]
    spec fn inv(self) -> bool {
        self.wf()
    }

    /// The set contains the readable flag.
    pub open spec fn spec_readable(self) -> bool {
        self.spec_bits() & READABLE_BIT != 0
    }

    /// The set contains the writable flag.
    pub open spec fn spec_writable(self) -> bool {
        self.spec_bits() & WRITABLE_BIT != 0
    }

    /// The set contains the AIO flag.
    pub open spec fn spec_aio(self) -> bool {
        self.spec_bits() & AIO_BIT != 0
    }

    /// The set contains the LIO flag.
    pub open spec fn spec_lio(self) -> bool {
        self.spec_bits() & LIO_BIT != 0
    }

    /// The union of two sets, as a value.
    pub closed spec fn spec_union(self, other: Interests) -> Interests {
        Interests { bits: self.bits | other.bits }
    }

    /// An interests set representing readable readiness.
    pub fn readable() -> (r: Interests)
        ensures
            r.spec_bits() == READABLE_BIT,
            r.spec_readable() && !r.spec_writable() && !r.spec_aio() && !r.spec_lio(),
    {
        proof {
            assert(1u8 & 1u8 != 0 && 1u8 & 2u8 == 0 && 1u8 & 4u8 == 0 && 1u8 & 8u8 == 0)
                by (bit_vector);
        }
        Interests { bits: READABLE_BIT }
    }

    /// An interests set representing writable readiness.
    pub fn writable() -> (r: Interests)
        ensures
            r.spec_bits() == WRITABLE_BIT,
            !r.spec_readable() && r.spec_writable() && !r.spec_aio() && !r.spec_lio(),
    {
        proof {
            assert(2u8 & 1u8 == 0 && 2u8 & 2u8 != 0 && 2u8 & 4u8 == 0 && 2u8 & 8u8 == 0)
                by (bit_vector);
        }
        Interests { bits: WRITABLE_BIT }
    }

    /// An interests set representing AIO-completion readiness.
    pub fn aio() -> (r: Interests)
        ensures
            r.spec_bits() == AIO_BIT,
            !r.spec_readable() && !r.spec_writable() && r.spec_aio() && !r.spec_lio(),
    {
        proof {
            assert(4u8 & 1u8 == 0 && 4u8 & 2u8 == 0 && 4u8 & 4u8 != 0 && 4u8 & 8u8 == 0)
                by (bit_vector);
        }
        Interests { bits: AIO_BIT }
    }

    /// An interests set representing LIO-completion readiness.
    pub fn lio() -> (r: Interests)
        ensures
            r.spec_bits() == LIO_BIT,
            !r.spec_readable() && !r.spec_writable() && !r.spec_aio() && r.spec_lio(),
    {
        proof {
            assert(8u8 & 1u8 == 0 && 8u8 & 2u8 == 0 && 8u8 & 4u8 == 0 && 8u8 & 8u8 != 0)
                by (bit_vector);
        }
        Interests { bits: LIO_BIT }
    }

    /// True when the set includes readable readiness.
    pub fn is_readable(self) -> (r: bool)
        ensures
            r == self.spec_readable(),
    {
        (self.bits & READABLE_BIT) != 0
    }

    /// True when the set includes writable readiness.
    pub fn is_writable(self) -> (r: bool)
        ensures
            r == self.spec_writable(),
    {
        (self.bits & WRITABLE_BIT) != 0
    }

    /// True when the set includes AIO-completion readiness.
    pub fn is_aio(self) -> (r: bool)
        ensures
            r == self.spec_aio(),
    {
        (self.bits & AIO_BIT) != 0
    }

    /// True when the set includes LIO-completion readiness.
    pub fn is_lio(self) -> (r: bool)
        ensures
            r == self.spec_lio(),
    {
        (self.bits & LIO_BIT) != 0
    }

    /// The raw bits of the set, for building the kernel event mask.
    pub fn as_u8(self) -> (r: u8)
        ensures
            r == self.spec_bits(),
    {
        self.bits
    }
}

impl core::ops::BitOr for Interests {
    type Output = Interests;

    /// The union of two interest sets; never empty because neither side is.
    fn bitor(self, other: Interests) -> (r: Interests) {
        proof {
            use_type_invariant(self);
            use_type_invariant(other);
            let a = self.spec_bits();
            let b = other.spec_bits();
            assert((a | b) != 0 && (a | b) <= 15) by (bit_vector)
                requires
                    a != 0 && a <= 15 && b != 0 && b <= 15,
            ;
        }
        Interests { bits: self.bits | other.bits }
    }
}

impl vstd::std_specs::ops::BitOrSpecImpl for Interests {
    open spec fn obeys_bitor_spec() -> bool {
        true
    }

    open spec fn bitor_req(self, other: Interests) -> bool {
        true
    }

    open spec fn bitor_spec(self, other: Interests) -> Interests {
        self.spec_union(other)
    }
}

/// Every well-formed interests value carries at least one flag: no code
/// path produces an empty set.
pub proof fn lemma_interests_never_empty(i: Interests)
    requires
        i.wf(),
    ensures
        i.spec_readable() || i.spec_writable() || i.spec_aio() || i.spec_lio(),
{
    let b = i.spec_bits();
    assert(b & 1u8 != 0 || b & 2u8 != 0 || b & 4u8 != 0 || b & 8u8 != 0) by (bit_vector)
        requires
            b != 0 && b <= 15,
    ;
}

/// Union keeps well-formedness: the union of two non-empty sets is non-empty.
pub proof fn lemma_union_wf(a: Interests, b: Interests)
    requires
        a.wf(),
        b.wf(),
    ensures
        a.spec_union(b).wf(),
{
    let x = a.spec_bits();
    let y = b.spec_bits();
    assert((x | y) != 0 && (x | y) <= 15) by (bit_vector)
        requires
            x != 0 && x <= 15 && y != 0 && y <= 15,
    ;
    assert(a.spec_union(b).spec_bits() == x | y);
}

/// Union is idempotent: `a | a == a`.
pub proof fn lemma_union_idempotent(a: Interests)
    ensures
        a.spec_union(a) == a,
{
    let x = a.spec_bits();
    assert((x | x) == x) by (bit_vector);
    assert(a.spec_union(a) == a);
}

/// Union is commutative: `a | b == b | a`.
pub proof fn lemma_union_commutative(a: Interests, b: Interests)
    ensures
        a.spec_union(b) == b.spec_union(a),
{
    let x = a.spec_bits();
    let y = b.spec_bits();
    assert((x | y) == (y | x)) by (bit_vector);
}

/// Each flag of a union is the disjunction of the flags of its parts:
/// `(a | b).is_x() == a.is_x() || b.is_x()` for every flag `x`.
pub proof fn lemma_union_flags(a: Interests, b: Interests)
    ensures
        a.spec_union(b).spec_readable() == (a.spec_readable() || b.spec_readable()),
        a.spec_union(b).spec_writable() == (a.spec_writable() || b.spec_writable()),
        a.spec_union(b).spec_aio() == (a.spec_aio() || b.spec_aio()),
        a.spec_union(b).spec_lio() == (a.spec_lio() || b.spec_lio()),
{
    let x = a.spec_bits();
    let y = b.spec_bits();
    assert(a.spec_union(b).spec_bits() == x | y);
    assert(((x | y) & 1u8 != 0) == (x & 1u8 != 0 || y & 1u8 != 0)) by (bit_vector);
    assert(((x | y) & 2u8 != 0) == (x & 2u8 != 0 || y & 2u8 != 0)) by (bit_vector);
    assert(((x | y) & 4u8 != 0) == (x & 4u8 != 0 || y & 4u8 != 0)) by (bit_vector);
    assert(((x | y) & 8u8 != 0) == (x & 8u8 != 0 || y & 8u8 != 0)) by (bit_vector);
}

/// One flag name, joined to what was rendered so far with `" | "`.
pub open spec fn spec_append_name(s: Seq<char>, name: Seq<char>) -> Seq<char> {
    if s.len() > 0 {
        s + " | "@ + name
    } else {
        name
    }
}

impl Interests {
    /// The debug rendering: the names of the set flags joined by `" | "`.
    pub open spec fn spec_debug_text(self) -> Seq<char> {
        let s = Seq::<char>::empty();
        let s = if self.spec_readable() {
            spec_append_name(s, "READABLE"@)
        } else {
            s
        };
        let s = if self.spec_writable() {
            spec_append_name(s, "WRITABLE"@)
        } else {
            s
        };
        let s = if self.spec_aio() {
            spec_append_name(s, "AIO"@)
        } else {
            s
        };
        if self.spec_lio() {
            spec_append_name(s, "LIO"@)
        } else {
            s
        }
    }

    /// Renders the set flag names joined by `" | "`. The result is never
    /// empty, because the set itself never is.
    pub fn debug_text(self) -> (r: String)
        ensures
            r@ == self.spec_debug_text(),
            r@.len() > 0,
    {
        proof {
            use_type_invariant(self);
            lemma_interests_never_empty(self);
            reveal_strlit("READABLE");
            reveal_strlit("WRITABLE");
            reveal_strlit("AIO");
            reveal_strlit("LIO");
            reveal_strlit(" | ");
        }
        let mut s = String::new();
        let mut one = false;
        if self.is_readable() {
            if one {
                s.append(" | ");
            }
            s.append("READABLE");
            one = true;
            proof {
                assert(s@ =~= spec_append_name(Seq::<char>::empty(), "READABLE"@));
            }
        }
        if self.is_writable() {
            if one {
                s.append(" | ");
            }
            s.append("WRITABLE");
            one = true;
        }
        proof {
            let s2 = {
                let t = Seq::<char>::empty();
                let t = if self.spec_readable() {
                    spec_append_name(t, "READABLE"@)
                } else {
                    t
                };
                if self.spec_writable() {
                    spec_append_name(t, "WRITABLE"@)
                } else {
                    t
                }
            };
            assert(s@ =~= s2);
            assert(one == (s@.len() > 0));
        }
        if self.is_aio() {
            if one {
                s.append(" | ");
            }
            s.append("AIO");
            one = true;
        }
        proof {
            let s3 = {
                let t = Seq::<char>::empty();
                let t = if self.spec_readable() {
                    spec_append_name(t, "READABLE"@)
                } else {
                    t
                };
                let t = if self.spec_writable() {
                    spec_append_name(t, "WRITABLE"@)
                } else {
                    t
                };
                if self.spec_aio() {
                    spec_append_name(t, "AIO"@)
                } else {
                    t
                }
            };
            assert(s@ =~= s3);
            assert(one == (s@.len() > 0));
        }
        if self.is_lio() {
            if one {
                s.append(" | ");
            }
            s.append("LIO");
            one = true;
        }
        proof {
            assert(s@ =~= self.spec_debug_text());
        }
        s
    }
}

} // verus!
