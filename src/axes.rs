use vstd::prelude::*;

verus! {

/// One degree of relative motion between two jointed bodies: a translation
/// along, or a rotation about, one axis of the joint's frame.
#[derive(Clone, Copy, Debug, PartialEq, Eq, Structural)]
pub enum JointAxis {
    X,
    Y,
    Z,
    AngX,
    AngY,
    AngZ,
}

/// The number of axes of a joint.
pub const AXIS_COUNT: usize = 6;

impl JointAxis {
    /// The slot of this axis in per-axis tables.
    pub open spec fn slot(self) -> int {
        match self {
            JointAxis::X => 0,
            JointAxis::Y => 1,
            JointAxis::Z => 2,
            JointAxis::AngX => 3,
            JointAxis::AngY => 4,
            JointAxis::AngZ => 5,
        }
    }

    /// The flag of this axis in a mask.
    pub open spec fn flag(self) -> u8 {
        match self {
            JointAxis::X => 1,
            JointAxis::Y => 2,
            JointAxis::Z => 4,
            JointAxis::AngX => 8,
            JointAxis::AngY => 16,
            JointAxis::AngZ => 32,
        }
    }

    /// The slot of this axis in per-axis tables.
    pub fn index(self) -> (r: usize)
        ensures
            r == self.slot(),
            r < AXIS_COUNT,
    {
        match self {
            JointAxis::X => 0,
            JointAxis::Y => 1,
            JointAxis::Z => 2,
            JointAxis::AngX => 3,
            JointAxis::AngY => 4,
            JointAxis::AngZ => 5,
        }
    }

    fn flag_bits(self) -> (r: u8)
        ensures
            r == self.flag(),
    {
        match self {
            JointAxis::X => 1,
            JointAxis::Y => 2,
            JointAxis::Z => 4,
            JointAxis::AngX => 8,
            JointAxis::AngY => 16,
            JointAxis::AngZ => 32,
        }
    }
}

/// A set of joint axes, one flag per axis.
#[derive(Clone, Copy, Debug, PartialEq, Eq, Structural)]
pub struct JointAxesMask {
    bits: u8,
}

impl View for JointAxesMask {
    type V = Set<JointAxis>;

    closed spec fn view(&self) -> Set<JointAxis> {
        Set::new(|a: JointAxis| self.bits & a.flag() != 0)
    }
}

impl JointAxesMask {
    /// Only flags of actual axes are set.
    pub closed spec fn wf(self) -> bool {
        self.bits < 64
    }

    /// The empty set of axes.
    pub fn empty() -> (r: JointAxesMask)
        ensures
            r@ == Set::<JointAxis>::empty(),
            r.wf(),
    {
        let r = JointAxesMask { bits: 0 };
        assert(r@ =~= Set::<JointAxis>::empty()) by {
            assert forall|a: JointAxis| !r@.contains(a) by {
                let f = a.flag();
                assert(0u8 & f == 0) by (bit_vector);
            }
        }
        r
    }

    /// The set that holds `axis` alone.
    pub fn from_axis(axis: JointAxis) -> (r: JointAxesMask)
        ensures
            r@ == set![axis],
            r.wf(),
    {
        let r = JointAxesMask { bits: axis.flag_bits() };
        assert(r@ =~= set![axis]) by {
            assert forall|a: JointAxis| r@.contains(a) <==> a == axis by {
                let x = axis.flag();
                let f = a.flag();
                if a == axis {
                    assert(x & x != 0) by (bit_vector)
                        requires x != 0;
                } else {
                    assert(x & f == 0) by (bit_vector)
                        requires
                            x != f,
                            x == 1 || x == 2 || x == 4 || x == 8 || x == 16 || x == 32,
                            f == 1 || f == 2 || f == 4 || f == 8 || f == 16 || f == 32;
                }
            }
        }
        r
    }

    /// The axes that are in `self` or in `other`.
    pub fn union(self, other: JointAxesMask) -> (r: JointAxesMask)
        ensures
            r@ == self@.union(other@),
            self.wf() && other.wf() ==> r.wf(),
    {
        let r = JointAxesMask { bits: self.bits | other.bits };
        let x = self.bits;
        let y = other.bits;
        assert(x < 64 && y < 64 ==> x | y < 64) by (bit_vector);
        assert(r@ =~= self@.union(other@)) by {
            assert forall|a: JointAxis| r@.contains(a) <==> self@.contains(a) || other@.contains(a) by {
                let f = a.flag();
                assert((x | y) & f != 0 <==> (x & f != 0 || y & f != 0)) by (bit_vector);
            }
        }
        r
    }

    /// Whether `axis` is in the set.
    pub fn contains(self, axis: JointAxis) -> (r: bool)
        ensures
            r == self@.contains(axis),
    {
        self.bits & axis.flag_bits() != 0
    }
}

} // verus!
