use vstd::prelude::*;

use crate::axes::{JointAxesMask, JointAxis};
use crate::joint_data::{limits_of, JointData, JointDataView, JointEdit, JointLimits, JointMotor, MotorModel};
use crate::math::{Point, Real, UnitVector};

verus! {

/// A wheel joint: the two bodies share their anchor, and the wheel turns
/// freely about the joint's first axis only. Every other axis is locked, and
/// a zero-width limit sits on the second rotation to hold camber at zero.
#[derive(Clone, Copy, Debug, PartialEq)]
pub struct WheelJoint {
    data: JointData,
}

/// The axes a wheel joint locks: all but the rotation about its first axis.
pub open spec fn wheel_locked_axes() -> Set<JointAxis> {
    set![JointAxis::X, JointAxis::Y, JointAxis::Z, JointAxis::AngY, JointAxis::AngZ]
}

/// The configuration of a new wheel joint whose axis is `axis` in both bodies.
pub open spec fn wheel_joint_view(axis: UnitVector) -> JointDataView {
    JointDataView {
        locked: wheel_locked_axes(),
        limits: map![JointAxis::AngY => JointLimits { min: Real::spec_zero(), max: Real::spec_zero() }],
        motors: Map::empty(),
        local_anchor1: Point { x: Real::spec_zero(), y: Real::spec_zero(), z: Real::spec_zero() },
        local_anchor2: Point { x: Real::spec_zero(), y: Real::spec_zero(), z: Real::spec_zero() },
        local_axis1: axis,
        local_axis2: axis,
    }
}

impl View for WheelJoint {
    type V = JointDataView;

    open spec fn view(&self) -> JointDataView {
        self.spec_data()@
    }
}

impl WheelJoint {
    /// The configuration this builder holds.
    pub closed spec fn spec_data(&self) -> JointData {
        self.data
    }

    /// A wheel joint whose axis, in both bodies' frames, is `axis`.
    pub fn new(axis: UnitVector) -> (r: WheelJoint)
        ensures
            r@ == wheel_joint_view(axis),
    {
        let mask = JointAxesMask::from_axis(JointAxis::X)
            .union(JointAxesMask::from_axis(JointAxis::Y))
            .union(JointAxesMask::from_axis(JointAxis::Z))
            .union(JointAxesMask::from_axis(JointAxis::AngY))
            .union(JointAxesMask::from_axis(JointAxis::AngZ));
        let data = JointData::default()
            .lock_axes(mask)
            .local_axis1(axis)
            .local_axis2(axis)
            .limit_axis(JointAxis::AngY, [Real::zero(), Real::zero()]);
        let r = WheelJoint { data };
        assert(r@.locked =~= wheel_locked_axes());
        assert(r@.limits =~= wheel_joint_view(axis).limits);
        r
    }

    /// The configuration built so far.
    pub fn data(&self) -> (r: &JointData)
        ensures
            *r == self.spec_data(),
    {
        &self.data
    }

    /// Sets the joint's anchor in the first body's frame.
    #[must_use]
    pub fn local_anchor1(self, anchor1: Point) -> (r: WheelJoint)
        ensures
            r@ == self@.with_local_anchor1(anchor1),
    {
        WheelJoint { data: self.data.local_anchor1(anchor1) }
    }

    /// Sets the joint's anchor in the second body's frame.
    #[must_use]
    pub fn local_anchor2(self, anchor2: Point) -> (r: WheelJoint)
        ensures
            r@ == self@.with_local_anchor2(anchor2),
    {
        WheelJoint { data: self.data.local_anchor2(anchor2) }
    }

    /// Drives `axis` toward the velocity `target_vel`, with correction
    /// strength `factor`.
    #[must_use]
    pub fn motor_velocity(self, axis: JointAxis, target_vel: Real, factor: Real) -> (r: WheelJoint)
        ensures
            r@ == self@.with_motor(
                axis,
                JointMotor {
                    target: target_vel,
                    model: MotorModel::VelocityTracking { factor },
                },
            ),
    {
        WheelJoint { data: self.data.motor_velocity(axis, target_vel, factor) }
    }

    /// Drives `axis` toward the position `target_pos` with a spring of the
    /// given stiffness and damping.
    #[must_use]
    pub fn motor_position(
        self,
        axis: JointAxis,
        target_pos: Real,
        stiffness: Real,
        damping: Real,
    ) -> (r: WheelJoint)
        ensures
            r@ == self@.with_motor(
                axis,
                JointMotor {
                    target: target_pos,
                    model: MotorModel::PositionTracking { stiffness, damping },
                },
            ),
    {
        WheelJoint { data: self.data.motor_position(axis, target_pos, stiffness, damping) }
    }

    /// Sets the limit range of `axis` to `[limits[0], limits[1]]`.
    #[must_use]
    pub fn limit_axis(self, axis: JointAxis, limits: [Real; 2]) -> (r: WheelJoint)
        ensures
            r@ == self@.with_limit(axis, limits_of(limits)),
    {
        WheelJoint { data: self.data.limit_axis(axis, limits) }
    }

    /// Removes the limit range of `axis`, if it has one.
    #[must_use]
    pub fn unlimit_axis(self, axis: JointAxis) -> (r: WheelJoint)
        ensures
            r@ == self@.without_limit(axis),
    {
        WheelJoint { data: self.data.unlimit_axis(axis) }
    }
}

impl From<WheelJoint> for JointData {
    /// The configuration the builder holds, handed over as it is.
    fn from(joint: WheelJoint) -> (r: JointData) {
        joint.data
    }
}

impl vstd::std_specs::convert::FromSpecImpl<WheelJoint> for JointData {
    open spec fn obeys_from_spec() -> bool {
        true
    }

    open spec fn from_spec(joint: WheelJoint) -> JointData {
        joint.spec_data()
    }
}

/// Chaining edits on a wheel joint gives the configuration that the same
/// edits, in the same order, give when applied directly to the configuration
/// the builder wraps.
pub proof fn lemma_chain_matches_direct(joint: WheelJoint, data: JointData, edits: Seq<JointEdit>)
    requires
        joint.spec_data() == data,
    ensures
        joint@.apply_all(edits) == data@.apply_all(edits),
{
}

/// Converting a builder into its configuration is a projection: it yields
/// the configuration the builder holds, and converting the same builder
/// twice yields equal values.
pub proof fn lemma_conversion_is_projection(joint: WheelJoint)
    ensures
        <JointData as vstd::std_specs::convert::FromSpec<WheelJoint>>::from_spec(joint)
            == joint.spec_data(),
        <JointData as vstd::std_specs::convert::FromSpec<WheelJoint>>::from_spec(joint)@
            == joint@,
{
}

} // verus!
