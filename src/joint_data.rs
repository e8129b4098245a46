use vstd::prelude::*;

use crate::axes::{JointAxesMask, JointAxis, AXIS_COUNT};
use crate::math::{Point, UnitVector, Real};

verus! {

/// The two-sided range `[min, max]` an axis may move within. An inverted
/// range (`min > max`) is stored as it is; rejecting it is left to the solver.
#[derive(Clone, Copy, Debug, PartialEq, Eq, Structural)]
pub struct JointLimits {
    pub min: Real,
    pub max: Real,
}

/// How a motor drives its axis.
#[derive(Clone, Copy, Debug, PartialEq, Eq, Structural)]
pub enum MotorModel {
    /// Drive toward a target velocity; `factor`, in `[0, 1]`, says how
    /// strongly the motor corrects toward the target.
    VelocityTracking { factor: Real },
    /// Spring-damper drive toward a target position.
    PositionTracking { stiffness: Real, damping: Real },
}

/// The motor of one axis: what it tracks, and how.
#[derive(Clone, Copy, Debug, PartialEq, Eq, Structural)]
pub struct JointMotor {
    pub target: Real,
    pub model: MotorModel,
}

/// What a joint configuration means: the locked axes, the limit and the motor
/// of each axis that has one, and the joint's frame in each body.
pub ghost struct JointDataView {
    pub locked: Set<JointAxis>,
    pub limits: Map<JointAxis, JointLimits>,
    pub motors: Map<JointAxis, JointMotor>,
    pub local_anchor1: Point,
    pub local_anchor2: Point,
    pub local_axis1: UnitVector,
    pub local_axis2: UnitVector,
}

/// The entry of `axis` in `m`, if it has one.
pub open spec fn entry<V>(m: Map<JointAxis, V>, axis: JointAxis) -> Option<V> {
    if m.dom().contains(axis) {
        Some(m[axis])
    } else {
        None
    }
}

impl JointDataView {
    /// `axes` added to the locked axes.
    pub open spec fn with_locked(self, axes: Set<JointAxis>) -> JointDataView {
        JointDataView { locked: self.locked.union(axes), ..self }
    }

    /// The limit of `axis` set to `limits`, replacing any earlier one.
    pub open spec fn with_limit(self, axis: JointAxis, limits: JointLimits) -> JointDataView {
        JointDataView { limits: self.limits.insert(axis, limits), ..self }
    }

    /// The limit of `axis`, if any, removed.
    pub open spec fn without_limit(self, axis: JointAxis) -> JointDataView {
        JointDataView { limits: self.limits.remove(axis), ..self }
    }

    /// The motor of `axis` set to `motor`, replacing any earlier one.
    pub open spec fn with_motor(self, axis: JointAxis, motor: JointMotor) -> JointDataView {
        JointDataView { motors: self.motors.insert(axis, motor), ..self }
    }

    /// The anchor in the first body set to `p`.
    pub open spec fn with_local_anchor1(self, p: Point) -> JointDataView {
        JointDataView { local_anchor1: p, ..self }
    }

    /// The anchor in the second body set to `p`.
    pub open spec fn with_local_anchor2(self, p: Point) -> JointDataView {
        JointDataView { local_anchor2: p, ..self }
    }

    /// The axis in the first body set to `u`.
    pub open spec fn with_local_axis1(self, u: UnitVector) -> JointDataView {
        JointDataView { local_axis1: u, ..self }
    }

    /// The axis in the second body set to `u`.
    pub open spec fn with_local_axis2(self, u: UnitVector) -> JointDataView {
        JointDataView { local_axis2: u, ..self }
    }
}

/// One edit of a joint configuration, as the builders apply them.
pub ghost enum JointEdit {
    LockAxes(Set<JointAxis>),
    LimitAxis(JointAxis, JointLimits),
    UnlimitAxis(JointAxis),
    Motor(JointAxis, JointMotor),
    LocalAnchor1(Point),
    LocalAnchor2(Point),
    LocalAxis1(UnitVector),
    LocalAxis2(UnitVector),
}

impl JointDataView {
    /// The configuration after `edit`.
    pub open spec fn apply(self, edit: JointEdit) -> JointDataView {
        match edit {
            JointEdit::LockAxes(axes) => self.with_locked(axes),
            JointEdit::LimitAxis(axis, limits) => self.with_limit(axis, limits),
            JointEdit::UnlimitAxis(axis) => self.without_limit(axis),
            JointEdit::Motor(axis, motor) => self.with_motor(axis, motor),
            JointEdit::LocalAnchor1(p) => self.with_local_anchor1(p),
            JointEdit::LocalAnchor2(p) => self.with_local_anchor2(p),
            JointEdit::LocalAxis1(u) => self.with_local_axis1(u),
            JointEdit::LocalAxis2(u) => self.with_local_axis2(u),
        }
    }

    /// The configuration after each of `edits`, first to last.
    pub open spec fn apply_all(self, edits: Seq<JointEdit>) -> JointDataView
        decreases edits.len(),
    {
        if edits.len() == 0 {
            self
        } else {
            self.apply(edits[0]).apply_all(edits.drop_first())
        }
    }
}

/// The limit range made of `[min, max]`.
pub open spec fn limits_of(limits: [Real; 2]) -> JointLimits {
    JointLimits { min: limits[0], max: limits[1] }
}

/// A joint configuration: a flat, copyable value that the constraint solver
/// reads. The locked mask is authoritative: a limit or motor stored for a
/// locked axis has no effect.
#[derive(Clone, Copy, Debug, PartialEq, Eq)]
pub struct JointData {
    pub locked_axes: JointAxesMask,
    pub limits: [Option<JointLimits>; 6],
    pub motors: [Option<JointMotor>; 6],
    pub local_anchor1: Point,
    pub local_anchor2: Point,
    pub local_axis1: UnitVector,
    pub local_axis2: UnitVector,
}

impl View for JointData {
    type V = JointDataView;

    open spec fn view(&self) -> JointDataView {
        JointDataView {
            locked: self.locked_axes@,
            limits: Map::new(
                |a: JointAxis| self.limits[a.slot()] is Some,
                |a: JointAxis| self.limits[a.slot()]->Some_0,
            ),
            motors: Map::new(
                |a: JointAxis| self.motors[a.slot()] is Some,
                |a: JointAxis| self.motors[a.slot()]->Some_0,
            ),
            local_anchor1: self.local_anchor1,
            local_anchor2: self.local_anchor2,
            local_axis1: self.local_axis1,
            local_axis2: self.local_axis2,
        }
    }
}

impl Default for JointData {
    /// No locked axis, no limit, no motor; both anchors at the origin and
    /// both axes along the first axis of the frame.
    fn default() -> (r: JointData)
        ensures
            r@ == (JointDataView {
                locked: Set::empty(),
                limits: Map::empty(),
                motors: Map::empty(),
                local_anchor1: Point { x: Real::spec_zero(), y: Real::spec_zero(), z: Real::spec_zero() },
                local_anchor2: Point { x: Real::spec_zero(), y: Real::spec_zero(), z: Real::spec_zero() },
                local_axis1: UnitVector { x: Real::spec_one(), y: Real::spec_zero(), z: Real::spec_zero() },
                local_axis2: UnitVector { x: Real::spec_one(), y: Real::spec_zero(), z: Real::spec_zero() },
            }),
    {
        let r = JointData {
            locked_axes: JointAxesMask::empty(),
            limits: [None; AXIS_COUNT],
            motors: [None; AXIS_COUNT],
            local_anchor1: Point::origin(),
            local_anchor2: Point::origin(),
            local_axis1: UnitVector::x_axis(),
            local_axis2: UnitVector::x_axis(),
        };
        assert(r@.limits =~= Map::empty());
        assert(r@.motors =~= Map::empty());
        r
    }
}

impl JointData {
    /// Adds `axes` to the locked axes; no axis that was locked is unlocked.
    pub fn lock_axes(self, axes: JointAxesMask) -> (r: JointData)
        ensures
            r@ == self@.with_locked(axes@),
    {
        let mut r = self;
        r.locked_axes = self.locked_axes.union(axes);
        r
    }

    /// Sets the limit range of `axis` to `[limits[0], limits[1]]`, replacing
    /// any earlier one. The range is not checked, and a locked axis stays
    /// locked.
    pub fn limit_axis(self, axis: JointAxis, limits: [Real; 2]) -> (r: JointData)
        ensures
            r@ == self@.with_limit(axis, limits_of(limits)),
    {
        let mut r = self;
        r.limits[axis.index()] = Some(JointLimits { min: limits[0], max: limits[1] });
        assert(r@.limits =~= self@.limits.insert(axis, limits_of(limits)));
        assert(r@.motors =~= self@.motors);
        r
    }

    /// Removes the limit range of `axis`, if it has one.
    pub fn unlimit_axis(self, axis: JointAxis) -> (r: JointData)
        ensures
            r@ == self@.without_limit(axis),
    {
        let mut r = self;
        r.limits[axis.index()] = None;
        assert(r@.limits =~= self@.limits.remove(axis));
        assert(r@.motors =~= self@.motors);
        r
    }

    fn set_motor(self, axis: JointAxis, motor: JointMotor) -> (r: JointData)
        ensures
            r@ == self@.with_motor(axis, motor),
    {
        let mut r = self;
        r.motors[axis.index()] = Some(motor);
        assert(r@.motors =~= self@.motors.insert(axis, motor));
        assert(r@.limits =~= self@.limits);
        r
    }

    /// Drives `axis` toward the velocity `target_vel`, with correction
    /// strength `factor`, replacing any earlier motor of that axis.
    pub fn motor_velocity(self, axis: JointAxis, target_vel: Real, factor: Real) -> (r: JointData)
        ensures
            r@ == self@.with_motor(
                axis,
                JointMotor { target: target_vel, model: MotorModel::VelocityTracking { factor } },
            ),
    {
        self.set_motor(
            axis,
            JointMotor { target: target_vel, model: MotorModel::VelocityTracking { factor } },
        )
    }

    /// Drives `axis` toward the position `target_pos` with a spring of the
    /// given stiffness and damping, replacing any earlier motor of that axis.
    pub fn motor_position(
        self,
        axis: JointAxis,
        target_pos: Real,
        stiffness: Real,
        damping: Real,
    ) -> (r: JointData)
        ensures
            r@ == self@.with_motor(
                axis,
                JointMotor {
                    target: target_pos,
                    model: MotorModel::PositionTracking { stiffness, damping },
                },
            ),
    {
        self.set_motor(
            axis,
            JointMotor {
                target: target_pos,
                model: MotorModel::PositionTracking { stiffness, damping },
            },
        )
    }

    /// Sets the joint's anchor in the first body's frame.
    pub fn local_anchor1(self, anchor1: Point) -> (r: JointData)
        ensures
            r@ == self@.with_local_anchor1(anchor1),
    {
        let mut r = self;
        r.local_anchor1 = anchor1;
        assert(r@.limits =~= self@.limits);
        assert(r@.motors =~= self@.motors);
        r
    }

    /// Sets the joint's anchor in the second body's frame.
    pub fn local_anchor2(self, anchor2: Point) -> (r: JointData)
        ensures
            r@ == self@.with_local_anchor2(anchor2),
    {
        let mut r = self;
        r.local_anchor2 = anchor2;
        assert(r@.limits =~= self@.limits);
        assert(r@.motors =~= self@.motors);
        r
    }

    /// Sets the joint's axis in the first body's frame, as given.
    pub fn local_axis1(self, axis1: UnitVector) -> (r: JointData)
        ensures
            r@ == self@.with_local_axis1(axis1),
    {
        let mut r = self;
        r.local_axis1 = axis1;
        assert(r@.limits =~= self@.limits);
        assert(r@.motors =~= self@.motors);
        r
    }

    /// Sets the joint's axis in the second body's frame, as given.
    pub fn local_axis2(self, axis2: UnitVector) -> (r: JointData)
        ensures
            r@ == self@.with_local_axis2(axis2),
    {
        let mut r = self;
        r.local_axis2 = axis2;
        assert(r@.limits =~= self@.limits);
        assert(r@.motors =~= self@.motors);
        r
    }

    /// Whether `axis` is locked.
    pub fn is_locked(&self, axis: JointAxis) -> (r: bool)
        ensures
            r == self@.locked.contains(axis),
    {
        self.locked_axes.contains(axis)
    }

    /// The limit range of `axis`, if it has one.
    pub fn limit(&self, axis: JointAxis) -> (r: Option<JointLimits>)
        ensures
            r == entry(self@.limits, axis),
    {
        self.limits[axis.index()]
    }

    /// The motor of `axis`, if it has one.
    pub fn motor(&self, axis: JointAxis) -> (r: Option<JointMotor>)
        ensures
            r == entry(self@.motors, axis),
    {
        self.motors[axis.index()]
    }
}

/// Locking only adds: after `lock_axes(mask)` an axis is locked exactly when
/// it is in `mask` or was locked before.
pub proof fn lemma_lock_axes_is_union(data: JointData, mask: JointAxesMask, axis: JointAxis)
    ensures
        data@.with_locked(mask@).locked.contains(axis)
            <==> (mask@.contains(axis) || data@.locked.contains(axis)),
{
}

/// Removing the limit just set on an axis leaves that axis without a limit,
/// and every other part of the configuration as it was before both calls.
pub proof fn lemma_unlimit_undoes_limit(data: JointData, axis: JointAxis, limits: [Real; 2])
    ensures
        data@.with_limit(axis, limits_of(limits)).without_limit(axis) == data@.without_limit(axis),
        entry(data@.with_limit(axis, limits_of(limits)).without_limit(axis).limits, axis) is None,
        forall|other: JointAxis|
            other != axis ==> entry(
                #[trigger] data@.with_limit(axis, limits_of(limits)).without_limit(axis).limits,
                other,
            ) == entry(data@.limits, other),
{
    let v = data@.with_limit(axis, limits_of(limits)).without_limit(axis);
    assert(v.limits =~= data@.limits.remove(axis));
}

/// Reading back the limit just set on an axis gives exactly the range that
/// was passed, inverted or not.
pub proof fn lemma_limit_read_back(data: JointData, axis: JointAxis, limits: [Real; 2])
    ensures
        entry(data@.with_limit(axis, limits_of(limits)).limits, axis)
            == Some(JointLimits { min: limits[0], max: limits[1] }),
{
}

/// A second velocity motor on the same axis replaces the first: one motor
/// entry remains, with the second call's parameters.
pub proof fn lemma_motor_velocity_last_wins(
    data: JointData,
    axis: JointAxis,
    target_vel1: Real,
    factor1: Real,
    target_vel2: Real,
    factor2: Real,
)
    ensures
        ({
            let first = JointMotor {
                target: target_vel1,
                model: MotorModel::VelocityTracking { factor: factor1 },
            };
            let second = JointMotor {
                target: target_vel2,
                model: MotorModel::VelocityTracking { factor: factor2 },
            };
            &&& data@.with_motor(axis, first).with_motor(axis, second) == data@.with_motor(
                axis,
                second,
            )
            &&& entry(data@.with_motor(axis, first).with_motor(axis, second).motors, axis) == Some(
                second,
            )
        }),
{
    let first = JointMotor {
        target: target_vel1,
        model: MotorModel::VelocityTracking { factor: factor1 },
    };
    let second = JointMotor {
        target: target_vel2,
        model: MotorModel::VelocityTracking { factor: factor2 },
    };
    assert(data@.motors.insert(axis, first).insert(axis, second) =~= data@.motors.insert(
        axis,
        second,
    ));
}

} // verus!
