use joint_axes::{
    JointAxesMask, JointAxis, JointData, JointLimits, JointMotor, MotorModel, Point, Real,
    UnitVector, WheelJoint,
};

const ALL_AXES: [JointAxis; 6] = [
    JointAxis::X,
    JointAxis::Y,
    JointAxis::Z,
    JointAxis::AngX,
    JointAxis::AngY,
    JointAxis::AngZ,
];

fn r(v: f32) -> Real {
    Real::from_bits(v.to_bits())
}

fn unit(x: f32, y: f32, z: f32) -> UnitVector {
    UnitVector::new_unchecked(r(x), r(y), r(z))
}

fn point(x: f32, y: f32, z: f32) -> Point {
    Point::new(r(x), r(y), r(z))
}

fn limits(min: f32, max: f32) -> JointLimits {
    JointLimits { min: r(min), max: r(max) }
}

#[test]
fn real_keeps_bits() {
    assert_eq!(Real::zero().to_bits(), 0.0f32.to_bits());
    assert_eq!(Real::one().to_bits(), 1.0f32.to_bits());
    assert_eq!(r(-2.5).to_bits(), (-2.5f32).to_bits());
    assert_eq!(f32::from_bits(r(0.125).to_bits()), 0.125);
}

#[test]
fn mask_union_and_contains() {
    let empty = JointAxesMask::empty();
    for a in ALL_AXES {
        assert!(!empty.contains(a));
    }
    let m = JointAxesMask::from_axis(JointAxis::Y).union(JointAxesMask::from_axis(JointAxis::AngZ));
    for a in ALL_AXES {
        assert_eq!(m.contains(a), a == JointAxis::Y || a == JointAxis::AngZ);
    }
    assert_eq!(m.union(m), m);
    assert_eq!(m.union(empty), m);
}

#[test]
fn default_is_free() {
    let d = JointData::default();
    for a in ALL_AXES {
        assert!(!d.is_locked(a));
        assert_eq!(d.limit(a), None);
        assert_eq!(d.motor(a), None);
    }
    assert_eq!(d.local_anchor1, Point::origin());
    assert_eq!(d.local_anchor2, Point::origin());
    assert_eq!(d.local_axis1, UnitVector::x_axis());
    assert_eq!(d.local_axis2, UnitVector::x_axis());
}

#[test]
fn lock_axes_adds_to_locked() {
    let d = JointData::default().lock_axes(JointAxesMask::from_axis(JointAxis::X));
    let m = JointAxesMask::from_axis(JointAxis::Z).union(JointAxesMask::from_axis(JointAxis::AngY));
    let d2 = d.lock_axes(m);
    for a in ALL_AXES {
        assert_eq!(d2.is_locked(a), m.contains(a) || d.is_locked(a));
    }
    assert!(d2.is_locked(JointAxis::X));
    assert!(!d2.is_locked(JointAxis::Y));
    assert_eq!(d2.lock_axes(JointAxesMask::empty()), d2);
}

#[test]
fn limit_then_unlimit_removes_only_that_limit() {
    let base = JointData::default()
        .limit_axis(JointAxis::Z, [r(-1.0), r(1.0)])
        .motor_velocity(JointAxis::AngX, r(3.0), r(0.5));
    let d = base.limit_axis(JointAxis::Y, [r(0.0), r(2.0)]).unlimit_axis(JointAxis::Y);
    assert_eq!(d.limit(JointAxis::Y), None);
    assert_eq!(d, base);
    assert_eq!(d.limit(JointAxis::Z), Some(limits(-1.0, 1.0)));
}

#[test]
fn unlimit_without_limit_is_no_op() {
    let d = JointData::default().limit_axis(JointAxis::X, [r(0.0), r(1.0)]);
    assert_eq!(d.unlimit_axis(JointAxis::AngZ), d);
    assert_eq!(d.unlimit_axis(JointAxis::X).unlimit_axis(JointAxis::X), JointData::default());
}

#[test]
fn limit_reads_back_exactly() {
    let d = JointData::default().limit_axis(JointAxis::AngZ, [r(-0.5), r(0.75)]);
    assert_eq!(d.limit(JointAxis::AngZ), Some(limits(-0.5, 0.75)));
    let inverted = d.limit_axis(JointAxis::AngZ, [r(2.0), r(-3.0)]);
    assert_eq!(inverted.limit(JointAxis::AngZ), Some(limits(2.0, -3.0)));
    let pinned = d.limit_axis(JointAxis::X, [r(4.0), r(4.0)]);
    assert_eq!(pinned.limit(JointAxis::X), Some(limits(4.0, 4.0)));
    assert_eq!(pinned.limit(JointAxis::AngZ), Some(limits(-0.5, 0.75)));
}

#[test]
fn limit_does_not_unlock() {
    let d = JointData::default()
        .lock_axes(JointAxesMask::from_axis(JointAxis::Y))
        .limit_axis(JointAxis::Y, [r(-1.0), r(1.0)]);
    assert!(d.is_locked(JointAxis::Y));
    assert_eq!(d.limit(JointAxis::Y), Some(limits(-1.0, 1.0)));
}

#[test]
fn motor_velocity_last_write_wins() {
    let d = JointData::default()
        .motor_velocity(JointAxis::AngX, r(1.0), r(0.2))
        .motor_velocity(JointAxis::AngX, r(-4.0), r(0.9));
    let expected = JointMotor {
        target: r(-4.0),
        model: MotorModel::VelocityTracking { factor: r(0.9) },
    };
    assert_eq!(d.motor(JointAxis::AngX), Some(expected));
    assert_eq!(d, JointData::default().motor_velocity(JointAxis::AngX, r(-4.0), r(0.9)));
    for a in ALL_AXES {
        if a != JointAxis::AngX {
            assert_eq!(d.motor(a), None);
        }
    }
}

#[test]
fn motor_position_sets_spring() {
    let d = JointData::default()
        .motor_velocity(JointAxis::Z, r(1.0), r(1.0))
        .motor_position(JointAxis::Z, r(0.3), r(100.0), r(10.0));
    assert_eq!(
        d.motor(JointAxis::Z),
        Some(JointMotor {
            target: r(0.3),
            model: MotorModel::PositionTracking { stiffness: r(100.0), damping: r(10.0) },
        })
    );
}

#[test]
fn geometry_setters_change_one_field() {
    let d = JointData::default()
        .local_anchor1(point(1.0, 2.0, 3.0))
        .local_anchor2(point(-1.0, 0.0, 0.5))
        .local_axis1(unit(0.0, 1.0, 0.0))
        .local_axis2(unit(0.0, 0.0, 1.0));
    assert_eq!(d.local_anchor1, point(1.0, 2.0, 3.0));
    assert_eq!(d.local_anchor2, point(-1.0, 0.0, 0.5));
    assert_eq!(d.local_axis1, unit(0.0, 1.0, 0.0));
    assert_eq!(d.local_axis2, unit(0.0, 0.0, 1.0));
    for a in ALL_AXES {
        assert!(!d.is_locked(a));
        assert_eq!(d.limit(a), None);
        assert_eq!(d.motor(a), None);
    }
}

#[test]
fn wheel_joint_new_defaults() {
    let u = unit(0.0, 1.0, 0.0);
    let w = WheelJoint::new(u);
    let d = *w.data();
    for a in ALL_AXES {
        assert_eq!(d.is_locked(a), a != JointAxis::AngX);
        assert_eq!(d.motor(a), None);
        if a == JointAxis::AngY {
            assert_eq!(d.limit(a), Some(limits(0.0, 0.0)));
        } else {
            assert_eq!(d.limit(a), None);
        }
    }
    assert_eq!(d.local_axis1, u);
    assert_eq!(d.local_axis2, u);
    assert_eq!(d.local_anchor1, Point::origin());
    assert_eq!(d.local_anchor2, Point::origin());
}

#[test]
fn wheel_chain_matches_direct_edits() {
    let u = unit(1.0, 0.0, 0.0);
    let w = WheelJoint::new(u)
        .local_anchor1(point(0.0, -0.5, 0.0))
        .local_anchor2(point(0.0, 0.0, 0.25))
        .motor_velocity(JointAxis::AngX, r(10.0), r(0.7))
        .motor_position(JointAxis::AngY, r(0.0), r(50.0), r(5.0))
        .limit_axis(JointAxis::Y, [r(-0.2), r(0.1)])
        .unlimit_axis(JointAxis::AngY);
    let direct = WheelJoint::new(u)
        .data()
        .local_anchor1(point(0.0, -0.5, 0.0))
        .local_anchor2(point(0.0, 0.0, 0.25))
        .motor_velocity(JointAxis::AngX, r(10.0), r(0.7))
        .motor_position(JointAxis::AngY, r(0.0), r(50.0), r(5.0))
        .limit_axis(JointAxis::Y, [r(-0.2), r(0.1)])
        .unlimit_axis(JointAxis::AngY);
    assert_eq!(*w.data(), direct);
    assert_eq!(w.data().limit(JointAxis::AngY), None);
    assert_eq!(w.data().limit(JointAxis::Y), Some(limits(-0.2, 0.1)));
}

#[test]
fn wheel_into_is_projection() {
    let w = WheelJoint::new(unit(0.0, 0.0, 1.0)).motor_velocity(JointAxis::AngX, r(2.0), r(1.0));
    let before = w;
    let a: JointData = w.into();
    let b: JointData = w.into();
    assert_eq!(a, b);
    assert_eq!(a, *w.data());
    assert_eq!(w, before);
    assert_eq!(JointData::from(w), a);
}
