//! Degrees of freedom of an articulated joint between two rigid bodies:
//! which relative axes are locked, limited or driven by a motor, and the
//! fluent builders that assemble such configurations.

mod axes;
mod joint_data;
mod math;
mod wheel_joint;

pub use axes::{JointAxesMask, JointAxis};
pub use joint_data::{
    entry, lemma_limit_read_back, lemma_lock_axes_is_union, lemma_motor_velocity_last_wins,
    lemma_unlimit_undoes_limit, limits_of, JointData, JointDataView, JointEdit, JointLimits,
    JointMotor, MotorModel,
};
pub use math::{Point, Real, UnitVector};
pub use wheel_joint::{
    lemma_chain_matches_direct, lemma_conversion_is_projection, wheel_joint_view,
    wheel_locked_axes, WheelJoint,
};
