use vstd::prelude::*;

verus! {

/// One of the six rigid-body degrees of freedom of a joint: three relative
/// translations and three relative rotations.
#[derive(Clone, Copy, PartialEq, Eq, Structural, Debug)]
pub enum JointAxis {
    LinX,
    LinY,
    LinZ,
    AngX,
    AngY,
    AngZ,
}

/// A subset of the six joint axes, one flag per axis.
#[derive(Clone, Copy, PartialEq, Eq, Structural, Debug)]
pub struct AxisMask {
    pub lin_x: bool,
    pub lin_y: bool,
    pub lin_z: bool,
    pub ang_x: bool,
    pub ang_y: bool,
    pub ang_z: bool,
}

impl AxisMask {
    /// The axis is a member of the mask.
    pub open spec fn spec_contains(self, axis: JointAxis) -> bool {
        match axis {
            JointAxis::LinX => self.lin_x,
            JointAxis::LinY => self.lin_y,
            JointAxis::LinZ => self.lin_z,
            JointAxis::AngX => self.ang_x,
            JointAxis::AngY => self.ang_y,
            JointAxis::AngZ => self.ang_z,
        }
    }

    /// Every member of `self` is a member of `other`.
    pub open spec fn spec_subset_of(self, other: AxisMask) -> bool {
        &&& self.lin_x ==> other.lin_x
        &&& self.lin_y ==> other.lin_y
        &&& self.lin_z ==> other.lin_z
        &&& self.ang_x ==> other.ang_x
        &&& self.ang_y ==> other.ang_y
        &&& self.ang_z ==> other.ang_z
    }

    /// The empty mask.
    pub open spec fn spec_empty() -> AxisMask {
        AxisMask { lin_x: false, lin_y: false, lin_z: false, ang_x: false, ang_y: false, ang_z: false }
    }

    #[verifier::when_used_as_spec(spec_empty)]
    pub fn empty() -> (m: AxisMask)
        ensures
            m == (AxisMask {
                lin_x: false,
                lin_y: false,
                lin_z: false,
                ang_x: false,
                ang_y: false,
                ang_z: false,
            }),
    {
        AxisMask { lin_x: false, lin_y: false, lin_z: false, ang_x: false, ang_y: false, ang_z: false }
    }

    /// The mask holding the two free axes of the packaged scenario: `AngX` and
    /// `AngZ`. All linear axes and `AngY` stay locked.
    pub fn ang_x_ang_z() -> (m: AxisMask)
        ensures
            m == (AxisMask {
                lin_x: false,
                lin_y: false,
                lin_z: false,
                ang_x: true,
                ang_y: false,
                ang_z: true,
            }),
    {
        AxisMask { lin_x: false, lin_y: false, lin_z: false, ang_x: true, ang_y: false, ang_z: true }
    }

    pub fn contains(&self, axis: JointAxis) -> (r: bool)
        ensures
            r == self.spec_contains(axis),
    {
        match axis {
            JointAxis::LinX => self.lin_x,
            JointAxis::LinY => self.lin_y,
            JointAxis::LinZ => self.lin_z,
            JointAxis::AngX => self.ang_x,
            JointAxis::AngY => self.ang_y,
            JointAxis::AngZ => self.ang_z,
        }
    }

    pub fn subset_of(&self, other: &AxisMask) -> (r: bool)
        ensures
            r == self.spec_subset_of(*other),
    {
        (!self.lin_x || other.lin_x) && (!self.lin_y || other.lin_y) && (!self.lin_z
            || other.lin_z) && (!self.ang_x || other.ang_x) && (!self.ang_y || other.ang_y) && (
        !self.ang_z || other.ang_z)
    }
}

/// A motor driving one free joint axis toward a target position and velocity.
/// All fields are in thousandths of their unit (radians, radians per second,
/// and the solver's stiffness, damping and force units).
#[derive(Clone, Copy, PartialEq, Eq, Structural, Debug)]
pub struct MotorParams {
    pub target_pos: i64,
    pub target_vel: i64,
    pub stiffness: i64,
    pub damping: i64,
    pub max_force: i64,
}

/// A hard bound on one free joint axis, in thousandths of a radian or of a
/// length unit. Well-formed when `min <= max`.
#[derive(Clone, Copy, PartialEq, Eq, Structural, Debug)]
pub struct AxisLimits {
    pub min: i64,
    pub max: i64,
}

/// Rejection of a joint configuration request.
#[derive(Clone, Copy, PartialEq, Eq, Structural, Debug)]
pub enum JointError {
    /// A motor, limit or coupling was requested on an axis that the free-axis
    /// mask locks.
    InvalidAxisConfiguration,
}

/// The motor and limit attached to one axis of a joint.
#[derive(Clone, Copy, PartialEq, Eq, Debug)]
pub struct AxisConfig {
    pub motor: Option<MotorParams>,
    pub limit: Option<AxisLimits>,
}

/// Pure configuration data for a reduced-freedom joint: which of the six
/// degrees of freedom are free, per free axis an optional motor and an
/// optional limit, and a mask of axes whose limit and motor response the
/// solver computes jointly.
///
/// Construction never alters a value handed in: `new` starts from a given
/// free-axis mask with no motors, limits or coupling, and the setters either
/// store their arguments verbatim on a free axis or reject the request and
/// leave the spec untouched.
#[derive(Clone, Copy, PartialEq, Eq, Debug)]
pub struct JointSpec {
    pub free: AxisMask,
    pub coupled: AxisMask,
    pub lin_x: AxisConfig,
    pub lin_y: AxisConfig,
    pub lin_z: AxisConfig,
    pub ang_x: AxisConfig,
    pub ang_y: AxisConfig,
    pub ang_z: AxisConfig,
}

impl JointSpec {
    /// The free-axis mask the joint was constructed with.
    pub open spec fn spec_free_axes(self) -> AxisMask {
        self.free
    }

    /// The coupling mask: always a subset of the free axes.
    pub open spec fn spec_coupled_axes(self) -> AxisMask {
        self.coupled
    }

    pub open spec fn spec_config(self, axis: JointAxis) -> AxisConfig {
        match axis {
            JointAxis::LinX => self.lin_x,
            JointAxis::LinY => self.lin_y,
            JointAxis::LinZ => self.lin_z,
            JointAxis::AngX => self.ang_x,
            JointAxis::AngY => self.ang_y,
            JointAxis::AngZ => self.ang_z,
        }
    }

    /// The motor on the axis, if one was set.
    pub open spec fn spec_motor(self, axis: JointAxis) -> Option<MotorParams> {
        self.spec_config(axis).motor
    }

    /// The limit on the axis, if one was set.
    pub open spec fn spec_limits(self, axis: JointAxis) -> Option<AxisLimits> {
        self.spec_config(axis).limit
    }

    /// Well-formedness: motors, limits and coupling only ever sit on free
    /// axes.
    pub open spec fn wf(self) -> bool {
        &&& self.coupled.spec_subset_of(self.free)
        &&& self.lin_x.motor is Some ==> self.free.lin_x
        &&& self.lin_y.motor is Some ==> self.free.lin_y
        &&& self.lin_z.motor is Some ==> self.free.lin_z
        &&& self.ang_x.motor is Some ==> self.free.ang_x
        &&& self.ang_y.motor is Some ==> self.free.ang_y
        &&& self.ang_z.motor is Some ==> self.free.ang_z
        &&& self.lin_x.limit is Some ==> self.free.lin_x
        &&& self.lin_y.limit is Some ==> self.free.lin_y
        &&& self.lin_z.limit is Some ==> self.free.lin_z
        &&& self.ang_x.limit is Some ==> self.free.ang_x
        &&& self.ang_y.limit is Some ==> self.free.ang_y
        &&& self.ang_z.limit is Some ==> self.free.ang_z
    }

    /// The spec with the motor of one axis replaced.
    pub open spec fn spec_with_motor(self, axis: JointAxis, motor: MotorParams) -> JointSpec {
        match axis {
            JointAxis::LinX => JointSpec {
                lin_x: AxisConfig { motor: Some(motor), ..self.lin_x },
                ..self
            },
            JointAxis::LinY => JointSpec {
                lin_y: AxisConfig { motor: Some(motor), ..self.lin_y },
                ..self
            },
            JointAxis::LinZ => JointSpec {
                lin_z: AxisConfig { motor: Some(motor), ..self.lin_z },
                ..self
            },
            JointAxis::AngX => JointSpec {
                ang_x: AxisConfig { motor: Some(motor), ..self.ang_x },
                ..self
            },
            JointAxis::AngY => JointSpec {
                ang_y: AxisConfig { motor: Some(motor), ..self.ang_y },
                ..self
            },
            JointAxis::AngZ => JointSpec {
                ang_z: AxisConfig { motor: Some(motor), ..self.ang_z },
                ..self
            },
        }
    }

    /// The spec with the limit of one axis replaced.
    pub open spec fn spec_with_limits(self, axis: JointAxis, limits: AxisLimits) -> JointSpec {
        match axis {
            JointAxis::LinX => JointSpec {
                lin_x: AxisConfig { limit: Some(limits), ..self.lin_x },
                ..self
            },
            JointAxis::LinY => JointSpec {
                lin_y: AxisConfig { limit: Some(limits), ..self.lin_y },
                ..self
            },
            JointAxis::LinZ => JointSpec {
                lin_z: AxisConfig { limit: Some(limits), ..self.lin_z },
                ..self
            },
            JointAxis::AngX => JointSpec {
                ang_x: AxisConfig { limit: Some(limits), ..self.ang_x },
                ..self
            },
            JointAxis::AngY => JointSpec {
                ang_y: AxisConfig { limit: Some(limits), ..self.ang_y },
                ..self
            },
            JointAxis::AngZ => JointSpec {
                ang_z: AxisConfig { limit: Some(limits), ..self.ang_z },
                ..self
            },
        }
    }

    /// A joint that frees exactly the axes of `free`, with no motors, no
    /// limits and no coupling yet.
    pub fn new(free: AxisMask) -> (s: JointSpec)
        ensures
            s.wf(),
            s.spec_free_axes() == free,
            s.spec_coupled_axes() == AxisMask::empty(),
            forall|a: JointAxis| s.spec_motor(a) is None,
            forall|a: JointAxis| s.spec_limits(a) is None,
    {
        let none_cfg = AxisConfig { motor: Option::None, limit: Option::None };
        let s = JointSpec {
            free,
            coupled: AxisMask::empty(),
            lin_x: none_cfg,
            lin_y: none_cfg,
            lin_z: none_cfg,
            ang_x: none_cfg,
            ang_y: none_cfg,
            ang_z: none_cfg,
        };
        proof {
            assert forall|a: JointAxis| s.spec_motor(a) is None && s.spec_limits(a) is None by {
                match a {
                    JointAxis::LinX => {},
                    JointAxis::LinY => {},
                    JointAxis::LinZ => {},
                    JointAxis::AngX => {},
                    JointAxis::AngY => {},
                    JointAxis::AngZ => {},
                }
            }
        }
        s
    }

    pub fn free_axes(&self) -> (m: AxisMask)
        ensures
            m == self.spec_free_axes(),
    {
        self.free
    }

    pub fn coupled_axes(&self) -> (m: AxisMask)
        ensures
            m == self.spec_coupled_axes(),
    {
        self.coupled
    }

    pub fn motor(&self, axis: JointAxis) -> (r: Option<MotorParams>)
        ensures
            r == self.spec_motor(axis),
    {
        match axis {
            JointAxis::LinX => self.lin_x.motor,
            JointAxis::LinY => self.lin_y.motor,
            JointAxis::LinZ => self.lin_z.motor,
            JointAxis::AngX => self.ang_x.motor,
            JointAxis::AngY => self.ang_y.motor,
            JointAxis::AngZ => self.ang_z.motor,
        }
    }

    pub fn limits(&self, axis: JointAxis) -> (r: Option<AxisLimits>)
        ensures
            r == self.spec_limits(axis),
    {
        match axis {
            JointAxis::LinX => self.lin_x.limit,
            JointAxis::LinY => self.lin_y.limit,
            JointAxis::LinZ => self.lin_z.limit,
            JointAxis::AngX => self.ang_x.limit,
            JointAxis::AngY => self.ang_y.limit,
            JointAxis::AngZ => self.ang_z.limit,
        }
    }

    /// Decide well-formedness of an arbitrary spec value; values built through
    /// `new` and the setters always pass.
    pub fn is_wf(&self) -> (r: bool)
        ensures
            r == self.wf(),
    {
        self.coupled.subset_of(&self.free) && (self.lin_x.motor.is_none() || self.free.lin_x) && (
        self.lin_y.motor.is_none() || self.free.lin_y) && (self.lin_z.motor.is_none()
            || self.free.lin_z) && (self.ang_x.motor.is_none() || self.free.ang_x) && (
        self.ang_y.motor.is_none() || self.free.ang_y) && (self.ang_z.motor.is_none()
            || self.free.ang_z) && (self.lin_x.limit.is_none() || self.free.lin_x) && (
        self.lin_y.limit.is_none() || self.free.lin_y) && (self.lin_z.limit.is_none()
            || self.free.lin_z) && (self.ang_x.limit.is_none() || self.free.ang_x) && (
        self.ang_y.limit.is_none() || self.free.ang_y) && (self.ang_z.limit.is_none()
            || self.free.ang_z)
    }

    /// Attach a motor to a free axis; a locked axis rejects the request and
    /// leaves the spec unchanged.
    pub fn set_motor(&mut self, axis: JointAxis, motor: MotorParams) -> (r: Result<(), JointError>)
        ensures
            r is Ok <==> old(self).spec_free_axes().spec_contains(axis),
            r is Ok ==> *final(self) == old(self).spec_with_motor(axis, motor),
            r is Err ==> *final(self) == *old(self) && r == Err::<(), JointError>(
                JointError::InvalidAxisConfiguration,
            ),
            old(self).wf() ==> final(self).wf(),
    {
        if !self.free.contains(axis) {
            return Err(JointError::InvalidAxisConfiguration);
        }
        match axis {
            JointAxis::LinX => self.lin_x.motor = Some(motor),
            JointAxis::LinY => self.lin_y.motor = Some(motor),
            JointAxis::LinZ => self.lin_z.motor = Some(motor),
            JointAxis::AngX => self.ang_x.motor = Some(motor),
            JointAxis::AngY => self.ang_y.motor = Some(motor),
            JointAxis::AngZ => self.ang_z.motor = Some(motor),
        }
        Ok(())
    }

    /// Attach a hard limit to a free axis; a locked axis rejects the request
    /// and leaves the spec unchanged.
    pub fn set_limits(&mut self, axis: JointAxis, limits: AxisLimits) -> (r: Result<
        (),
        JointError,
    >)
        ensures
            r is Ok <==> old(self).spec_free_axes().spec_contains(axis),
            r is Ok ==> *final(self) == old(self).spec_with_limits(axis, limits),
            r is Err ==> *final(self) == *old(self) && r == Err::<(), JointError>(
                JointError::InvalidAxisConfiguration,
            ),
            old(self).wf() ==> final(self).wf(),
    {
        if !self.free.contains(axis) {
            return Err(JointError::InvalidAxisConfiguration);
        }
        match axis {
            JointAxis::LinX => self.lin_x.limit = Some(limits),
            JointAxis::LinY => self.lin_y.limit = Some(limits),
            JointAxis::LinZ => self.lin_z.limit = Some(limits),
            JointAxis::AngX => self.ang_x.limit = Some(limits),
            JointAxis::AngY => self.ang_y.limit = Some(limits),
            JointAxis::AngZ => self.ang_z.limit = Some(limits),
        }
        Ok(())
    }

    /// Declare a set of axes as coupled; every coupled axis must be free,
    /// else the request is rejected and the spec is unchanged.
    pub fn set_coupled_axes(&mut self, axes: AxisMask) -> (r: Result<(), JointError>)
        ensures
            r is Ok <==> axes.spec_subset_of(old(self).spec_free_axes()),
            r is Ok ==> *final(self) == (JointSpec { coupled: axes, ..*old(self) }),
            r is Err ==> *final(self) == *old(self) && r == Err::<(), JointError>(
                JointError::InvalidAxisConfiguration,
            ),
            old(self).wf() ==> final(self).wf(),
    {
        if !axes.subset_of(&self.free) {
            return Err(JointError::InvalidAxisConfiguration);
        }
        self.coupled = axes;
        Ok(())
    }
}

/// The damping of the scenario's velocity-damper motors, in thousandths:
/// one half.
pub const SCENARIO_MOTOR_DAMPING_MILLI: i64 = 500;

/// The upper limit of the scenario's free angular axes, in thousandths of a
/// radian: one half radian.
pub const SCENARIO_LIMIT_MAX_MILLI: i64 = 500;

/// A motor force cap that never binds: the largest representable force.
pub const MOTOR_FORCE_UNCAPPED: i64 = i64::MAX;

/// The joint of the packaged scenario: only `AngX` and `AngZ` are free, each
/// carries a pure velocity-damper motor (zero target position and velocity,
/// zero stiffness, damping one half) and a hard limit of `[0, 0.5]` radians,
/// and the two free axes are coupled, so the solver works their limit and
/// motor response out jointly.
pub open spec fn spec_scenario_joint() -> JointSpec {
    JointSpec {
        free: AxisMask {
            lin_x: false,
            lin_y: false,
            lin_z: false,
            ang_x: true,
            ang_y: false,
            ang_z: true,
        },
        coupled: AxisMask {
            lin_x: false,
            lin_y: false,
            lin_z: false,
            ang_x: true,
            ang_y: false,
            ang_z: true,
        },
        lin_x: AxisConfig { motor: None, limit: None },
        lin_y: AxisConfig { motor: None, limit: None },
        lin_z: AxisConfig { motor: None, limit: None },
        ang_x: AxisConfig {
            motor: Some(MotorParams {
                target_pos: 0,
                target_vel: 0,
                stiffness: 0,
                damping: SCENARIO_MOTOR_DAMPING_MILLI,
                max_force: MOTOR_FORCE_UNCAPPED,
            }),
            limit: Some(AxisLimits { min: 0, max: SCENARIO_LIMIT_MAX_MILLI }),
        },
        ang_y: AxisConfig { motor: None, limit: None },
        ang_z: AxisConfig {
            motor: Some(MotorParams {
                target_pos: 0,
                target_vel: 0,
                stiffness: 0,
                damping: SCENARIO_MOTOR_DAMPING_MILLI,
                max_force: MOTOR_FORCE_UNCAPPED,
            }),
            limit: Some(AxisLimits { min: 0, max: SCENARIO_LIMIT_MAX_MILLI }),
        },
    }
}

/// Build the scenario's joint through the public constructors, ending in
/// exactly the configuration of [`spec_scenario_joint`].
pub fn scenario_joint_spec() -> (s: JointSpec)
    ensures
        s == spec_scenario_joint(),
        s.wf(),
{
    let mut s = JointSpec::new(AxisMask::ang_x_ang_z());
    let motor = MotorParams {
        target_pos: 0,
        target_vel: 0,
        stiffness: 0,
        damping: SCENARIO_MOTOR_DAMPING_MILLI,
        max_force: MOTOR_FORCE_UNCAPPED,
    };
    let limits = AxisLimits { min: 0, max: SCENARIO_LIMIT_MAX_MILLI };
    let _ = s.set_motor(JointAxis::AngX, motor);
    let _ = s.set_motor(JointAxis::AngZ, motor);
    let _ = s.set_limits(JointAxis::AngX, limits);
    let _ = s.set_limits(JointAxis::AngZ, limits);
    let _ = s.set_coupled_axes(AxisMask::ang_x_ang_z());
    s
}

} // verus!
