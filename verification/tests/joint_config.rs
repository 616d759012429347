use joint_scenario::joint::{
    scenario_joint_spec, AxisConfig, AxisLimits, AxisMask, JointAxis, JointError, JointSpec,
    MotorParams, MOTOR_FORCE_UNCAPPED, SCENARIO_LIMIT_MAX_MILLI, SCENARIO_MOTOR_DAMPING_MILLI,
};

fn ang_x_ang_z() -> AxisMask {
    AxisMask {
        lin_x: false,
        lin_y: false,
        lin_z: false,
        ang_x: true,
        ang_y: false,
        ang_z: true,
    }
}

fn scenario_motor() -> MotorParams {
    MotorParams {
        target_pos: 0,
        target_vel: 0,
        stiffness: 0,
        damping: SCENARIO_MOTOR_DAMPING_MILLI,
        max_force: MOTOR_FORCE_UNCAPPED,
    }
}

#[test]
fn scenario_spec_reads_back_identically() {
    let s = scenario_joint_spec();
    assert_eq!(s.free_axes(), ang_x_ang_z());
    assert_eq!(s.coupled_axes(), ang_x_ang_z());
    for axis in [JointAxis::AngX, JointAxis::AngZ] {
        assert_eq!(s.motor(axis), Some(scenario_motor()));
        assert_eq!(
            s.limits(axis),
            Some(AxisLimits { min: 0, max: SCENARIO_LIMIT_MAX_MILLI })
        );
    }
    for axis in [JointAxis::LinX, JointAxis::LinY, JointAxis::LinZ, JointAxis::AngY] {
        assert_eq!(s.motor(axis), None);
        assert_eq!(s.limits(axis), None);
    }
}

#[test]
fn new_spec_is_bare() {
    let s = JointSpec::new(ang_x_ang_z());
    assert_eq!(s.free_axes(), ang_x_ang_z());
    assert_eq!(s.coupled_axes(), AxisMask::empty());
    for axis in [
        JointAxis::LinX,
        JointAxis::LinY,
        JointAxis::LinZ,
        JointAxis::AngX,
        JointAxis::AngY,
        JointAxis::AngZ,
    ] {
        assert_eq!(s.motor(axis), None);
        assert_eq!(s.limits(axis), None);
    }
}

#[test]
fn motor_on_locked_axis_is_rejected() {
    let mut s = JointSpec::new(ang_x_ang_z());
    let before = s;
    let r = s.set_motor(JointAxis::AngY, scenario_motor());
    assert_eq!(r, Err(JointError::InvalidAxisConfiguration));
    assert_eq!(s, before);
}

#[test]
fn limits_on_locked_axis_are_rejected() {
    let mut s = JointSpec::new(ang_x_ang_z());
    let before = s;
    let r = s.set_limits(JointAxis::LinX, AxisLimits { min: -100, max: 100 });
    assert_eq!(r, Err(JointError::InvalidAxisConfiguration));
    assert_eq!(s, before);
}

#[test]
fn coupling_must_stay_inside_free_axes() {
    let mut s = JointSpec::new(ang_x_ang_z());
    let before = s;
    let too_wide = AxisMask {
        lin_x: true,
        lin_y: false,
        lin_z: false,
        ang_x: true,
        ang_y: false,
        ang_z: true,
    };
    assert_eq!(
        s.set_coupled_axes(too_wide),
        Err(JointError::InvalidAxisConfiguration)
    );
    assert_eq!(s, before);
    assert_eq!(s.set_coupled_axes(ang_x_ang_z()), Ok(()));
    assert_eq!(s.coupled_axes(), ang_x_ang_z());
}

#[test]
fn setters_store_arguments_verbatim() {
    let mut s = JointSpec::new(ang_x_ang_z());
    let motor = MotorParams {
        target_pos: 250,
        target_vel: -40,
        stiffness: 12_000,
        damping: 700,
        max_force: 9_000,
    };
    let limits = AxisLimits { min: -250, max: 250 };
    assert_eq!(s.set_motor(JointAxis::AngX, motor), Ok(()));
    assert_eq!(s.set_limits(JointAxis::AngX, limits), Ok(()));
    assert_eq!(s.motor(JointAxis::AngX), Some(motor));
    assert_eq!(s.limits(JointAxis::AngX), Some(limits));
    assert_eq!(s.motor(JointAxis::AngZ), None);
    assert_eq!(s.limits(JointAxis::AngZ), None);
}

#[test]
fn is_wf_detects_a_misplaced_motor() {
    let good = scenario_joint_spec();
    assert!(good.is_wf());
    let bad = JointSpec {
        ang_y: AxisConfig { motor: Some(scenario_motor()), limit: None },
        ..good
    };
    assert!(!bad.is_wf());
}
