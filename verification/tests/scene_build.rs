use joint_scenario::joint::{scenario_joint_spec, AxisConfig, JointAxis, MotorParams};
use joint_scenario::scene::{
    build_scene, build_scene_from, scenario_params, BodyKind, BuildError, Handle, World,
    COORD_LIMIT_MILLI,
};
use joint_scenario::vec3::Vec3;

#[test]
fn scenario_build_registers_everything() {
    let mut w = World::new(0);
    let h = build_scene(&mut w).expect("the fixed scenario always builds");

    assert_eq!(w.bodies.len(), 2);
    assert_eq!(w.colliders.len(), 2);
    assert_eq!(w.joints.len(), 1);

    let kin = w.get_body(h.kinematic).expect("kinematic handle resolves");
    assert_eq!(kin.kind, BodyKind::Kinematic);
    assert_eq!(kin.position, Vec3 { x: 0, y: 0, z: 0 });
    assert_eq!(kin.inv_mass_milli, 0);

    let dyn_body = w.get_body(h.dynamic).expect("dynamic handle resolves");
    assert_eq!(dyn_body.kind, BodyKind::Dynamic);
    assert_eq!(dyn_body.position, Vec3 { x: 0, y: -5000, z: 0 });
    assert_eq!(dyn_body.linvel, Vec3 { x: 100_000, y: 0, z: 100_000 });
    assert_eq!(dyn_body.inv_mass_milli, 1000);

    // Exactly one collider per body, both unit spheres.
    assert_eq!(w.colliders[0].parent, h.kinematic);
    assert_eq!(w.colliders[1].parent, h.dynamic);
    assert_eq!(w.colliders[0].radius_milli, 1000);
    assert_eq!(w.colliders[1].radius_milli, 1000);

    let joint = &w.joints[0];
    assert_eq!(joint.body_a, h.kinematic);
    assert_eq!(joint.body_b, h.dynamic);
    assert_eq!(joint.local_anchor2, Vec3 { x: 0, y: -5000, z: 0 });
    assert_eq!(joint.config, scenario_joint_spec());
}

#[test]
fn out_of_range_translation_aborts_whole_build() {
    let mut w = World::new(0);
    let mut p = scenario_params();
    p.dynamic_position = Vec3 { x: COORD_LIMIT_MILLI + 1, y: 0, z: 0 };
    assert_eq!(build_scene_from(&p, &mut w), Err(BuildError::InvalidParameter));
    assert_eq!(w.bodies.len(), 0);
    assert_eq!(w.colliders.len(), 0);
    assert_eq!(w.joints.len(), 0);
}

#[test]
fn non_positive_radius_is_rejected() {
    let mut w = World::new(0);
    let mut p = scenario_params();
    p.ball_radius_milli = 0;
    assert_eq!(build_scene_from(&p, &mut w), Err(BuildError::InvalidParameter));
    assert_eq!(w.bodies.len(), 0);
}

#[test]
fn negative_inverse_mass_is_rejected() {
    let mut w = World::new(0);
    let mut p = scenario_params();
    p.dynamic_inv_mass_milli = -1;
    assert_eq!(build_scene_from(&p, &mut w), Err(BuildError::InvalidParameter));
    assert_eq!(w.bodies.len(), 0);
}

#[test]
fn ill_formed_joint_is_rejected() {
    let mut w = World::new(0);
    let mut p = scenario_params();
    p.joint = joint_scenario::joint::JointSpec {
        ang_y: AxisConfig {
            motor: Some(MotorParams {
                target_pos: 0,
                target_vel: 0,
                stiffness: 0,
                damping: 1,
                max_force: 1,
            }),
            limit: None,
        },
        ..p.joint
    };
    assert!(p.joint.motor(JointAxis::AngY).is_some());
    assert_eq!(build_scene_from(&p, &mut w), Err(BuildError::InvalidParameter));
    assert_eq!(w.bodies.len(), 0);
}

#[test]
fn foreign_and_dangling_handles_resolve_to_nothing() {
    let mut w = World::new(7);
    let h = build_scene(&mut w).unwrap();
    assert!(w.get_body(h.dynamic).is_some());
    // Same index, wrong world.
    assert!(w.get_body(Handle { world: 8, index: h.dynamic.index }).is_none());
    // Right world, index past the storage.
    assert!(w.get_body(Handle { world: 7, index: 2 }).is_none());
}

#[test]
fn impulse_moves_only_the_dynamic_body() {
    let mut w = World::new(0);
    let h = build_scene(&mut w).unwrap();
    let impulse = Vec3 { x: 2000, y: -1000, z: 0 };

    // Kinematic bodies are immune: the call is absorbed as a no-op.
    let kin_before = *w.get_body(h.kinematic).unwrap();
    assert!(!w.apply_impulse(h.kinematic, impulse));
    assert_eq!(*w.get_body(h.kinematic).unwrap(), kin_before);

    // A stale handle is absorbed too.
    assert!(!w.apply_impulse(Handle { world: 5, index: 1 }, impulse));

    // The dynamic body's linear velocity changes by impulse times inverse
    // mass, component by component, and nothing else about it moves.
    let before = *w.get_body(h.dynamic).unwrap();
    assert!(w.apply_impulse(h.dynamic, impulse));
    let after = *w.get_body(h.dynamic).unwrap();
    assert_eq!(after.linvel.x, before.linvel.x + 2000 * 1000);
    assert_eq!(after.linvel.y, before.linvel.y - 1000 * 1000);
    assert_eq!(after.linvel.z, before.linvel.z);
    assert_eq!(after.position, before.position);
    assert_eq!(after.orientation, before.orientation);
    assert_eq!(after.angvel, before.angvel);
}

#[test]
fn reset_rejects_every_old_handle() {
    let mut w = World::new(0);
    let h = build_scene(&mut w).unwrap();
    assert!(w.get_body(h.kinematic).is_some());
    assert!(w.get_body(h.dynamic).is_some());

    let mut fresh = w.reset();
    assert!(fresh.get_body(h.kinematic).is_none());
    assert!(fresh.get_body(h.dynamic).is_none());

    // A rebuild issues handles of the new world only.
    let h2 = build_scene(&mut fresh).unwrap();
    assert!(fresh.get_body(h2.dynamic).is_some());
    assert!(fresh.get_body(h.dynamic).is_none());
    assert_ne!(h2.dynamic.world, h.dynamic.world);
}
