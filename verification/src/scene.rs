use vstd::prelude::*;

use crate::joint::{spec_scenario_joint, scenario_joint_spec, JointSpec};
use crate::vec3::Vec3;

verus! {

/// Positions, orientations, anchors and radii must stay within this many
/// thousandths of a unit; the same bound is generous enough for initial
/// velocities in millionths.
pub const COORD_LIMIT_MILLI: i64 = 1_000_000_000_000;

/// Impulse components must stay within this many thousandths.
pub const IMPULSE_LIMIT_MILLI: i64 = 1_000_000_000;

/// Inverse masses must stay within this many thousandths: masses down to one
/// thousandth of a unit.
pub const INV_MASS_LIMIT_MILLI: i64 = 1_000_000;

/// How a body moves: kinematic bodies are driven from outside and are immune
/// to forces and impulses; dynamic bodies respond to them.
#[derive(Clone, Copy, PartialEq, Eq, Structural, Debug)]
pub enum BodyKind {
    Kinematic,
    Dynamic,
}

/// An opaque, stable reference to a body, collider or joint. It carries the
/// identifier of the world that issued it and is valid only there: after a
/// teardown, handles of the old world resolve to nothing in the new one.
#[derive(Clone, Copy, PartialEq, Eq, Structural, Debug, Hash)]
pub struct Handle {
    pub world: u64,
    pub index: u64,
}

/// A rigid body of the model world. Position, orientation and the anchor
/// scale are thousandths; linear and angular velocity are millionths; the
/// inverse mass is in thousandths of an inverse mass unit (a kinematic body
/// stores zero: infinite effective mass).
#[derive(Clone, Copy, PartialEq, Eq, Structural, Debug)]
pub struct Body {
    pub kind: BodyKind,
    pub position: Vec3,
    pub orientation: Vec3,
    pub linvel: Vec3,
    pub angvel: Vec3,
    pub inv_mass_milli: i64,
}

/// A spherical collider attached to exactly one body.
#[derive(Clone, Copy, PartialEq, Eq, Structural, Debug)]
pub struct Collider {
    pub radius_milli: i64,
    pub parent: Handle,
}

/// A registered joint: a configuration tied between two bodies, anchored at a
/// local point of the second one.
#[derive(Clone, Copy, PartialEq, Eq, Debug)]
pub struct Joint {
    pub body_a: Handle,
    pub body_b: Handle,
    pub local_anchor2: Vec3,
    pub config: JointSpec,
}

/// The handles a finished scene build hands back to the host.
#[derive(Clone, Copy, PartialEq, Eq, Structural, Debug)]
pub struct SceneHandles {
    pub kinematic: Handle,
    pub dynamic: Handle,
    pub joint: Handle,
}

/// Rejection of a scene build.
#[derive(Clone, Copy, PartialEq, Eq, Structural, Debug)]
pub enum BuildError {
    /// A geometric or kinematic input was malformed: out of the model's
    /// representable range, a non-positive radius, a negative inverse mass,
    /// or an ill-formed joint. Fatal to the whole build; nothing is
    /// registered.
    InvalidParameter,
}

/// The model world: the backend storage of bodies, colliders and joints,
/// tagged with an identifier that all of its handles carry.
#[derive(Debug)]
pub struct World {
    pub id: u64,
    pub bodies: Vec<Body>,
    pub colliders: Vec<Collider>,
    pub joints: Vec<Joint>,
}

/// The change one impulse makes to one body: each linear velocity component
/// (millionths) grows by the impulse component (thousandths) times the
/// inverse mass (thousandths); nothing else of the body moves.
pub open spec fn spec_boosted(b: Body, impulse: Vec3) -> Body {
    Body {
        linvel: Vec3 {
            x: (b.linvel.x + impulse.x * b.inv_mass_milli) as i64,
            y: (b.linvel.y + impulse.y * b.inv_mass_milli) as i64,
            z: (b.linvel.z + impulse.z * b.inv_mass_milli) as i64,
        },
        ..b
    }
}

/// The machine limit on applying `impulse` to `b`: the scaled components and
/// the boosted velocities stay representable.
pub open spec fn spec_dv_fits(b: Body, impulse: Vec3) -> bool {
    &&& i64::MIN <= impulse.x * b.inv_mass_milli <= i64::MAX
    &&& i64::MIN <= impulse.y * b.inv_mass_milli <= i64::MAX
    &&& i64::MIN <= impulse.z * b.inv_mass_milli <= i64::MAX
    &&& i64::MIN <= b.linvel.x + impulse.x * b.inv_mass_milli <= i64::MAX
    &&& i64::MIN <= b.linvel.y + impulse.y * b.inv_mass_milli <= i64::MAX
    &&& i64::MIN <= b.linvel.z + impulse.z * b.inv_mass_milli <= i64::MAX
}

impl World {
    /// A body handle issued by this world and still backed by a body.
    pub open spec fn resolves(self, h: Handle) -> bool {
        h.world == self.id && h.index < self.bodies@.len()
    }

    pub open spec fn collider_resolves(self, h: Handle) -> bool {
        h.world == self.id && h.index < self.colliders@.len()
    }

    pub open spec fn joint_resolves(self, h: Handle) -> bool {
        h.world == self.id && h.index < self.joints@.len()
    }

    /// Storage consistency: every collider hangs on a body of this world,
    /// every joint ties two bodies of this world, inverse masses are sane,
    /// and kinematic bodies have infinite effective mass.
    pub open spec fn wf(self) -> bool {
        &&& forall|i: int|
            0 <= i < self.colliders@.len() ==> self.resolves(#[trigger] self.colliders@[i].parent)
        &&& forall|i: int|
            0 <= i < self.joints@.len() ==> self.resolves(#[trigger] self.joints@[i].body_a)
                && self.resolves(self.joints@[i].body_b)
        &&& forall|i: int|
            0 <= i < self.bodies@.len() ==> 0 <= (#[trigger] self.bodies@[i]).inv_mass_milli
                <= INV_MASS_LIMIT_MILLI
        &&& forall|i: int|
            0 <= i < self.bodies@.len() && (#[trigger] self.bodies@[i]).kind
                == BodyKind::Kinematic ==> self.bodies@[i].inv_mass_milli == 0
    }

    /// `wf` carries over when only a body is appended, provided the new body
    /// is itself sane.
    proof fn lemma_wf_push_body(pre: World, post: World, b: Body)
        requires
            pre.wf(),
            post.id == pre.id,
            post.colliders@ == pre.colliders@,
            post.joints@ == pre.joints@,
            post.bodies@ == pre.bodies@.push(b),
            0 <= b.inv_mass_milli <= INV_MASS_LIMIT_MILLI,
            b.kind == BodyKind::Kinematic ==> b.inv_mass_milli == 0,
        ensures
            post.wf(),
    {
        assert forall|i: int|
            0 <= i < post.colliders@.len() implies post.resolves(
            #[trigger] post.colliders@[i].parent,
        ) by {
            assert(pre.resolves(pre.colliders@[i].parent));
        }
        assert forall|i: int|
            0 <= i < post.joints@.len() implies post.resolves(#[trigger] post.joints@[i].body_a)
            && post.resolves(post.joints@[i].body_b) by {
            assert(pre.resolves(pre.joints@[i].body_a));
            assert(pre.resolves(pre.joints@[i].body_b));
        }
        assert forall|i: int|
            0 <= i < post.bodies@.len() implies 0 <= (#[trigger] post.bodies@[i]).inv_mass_milli
            <= INV_MASS_LIMIT_MILLI && (post.bodies@[i].kind == BodyKind::Kinematic
            ==> post.bodies@[i].inv_mass_milli == 0) by {
            if i < pre.bodies@.len() {
                assert(post.bodies@[i] == pre.bodies@[i]);
                assert(0 <= (#[trigger] pre.bodies@[i]).inv_mass_milli <= INV_MASS_LIMIT_MILLI);
            }
        }
    }

    /// `wf` carries over when only a collider is appended, provided its
    /// parent resolves.
    proof fn lemma_wf_push_collider(pre: World, post: World, c: Collider)
        requires
            pre.wf(),
            post.id == pre.id,
            post.bodies@ == pre.bodies@,
            post.joints@ == pre.joints@,
            post.colliders@ == pre.colliders@.push(c),
            pre.resolves(c.parent),
        ensures
            post.wf(),
    {
        assert forall|i: int|
            0 <= i < post.colliders@.len() implies post.resolves(
            #[trigger] post.colliders@[i].parent,
        ) by {
            if i < pre.colliders@.len() {
                assert(pre.resolves(pre.colliders@[i].parent));
            }
        }
        assert forall|i: int|
            0 <= i < post.joints@.len() implies post.resolves(#[trigger] post.joints@[i].body_a)
            && post.resolves(post.joints@[i].body_b) by {
            assert(pre.resolves(pre.joints@[i].body_a));
            assert(pre.resolves(pre.joints@[i].body_b));
        }
        assert forall|i: int|
            0 <= i < post.bodies@.len() implies 0 <= (#[trigger] post.bodies@[i]).inv_mass_milli
            <= INV_MASS_LIMIT_MILLI && (post.bodies@[i].kind == BodyKind::Kinematic
            ==> post.bodies@[i].inv_mass_milli == 0) by {
            assert(0 <= (#[trigger] pre.bodies@[i]).inv_mass_milli <= INV_MASS_LIMIT_MILLI);
        }
    }

    /// `wf` carries over when only a joint is appended, provided both of its
    /// bodies resolve.
    proof fn lemma_wf_push_joint(pre: World, post: World, j: Joint)
        requires
            pre.wf(),
            post.id == pre.id,
            post.bodies@ == pre.bodies@,
            post.colliders@ == pre.colliders@,
            post.joints@ == pre.joints@.push(j),
            pre.resolves(j.body_a),
            pre.resolves(j.body_b),
        ensures
            post.wf(),
    {
        assert forall|i: int|
            0 <= i < post.colliders@.len() implies post.resolves(
            #[trigger] post.colliders@[i].parent,
        ) by {
            assert(pre.resolves(pre.colliders@[i].parent));
        }
        assert forall|i: int|
            0 <= i < post.joints@.len() implies post.resolves(#[trigger] post.joints@[i].body_a)
            && post.resolves(post.joints@[i].body_b) by {
            if i < pre.joints@.len() {
                assert(pre.resolves(pre.joints@[i].body_a));
                assert(pre.resolves(pre.joints@[i].body_b));
            }
        }
        assert forall|i: int|
            0 <= i < post.bodies@.len() implies 0 <= (#[trigger] post.bodies@[i]).inv_mass_milli
            <= INV_MASS_LIMIT_MILLI && (post.bodies@[i].kind == BodyKind::Kinematic
            ==> post.bodies@[i].inv_mass_milli == 0) by {
            assert(0 <= (#[trigger] pre.bodies@[i]).inv_mass_milli <= INV_MASS_LIMIT_MILLI);
        }
    }

    /// `wf` carries over when one body is replaced by a version with the same
    /// kind and inverse mass.
    proof fn lemma_wf_update_body(pre: World, post: World, j: int, b: Body)
        requires
            pre.wf(),
            post.id == pre.id,
            post.colliders@ == pre.colliders@,
            post.joints@ == pre.joints@,
            0 <= j < pre.bodies@.len(),
            post.bodies@ == pre.bodies@.update(j, b),
            b.kind == pre.bodies@[j].kind,
            b.inv_mass_milli == pre.bodies@[j].inv_mass_milli,
        ensures
            post.wf(),
    {
        assert forall|i: int|
            0 <= i < post.colliders@.len() implies post.resolves(
            #[trigger] post.colliders@[i].parent,
        ) by {
            assert(pre.resolves(pre.colliders@[i].parent));
        }
        assert forall|i: int|
            0 <= i < post.joints@.len() implies post.resolves(#[trigger] post.joints@[i].body_a)
            && post.resolves(post.joints@[i].body_b) by {
            assert(pre.resolves(pre.joints@[i].body_a));
            assert(pre.resolves(pre.joints@[i].body_b));
        }
        assert forall|i: int|
            0 <= i < post.bodies@.len() implies 0 <= (#[trigger] post.bodies@[i]).inv_mass_milli
            <= INV_MASS_LIMIT_MILLI && (post.bodies@[i].kind == BodyKind::Kinematic
            ==> post.bodies@[i].inv_mass_milli == 0) by {
            assert(0 <= (#[trigger] pre.bodies@[i]).inv_mass_milli <= INV_MASS_LIMIT_MILLI);
        }
    }

    /// An empty world under a fresh identifier.
    pub fn new(id: u64) -> (w: World)
        ensures
            w.wf(),
            w.id == id,
            w.bodies@.len() == 0,
            w.colliders@.len() == 0,
            w.joints@.len() == 0,
    {
        World { id, bodies: Vec::new(), colliders: Vec::new(), joints: Vec::new() }
    }

    /// Tear the world down and start an empty one under the next identifier,
    /// so that every handle of the old world is rejected by the new one.
    pub fn reset(self) -> (w: World)
        requires
            self.id < u64::MAX,
        ensures
            w.wf(),
            w.id == self.id + 1,
            w.bodies@.len() == 0,
            w.colliders@.len() == 0,
            w.joints@.len() == 0,
            forall|h: Handle| h.world == self.id ==> !w.resolves(h),
    {
        World {
            id: self.id + 1,
            bodies: Vec::new(),
            colliders: Vec::new(),
            joints: Vec::new(),
        }
    }

    /// Register a body and hand back its handle.
    pub fn insert_body(
        &mut self,
        kind: BodyKind,
        translation: Vec3,
        initial_linvel_micro: Vec3,
        inv_mass_milli: i64,
    ) -> (h: Handle)
        requires
            old(self).wf(),
            old(self).bodies@.len() < usize::MAX,
            0 <= inv_mass_milli <= INV_MASS_LIMIT_MILLI,
            kind == BodyKind::Kinematic ==> inv_mass_milli == 0,
        ensures
            final(self).wf(),
            h == (Handle { world: old(self).id, index: old(self).bodies@.len() as u64 }),
            final(self).resolves(h),
            final(self).bodies@ == old(self).bodies@.push(
                Body {
                    kind,
                    position: translation,
                    orientation: Vec3::zero(),
                    linvel: initial_linvel_micro,
                    angvel: Vec3::zero(),
                    inv_mass_milli,
                },
            ),
            final(self).id == old(self).id,
            final(self).colliders@ == old(self).colliders@,
            final(self).joints@ == old(self).joints@,
    {
        let index = self.bodies.len() as u64;
        let body = Body {
            kind,
            position: translation,
            orientation: Vec3::zero(),
            linvel: initial_linvel_micro,
            angvel: Vec3::zero(),
            inv_mass_milli,
        };
        self.bodies.push(body);
        proof {
            World::lemma_wf_push_body(*old(self), *self, body);
        }
        Handle { world: self.id, index }
    }

    /// Attach a spherical collider to an existing body and hand back its
    /// handle.
    pub fn insert_collider(&mut self, radius_milli: i64, parent: Handle) -> (h: Handle)
        requires
            old(self).wf(),
            old(self).colliders@.len() < usize::MAX,
            old(self).resolves(parent),
            0 < radius_milli <= COORD_LIMIT_MILLI,
        ensures
            final(self).wf(),
            h == (Handle { world: old(self).id, index: old(self).colliders@.len() as u64 }),
            final(self).collider_resolves(h),
            final(self).colliders@ == old(self).colliders@.push(
                Collider { radius_milli, parent },
            ),
            final(self).id == old(self).id,
            final(self).bodies@ == old(self).bodies@,
            final(self).joints@ == old(self).joints@,
    {
        let index = self.colliders.len() as u64;
        let collider = Collider { radius_milli, parent };
        self.colliders.push(collider);
        proof {
            World::lemma_wf_push_collider(*old(self), *self, collider);
        }
        Handle { world: self.id, index }
    }

    /// Register a joint between two existing bodies, anchored at a local
    /// point of the second, and hand back its handle.
    pub fn insert_joint(
        &mut self,
        body_a: Handle,
        body_b: Handle,
        config: JointSpec,
        local_anchor2: Vec3,
    ) -> (h: Handle)
        requires
            old(self).wf(),
            old(self).joints@.len() < usize::MAX,
            old(self).resolves(body_a),
            old(self).resolves(body_b),
            config.wf(),
            local_anchor2.spec_in_bounds(COORD_LIMIT_MILLI),
        ensures
            final(self).wf(),
            h == (Handle { world: old(self).id, index: old(self).joints@.len() as u64 }),
            final(self).joint_resolves(h),
            final(self).joints@ == old(self).joints@.push(
                Joint { body_a, body_b, local_anchor2, config },
            ),
            final(self).id == old(self).id,
            final(self).bodies@ == old(self).bodies@,
            final(self).colliders@ == old(self).colliders@,
    {
        let index = self.joints.len() as u64;
        let joint = Joint { body_a, body_b, local_anchor2, config };
        self.joints.push(joint);
        proof {
            World::lemma_wf_push_joint(*old(self), *self, joint);
        }
        Handle { world: self.id, index }
    }

    /// Look a body up by handle: a handle of another world, or one past the
    /// storage, resolves to nothing.
    pub fn get_body(&self, h: Handle) -> (r: Option<&Body>)
        ensures
            match r {
                Some(b) => self.resolves(h) && *b == self.bodies@[h.index as int],
                None => !self.resolves(h),
            },
    {
        if h.world == self.id && h.index < self.bodies.len() as u64 {
            Some(&self.bodies[h.index as usize])
        } else {
            None
        }
    }

    /// Apply an instantaneous impulse to a body's linear momentum. Only a
    /// resolving handle to a dynamic body has any effect: each linear
    /// velocity component grows by the impulse component times the body's
    /// inverse mass, and nothing else in the world changes. A kinematic body
    /// and a stale or dangling handle absorb the call as a no-op.
    pub fn apply_impulse(&mut self, h: Handle, impulse: Vec3) -> (applied: bool)
        requires
            old(self).wf(),
            forall|i: int|
                0 <= i < old(self).bodies@.len() ==> spec_dv_fits(
                    #[trigger] old(self).bodies@[i],
                    impulse,
                ),
        ensures
            final(self).wf(),
            final(self).id == old(self).id,
            final(self).colliders@ == old(self).colliders@,
            final(self).joints@ == old(self).joints@,
            applied <==> old(self).resolves(h) && old(self).bodies@[h.index as int].kind
                == BodyKind::Dynamic,
            !applied ==> final(self).bodies@ == old(self).bodies@,
            applied ==> final(self).bodies@ == old(self).bodies@.update(
                h.index as int,
                spec_boosted(old(self).bodies@[h.index as int], impulse),
            ),
            forall|i: int|
                0 <= i < old(self).bodies@.len() && (#[trigger] old(self).bodies@[i]).kind
                    == BodyKind::Kinematic ==> final(self).bodies@[i] == old(self).bodies@[i],
    {
        if h.world == self.id && h.index < self.bodies.len() as u64 {
            let i = h.index as usize;
            let b = self.bodies[i];
            if b.kind == BodyKind::Dynamic {
                let boosted = Body {
                    linvel: Vec3 {
                        x: b.linvel.x + impulse.x * b.inv_mass_milli,
                        y: b.linvel.y + impulse.y * b.inv_mass_milli,
                        z: b.linvel.z + impulse.z * b.inv_mass_milli,
                    },
                    ..b
                };
                self.bodies[i] = boosted;
                proof {
                    World::lemma_wf_update_body(*old(self), *self, h.index as int, boosted);
                }
                return true;
            }
        }
        false
    }
}

/// The inputs of a scene build: the two bodies' placement, the shared sphere
/// radius, the dynamic body's inverse mass, and the joint with its anchor on
/// the second body.
#[derive(Clone, Copy, PartialEq, Eq, Debug)]
pub struct ScenarioParams {
    pub kinematic_position: Vec3,
    pub dynamic_position: Vec3,
    pub dynamic_linvel_micro: Vec3,
    pub ball_radius_milli: i64,
    pub dynamic_inv_mass_milli: i64,
    pub local_anchor2: Vec3,
    pub joint: JointSpec,
}

/// The build accepts exactly the parameters whose every scalar is
/// representable in the model: positions, velocities and the anchor within
/// the coordinate bound, a positive radius, a sane inverse mass, and a
/// well-formed joint.
pub open spec fn spec_params_valid(p: ScenarioParams) -> bool {
    &&& p.kinematic_position.spec_in_bounds(COORD_LIMIT_MILLI)
    &&& p.dynamic_position.spec_in_bounds(COORD_LIMIT_MILLI)
    &&& p.dynamic_linvel_micro.spec_in_bounds(COORD_LIMIT_MILLI)
    &&& p.local_anchor2.spec_in_bounds(COORD_LIMIT_MILLI)
    &&& 0 < p.ball_radius_milli <= COORD_LIMIT_MILLI
    &&& 0 <= p.dynamic_inv_mass_milli <= INV_MASS_LIMIT_MILLI
    &&& p.joint.wf()
}

/// The kinematic anchor body a build registers from `p`.
pub open spec fn spec_built_kinematic(p: ScenarioParams) -> Body {
    Body {
        kind: BodyKind::Kinematic,
        position: p.kinematic_position,
        orientation: Vec3::zero(),
        linvel: Vec3::zero(),
        angvel: Vec3::zero(),
        inv_mass_milli: 0,
    }
}

/// The dynamic body a build registers from `p`.
pub open spec fn spec_built_dynamic(p: ScenarioParams) -> Body {
    Body {
        kind: BodyKind::Dynamic,
        position: p.dynamic_position,
        orientation: Vec3::zero(),
        linvel: p.dynamic_linvel_micro,
        angvel: Vec3::zero(),
        inv_mass_milli: p.dynamic_inv_mass_milli,
    }
}

/// Assemble a two-body scene from explicit parameters: the kinematic anchor
/// with its collider, the dynamic body with its collider, and the joint
/// between them. All-or-nothing: invalid parameters are rejected up front
/// with `InvalidParameter` and the world is left exactly as it was.
pub fn build_scene_from(p: &ScenarioParams, world: &mut World) -> (r: Result<
    SceneHandles,
    BuildError,
>)
    requires
        old(world).wf(),
        old(world).bodies@.len() + 2 <= usize::MAX,
        old(world).colliders@.len() + 2 <= usize::MAX,
        old(world).joints@.len() + 1 <= usize::MAX,
    ensures
        final(world).wf(),
        final(world).id == old(world).id,
        r is Ok <==> spec_params_valid(*p),
        r is Err ==> *final(world) == *old(world) && r == Err::<SceneHandles, BuildError>(
            BuildError::InvalidParameter,
        ),
        r matches Ok(h) ==> {
            &&& h.kinematic == (Handle {
                world: old(world).id,
                index: old(world).bodies@.len() as u64,
            })
            &&& h.dynamic == (Handle {
                world: old(world).id,
                index: (old(world).bodies@.len() + 1) as u64,
            })
            &&& h.joint == (Handle { world: old(world).id, index: old(world).joints@.len() as u64 })
            &&& final(world).resolves(h.kinematic)
            &&& final(world).resolves(h.dynamic)
            &&& final(world).joint_resolves(h.joint)
            &&& final(world).bodies@ == old(world).bodies@.push(spec_built_kinematic(*p)).push(
                spec_built_dynamic(*p),
            )
            &&& final(world).colliders@ == old(world).colliders@.push(
                Collider { radius_milli: p.ball_radius_milli, parent: h.kinematic },
            ).push(Collider { radius_milli: p.ball_radius_milli, parent: h.dynamic })
            &&& final(world).joints@ == old(world).joints@.push(
                Joint {
                    body_a: h.kinematic,
                    body_b: h.dynamic,
                    local_anchor2: p.local_anchor2,
                    config: p.joint,
                },
            )
        },
{
    let valid = p.kinematic_position.in_bounds(COORD_LIMIT_MILLI)
        && p.dynamic_position.in_bounds(COORD_LIMIT_MILLI) && p.dynamic_linvel_micro.in_bounds(
        COORD_LIMIT_MILLI,
    ) && p.local_anchor2.in_bounds(COORD_LIMIT_MILLI) && 0 < p.ball_radius_milli
        && p.ball_radius_milli <= COORD_LIMIT_MILLI && 0 <= p.dynamic_inv_mass_milli
        && p.dynamic_inv_mass_milli <= INV_MASS_LIMIT_MILLI && p.joint.is_wf();
    if !valid {
        return Err(BuildError::InvalidParameter);
    }
    let kinematic = world.insert_body(
        BodyKind::Kinematic,
        p.kinematic_position,
        Vec3::zero(),
        0,
    );
    world.insert_collider(p.ball_radius_milli, kinematic);
    let dynamic = world.insert_body(
        BodyKind::Dynamic,
        p.dynamic_position,
        p.dynamic_linvel_micro,
        p.dynamic_inv_mass_milli,
    );
    world.insert_collider(p.ball_radius_milli, dynamic);
    let joint = world.insert_joint(kinematic, dynamic, p.joint, p.local_anchor2);
    Ok(SceneHandles { kinematic, dynamic, joint })
}

/// The fixed parameters of the packaged scenario: a kinematic unit sphere at
/// the origin, a dynamic unit sphere of unit mass five units below it with
/// initial linear velocity `(0.1, 0, 0.1)`, and the reduced joint anchored at
/// `(0, -5, 0)` on the dynamic body.
pub fn scenario_params() -> (p: ScenarioParams)
    ensures
        p.kinematic_position == Vec3::zero(),
        p.dynamic_position == (Vec3 { x: 0, y: -5000i64, z: 0 }),
        p.dynamic_linvel_micro == (Vec3 { x: 100_000, y: 0, z: 100_000 }),
        p.ball_radius_milli == 1000,
        p.dynamic_inv_mass_milli == 1000,
        p.local_anchor2 == (Vec3 { x: 0, y: -5000i64, z: 0 }),
        p.joint == spec_scenario_joint(),
        p == spec_scenario_params(),
        spec_params_valid(p),
{
    ScenarioParams {
        kinematic_position: Vec3::zero(),
        dynamic_position: Vec3 { x: 0, y: -5000i64, z: 0 },
        dynamic_linvel_micro: Vec3 { x: 100_000, y: 0, z: 100_000 },
        ball_radius_milli: 1000,
        dynamic_inv_mass_milli: 1000,
        local_anchor2: Vec3 { x: 0, y: -5000i64, z: 0 },
        joint: scenario_joint_spec(),
    }
}

/// Build the packaged scenario into the world. Its parameters are valid by
/// construction, so the build always succeeds.
pub fn build_scene(world: &mut World) -> (r: Result<SceneHandles, BuildError>)
    requires
        old(world).wf(),
        old(world).bodies@.len() + 2 <= usize::MAX,
        old(world).colliders@.len() + 2 <= usize::MAX,
        old(world).joints@.len() + 1 <= usize::MAX,
    ensures
        final(world).wf(),
        final(world).id == old(world).id,
        r is Ok,
        r matches Ok(h) ==> {
            &&& h.kinematic == (Handle {
                world: old(world).id,
                index: old(world).bodies@.len() as u64,
            })
            &&& h.dynamic == (Handle {
                world: old(world).id,
                index: (old(world).bodies@.len() + 1) as u64,
            })
            &&& h.joint == (Handle { world: old(world).id, index: old(world).joints@.len() as u64 })
            &&& final(world).resolves(h.kinematic)
            &&& final(world).resolves(h.dynamic)
            &&& final(world).joint_resolves(h.joint)
            &&& final(world).bodies@ == old(world).bodies@.push(
                spec_built_kinematic(spec_scenario_params()),
            ).push(spec_built_dynamic(spec_scenario_params()))
            &&& final(world).colliders@ == old(world).colliders@.push(
                Collider { radius_milli: 1000, parent: h.kinematic },
            ).push(Collider { radius_milli: 1000, parent: h.dynamic })
            &&& final(world).joints@ == old(world).joints@.push(
                Joint {
                    body_a: h.kinematic,
                    body_b: h.dynamic,
                    local_anchor2: Vec3 { x: 0, y: -5000i64, z: 0 },
                    config: spec_scenario_joint(),
                },
            )
        },
{
    let p = scenario_params();
    build_scene_from(&p, world)
}

/// The scenario parameters as a literal, for stating what `build_scene`
/// registers.
pub open spec fn spec_scenario_params() -> ScenarioParams {
    ScenarioParams {
        kinematic_position: Vec3::zero(),
        dynamic_position: Vec3 { x: 0, y: -5000i64, z: 0 },
        dynamic_linvel_micro: Vec3 { x: 100_000, y: 0, z: 100_000 },
        ball_radius_milli: 1000,
        dynamic_inv_mass_milli: 1000,
        local_anchor2: Vec3 { x: 0, y: -5000i64, z: 0 },
        joint: spec_scenario_joint(),
    }
}

/// The momentum effect of an impulse aimed along x, stated exactly: the
/// body's linear velocity grows by the impulse times the inverse mass in x
/// alone, the other two linear components keep their values, and position,
/// orientation, angular velocity, kind and mass are untouched.
pub proof fn lemma_axis_aligned_impulse(b: Body, impulse: Vec3)
    requires
        impulse.y == 0,
        impulse.z == 0,
        spec_dv_fits(b, impulse),
    ensures
        spec_boosted(b, impulse).linvel.x == b.linvel.x + impulse.x * b.inv_mass_milli,
        spec_boosted(b, impulse).linvel.y == b.linvel.y,
        spec_boosted(b, impulse).linvel.z == b.linvel.z,
        spec_boosted(b, impulse).position == b.position,
        spec_boosted(b, impulse).orientation == b.orientation,
        spec_boosted(b, impulse).angvel == b.angvel,
        spec_boosted(b, impulse).kind == b.kind,
        spec_boosted(b, impulse).inv_mass_milli == b.inv_mass_milli,
{
}

/// Handles are world-scoped: one issued under a different world identifier
/// never resolves, whatever its index. This is what makes a teardown safe:
/// a rebuilt world rejects every handle of the torn-down one.
pub proof fn lemma_reset_isolation(w: World, h: Handle)
    requires
        h.world != w.id,
    ensures
        !w.resolves(h),
{
}

} // verus!
