//! A constrained two-body joint scenario with a scripted, single-shot
//! perturbation event.
//!
//! The library models a rigid-body scene on fixed-point integers: a kinematic
//! anchor and a dynamic body tied together by a reduced-freedom generic joint,
//! plus a time-gated event that applies one impulse to the dynamic body. All
//! scalar quantities are integers in fixed units (lengths, times, impulses and
//! joint parameters in thousandths; velocities in millionths), so every rule of
//! the scenario is stated and proved exactly. A host drives a floating-point
//! physics backend from the decisions this library makes.

pub mod event;
pub mod joint;
pub mod scene;
pub mod vec3;
