//! The typed document tree of a `.physics3.json` file.
//!
//! Real-valued quantities are kept as the JSON numbers they were read from.
use crate::json::Number;
use vstd::prelude::*;

verus! {

/// A whole `.physics3.json` document.
#[derive(Clone, Debug, PartialEq)]
pub struct Physics3 {
    /// Format version tag; any value is accepted.
    pub version: usize,
    pub meta: Physics3Meta,
    pub physics_settings: Vec<PhysicsSetting>,
}

/// One simulation group: its driving inputs, its outputs, its chain of
/// vertices and its optional normalization bounds.
#[derive(Clone, Debug, PartialEq)]
pub struct PhysicsSetting {
    pub id: String,
    pub inputs: Vec<PhysicsInput>,
    pub outputs: Vec<PhysicsOutput>,
    pub vertices: Vec<PhysicsVertex>,
    pub normalization: Option<PhysicsNormalization>,
}

/// Maps an outside parameter into the simulation.
#[derive(Clone, Debug, PartialEq)]
pub struct PhysicsInput {
    pub source: PhysicsTarget,
    pub weight: Number,
    pub input_type: PhysicsType,
    pub reflect: bool,
}

/// Maps the state of a simulated vertex back out to a parameter.
#[derive(Clone, Debug, PartialEq)]
pub struct PhysicsOutput {
    pub destination: PhysicsTarget,
    /// Index into the owning setting's vertices; not range-checked.
    pub vertex_index: usize,
    pub scale: Number,
    pub weight: Number,
    pub output_type: PhysicsType,
    pub reflect: bool,
}

/// Which component of a position an input or output acts on.
#[derive(Clone, Copy, Debug, PartialEq, Eq, Structural)]
pub enum PhysicsType {
    X,
    Y,
    Angle,
}

/// One node of a simulated chain.
#[derive(Clone, Copy, Debug, PartialEq, Eq, Structural)]
pub struct PhysicsVertex {
    pub position: Vec2D,
    pub mobility: Number,
    pub delay: Number,
    pub acceleration: Number,
    pub radius: Number,
}

/// Bounds for the position and the angle of driving values.
#[derive(Clone, Copy, Debug, PartialEq, Eq, Structural)]
pub struct PhysicsNormalization {
    pub position: PhysicsNormalizationParameter,
    pub angle: PhysicsNormalizationParameter,
}

/// A range with a default, used to clamp a driving value.
#[derive(Clone, Copy, Debug, PartialEq, Eq, Structural)]
pub struct PhysicsNormalizationParameter {
    pub minimum: Number,
    pub maximum: Number,
    pub default: Number,
}

/// What an input reads or an output writes, told apart by the `Target` tag.
#[derive(Clone, Debug, PartialEq)]
pub enum PhysicsTarget {
    Parameter { id: String },
}

/// Advisory counts, global forces and the id-to-name dictionary.
#[derive(Clone, Debug, PartialEq)]
pub struct Physics3Meta {
    pub total_input_count: usize,
    pub total_output_count: usize,
    pub total_vertices: usize,
    pub physics_setting_count: usize,
    pub effective_forces: EffectiveForces,
    pub physics_dictionary: Vec<PhysicsIdName>,
}

/// A human-readable name for an id.
#[derive(Clone, Debug, PartialEq)]
pub struct PhysicsIdName {
    pub id: String,
    pub name: String,
}

/// Gravity and wind; each is the zero vector when not given.
#[derive(Clone, Copy, Debug, PartialEq, Eq, Structural)]
pub struct EffectiveForces {
    pub gravity: Vec2D,
    pub wind: Vec2D,
}

/// A two-dimensional vector.
#[derive(Clone, Copy, Debug, PartialEq, Eq, Structural)]
pub struct Vec2D {
    pub x: Number,
    pub y: Number,
}

/// The zero of a real-valued field: the float `+0.0`.
pub open spec fn spec_zero() -> Number {
    Number::Float(0)
}

impl Vec2D {
    /// The zero vector, the value of an absent force.
    pub fn zero() -> (r: Vec2D)
        ensures
            r == (Vec2D { x: spec_zero(), y: spec_zero() }),
    {
        Vec2D { x: Number::Float(0), y: Number::Float(0) }
    }
}

} // verus!
