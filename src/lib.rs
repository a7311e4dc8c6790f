//! Typed model of `.physics3.json` documents: the physics settings of a
//! rigged 2D character, decoded from and encoded to a JSON tree.
pub mod json;
pub mod model;
pub mod decode;
pub mod text;
pub mod encode;
pub mod laws;
