//! What the bridge sends and accepts, and how each shape is read from JSON.
pub mod createuser;
pub mod hueerror;
pub mod light;
