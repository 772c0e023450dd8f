//! The envelope: what travels in one frame, in either direction.

pub mod error;
pub mod func_types;
pub mod params;
pub mod request;
pub mod response;
