//! Records of the remote issue tracker and the shape of its requests and
//! responses.

pub mod linear;
pub mod types;
