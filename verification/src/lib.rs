//! Recording and replaying stamped paths.
//!
//! A recorder accumulates stamped poses in arrival order; a store serves a
//! path that was loaded once. Both exchange their path with the outside world
//! as a JSON document of a fixed layout. The mapping between a path and its
//! document, and the accumulation rules of the recorder, are verified.
//!
//! Floating-point values never enter this crate as such: a coordinate is kept
//! as the bit pattern of its IEEE 754 binary64 value (see [`scalar::Scalar`]),
//! so that every coordinate is carried through exactly.

pub mod cli;
pub mod codec;
pub mod codec_proofs;
pub mod errors;
pub mod json;
pub mod msg;
pub mod saver;
pub mod server;
pub mod scalar;

pub use errors::{DecodeError, Field, PathError};
pub use json::{Json, Member, Number, Written};
pub use msg::{Header, Path, Point, PointStamped, Pose, PoseStamped, Quaternion, Time};
pub use cli::get_file_name;
pub use codec::{PathDeserializer, PathSerializer, deserialize, serialize};
pub use saver::PathSaver;
pub use server::PathServer;
pub use scalar::Scalar;
