//! What can go wrong.

use vstd::prelude::*;

verus! {

/// A place in the document of a path.
#[derive(Clone, Copy, Debug, PartialEq, Eq, Structural)]
pub enum Field {
    /// The document as a whole.
    Document,
    /// The member `header` of the path or of a pose.
    Header,
    /// The member `poses` of the path.
    Poses,
    /// An item of `poses`.
    Item,
    /// The member `seq` of a header.
    SeqNo,
    /// The member `stamp` of a header.
    Stamp,
    /// The member `frame_id` of a header.
    FrameId,
    /// The member `sec` of a stamp.
    Sec,
    /// The member `nsec` of a stamp.
    Nsec,
    /// The member `pose` of a stamped pose.
    Pose,
    /// The member `position` of a pose.
    Position,
    /// The member `orientation` of a pose.
    Orientation,
    /// The member `x` of a position or an orientation.
    X,
    /// The member `y` of a position or an orientation.
    Y,
    /// The member `z` of a position or an orientation.
    Z,
    /// The member `w` of an orientation.
    W,
}

/// Why a document is not the document of a path.
#[derive(Clone, Copy, Debug, PartialEq, Eq, Structural)]
pub enum DecodeError {
    /// An object lacks a member that it must have.
    Missing(Field),
    /// What stands at this place is not of the kind that must stand there.
    Invalid(Field),
}

/// Why an operation of this crate failed.
#[derive(Debug)]
pub enum PathError {
    /// The text is not JSON.
    Json(serde_json::Error),
    /// The text is JSON, but not the document of a path.
    Decode(DecodeError),
    /// The program was started with this many arguments instead of one.
    InvalidArguments(usize),
}

} // verus!
