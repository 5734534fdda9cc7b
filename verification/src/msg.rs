//! The path model: stamped poses in a named coordinate frame.

use vstd::prelude::*;
use crate::scalar::Scalar;

verus! {

/// A point in time, in whole seconds and the nanoseconds within the second.
#[derive(Clone, Copy, Debug, PartialEq, Eq, Structural)]
pub struct Time {
    pub sec: u32,
    pub nsec: u32,
}

impl Default for Time {
    fn default() -> (t: Self)
        ensures
            t == (Time { sec: 0, nsec: 0 }),
    {
        Time { sec: 0, nsec: 0 }
    }
}

/// What every stamped message carries: a sequence counter, a time stamp and
/// the name of the coordinate frame.
#[derive(Debug, PartialEq)]
pub struct Header {
    pub seq: u32,
    pub stamp: Time,
    pub frame_id: String,
}

/// The mathematical value of a [`Header`].
#[verifier::ext_equal]
pub struct HeaderView {
    pub seq: u32,
    pub stamp: Time,
    pub frame_id: Seq<char>,
}

impl HeaderView {
    /// The header with a zero counter and a zero stamp in the given frame.
    pub open spec fn in_frame(frame_id: Seq<char>) -> HeaderView {
        HeaderView { seq: 0, stamp: Time { sec: 0, nsec: 0 }, frame_id }
    }
}

impl View for Header {
    type V = HeaderView;

    open spec fn view(&self) -> HeaderView {
        HeaderView { seq: self.seq, stamp: self.stamp, frame_id: self.frame_id@ }
    }
}

impl Header {
    /// A header with a zero counter and a zero stamp in the given frame.
    pub fn in_frame(frame_id: &str) -> (h: Header)
        ensures
            h@ == HeaderView::in_frame(frame_id@),
    {
        Header { seq: 0, stamp: Time { sec: 0, nsec: 0 }, frame_id: frame_id.to_owned() }
    }
}

impl Default for Header {
    fn default() -> (h: Self)
        ensures
            h@ == HeaderView::in_frame(Seq::empty()),
    {
        Header { seq: 0, stamp: Time { sec: 0, nsec: 0 }, frame_id: String::new() }
    }
}

impl Clone for Header {
    fn clone(&self) -> (h: Self)
        ensures
            h@ == self@,
    {
        Header { seq: self.seq, stamp: self.stamp, frame_id: self.frame_id.clone() }
    }
}

/// A position in space.
#[derive(Clone, Copy, Debug, PartialEq, Eq, Structural)]
pub struct Point {
    pub x: Scalar,
    pub y: Scalar,
    pub z: Scalar,
}

impl Point {
    /// The origin.
    pub open spec fn origin() -> Point {
        Point { x: Scalar { bits: 0 }, y: Scalar { bits: 0 }, z: Scalar { bits: 0 } }
    }

    /// Whether all three coordinates are finite numbers.
    pub open spec fn finite(self) -> bool {
        self.x.finite() && self.y.finite() && self.z.finite()
    }
}

impl Default for Point {
    fn default() -> (p: Self)
        ensures
            p == Point::origin(),
    {
        Point { x: Scalar::zero(), y: Scalar::zero(), z: Scalar::zero() }
    }
}

/// An orientation in space, as a quaternion.
#[derive(Clone, Copy, Debug, PartialEq, Eq, Structural)]
pub struct Quaternion {
    pub x: Scalar,
    pub y: Scalar,
    pub z: Scalar,
    pub w: Scalar,
}

impl Quaternion {
    /// The identity rotation, `(0, 0, 0, 1)`.
    pub open spec fn identity() -> Quaternion {
        Quaternion {
            x: Scalar { bits: 0 },
            y: Scalar { bits: 0 },
            z: Scalar { bits: 0 },
            w: Scalar { bits: crate::scalar::ONE_BITS },
        }
    }

    /// Whether all four components are finite numbers.
    pub open spec fn finite(self) -> bool {
        self.x.finite() && self.y.finite() && self.z.finite() && self.w.finite()
    }
}

impl Default for Quaternion {
    fn default() -> (q: Self)
        ensures
            q == Quaternion::identity(),
    {
        Quaternion { x: Scalar::zero(), y: Scalar::zero(), z: Scalar::zero(), w: Scalar::one() }
    }
}

/// A position together with an orientation.
#[derive(Clone, Copy, Debug, PartialEq, Eq, Structural)]
pub struct Pose {
    pub position: Point,
    pub orientation: Quaternion,
}

impl Pose {
    /// The pose at the given position with the identity orientation.
    pub open spec fn at(position: Point) -> Pose {
        Pose { position, orientation: Quaternion::identity() }
    }

    /// Whether every number in the pose is finite.
    pub open spec fn finite(self) -> bool {
        self.position.finite() && self.orientation.finite()
    }
}

impl Default for Pose {
    fn default() -> (p: Self)
        ensures
            p == Pose::at(Point::origin()),
    {
        Pose { position: Point::default(), orientation: Quaternion::default() }
    }
}

/// A point with a header: what a producer hands to the recorder.
#[derive(Debug, PartialEq)]
pub struct PointStamped {
    pub header: Header,
    pub point: Point,
}

/// The mathematical value of a [`PointStamped`].
#[verifier::ext_equal]
pub struct PointStampedView {
    pub header: HeaderView,
    pub point: Point,
}

impl View for PointStamped {
    type V = PointStampedView;

    open spec fn view(&self) -> PointStampedView {
        PointStampedView { header: self.header@, point: self.point }
    }
}

impl Default for PointStamped {
    fn default() -> (p: Self)
        ensures
            p@ == (PointStampedView {
                header: HeaderView::in_frame(Seq::empty()),
                point: Point::origin(),
            }),
    {
        PointStamped { header: Header::default(), point: Point::default() }
    }
}

impl Clone for PointStamped {
    fn clone(&self) -> (p: Self)
        ensures
            p@ == self@,
    {
        PointStamped { header: self.header.clone(), point: self.point }
    }
}

/// A pose with a header: one waypoint of a path.
#[derive(Debug, PartialEq)]
pub struct PoseStamped {
    pub header: Header,
    pub pose: Pose,
}

/// The mathematical value of a [`PoseStamped`].
#[verifier::ext_equal]
pub struct PoseStampedView {
    pub header: HeaderView,
    pub pose: Pose,
}

impl PoseStampedView {
    /// Whether every number in the pose is finite.
    pub open spec fn finite(self) -> bool {
        self.pose.finite()
    }
}

impl View for PoseStamped {
    type V = PoseStampedView;

    open spec fn view(&self) -> PoseStampedView {
        PoseStampedView { header: self.header@, pose: self.pose }
    }
}

impl Default for PoseStamped {
    fn default() -> (p: Self)
        ensures
            p@ == (PoseStampedView {
                header: HeaderView::in_frame(Seq::empty()),
                pose: Pose::at(Point::origin()),
            }),
    {
        PoseStamped { header: Header::default(), pose: Pose::default() }
    }
}

impl Clone for PoseStamped {
    fn clone(&self) -> (p: Self)
        ensures
            p@ == self@,
    {
        PoseStamped { header: self.header.clone(), pose: self.pose }
    }
}

/// An ordered sequence of stamped poses in a coordinate frame.
///
/// The order of `poses` is the order of traversal. The frame named in the
/// path's own header is independent of the frames named by the single poses.
#[derive(Debug, PartialEq)]
pub struct Path {
    pub header: Header,
    pub poses: Vec<PoseStamped>,
}

/// The mathematical value of a [`Path`].
#[verifier::ext_equal]
pub struct PathView {
    pub header: HeaderView,
    pub poses: Seq<PoseStampedView>,
}

impl PathView {
    /// Whether every number in every pose is finite.
    pub open spec fn finite(self) -> bool {
        forall|i: int| 0 <= i < self.poses.len() ==> (#[trigger] self.poses[i]).finite()
    }
}

/// The mathematical values of a vector of poses, in order.
pub open spec fn poses_view(poses: Seq<PoseStamped>) -> Seq<PoseStampedView> {
    poses.map_values(|p: PoseStamped| p@)
}

impl View for Path {
    type V = PathView;

    open spec fn view(&self) -> PathView {
        PathView { header: self.header@, poses: poses_view(self.poses@) }
    }
}

impl Default for Path {
    fn default() -> (p: Self)
        ensures
            p@ == (PathView { header: HeaderView::in_frame(Seq::empty()), poses: Seq::empty() }),
    {
        Path { header: Header::default(), poses: Vec::new() }
    }
}

impl Clone for Path {
    fn clone(&self) -> (p: Self)
        ensures
            p@ == self@,
    {
        let mut poses: Vec<PoseStamped> = Vec::new();
        let mut i: usize = 0;
        while i < self.poses.len()
            invariant
                i <= self.poses.len(),
                poses.len() == i,
                forall|j: int| 0 <= j < i ==> poses[j]@ == self.poses[j]@,
            decreases self.poses.len() - i,
        {
            poses.push(self.poses[i].clone());
            i += 1;
        }
        Path { header: self.header.clone(), poses }
    }
}

} // verus!
