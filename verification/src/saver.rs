//! The recorder: a path that grows by one pose per point.

use vstd::prelude::*;
use crate::codec::PathSerializer;
use crate::json::Json;
use crate::msg::{Header, HeaderView, Path, PathView, Point, PointStamped, PointStampedView, Pose};
use crate::msg::{PoseStamped, PoseStampedView, Quaternion};
use crate::scalar::Scalar;

verus! {

/// The pose that marks the origin in the given frame: position `(0, 0, 0)`,
/// identity orientation, zero stamp.
pub open spec fn sentinel(frame_id: Seq<char>) -> PoseStampedView {
    PoseStampedView { header: HeaderView::in_frame(frame_id), pose: Pose::at(Point::origin()) }
}

/// The pose that a stamped point is recorded as: its header and its position
/// as they are, with the identity orientation.
pub open spec fn pose_of(point: PointStampedView) -> PoseStampedView {
    PoseStampedView { header: point.header, pose: Pose::at(point.point) }
}

/// The pose that the point `(x, y)` is recorded as in the given frame: in the
/// plane `z = 0`, with the identity orientation and a zero stamp.
pub open spec fn plane_pose(frame_id: Seq<char>, x: Scalar, y: Scalar) -> PoseStampedView {
    PoseStampedView {
        header: HeaderView::in_frame(frame_id),
        pose: Pose::at(Point { x, y, z: Scalar { bits: 0 } }),
    }
}

impl PathView {
    /// The path of a recorder that has recorded nothing yet: the origin of
    /// its frame.
    pub open spec fn started(frame_id: Seq<char>) -> PathView {
        PathView { header: HeaderView::in_frame(frame_id), poses: seq![sentinel(frame_id)] }
    }

    /// The path with one more pose at its end.
    pub open spec fn appended(self, pose: PoseStampedView) -> PathView {
        PathView { header: self.header, poses: self.poses.push(pose) }
    }

    /// The path with the given poses appended one after the other.
    pub open spec fn appended_all(self, poses: Seq<PoseStampedView>) -> PathView
        decreases poses.len(),
    {
        if poses.len() == 0 {
            self
        } else {
            self.appended_all(poses.drop_last()).appended(poses.last())
        }
    }
}

/// What a recorder holds.
#[verifier::ext_equal]
pub struct PathSaverView {
    /// The path recorded so far.
    pub path: PathView,
    /// Where the path is to be written when the recorder is finished.
    pub file_name: Seq<char>,
    /// Whether the path is closed with the origin when the recorder is
    /// finished.
    pub closing_point: bool,
}

impl PathSaverView {
    /// The path as it is written when the recorder is finished.
    pub open spec fn finished(self) -> PathView {
        if self.closing_point {
            self.path.appended(sentinel(self.path.header.frame_id))
        } else {
            self.path
        }
    }
}

/// Records stamped points as a path.
///
/// The path starts with the origin of its frame. Each recorded point adds one
/// pose at the end; nothing is ever removed, changed or reordered. The path is
/// written once, by [`PathSaver::finish`], which takes the recorder.
#[derive(Debug)]
pub struct PathSaver {
    path: Path,
    file_name: String,
    closing_point: bool,
}

impl View for PathSaver {
    type V = PathSaverView;

    closed spec fn view(&self) -> PathSaverView {
        PathSaverView {
            path: self.path@,
            file_name: self.file_name@,
            closing_point: self.closing_point,
        }
    }
}

impl PathSaverView {
    /// What holds of every recorder: its path is in one frame, named in a
    /// header with a zero counter and a zero stamp, and begins with the
    /// origin of that frame.
    pub open spec fn wf(self) -> bool {
        &&& self.path.header == HeaderView::in_frame(self.path.header.frame_id)
        &&& self.path.poses.len() >= 1
        &&& self.path.poses[0] == sentinel(self.path.header.frame_id)
    }
}

impl PathSaver {
    /// A recorder for the given destination and frame, holding the origin of
    /// the frame as its first pose.
    pub fn new(file_name: String, fixed_frame_id: &str) -> (saver: Self)
        ensures
            saver@ == (PathSaverView {
                path: PathView::started(fixed_frame_id@),
                file_name: file_name@,
                closing_point: false,
            }),
            saver@.wf(),
    {
        let mut poses: Vec<PoseStamped> = Vec::new();
        poses.push(
            PoseStamped {
                header: Header::in_frame(fixed_frame_id),
                pose: Pose { position: Point::default(), orientation: Quaternion::default() },
            },
        );
        let path = Path { header: Header::in_frame(fixed_frame_id), poses };
        assert(path@.poses =~= seq![sentinel(fixed_frame_id@)]);
        PathSaver { path, file_name, closing_point: false }
    }

    /// The same recorder, set to close its path with the origin when it is
    /// finished, or not to.
    pub fn with_closing_point(self, closing_point: bool) -> (saver: Self)
        ensures
            saver@ == (PathSaverView { closing_point, ..self@ }),
            self@.wf() ==> saver@.wf(),
    {
        PathSaver { path: self.path, file_name: self.file_name, closing_point }
    }

    /// The document of the path recorded so far.
    pub fn save(&self) -> (doc: Json)
        ensures
            doc@ == self@.path.encode(),
    {
        PathSerializer(&self.path).to_json()
    }

    /// Ends the recording: closes the path with the origin where the recorder
    /// is set to, and gives the document of the path.
    pub fn finish(self) -> (doc: Json)
        ensures
            doc@ == self@.finished().encode(),
    {
        let mut saver = self;
        if saver.closing_point {
            let origin = PointStamped {
                header: Header::in_frame(saver.path.header.frame_id.as_str()),
                point: Point::default(),
            };
            saver.add_point_stamped(origin);
        }
        saver.save()
    }

    /// Records a stamped point: appends the pose with the point's header and
    /// position and the identity orientation.
    pub fn add_point_stamped(&mut self, p: PointStamped)
        ensures
            final(self)@ == (PathSaverView {
                path: old(self)@.path.appended(pose_of(p@)),
                ..old(self)@
            }),
            old(self)@.wf() ==> final(self)@.wf(),
    {
        let ghost before = self.path@.poses;
        let pose = PoseStamped {
            header: p.header,
            pose: Pose { position: p.point, orientation: Quaternion::default() },
        };
        self.path.poses.push(pose);
        assert(self.path@.poses =~= before.push(pose_of(p@)));
    }

    /// Records the point `(p.0, p.1)` of the plane `z = 0` in the recorder's
    /// own frame, with a zero stamp.
    pub fn add_point_simple(&mut self, p: (Scalar, Scalar))
        ensures
            final(self)@ == (PathSaverView {
                path: old(self)@.path.appended(
                    plane_pose(old(self)@.path.header.frame_id, p.0, p.1),
                ),
                ..old(self)@
            }),
            old(self)@.wf() ==> final(self)@.wf(),
    {
        let ghost before = self.path@.poses;
        let pose = PoseStamped {
            header: Header::in_frame(self.path.header.frame_id.as_str()),
            pose: Pose {
                position: Point { x: p.0, y: p.1, z: Scalar::zero() },
                orientation: Quaternion::default(),
            },
        };
        self.path.poses.push(pose);
        assert(self.path@.poses =~= before.push(
            plane_pose(old(self)@.path.header.frame_id, p.0, p.1),
        ));
    }

    /// The path recorded so far.
    pub fn get_path(&self) -> (path: &Path)
        ensures
            path@ == self@.path,
    {
        &self.path
    }

    /// Where the path is to be written.
    pub fn file_name(&self) -> (name: &str)
        ensures
            name@ == self@.file_name,
    {
        self.file_name.as_str()
    }
}

/// A recorder that was made for a frame and has then
/// recorded the given points, one after the other, holds the origin of the
/// frame followed by the poses of the points, in the order in which they were
/// recorded: one pose for each point, none lost and none twice.
pub proof fn lemma_append_order(frame_id: Seq<char>, points: Seq<PointStampedView>)
    ensures
        PathView::started(frame_id).appended_all(points.map_values(|p: PointStampedView| pose_of(p)))
            == (PathView {
            header: HeaderView::in_frame(frame_id),
            poses: seq![sentinel(frame_id)] + points.map_values(|p: PointStampedView| pose_of(p)),
        }),
        PathView::started(frame_id).appended_all(
            points.map_values(|p: PointStampedView| pose_of(p)),
        ).poses.len() == points.len() + 1,
{
    lemma_appended_all(PathView::started(frame_id), points.map_values(|p: PointStampedView| pose_of(p)));
}

/// Appending poses one after the other adds them at the end, in order.
pub proof fn lemma_appended_all(path: PathView, poses: Seq<PoseStampedView>)
    ensures
        path.appended_all(poses) == (PathView { header: path.header, poses: path.poses + poses }),
    decreases poses.len(),
{
    if poses.len() == 0 {
        assert(path.poses + poses =~= path.poses);
    } else {
        lemma_appended_all(path, poses.drop_last());
        assert((path.poses + poses.drop_last()).push(poses.last()) =~= path.poses + poses);
    }
}

/// Rearranging a sequence rearranges the sequence of the values that a
/// function gives for its items.
pub proof fn lemma_rearranged_values<A, B>(s1: Seq<A>, s2: Seq<A>, f: spec_fn(A) -> B)
    requires
        s1.to_multiset() == s2.to_multiset(),
    ensures
        s1.map_values(f).to_multiset() == s2.map_values(f).to_multiset(),
    decreases s1.len(),
{
    broadcast use vstd::seq_lib::group_to_multiset_ensures;

    assert(s1.len() == s1.to_multiset().len() && s2.len() == s2.to_multiset().len());
    if s1.len() == 0 {
        assert(s1.map_values(f) =~= s2.map_values(f));
    } else {
        let a = s1.last();
        let rest1 = s1.drop_last();
        assert(s1 =~= rest1.push(a));
        assert(s2.to_multiset().count(a) > 0);
        assert(s2.contains(a));
        let i = choose|i: int| 0 <= i < s2.len() && s2[i] == a;
        let rest2 = s2.remove(i);
        assert(rest1.to_multiset() =~= s1.to_multiset().remove(a));
        assert(rest1.to_multiset() =~= rest2.to_multiset());
        lemma_rearranged_values(rest1, rest2, f);
        assert(s1.map_values(f) =~= rest1.map_values(f).push(f(a)));
        assert(s2.map_values(f).remove(i) =~= rest2.map_values(f));
        assert(s2.map_values(f)[i] == f(a));
        assert(s2.map_values(f).to_multiset() =~= rest2.map_values(f).to_multiset().insert(f(a)));
    }
}

/// Whatever the order in which the appends of the given points reach the
/// recorder, it then holds the origin of its frame and one pose for each
/// point: as many poses as points and one more, and after the origin each
/// pose as often as the points give it, none lost and none twice.
pub proof fn lemma_appends_in_any_order(
    frame_id: Seq<char>,
    points: Seq<PointStampedView>,
    order: Seq<PointStampedView>,
)
    requires
        order.to_multiset() == points.to_multiset(),
    ensures
        ({
            let path = PathView::started(frame_id).appended_all(
                order.map_values(|p: PointStampedView| pose_of(p)),
            );
            &&& path.poses.len() == points.len() + 1
            &&& path.poses[0] == sentinel(frame_id)
            &&& path.poses.skip(1).to_multiset() == points.map_values(
                |p: PointStampedView| pose_of(p),
            ).to_multiset()
        }),
{
    broadcast use vstd::seq_lib::group_to_multiset_ensures;

    let f = |p: PointStampedView| pose_of(p);
    lemma_append_order(frame_id, order);
    lemma_rearranged_values(order, points, f);
    let path = PathView::started(frame_id).appended_all(order.map_values(f));
    assert(path.poses.skip(1) =~= order.map_values(f));
    assert(order.len() == order.to_multiset().len() && points.len() == points.to_multiset().len());
}

} // verus!
