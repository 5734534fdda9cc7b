//! What holds of the document of a path.

use vstd::prelude::*;
use crate::codec::{decode_item, decode_items, encode_items, required_object};
use crate::errors::{DecodeError, Field};
use crate::json::{JsonView, lemma_lookup_finds};
use crate::msg::{HeaderView, PathView, Point, Pose, PoseStampedView, Quaternion, Time};

verus! {

/// The names of the members of one object differ from each other.
pub proof fn lemma_names_differ()
    ensures
        "sec"@ != "nsec"@,
        "seq"@ != "stamp"@,
        "seq"@ != "frame_id"@,
        "stamp"@ != "frame_id"@,
        "x"@ != "y"@,
        "x"@ != "z"@,
        "x"@ != "w"@,
        "y"@ != "z"@,
        "y"@ != "w"@,
        "z"@ != "w"@,
        "position"@ != "orientation"@,
        "header"@ != "pose"@,
        "header"@ != "poses"@,
{
    reveal_strlit("sec");
    reveal_strlit("nsec");
    reveal_strlit("seq");
    reveal_strlit("stamp");
    reveal_strlit("frame_id");
    reveal_strlit("x");
    reveal_strlit("y");
    reveal_strlit("z");
    reveal_strlit("w");
    reveal_strlit("position");
    reveal_strlit("orientation");
    reveal_strlit("header");
    reveal_strlit("pose");
    reveal_strlit("poses");
    assert("sec"@.len() != "nsec"@.len());
    assert("seq"@.len() != "stamp"@.len());
    assert("seq"@.len() != "frame_id"@.len());
    assert("stamp"@.len() != "frame_id"@.len());
    assert("x"@[0] != "y"@[0]);
    assert("x"@[0] != "z"@[0]);
    assert("x"@[0] != "w"@[0]);
    assert("y"@[0] != "z"@[0]);
    assert("y"@[0] != "w"@[0]);
    assert("z"@[0] != "w"@[0]);
    assert("position"@.len() != "orientation"@.len());
    assert("header"@.len() != "pose"@.len());
    assert("header"@.len() != "poses"@.len());
}

/// A stamp is read back from its document.
pub proof fn lemma_time_round_trip(t: Time)
    ensures
        Time::decode(t.encode()) == Ok::<Time, DecodeError>(t),
{
    lemma_names_differ();
    let members = t.encode()->Object_0;
    lemma_lookup_finds(members, "sec"@, 0);
    lemma_lookup_finds(members, "nsec"@, 1);
}

/// A header is read back from its document with a zero counter, stamp and
/// frame as they are.
pub proof fn lemma_header_round_trip(h: HeaderView)
    ensures
        HeaderView::decode(h.encode()) == Ok::<HeaderView, DecodeError>(h.stored()),
{
    lemma_names_differ();
    let members = h.encode()->Object_0;
    lemma_lookup_finds(members, "seq"@, 0);
    lemma_lookup_finds(members, "stamp"@, 1);
    lemma_lookup_finds(members, "frame_id"@, 2);
    lemma_time_round_trip(h.stamp);
}

/// A position is read back from its document where its coordinates are
/// finite, and no position is read from its document where one is not.
pub proof fn lemma_point_round_trip(p: Point)
    ensures
        p.finite() ==> Point::decode(p.encode()) == Ok::<Point, DecodeError>(p),
        !p.finite() ==> Point::decode(p.encode()) is Err,
{
    lemma_names_differ();
    let members = p.encode()->Object_0;
    lemma_lookup_finds(members, "x"@, 0);
    lemma_lookup_finds(members, "y"@, 1);
    lemma_lookup_finds(members, "z"@, 2);
}

/// An orientation is read back from its document where its components are
/// finite, and no orientation is read from its document where one is not.
pub proof fn lemma_quaternion_round_trip(q: Quaternion)
    ensures
        q.finite() ==> Quaternion::decode(q.encode()) == Ok::<Quaternion, DecodeError>(q),
        !q.finite() ==> Quaternion::decode(q.encode()) is Err,
{
    lemma_names_differ();
    let members = q.encode()->Object_0;
    lemma_lookup_finds(members, "x"@, 0);
    lemma_lookup_finds(members, "y"@, 1);
    lemma_lookup_finds(members, "z"@, 2);
    lemma_lookup_finds(members, "w"@, 3);
}

/// A pose is read back from its document where its numbers are finite, and
/// no pose is read from its document where one is not.
pub proof fn lemma_pose_round_trip(p: Pose)
    ensures
        p.finite() ==> Pose::decode(p.encode()) == Ok::<Pose, DecodeError>(p),
        !p.finite() ==> Pose::decode(p.encode()) is Err,
{
    lemma_names_differ();
    let members = p.encode()->Object_0;
    lemma_lookup_finds(members, "position"@, 0);
    lemma_lookup_finds(members, "orientation"@, 1);
    lemma_point_round_trip(p.position);
    lemma_quaternion_round_trip(p.orientation);
}

/// A stamped pose is read back from its document, but for its counter, where
/// its numbers are finite, and no stamped pose is read from its document
/// where one is not.
pub proof fn lemma_pose_stamped_round_trip(p: PoseStampedView)
    ensures
        p.finite() ==> decode_item(p.encode()) == Ok::<PoseStampedView, DecodeError>(p.stored()),
        !p.finite() ==> decode_item(p.encode()) is Err,
        decode_item(p.encode()) == PoseStampedView::decode(p.encode()),
{
    lemma_names_differ();
    let members = p.encode()->Object_0;
    lemma_lookup_finds(members, "header"@, 0);
    lemma_lookup_finds(members, "pose"@, 1);
    lemma_header_round_trip(p.header);
    lemma_pose_round_trip(p.pose);
}

/// Once an item holds no stamped pose, reading further items changes
/// nothing: the error stays.
pub proof fn lemma_items_error_stays(items: Seq<JsonView>, k: nat, n: nat)
    requires
        k <= n <= items.len(),
        decode_items(items, k) is Err,
    ensures
        decode_items(items, n) == decode_items(items, k),
    decreases n - k,
{
    if k < n {
        lemma_items_error_stays(items, k, (n - 1) as nat);
    }
}

/// Where all of the first `n` items are read, so are the first `k` of them.
pub proof fn lemma_items_prefix(items: Seq<JsonView>, k: nat, n: nat)
    requires
        k <= n <= items.len(),
        decode_items(items, n) is Ok,
    ensures
        decode_items(items, k) is Ok,
    decreases n - k,
{
    if k < n {
        lemma_items_prefix(items, k, (n - 1) as nat);
    }
}

/// An array with an item that holds no stamped pose holds no sequence of
/// poses.
pub proof fn lemma_bad_item_rejected(items: Seq<JsonView>, at: int)
    requires
        0 <= at < items.len(),
        decode_item(items[at]) is Err,
    ensures
        decode_items(items, items.len()) is Err,
{
    if decode_items(items, items.len()) is Ok {
        lemma_items_prefix(items, (at + 1) as nat, items.len());
    }
}

/// The first `n` poses are read back from their documents, but for their
/// counters, where their numbers are finite.
pub proof fn lemma_items_round_trip(poses: Seq<PoseStampedView>, n: nat)
    requires
        n <= poses.len(),
        forall|i: int| 0 <= i < n ==> (#[trigger] poses[i]).finite(),
    ensures
        decode_items(encode_items(poses), n) == Ok::<Seq<PoseStampedView>, DecodeError>(
            poses.map_values(|p: PoseStampedView| p.stored()).take(n as int),
        ),
    decreases n,
{
    let stored = poses.map_values(|p: PoseStampedView| p.stored());
    if n == 0 {
        assert(stored.take(0) =~= Seq::<PoseStampedView>::empty());
    } else {
        lemma_items_round_trip(poses, (n - 1) as nat);
        lemma_pose_stamped_round_trip(poses[n - 1]);
        assert(stored.take(n - 1).push(poses[n - 1].stored()) =~= stored.take(n as int));
    }
}

/// A path without counters is the path that a document keeps of it.
pub proof fn lemma_uncounted_is_stored(path: PathView)
    requires
        path.uncounted(),
    ensures
        path.stored() == path,
{
    assert(path.stored().poses =~= path.poses);
}

/// A path whose numbers are all finite is read back from its document,
/// member for member and pose for pose, in order, with every counter zero: a
/// path without counters is read back as it is. A path with an infinity or a
/// NaN is not read back: its document holds `null` in that place, and no path
/// is read from it.
pub proof fn lemma_path_round_trip(path: PathView)
    ensures
        path.finite() ==> PathView::decode(path.encode()) == Ok::<PathView, DecodeError>(
            path.stored(),
        ),
        path.finite() && path.uncounted() ==> PathView::decode(path.encode()) == Ok::<
            PathView,
            DecodeError,
        >(path),
        !path.finite() ==> PathView::decode(path.encode()) is Err,
{
    lemma_names_differ();
    let members = path.encode()->Object_0;
    lemma_lookup_finds(members, "header"@, 0);
    lemma_lookup_finds(members, "poses"@, 1);
    lemma_header_round_trip(path.header);
    let items = encode_items(path.poses);
    if path.finite() {
        lemma_items_round_trip(path.poses, path.poses.len());
        let stored = path.poses.map_values(|p: PoseStampedView| p.stored());
        assert(stored.take(path.poses.len() as int) =~= stored);
        if path.uncounted() {
            lemma_uncounted_is_stored(path);
        }
    } else {
        let at = choose|i: int| 0 <= i < path.poses.len() && !(#[trigger] path.poses[i]).finite();
        lemma_pose_stamped_round_trip(path.poses[at]);
        lemma_bad_item_rejected(items, at);
    }
}

/// Writing a path that was read changes nothing more: what is read from the
/// document of a path is read again from its own document.
pub proof fn lemma_stored_is_kept(path: PathView)
    requires
        path.finite(),
    ensures
        path.stored().finite(),
        path.stored().uncounted(),
        PathView::decode(path.stored().encode()) == Ok::<PathView, DecodeError>(path.stored()),
{
    lemma_path_round_trip(path.stored());
}

/// No path is read from a document that has no
/// member `poses`: where the document is an object with a good `header`, the
/// error says that `poses` is missing.
pub proof fn lemma_missing_poses_rejected(doc: JsonView)
    requires
        doc.get("poses"@) is None,
    ensures
        PathView::decode(doc) is Err,
        doc is Object && required_object(doc, "header"@, Field::Header) is Ok && HeaderView::decode(
            required_object(doc, "header"@, Field::Header)->Ok_0,
        ) is Ok ==> PathView::decode(doc) == Err::<PathView, DecodeError>(
            DecodeError::Missing(Field::Poses),
        ),
{
}

/// No path is read from a document in which
/// the `pose` of some item of `poses` has no member `position`.
pub proof fn lemma_missing_position_rejected(doc: JsonView, items: Seq<JsonView>, at: int, pose_doc: JsonView)
    requires
        doc.get("poses"@) == Some(JsonView::Array(items)),
        0 <= at < items.len(),
        items[at].get("pose"@) == Some(pose_doc),
        pose_doc.get("position"@) is None,
    ensures
        Pose::decode(pose_doc) == Err::<Pose, DecodeError>(DecodeError::Missing(Field::Position)),
        decode_item(items[at]) is Err,
        PathView::decode(doc) is Err,
{
    lemma_bad_item_rejected(items, at);
}

/// Whether `bare` is an object without a member `seq` that has the `stamp`
/// and the `frame_id` of `full`.
pub open spec fn lacks_only_seq(bare: JsonView, full: JsonView) -> bool {
    &&& bare is Object
    &&& bare.get("seq"@) is None
    &&& bare.get("stamp"@) == full.get("stamp"@)
    &&& bare.get("frame_id"@) == full.get("frame_id"@)
}

/// A header document without `seq` is read as the
/// header with a zero counter, stamp and frame as they are written: whatever
/// header is read from a document, the same header but for a zero counter is
/// read from the document that differs from it only in lacking `seq`.
pub proof fn lemma_seq_defaults(bare: JsonView, full: JsonView)
    requires
        lacks_only_seq(bare, full),
        HeaderView::decode(full) is Ok,
    ensures
        HeaderView::decode(bare) == Ok::<HeaderView, DecodeError>(
            HeaderView { seq: 0, ..HeaderView::decode(full)->Ok_0 },
        ),
{
}

/// Whatever path is read from a
/// document, the same path but for a zero counter in its header is read from
/// the document that differs from it only in lacking `seq` in its header.
pub proof fn lemma_path_seq_defaults(bare: JsonView, full: JsonView, bare_header: JsonView, full_header: JsonView)
    requires
        bare is Object,
        bare.get("header"@) == Some(bare_header),
        full.get("header"@) == Some(full_header),
        bare.get("poses"@) == full.get("poses"@),
        lacks_only_seq(bare_header, full_header),
        PathView::decode(full) is Ok,
    ensures
        PathView::decode(bare) == Ok::<PathView, DecodeError>(
            PathView {
                header: HeaderView { seq: 0, ..PathView::decode(full)->Ok_0.header },
                poses: PathView::decode(full)->Ok_0.poses,
            },
        ),
{
    lemma_seq_defaults(bare_header, full_header);
}

} // verus!
