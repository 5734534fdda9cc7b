//! The document of a path: which JSON document a path is written as, and
//! which path a JSON document is read as.
//!
//! The layout is fixed here, member by member, and does not follow the types
//! of the path model:
//!
//! ```text
//! { "header": { "seq", "stamp": { "sec", "nsec" }, "frame_id" },
//!   "poses": [ { "header": { .. },
//!                "pose": { "position": { "x", "y", "z" },
//!                          "orientation": { "x", "y", "z", "w" } } }, .. ] }
//! ```
//!
//! A counter is not kept: `seq` is written as zero whatever the header
//! holds. Reading asks for every member but `seq`, which counts as zero where
//! it is absent, and passes over members that the layout does not name.

use vstd::prelude::*;
use crate::errors::{DecodeError, Field};
use crate::json::{Json, JsonView, Member, MemberView, Number};
use crate::json::{items_view, lemma_items_view, lemma_members_view};
use crate::msg::{Header, HeaderView, Path, PathView, Point, Pose, PoseStamped, PoseStampedView};
use crate::codec_proofs::lemma_items_error_stays;
use crate::msg::{Quaternion, Time, poses_view};
use crate::scalar::Scalar;

verus! {

// ----- leaves -----

/// The document of a counter or of a part of a stamp.
pub open spec fn encode_u32(n: u32) -> JsonView {
    JsonView::Number(Number { unsigned: Some(n as u64), float: None })
}

/// The document of a coordinate: a number where the coordinate is finite,
/// `null` where it is not, since JSON has no infinities and no NaN.
pub open spec fn encode_scalar(s: Scalar) -> JsonView {
    if s.finite() {
        JsonView::Number(Number { unsigned: None, float: Some(s) })
    } else {
        JsonView::Null
    }
}

/// The integer from 0 to 2^32 - 1 that a document holds, if it holds one.
pub open spec fn as_u32(doc: JsonView) -> Option<u32> {
    match doc {
        JsonView::Number(n) => match n.unsigned {
            Some(u) => if u <= u32::MAX {
                Some(u as u32)
            } else {
                None
            },
            None => None,
        },
        _ => None,
    }
}

/// The floating-point value that a document holds, if it holds a number.
pub open spec fn as_scalar(doc: JsonView) -> Option<Scalar> {
    match doc {
        JsonView::Number(n) => n.float,
        _ => None,
    }
}

/// The text that a document holds, if it holds one.
pub open spec fn as_text(doc: JsonView) -> Option<Seq<char>> {
    match doc {
        JsonView::Text(s) => Some(s),
        _ => None,
    }
}

// ----- members -----

/// The member `key` of `doc`: `Missing` where there is none.
pub open spec fn required(doc: JsonView, key: Seq<char>, field: Field) -> Result<JsonView, DecodeError> {
    match doc.get(key) {
        Some(value) => Ok(value),
        None => Err(DecodeError::Missing(field)),
    }
}

/// The member `key` of `doc`, which must be an object: `Missing` where there
/// is none, `Invalid` where it is something else.
pub open spec fn required_object(doc: JsonView, key: Seq<char>, field: Field) -> Result<JsonView, DecodeError> {
    match doc.get(key) {
        Some(value) => if value is Object {
            Ok(value)
        } else {
            Err(DecodeError::Invalid(field))
        },
        None => Err(DecodeError::Missing(field)),
    }
}

/// The member `key` of `doc` as an integer from 0 to 2^32 - 1.
pub open spec fn required_u32(doc: JsonView, key: Seq<char>, field: Field) -> Result<u32, DecodeError> {
    match doc.get(key) {
        Some(value) => match as_u32(value) {
            Some(n) => Ok(n),
            None => Err(DecodeError::Invalid(field)),
        },
        None => Err(DecodeError::Missing(field)),
    }
}

/// The member `key` of `doc` as a floating-point value.
pub open spec fn required_scalar(doc: JsonView, key: Seq<char>, field: Field) -> Result<Scalar, DecodeError> {
    match doc.get(key) {
        Some(value) => match as_scalar(value) {
            Some(s) => Ok(s),
            None => Err(DecodeError::Invalid(field)),
        },
        None => Err(DecodeError::Missing(field)),
    }
}

/// The member `key` of `doc` as a text.
pub open spec fn required_text(doc: JsonView, key: Seq<char>, field: Field) -> Result<Seq<char>, DecodeError> {
    match doc.get(key) {
        Some(value) => match as_text(value) {
            Some(s) => Ok(s),
            None => Err(DecodeError::Invalid(field)),
        },
        None => Err(DecodeError::Missing(field)),
    }
}

/// The member `key` of `doc` as an integer from 0 to 2^32 - 1, and zero
/// where there is no such member.
pub open spec fn optional_u32(doc: JsonView, key: Seq<char>, field: Field) -> Result<u32, DecodeError> {
    match doc.get(key) {
        Some(value) => match as_u32(value) {
            Some(n) => Ok(n),
            None => Err(DecodeError::Invalid(field)),
        },
        None => Ok(0u32),
    }
}

/// A member of an object.
pub open spec fn member(key: Seq<char>, value: JsonView) -> MemberView {
    MemberView { key, value }
}

// ----- the layout, struct by struct -----

impl Time {
    /// The document of a stamp.
    pub open spec fn encode(self) -> JsonView {
        JsonView::Object(
            seq![member("sec"@, encode_u32(self.sec)), member("nsec"@, encode_u32(self.nsec))],
        )
    }

    /// The stamp that a document holds.
    pub open spec fn decode(doc: JsonView) -> Result<Time, DecodeError> {
        match required_u32(doc, "sec"@, Field::Sec) {
            Err(e) => Err(e),
            Ok(sec) => match required_u32(doc, "nsec"@, Field::Nsec) {
                Err(e) => Err(e),
                Ok(nsec) => Ok(Time { sec, nsec }),
            },
        }
    }
}

impl HeaderView {
    /// The header as a document keeps it: with a zero counter.
    pub open spec fn stored(self) -> HeaderView {
        HeaderView { seq: 0, ..self }
    }

    /// The document of a header. The counter is dropped: `seq` is there for
    /// the layout's sake, and always zero.
    pub open spec fn encode(self) -> JsonView {
        JsonView::Object(
            seq![
                member("seq"@, encode_u32(0)),
                member("stamp"@, self.stamp.encode()),
                member("frame_id"@, JsonView::Text(self.frame_id)),
            ],
        )
    }

    /// The header that a document holds.
    pub open spec fn decode(doc: JsonView) -> Result<HeaderView, DecodeError> {
        match optional_u32(doc, "seq"@, Field::SeqNo) {
            Err(e) => Err(e),
            Ok(seq) => match required_object(doc, "stamp"@, Field::Stamp) {
                Err(e) => Err(e),
                Ok(stamp_doc) => match Time::decode(stamp_doc) {
                    Err(e) => Err(e),
                    Ok(stamp) => match required_text(doc, "frame_id"@, Field::FrameId) {
                        Err(e) => Err(e),
                        Ok(frame_id) => Ok(HeaderView { seq, stamp, frame_id }),
                    },
                },
            },
        }
    }
}

impl Point {
    /// The document of a position.
    pub open spec fn encode(self) -> JsonView {
        JsonView::Object(
            seq![
                member("x"@, encode_scalar(self.x)),
                member("y"@, encode_scalar(self.y)),
                member("z"@, encode_scalar(self.z)),
            ],
        )
    }

    /// The position that a document holds.
    pub open spec fn decode(doc: JsonView) -> Result<Point, DecodeError> {
        match required_scalar(doc, "x"@, Field::X) {
            Err(e) => Err(e),
            Ok(x) => match required_scalar(doc, "y"@, Field::Y) {
                Err(e) => Err(e),
                Ok(y) => match required_scalar(doc, "z"@, Field::Z) {
                    Err(e) => Err(e),
                    Ok(z) => Ok(Point { x, y, z }),
                },
            },
        }
    }
}

impl Quaternion {
    /// The document of an orientation.
    pub open spec fn encode(self) -> JsonView {
        JsonView::Object(
            seq![
                member("x"@, encode_scalar(self.x)),
                member("y"@, encode_scalar(self.y)),
                member("z"@, encode_scalar(self.z)),
                member("w"@, encode_scalar(self.w)),
            ],
        )
    }

    /// The orientation that a document holds.
    pub open spec fn decode(doc: JsonView) -> Result<Quaternion, DecodeError> {
        match required_scalar(doc, "x"@, Field::X) {
            Err(e) => Err(e),
            Ok(x) => match required_scalar(doc, "y"@, Field::Y) {
                Err(e) => Err(e),
                Ok(y) => match required_scalar(doc, "z"@, Field::Z) {
                    Err(e) => Err(e),
                    Ok(z) => match required_scalar(doc, "w"@, Field::W) {
                        Err(e) => Err(e),
                        Ok(w) => Ok(Quaternion { x, y, z, w }),
                    },
                },
            },
        }
    }
}

impl Pose {
    /// The document of a pose.
    pub open spec fn encode(self) -> JsonView {
        JsonView::Object(
            seq![
                member("position"@, self.position.encode()),
                member("orientation"@, self.orientation.encode()),
            ],
        )
    }

    /// The pose that a document holds.
    pub open spec fn decode(doc: JsonView) -> Result<Pose, DecodeError> {
        match required_object(doc, "position"@, Field::Position) {
            Err(e) => Err(e),
            Ok(position_doc) => match Point::decode(position_doc) {
                Err(e) => Err(e),
                Ok(position) => match required_object(doc, "orientation"@, Field::Orientation) {
                    Err(e) => Err(e),
                    Ok(orientation_doc) => match Quaternion::decode(orientation_doc) {
                        Err(e) => Err(e),
                        Ok(orientation) => Ok(Pose { position, orientation }),
                    },
                },
            },
        }
    }
}

impl PoseStampedView {
    /// The stamped pose as a document keeps it: with a zero counter.
    pub open spec fn stored(self) -> PoseStampedView {
        PoseStampedView { header: self.header.stored(), pose: self.pose }
    }

    /// The document of a stamped pose.
    pub open spec fn encode(self) -> JsonView {
        JsonView::Object(
            seq![member("header"@, self.header.encode()), member("pose"@, self.pose.encode())],
        )
    }

    /// The stamped pose that a document holds.
    pub open spec fn decode(doc: JsonView) -> Result<PoseStampedView, DecodeError> {
        match required_object(doc, "header"@, Field::Header) {
            Err(e) => Err(e),
            Ok(header_doc) => match HeaderView::decode(header_doc) {
                Err(e) => Err(e),
                Ok(header) => match required_object(doc, "pose"@, Field::Pose) {
                    Err(e) => Err(e),
                    Ok(pose_doc) => match Pose::decode(pose_doc) {
                        Err(e) => Err(e),
                        Ok(pose) => Ok(PoseStampedView { header, pose }),
                    },
                },
            },
        }
    }
}

/// The stamped pose that an item of `poses` holds: the item must be an
/// object.
pub open spec fn decode_item(item: JsonView) -> Result<PoseStampedView, DecodeError> {
    if item is Object {
        PoseStampedView::decode(item)
    } else {
        Err(DecodeError::Invalid(Field::Item))
    }
}

/// The documents of the poses, in order.
pub open spec fn encode_items(poses: Seq<PoseStampedView>) -> Seq<JsonView> {
    poses.map_values(|p: PoseStampedView| p.encode())
}

/// The stamped poses that the first `n` of `items` hold, in order, or the
/// error of the first of them that holds none.
pub open spec fn decode_items(items: Seq<JsonView>, n: nat) -> Result<Seq<PoseStampedView>, DecodeError>
    decreases n,
{
    if n == 0 || n > items.len() {
        Ok(Seq::empty())
    } else {
        match decode_items(items, (n - 1) as nat) {
            Err(e) => Err(e),
            Ok(poses) => match decode_item(items[n - 1]) {
                Err(e) => Err(e),
                Ok(pose) => Ok(poses.push(pose)),
            },
        }
    }
}

/// The document of a sequence of poses: an array of their documents.
pub open spec fn encode_poses(poses: Seq<PoseStampedView>) -> JsonView {
    JsonView::Array(encode_items(poses))
}

/// The sequence of poses that a document holds: the document must be an
/// array, and each item the document of a stamped pose.
pub open spec fn decode_poses(doc: JsonView) -> Result<Seq<PoseStampedView>, DecodeError> {
    match doc {
        JsonView::Array(items) => decode_items(items, items.len()),
        _ => Err(DecodeError::Invalid(Field::Poses)),
    }
}

impl PathView {
    /// The path as a document keeps it: every counter zero, all else as it
    /// is.
    pub open spec fn stored(self) -> PathView {
        PathView {
            header: self.header.stored(),
            poses: self.poses.map_values(|p: PoseStampedView| p.stored()),
        }
    }

    /// Whether every counter of the path is zero.
    pub open spec fn uncounted(self) -> bool {
        &&& self.header.seq == 0
        &&& forall|i: int| 0 <= i < self.poses.len() ==> (#[trigger] self.poses[i]).header.seq == 0
    }

    /// The document of a path.
    pub open spec fn encode(self) -> JsonView {
        JsonView::Object(
            seq![member("header"@, self.header.encode()), member("poses"@, encode_poses(self.poses))],
        )
    }

    /// The path that a document holds.
    pub open spec fn decode(doc: JsonView) -> Result<PathView, DecodeError> {
        if !(doc is Object) {
            Err(DecodeError::Invalid(Field::Document))
        } else {
            match required_object(doc, "header"@, Field::Header) {
                Err(e) => Err(e),
                Ok(header_doc) => match HeaderView::decode(header_doc) {
                    Err(e) => Err(e),
                    Ok(header) => match required(doc, "poses"@, Field::Poses) {
                        Err(e) => Err(e),
                        Ok(poses_doc) => match decode_poses(poses_doc) {
                            Err(e) => Err(e),
                            Ok(poses) => Ok(PathView { header, poses }),
                        },
                    },
                },
            }
        }
    }
}

// ----- writing -----

fn member_of(key: &str, value: Json) -> (m: Member)
    ensures
        m@ == member(key@, value@),
{
    Member { key: key.to_owned(), value }
}

fn object_of(members: Vec<Member>) -> (doc: Json)
    ensures
        doc@ is Object,
        doc@->Object_0.len() == members.len(),
        forall|i: int| 0 <= i < members.len() ==> (#[trigger] doc@->Object_0[i]) == members[i]@,
{
    proof {
        lemma_members_view(members@, members@.len());
    }
    Json::Object(members)
}

fn u32_to_json(n: u32) -> (doc: Json)
    ensures
        doc@ == encode_u32(n),
{
    Json::Number(Number { unsigned: Some(n as u64), float: None })
}

fn scalar_to_json(s: Scalar) -> (doc: Json)
    ensures
        doc@ == encode_scalar(s),
{
    if s.is_finite() {
        Json::Number(Number { unsigned: None, float: Some(s) })
    } else {
        Json::Null
    }
}

impl Time {
    /// Writes the stamp as a document.
    pub fn to_json(&self) -> (doc: Json)
        ensures
            doc@ == self.encode(),
    {
        let mut members: Vec<Member> = Vec::new();
        members.push(member_of("sec", u32_to_json(self.sec)));
        members.push(member_of("nsec", u32_to_json(self.nsec)));
        let doc = object_of(members);
        assert(doc@->Object_0 =~= self.encode()->Object_0);
        doc
    }
}

impl Header {
    /// Writes the header as a document, with a zero in place of its counter.
    pub fn to_json(&self) -> (doc: Json)
        ensures
            doc@ == self@.encode(),
    {
        let mut members: Vec<Member> = Vec::new();
        members.push(member_of("seq", u32_to_json(0)));
        members.push(member_of("stamp", self.stamp.to_json()));
        members.push(member_of("frame_id", Json::Text(self.frame_id.clone())));
        let doc = object_of(members);
        assert(doc@->Object_0 =~= self@.encode()->Object_0);
        doc
    }
}

impl Point {
    /// Writes the position as a document.
    pub fn to_json(&self) -> (doc: Json)
        ensures
            doc@ == self.encode(),
    {
        let mut members: Vec<Member> = Vec::new();
        members.push(member_of("x", scalar_to_json(self.x)));
        members.push(member_of("y", scalar_to_json(self.y)));
        members.push(member_of("z", scalar_to_json(self.z)));
        let doc = object_of(members);
        assert(doc@->Object_0 =~= self.encode()->Object_0);
        doc
    }
}

impl Quaternion {
    /// Writes the orientation as a document.
    pub fn to_json(&self) -> (doc: Json)
        ensures
            doc@ == self.encode(),
    {
        let mut members: Vec<Member> = Vec::new();
        members.push(member_of("x", scalar_to_json(self.x)));
        members.push(member_of("y", scalar_to_json(self.y)));
        members.push(member_of("z", scalar_to_json(self.z)));
        members.push(member_of("w", scalar_to_json(self.w)));
        let doc = object_of(members);
        assert(doc@->Object_0 =~= self.encode()->Object_0);
        doc
    }
}

impl Pose {
    /// Writes the pose as a document.
    pub fn to_json(&self) -> (doc: Json)
        ensures
            doc@ == self.encode(),
    {
        let mut members: Vec<Member> = Vec::new();
        members.push(member_of("position", self.position.to_json()));
        members.push(member_of("orientation", self.orientation.to_json()));
        let doc = object_of(members);
        assert(doc@->Object_0 =~= self.encode()->Object_0);
        doc
    }
}

impl PoseStamped {
    /// Writes the stamped pose as a document.
    pub fn to_json(&self) -> (doc: Json)
        ensures
            doc@ == self@.encode(),
    {
        let mut members: Vec<Member> = Vec::new();
        members.push(member_of("header", self.header.to_json()));
        members.push(member_of("pose", self.pose.to_json()));
        let doc = object_of(members);
        assert(doc@->Object_0 =~= self@.encode()->Object_0);
        doc
    }
}

/// Writes a sequence of stamped poses as a document: the array of their
/// documents, in order.
pub fn serialize(value: &Vec<PoseStamped>) -> (doc: Json)
    ensures
        doc@ == encode_poses(poses_view(value@)),
{
    let mut items: Vec<Json> = Vec::new();
    let mut i: usize = 0;
    while i < value.len()
        invariant
            i <= value.len(),
            items.len() == i,
            forall|j: int| 0 <= j < i ==> (#[trigger] items[j])@ == value[j]@.encode(),
        decreases value.len() - i,
    {
        items.push(value[i].to_json());
        i += 1;
    }
    proof {
        lemma_items_view(items@, items@.len());
        assert(items_view(items@, items@.len()) =~= encode_items(poses_view(value@)));
    }
    Json::Array(items)
}

/// A path to be written: the boundary between the path model and its
/// document.
pub struct PathSerializer<'a>(pub &'a Path);

impl<'a> PathSerializer<'a> {
    /// Writes the path as a document.
    pub fn to_json(&self) -> (doc: Json)
        ensures
            doc@ == self.0@.encode(),
    {
        let mut members: Vec<Member> = Vec::new();
        members.push(member_of("header", self.0.header.to_json()));
        members.push(member_of("poses", serialize(&self.0.poses)));
        let doc = object_of(members);
        assert(doc@->Object_0 =~= self.0@.encode()->Object_0);
        doc
    }
}

// ----- reading -----

fn json_as_u32(doc: &Json) -> (r: Option<u32>)
    ensures
        r == as_u32(doc@),
{
    match doc {
        Json::Number(n) => match n.unsigned {
            Some(u) => if u <= u32::MAX as u64 {
                Some(u as u32)
            } else {
                None
            },
            None => None,
        },
        _ => None,
    }
}

fn json_as_scalar(doc: &Json) -> (r: Option<Scalar>)
    ensures
        r == as_scalar(doc@),
{
    match doc {
        Json::Number(n) => n.float,
        _ => None,
    }
}

fn json_as_text(doc: &Json) -> (r: Option<String>)
    ensures
        match r {
            Some(s) => as_text(doc@) == Some(s@),
            None => as_text(doc@) is None,
        },
{
    match doc {
        Json::Text(s) => Some(s.clone()),
        _ => None,
    }
}

fn get_required<'a>(doc: &'a Json, key: &str, field: Field) -> (r: Result<&'a Json, DecodeError>)
    ensures
        match r {
            Ok(value) => required(doc@, key@, field) == Ok::<JsonView, DecodeError>(value@),
            Err(e) => required(doc@, key@, field) == Err::<JsonView, DecodeError>(e),
        },
{
    match doc.get(key) {
        Some(value) => Ok(value),
        None => Err(DecodeError::Missing(field)),
    }
}

fn get_object<'a>(doc: &'a Json, key: &str, field: Field) -> (r: Result<&'a Json, DecodeError>)
    ensures
        match r {
            Ok(value) => required_object(doc@, key@, field) == Ok::<JsonView, DecodeError>(value@),
            Err(e) => required_object(doc@, key@, field) == Err::<JsonView, DecodeError>(e),
        },
{
    match doc.get(key) {
        Some(value) => match value {
            Json::Object(_) => Ok(value),
            _ => Err(DecodeError::Invalid(field)),
        },
        None => Err(DecodeError::Missing(field)),
    }
}

fn get_u32(doc: &Json, key: &str, field: Field) -> (r: Result<u32, DecodeError>)
    ensures
        r == required_u32(doc@, key@, field),
{
    match doc.get(key) {
        Some(value) => match json_as_u32(value) {
            Some(n) => Ok(n),
            None => Err(DecodeError::Invalid(field)),
        },
        None => Err(DecodeError::Missing(field)),
    }
}

fn get_scalar(doc: &Json, key: &str, field: Field) -> (r: Result<Scalar, DecodeError>)
    ensures
        r == required_scalar(doc@, key@, field),
{
    match doc.get(key) {
        Some(value) => match json_as_scalar(value) {
            Some(s) => Ok(s),
            None => Err(DecodeError::Invalid(field)),
        },
        None => Err(DecodeError::Missing(field)),
    }
}

fn get_text(doc: &Json, key: &str, field: Field) -> (r: Result<String, DecodeError>)
    ensures
        match r {
            Ok(s) => required_text(doc@, key@, field) == Ok::<Seq<char>, DecodeError>(s@),
            Err(e) => required_text(doc@, key@, field) == Err::<Seq<char>, DecodeError>(e),
        },
{
    match doc.get(key) {
        Some(value) => match json_as_text(value) {
            Some(s) => Ok(s),
            None => Err(DecodeError::Invalid(field)),
        },
        None => Err(DecodeError::Missing(field)),
    }
}

fn get_optional_u32(doc: &Json, key: &str, field: Field) -> (r: Result<u32, DecodeError>)
    ensures
        r == optional_u32(doc@, key@, field),
{
    match doc.get(key) {
        Some(value) => match json_as_u32(value) {
            Some(n) => Ok(n),
            None => Err(DecodeError::Invalid(field)),
        },
        None => Ok(0),
    }
}

impl Time {
    /// Reads a stamp from a document.
    pub fn from_json(doc: &Json) -> (r: Result<Time, DecodeError>)
        ensures
            r == Time::decode(doc@),
    {
        let sec = get_u32(doc, "sec", Field::Sec)?;
        let nsec = get_u32(doc, "nsec", Field::Nsec)?;
        Ok(Time { sec, nsec })
    }
}

impl Header {
    /// Reads a header from a document.
    pub fn from_json(doc: &Json) -> (r: Result<Header, DecodeError>)
        ensures
            match r {
                Ok(header) => HeaderView::decode(doc@) == Ok::<HeaderView, DecodeError>(header@),
                Err(e) => HeaderView::decode(doc@) == Err::<HeaderView, DecodeError>(e),
            },
    {
        let seq = get_optional_u32(doc, "seq", Field::SeqNo)?;
        let stamp = Time::from_json(get_object(doc, "stamp", Field::Stamp)?)?;
        let frame_id = get_text(doc, "frame_id", Field::FrameId)?;
        Ok(Header { seq, stamp, frame_id })
    }
}

impl Point {
    /// Reads a position from a document.
    pub fn from_json(doc: &Json) -> (r: Result<Point, DecodeError>)
        ensures
            r == Point::decode(doc@),
    {
        let x = get_scalar(doc, "x", Field::X)?;
        let y = get_scalar(doc, "y", Field::Y)?;
        let z = get_scalar(doc, "z", Field::Z)?;
        Ok(Point { x, y, z })
    }
}

impl Quaternion {
    /// Reads an orientation from a document.
    pub fn from_json(doc: &Json) -> (r: Result<Quaternion, DecodeError>)
        ensures
            r == Quaternion::decode(doc@),
    {
        let x = get_scalar(doc, "x", Field::X)?;
        let y = get_scalar(doc, "y", Field::Y)?;
        let z = get_scalar(doc, "z", Field::Z)?;
        let w = get_scalar(doc, "w", Field::W)?;
        Ok(Quaternion { x, y, z, w })
    }
}

impl Pose {
    /// Reads a pose from a document.
    pub fn from_json(doc: &Json) -> (r: Result<Pose, DecodeError>)
        ensures
            r == Pose::decode(doc@),
    {
        let position = Point::from_json(get_object(doc, "position", Field::Position)?)?;
        let orientation = Quaternion::from_json(get_object(doc, "orientation", Field::Orientation)?)?;
        Ok(Pose { position, orientation })
    }
}

impl PoseStamped {
    /// Reads a stamped pose from a document.
    pub fn from_json(doc: &Json) -> (r: Result<PoseStamped, DecodeError>)
        ensures
            match r {
                Ok(pose) => PoseStampedView::decode(doc@) == Ok::<PoseStampedView, DecodeError>(pose@),
                Err(e) => PoseStampedView::decode(doc@) == Err::<PoseStampedView, DecodeError>(e),
            },
    {
        let header = Header::from_json(get_object(doc, "header", Field::Header)?)?;
        let pose = Pose::from_json(get_object(doc, "pose", Field::Pose)?)?;
        Ok(PoseStamped { header, pose })
    }
}

fn item_from_json(item: &Json) -> (r: Result<PoseStamped, DecodeError>)
    ensures
        match r {
            Ok(pose) => decode_item(item@) == Ok::<PoseStampedView, DecodeError>(pose@),
            Err(e) => decode_item(item@) == Err::<PoseStampedView, DecodeError>(e),
        },
{
    match item {
        Json::Object(_) => PoseStamped::from_json(item),
        _ => Err(DecodeError::Invalid(Field::Item)),
    }
}

/// Reads a sequence of stamped poses from a document, which must be an array
/// of their documents. The poses come in the order of the array; the first
/// item that holds none gives the error.
pub fn deserialize(doc: &Json) -> (r: Result<Vec<PoseStamped>, DecodeError>)
    ensures
        match r {
            Ok(poses) => decode_poses(doc@) == Ok::<Seq<PoseStampedView>, DecodeError>(
                poses_view(poses@),
            ),
            Err(e) => decode_poses(doc@) == Err::<Seq<PoseStampedView>, DecodeError>(e),
        },
{
    match doc {
        Json::Array(items) => {
            let ghost views = items_view(items@, items@.len());
            proof {
                lemma_items_view(items@, items@.len());
            }
            let mut poses: Vec<PoseStamped> = Vec::new();
            let mut i: usize = 0;
            assert(poses_view(poses@) =~= Seq::empty());
            while i < items.len()
                invariant
                    i <= items.len(),
                    decode_poses(doc@) == decode_items(views, views.len()),
                    views.len() == items.len(),
                    forall|j: int| 0 <= j < items.len() ==> (#[trigger] views[j]) == items[j]@,
                    decode_items(views, i as nat) == Ok::<Seq<PoseStampedView>, DecodeError>(
                        poses_view(poses@),
                    ),
                decreases items.len() - i,
            {
                assert(views[i as int] == items[i as int]@);
                match item_from_json(&items[i]) {
                    Ok(pose) => {
                        let ghost before = poses_view(poses@);
                        poses.push(pose);
                        assert(poses_view(poses@) =~= before.push(pose@));
                    },
                    Err(e) => {
                        proof {
                            lemma_items_error_stays(views, (i + 1) as nat, items@.len());
                        }
                        return Err(e);
                    },
                }
                i += 1;
            }
            Ok(poses)
        },
        _ => Err(DecodeError::Invalid(Field::Poses)),
    }
}

/// A path that was read: the boundary between a document and the path model.
pub struct PathDeserializer(pub Path);

impl PathDeserializer {
    /// Reads a path from a document.
    pub fn from_json(doc: &Json) -> (r: Result<PathDeserializer, DecodeError>)
        ensures
            match r {
                Ok(read) => PathView::decode(doc@) == Ok::<PathView, DecodeError>(read.0@),
                Err(e) => PathView::decode(doc@) == Err::<PathView, DecodeError>(e),
            },
    {
        match doc {
            Json::Object(_) => {
                let header = Header::from_json(get_object(doc, "header", Field::Header)?)?;
                let poses = deserialize(get_required(doc, "poses", Field::Poses)?)?;
                Ok(PathDeserializer(Path { header, poses }))
            },
            _ => Err(DecodeError::Invalid(Field::Document)),
        }
    }
}

} // verus!
