use std::sync::{Arc, Mutex};

use path_recorder::json::{Json, Written};
use path_recorder::msg::{Header, Path, Point, PointStamped, Pose, PoseStamped, Quaternion, Time};
use path_recorder::{PathSaver, PathSerializer, PathServer, Scalar};

fn scalar(x: f64) -> Scalar {
    Scalar::from_bits(x.to_bits())
}

fn to_value(doc: &Json) -> serde_json::Value {
    match doc {
        Json::Null => serde_json::Value::Null,
        Json::Boolean(b) => serde_json::Value::Bool(*b),
        Json::Number(n) => match n.written() {
            Written::Integer(u) => serde_json::Value::from(u),
            Written::Float(s) => serde_json::Value::from(f64::from_bits(s.to_bits())),
            Written::Null => serde_json::Value::Null,
        },
        Json::Text(s) => serde_json::Value::String(s.clone()),
        Json::Array(items) => serde_json::Value::Array(items.iter().map(to_value).collect()),
        Json::Object(members) => serde_json::Value::Object(
            members.iter().map(|m| (m.key.clone(), to_value(&m.value))).collect(),
        ),
    }
}

fn render(doc: &Json) -> Vec<u8> {
    serde_json::to_vec_pretty(&to_value(doc)).unwrap()
}

fn point(frame: &str, seq: u32, x: f64, y: f64, z: f64) -> PointStamped {
    PointStamped {
        header: Header { seq, stamp: Time { sec: seq + 100, nsec: seq + 200 }, frame_id: frame.to_string() },
        point: Point { x: scalar(x), y: scalar(y), z: scalar(z) },
    }
}

fn identity() -> Quaternion {
    Quaternion { x: scalar(0.0), y: scalar(0.0), z: scalar(0.0), w: scalar(1.0) }
}

fn origin(frame: &str) -> PoseStamped {
    PoseStamped {
        header: Header { seq: 0, stamp: Time { sec: 0, nsec: 0 }, frame_id: frame.to_string() },
        pose: Pose {
            position: Point { x: scalar(0.0), y: scalar(0.0), z: scalar(0.0) },
            orientation: identity(),
        },
    }
}

fn recorded(p: &PointStamped) -> PoseStamped {
    PoseStamped { header: p.header.clone(), pose: Pose { position: p.point, orientation: identity() } }
}

#[test]
fn a_new_recorder_holds_the_origin_of_its_frame() {
    let saver = PathSaver::new("out.json".to_string(), "map");
    let path = saver.get_path();
    assert_eq!(path.header, Header { seq: 0, stamp: Time { sec: 0, nsec: 0 }, frame_id: "map".to_string() });
    assert_eq!(path.poses, vec![origin("map")]);
    assert_eq!(saver.file_name(), "out.json");
}

#[test]
fn a_stamped_point_is_recorded_with_its_header_and_the_identity_orientation() {
    let mut saver = PathSaver::new("out.json".to_string(), "map");
    let p = point("odom", 9, 1.0, 2.0, 3.0);
    saver.add_point_stamped(p.clone());
    let path = saver.get_path();
    assert_eq!(path.poses.len(), 2);
    assert_eq!(path.poses[1].header, p.header);
    assert_eq!(path.poses[1].pose.position, p.point);
    assert_eq!(path.poses[1].pose.orientation, identity());
    assert_eq!(path.header.frame_id, "map");
}

#[test]
fn a_simple_point_is_recorded_in_the_recorders_frame_at_height_zero() {
    let mut saver = PathSaver::new("out.json".to_string(), "карта");
    saver.add_point_simple((scalar(-0.2), scalar(0.7)));
    let path = saver.get_path();
    assert_eq!(path.poses.len(), 2);
    assert_eq!(
        path.poses[1],
        PoseStamped {
            header: Header { seq: 0, stamp: Time { sec: 0, nsec: 0 }, frame_id: "карта".to_string() },
            pose: Pose {
                position: Point { x: scalar(-0.2), y: scalar(0.7), z: scalar(0.0) },
                orientation: identity(),
            },
        }
    );
}

#[test]
fn points_are_kept_in_the_order_in_which_they_were_recorded() {
    let mut saver = PathSaver::new("out.json".to_string(), "map");
    let points: Vec<PointStamped> =
        (1..=20u32).map(|i| point("map", i, i as f64, 0.5 * i as f64, 0.0)).collect();
    for p in &points {
        saver.add_point_stamped(p.clone());
    }
    let mut expected = vec![origin("map")];
    expected.extend(points.iter().map(recorded));
    assert_eq!(saver.get_path().poses, expected);
}

#[test]
fn equal_points_are_all_kept() {
    let mut saver = PathSaver::new("out.json".to_string(), "map");
    let p = point("map", 1, 1.0, 1.0, 0.0);
    saver.add_point_stamped(p.clone());
    saver.add_point_stamped(p.clone());
    saver.add_point_simple((scalar(0.0), scalar(0.0)));
    saver.add_point_stamped(p.clone());
    assert_eq!(
        saver.get_path().poses,
        vec![origin("map"), recorded(&p), recorded(&p), origin("map"), recorded(&p)]
    );
}

#[test]
fn interleaved_appends_through_a_lock_are_each_kept_once() {
    let saver = Arc::new(Mutex::new(PathSaver::new("out.json".to_string(), "map")));
    let producers = 8u32;
    let each = 25u32;
    let handles: Vec<Arc<Mutex<PathSaver>>> = (0..producers).map(|_| Arc::clone(&saver)).collect();
    for i in 0..each {
        for t in 0..producers {
            let turn = (t * 5 + i * 3) % producers;
            let p = point("map", turn * each + i, turn as f64, i as f64, 0.0);
            handles[turn as usize].lock().unwrap().add_point_stamped(p);
        }
    }
    let saver = saver.lock().unwrap();
    let poses = &saver.get_path().poses;
    assert_eq!(poses.len() as u32, producers * each + 1);
    assert_eq!(poses[0], origin("map"));
    let mut seen: Vec<u32> = poses[1..].iter().map(|p| p.header.seq).collect();
    seen.sort();
    assert_eq!(seen, (0..producers * each).collect::<Vec<u32>>());
    for t in 0..producers {
        let own: Vec<u32> = poses[1..]
            .iter()
            .map(|p| p.header.seq)
            .filter(|s| s / each == t)
            .collect();
        assert_eq!(own, (t * each..(t + 1) * each).collect::<Vec<u32>>());
    }
}

#[test]
fn save_gives_the_document_of_the_path_so_far() {
    let mut saver = PathSaver::new("out.json".to_string(), "map");
    assert_eq!(saver.save(), PathSerializer(saver.get_path()).to_json());
    saver.add_point_simple((scalar(1.0), scalar(2.0)));
    let doc = saver.save();
    assert_eq!(doc, PathSerializer(saver.get_path()).to_json());
    assert_eq!(saver.get_path().poses.len(), 2);
    assert_eq!(PathServer::from_json(&doc).unwrap().get_path(), saver.get_path());
}

#[test]
fn finish_gives_the_document_of_the_last_snapshot() {
    let mut saver = PathSaver::new("out.json".to_string(), "map");
    saver.add_point_stamped(point("map", 1, 1.0, 2.0, 0.0));
    saver.add_point_simple((scalar(3.0), scalar(4.0)));
    let snapshot: Path = saver.get_path().clone();
    assert_eq!(snapshot.poses[1].header.seq, 1);
    let doc = saver.finish();
    assert_eq!(doc, PathSerializer(&snapshot).to_json());
    let mut kept = snapshot;
    kept.poses[1].header.seq = 0;
    assert_eq!(PathServer::load(&render(&doc)).unwrap().get_path(), &kept);
}

#[test]
fn finish_closes_the_path_with_the_origin_where_asked_to() {
    let mut saver = PathSaver::new("out.json".to_string(), "map").with_closing_point(true);
    saver.add_point_stamped(point("odom", 1, 1.0, 2.0, 0.0));
    let mut expected: Path = saver.get_path().clone();
    assert_eq!(expected.poses.len(), 2);
    expected.poses.push(origin("map"));
    let doc = saver.finish();
    assert_eq!(doc, PathSerializer(&expected).to_json());

    let mut open = PathSaver::new("out.json".to_string(), "map").with_closing_point(true).with_closing_point(false);
    open.add_point_stamped(point("odom", 1, 1.0, 2.0, 0.0));
    let kept: Path = open.get_path().clone();
    assert_eq!(open.finish(), PathSerializer(&kept).to_json());
}

#[test]
fn a_recorded_path_is_served_again() {
    let mut saver = PathSaver::new("out.json".to_string(), "map");
    saver.add_point_stamped(PointStamped {
        header: Header { seq: 0, stamp: Time { sec: 0, nsec: 0 }, frame_id: "map".to_string() },
        point: Point { x: scalar(1.0), y: scalar(2.0), z: scalar(0.0) },
    });
    let written = render(&saver.finish());

    let server = PathServer::load(&written).unwrap();
    let path = server.get_path();
    assert_eq!(path.poses.len(), 2);
    assert_eq!(path.poses[0], origin("map"));
    assert_eq!(f64::from_bits(path.poses[1].pose.position.x.to_bits()), 1.0);
    assert_eq!(f64::from_bits(path.poses[1].pose.position.y.to_bits()), 2.0);
    assert_eq!(f64::from_bits(path.poses[1].pose.position.z.to_bits()), 0.0);
    assert_eq!(path.header.frame_id, "map");
    assert_eq!(path.poses[0].header.frame_id, "map");
    assert_eq!(path.poses[1].header.frame_id, "map");
}

#[test]
fn the_served_path_does_not_change() {
    let mut saver = PathSaver::new("out.json".to_string(), "map");
    saver.add_point_simple((scalar(1.0), scalar(2.0)));
    let server = PathServer::load(&render(&saver.save())).unwrap();
    let first: Path = server.get_path().clone();
    saver.add_point_simple((scalar(3.0), scalar(4.0)));
    assert_eq!(server.get_path(), &first);
    assert_eq!(server.get_path(), &first);
    assert_eq!(saver.get_path().poses.len(), 3);
}

#[test]
fn two_recorders_do_not_share_their_paths() {
    let mut a = PathSaver::new("a.json".to_string(), "map");
    let mut b = PathSaver::new("b.json".to_string(), "odom");
    a.add_point_simple((scalar(1.0), scalar(1.0)));
    b.add_point_simple((scalar(2.0), scalar(2.0)));
    b.add_point_simple((scalar(3.0), scalar(3.0)));
    assert_eq!(a.get_path().poses.len(), 2);
    assert_eq!(b.get_path().poses.len(), 3);
    assert_eq!(a.get_path().header.frame_id, "map");
    assert_eq!(b.get_path().header.frame_id, "odom");
    assert_eq!(a.file_name(), "a.json");
    assert_eq!(b.file_name(), "b.json");
}
