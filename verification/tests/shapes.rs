use rust_oids::flags::{Flags, ACTUATOR, ARM, BRAKE, JOINT, LEFT, RIGHT, RUDDER, SENSOR, THRUSTER};
use rust_oids::geometry::{PolygonType, Position, Rect, Transform, VertexType};
use rust_oids::obj::{Mesh, Shape, Winding};
use rust_oids::segment::{AgentRefs, Attachment};

fn star(n: u8) -> Shape<f32> {
    Shape::new_star(1.5, n, 0.83255, 0.14, 1.0, 0.5)
}

#[test]
fn ball_has_one_point() {
    let ball: Shape<f32> = Shape::new_ball(2.0);
    assert_eq!(ball.length(), 1);
    assert_eq!(ball.mid(), 0);
    assert_eq!(ball, Shape::Ball { radius: 2.0 });
}

#[test]
fn ball_outline_is_the_point_above_the_centre() {
    for radius in [0.001f32, 0.5, 1.0, 2.0, 500.0] {
        let outline = Shape::ball_outline(0.0, radius);
        assert_eq!(outline, vec![Position { x: 0.0, y: radius }]);
        assert_eq!(outline.len(), Shape::new_ball(radius).length());
    }
}

#[test]
fn box_outline_goes_round_the_corners() {
    let (width, height): (f32, f32) = (3.0, 2.0);
    let outline = Shape::box_outline(0.0, -width / 2.0, width / 2.0, -height / 2.0, height / 2.0);
    assert_eq!(
        outline,
        vec![
            Position { x: 0.0, y: 1.0 },
            Position { x: 1.5, y: 1.0 },
            Position { x: 1.5, y: -1.0 },
            Position { x: -1.5, y: -1.0 },
            Position { x: -1.5, y: 1.0 },
        ]
    );
    assert_eq!(outline.len(), Shape::new_box(width, height).length());
    // the corners are centred on the origin
    let sum_x: f32 = outline[1..].iter().map(|p| p.x).sum();
    let sum_y: f32 = outline[1..].iter().map(|p| p.y).sum();
    assert_eq!((sum_x, sum_y), (0.0, 0.0));
}

#[test]
fn box_has_five_points() {
    let b: Shape<f32> = Shape::new_box(3.0, 2.0);
    assert_eq!(b.length(), 5);
    assert_eq!(b.mid(), 2);
    assert_eq!(b, Shape::Box { width: 3.0, height: 2.0 });
}

#[test]
fn star_has_two_points_per_lobe() {
    let mut n: u8 = 2;
    while n <= 8 {
        let s = star(n);
        assert_eq!(s.length(), 2 * n as usize);
        assert_eq!(s.mid(), n as isize);
        n += 1;
    }
}

#[test]
fn star_with_most_lobes_still_counts_right() {
    assert_eq!(star(255).length(), 510);
    assert_eq!(star(255).mid(), 255);
}

#[test]
fn star_keeps_its_parameters() {
    assert_eq!(
        star(5),
        Shape::Star { radius: 1.5, n: 5, a: 0.83255, b: 0.14, c: 1.0, ratio: 0.5 }
    );
}

#[test]
fn mesh_pairs_shape_and_outline() {
    let shape: Shape<f32> = Shape::new_ball(2.0);
    let mesh = Mesh::from_shape(shape, vec![Position::new(0.0, 2.0)], Winding::CCW);
    assert_eq!(mesh.shape, shape);
    assert_eq!(mesh.vertices, vec![Position { x: 0.0, y: 2.0 }]);
    assert_eq!(mesh.winding, Winding::CCW);
}

#[test]
fn flags_contain_what_was_united() {
    let arm = Flags::from_bits(ARM | JOINT);
    assert!(arm.contains(Flags::from_bits(ARM)));
    assert!(arm.contains(Flags::from_bits(JOINT)));
    assert!(arm.contains(Flags::from_bits(ARM | JOINT)));
    assert!(!arm.contains(Flags::from_bits(SENSOR)));
    assert!(!arm.contains(Flags::from_bits(ARM | SENSOR)));
    assert!(arm.contains(Flags::empty()));
    assert_eq!(arm.bits(), 0x44);
    let both = Flags::from_bits(LEFT).union(Flags::from_bits(RUDDER));
    assert_eq!(both, Flags::from_bits(LEFT | RUDDER));
    assert_eq!(both.bits(), 0x21000);
    assert!(!both.contains(Flags::from_bits(RIGHT)));
}

#[test]
fn actuator_is_all_three_kinds() {
    assert_eq!(ACTUATOR, 0x70000);
    let actuator = Flags::from_bits(ACTUATOR);
    assert!(actuator.contains(Flags::from_bits(THRUSTER)));
    assert!(actuator.contains(Flags::from_bits(RUDDER)));
    assert!(actuator.contains(Flags::from_bits(BRAKE)));
    assert!(!Flags::from_bits(RUDDER).contains(actuator));
}

#[test]
fn rect_corners() {
    let r: Rect<f32> = Rect::new(-1.0, -2.0, 3.0, 4.0);
    assert_eq!(r.bottom_left(), Position { x: -1.0, y: -2.0 });
    assert_eq!(r.top_right(), Position { x: 3.0, y: 4.0 });
    assert_eq!(r.bottom_right(), Position { x: 3.0, y: -2.0 });
    assert_eq!(r.top_left(), Position { x: -1.0, y: 4.0 });
}

#[test]
fn transform_keeps_pose() {
    let t: Transform<f32> = Transform::new(Position::new(1.0, 2.0), 0.5);
    assert_eq!(t.position, Position { x: 1.0, y: 2.0 });
    assert_eq!(t.angle, 0.5);
}

#[test]
fn polygon_census() {
    let square = [VertexType::Plus, VertexType::Plus, VertexType::Plus, VertexType::Plus];
    let p = PolygonType::classify(&square);
    assert_eq!((p.plus, p.minus, p.flat), (4, 0, 0));
    assert!(p.is_convex());
    assert!(!p.is_concave());
    assert!(!p.has_flat_vertices());

    let dart = [VertexType::Plus, VertexType::Minus, VertexType::Plus, VertexType::Flat];
    let q = PolygonType::classify(&dart);
    assert_eq!((q.plus, q.minus, q.flat), (2, 1, 1));
    assert!(!q.is_convex());
    assert!(q.is_concave());
    assert!(q.has_flat_vertices());

    let clockwise = [VertexType::Minus, VertexType::Minus, VertexType::Minus];
    let r = PolygonType::classify(&clockwise);
    assert!(r.is_convex());
    assert!(!r.is_concave());

    let none: [VertexType; 0] = [];
    let e = PolygonType::classify(&none);
    assert_eq!((e.plus, e.minus, e.flat), (0, 0, 0));
    assert!(e.is_convex());
}

#[test]
fn corners_wrap_round_the_outline() {
    assert_eq!(PolygonType::corner(0, 4), (3, 0, 1));
    assert_eq!(PolygonType::corner(1, 4), (0, 1, 2));
    assert_eq!(PolygonType::corner(3, 4), (2, 3, 0));
    assert_eq!(PolygonType::corner(0, 1), (0, 0, 0));
}

#[test]
fn agent_refs_fill_in_the_rest() {
    assert_eq!(
        AgentRefs::default(),
        AgentRefs { agent_id: 0xdeadbeef, segment_index: 0xff, bone_index: 0xff }
    );
    assert_eq!(
        AgentRefs::with_id(7),
        AgentRefs { agent_id: 7, segment_index: 0xff, bone_index: 0xff }
    );
    assert_eq!(
        AgentRefs::with_segment(7, 3),
        AgentRefs { agent_id: 7, segment_index: 3, bone_index: 0xff }
    );
    assert_eq!(
        AgentRefs::with_bone(7, 3, 2),
        AgentRefs { agent_id: 7, segment_index: 3, bone_index: 2 }
    );
}

#[test]
fn attachment_is_plain_data() {
    let a = Attachment { index: 2, attachment_point: 4 };
    let b = a;
    assert_eq!(a, b);
    assert_eq!(b.index, 2);
    assert_eq!(b.attachment_point, 4);
}
