use rust_oids::agent::{attachment_point, Agent, AgentBuilder};
use rust_oids::flags::{Flags, ARM, HEAD, LEFT, MIDDLE, RIGHT, SENSOR, TORSO};
use rust_oids::geometry::{Position, Transform};
use rust_oids::obj::{Livery, Material, Shape, Winding};
use rust_oids::recipe::{Part, Placement, Side};
use rust_oids::segment::{Attachment, Intent, Segment, State};

fn outline(shape: &Shape<f32>) -> Vec<Position<f32>> {
    let mut v: Vec<Position<f32>> = Vec::new();
    let mut i: usize = 0;
    while i < shape.length() {
        v.push(Position::new(i as f32, 1.0));
        i += 1;
    }
    v
}

fn star(n: u8) -> Shape<f32> {
    Shape::new_star(1.0, n, 0.83255, 0.14, 1.0, 0.5)
}

fn pose(x: f32) -> Transform<f32> {
    Transform::new(Position::new(x, 0.0), 0.25)
}

fn builder(id: usize) -> AgentBuilder<f32> {
    AgentBuilder::new(
        id,
        Material { density: 0.2, restitution: 0.2, friction: 0.3 },
        Livery { albedo: [1.0, 0.5, 0.25, 1.0] },
        State::with_charge(0.0, 0.3, 1.0, 0.0, 1.0, 2.0),
    )
}

fn check_tree(segments: &[Segment<f32>]) {
    let mut i: usize = 0;
    while i < segments.len() {
        let s = &segments[i];
        assert_eq!(s.index, i);
        assert_eq!(s.mesh.vertices.len(), s.mesh.shape.length());
        match s.attached_to {
            None => assert_eq!(i, 0),
            Some(a) => {
                assert!(i > 0);
                assert!(a.index < i);
                assert!(a.attachment_point < segments[a.index].mesh.vertices.len());
            }
        }
        i += 1;
    }
}

#[test]
fn offsets_wrap_round_the_outline() {
    assert_eq!(attachment_point(0, 10), 0);
    assert_eq!(attachment_point(3, 10), 3);
    assert_eq!(attachment_point(10, 10), 0);
    assert_eq!(attachment_point(13, 10), 3);
    assert_eq!(attachment_point(-1, 10), 9);
    assert_eq!(attachment_point(-2, 10), 8);
    assert_eq!(attachment_point(-10, 10), 0);
    assert_eq!(attachment_point(-13, 10), 7);
    assert_eq!(attachment_point(5, 1), 0);
    assert_eq!(attachment_point(-5, 1), 0);
    assert_eq!(attachment_point(isize::MAX, 10), (isize::MAX % 10) as usize);
    assert_eq!(attachment_point(isize::MIN, 7), isize::MIN.rem_euclid(7) as usize);
}

#[test]
fn start_makes_a_single_root() {
    let mut b = builder(9);
    let torso = star(5);
    let index = b.start(Position::new(3.0, 4.0), 0.5, &torso, outline(&torso)).index();
    assert_eq!(index, 0);
    let agent = b.build();
    assert_eq!(agent.id(), 9);
    assert_eq!(agent.segments().len(), 1);
    let root = &agent.segments()[0];
    assert_eq!(root.index, 0);
    assert_eq!(root.transform, Transform { position: Position { x: 3.0, y: 4.0 }, angle: 0.5 });
    assert_eq!(root.attached_to, None);
    assert_eq!(root.flags, Flags::from_bits(TORSO | MIDDLE));
    assert_eq!(root.mesh.winding, Winding::CW);
    assert_eq!(root.mesh.shape, torso);
    assert_eq!(root.material, Material { density: 0.2, restitution: 0.2, friction: 0.3 });
    assert_eq!(root.livery, Livery { albedo: [1.0, 0.5, 0.25, 1.0] });
    assert_eq!(root.state.get_charge(), 0.0);
    assert_eq!(root.state.target_charge, 0.3);
    assert_eq!(root.state.intent, Intent::Idle);
    assert_eq!(root.motion, None);
}

#[test]
fn start_drops_what_was_built() {
    let mut b = builder(1);
    let torso = star(5);
    let arm = star(3);
    b.start(Position::new(0.0, 0.0), 0.0, &torso, outline(&torso));
    b.add(0, 1, &arm, outline(&arm), pose(1.0), Flags::from_bits(ARM));
    assert_eq!(b.index(), 1);
    b.start(Position::new(1.0, 1.0), 0.0, &arm, outline(&arm));
    assert_eq!(b.index(), 0);
    let agent = b.build();
    assert_eq!(agent.segments().len(), 1);
    assert_eq!(agent.segments()[0].mesh.shape, arm);
}

#[test]
fn index_of_an_empty_builder_is_zero() {
    let b = builder(1);
    assert_eq!(b.index(), 0);
    let agent = b.build();
    assert_eq!(agent.segments().len(), 0);
}

#[test]
fn sides_set_winding_and_tag() {
    let mut b = builder(1);
    let torso = star(5);
    let arm = star(3);
    b.start(Position::new(0.0, 0.0), 0.0, &torso, outline(&torso));
    b.add(0, 0, &arm, outline(&arm), pose(1.0), Flags::from_bits(HEAD | SENSOR));
    b.addl(0, -2, &arm, outline(&arm), pose(2.0), Flags::from_bits(ARM));
    b.addr(0, 2, &arm, outline(&arm), pose(3.0), Flags::from_bits(ARM));
    b.addw(1, 7, &arm, outline(&arm), Winding::CCW, pose(4.0), Flags::from_bits(ARM));
    let agent = b.build();
    let s = agent.segments();
    assert_eq!(s.len(), 5);
    assert_eq!(s[1].flags, Flags::from_bits(HEAD | SENSOR | MIDDLE));
    assert_eq!(s[1].mesh.winding, Winding::CW);
    assert_eq!(s[1].attached_to, Some(Attachment { index: 0, attachment_point: 0 }));
    assert_eq!(s[1].transform, pose(1.0));
    assert_eq!(s[2].flags, Flags::from_bits(ARM | LEFT));
    assert_eq!(s[2].mesh.winding, Winding::CCW);
    assert_eq!(s[2].attached_to, Some(Attachment { index: 0, attachment_point: 8 }));
    assert_eq!(s[3].flags, Flags::from_bits(ARM | RIGHT));
    assert_eq!(s[3].mesh.winding, Winding::CW);
    assert_eq!(s[3].attached_to, Some(Attachment { index: 0, attachment_point: 2 }));
    assert_eq!(s[4].flags, Flags::from_bits(ARM));
    assert_eq!(s[4].mesh.winding, Winding::CCW);
    assert_eq!(s[4].attached_to, Some(Attachment { index: 1, attachment_point: 1 }));
    assert_eq!(s[4].transform, pose(4.0));
    check_tree(s);
}

#[test]
fn offset_zero_and_full_turn_pick_the_same_point() {
    let torso = star(4);
    let arm: Shape<f32> = Shape::new_box(1.0, 2.0);
    let count = torso.length() as isize;
    let mut b = builder(1);
    b.start(Position::new(0.0, 0.0), 0.0, &torso, outline(&torso));
    assert_eq!(b.attachment(0, 0), b.attachment(0, count));
    assert_eq!(b.attachment(0, 3), b.attachment(0, 3 + count));
    assert_eq!(b.attachment(0, -3), b.attachment(0, count - 3));
    b.add(0, 0, &arm, outline(&arm), pose(1.0), Flags::empty());
    b.add(0, count, &arm, outline(&arm), pose(1.0), Flags::empty());
    let agent = b.build();
    assert_eq!(agent.segments()[1].attached_to, agent.segments()[2].attached_to);
    assert_eq!(
        agent.segments()[1].attached_to,
        Some(Attachment { index: 0, attachment_point: 0 })
    );
}

#[test]
fn any_run_of_operations_gives_a_tree() {
    let shapes = [star(2), star(5), Shape::new_box(1.0, 2.0), Shape::new_ball(1.0), star(8)];
    let mut b = builder(4);
    b.start(Position::new(0.0, 0.0), 0.0, &shapes[1], outline(&shapes[1]));
    let mut seed: usize = 12345;
    let mut step: usize = 0;
    while step < 60 {
        seed = seed.wrapping_mul(1103515245).wrapping_add(12345) % 2147483648;
        let parent = seed % (b.index() + 1);
        let shape = shapes[(seed / 7) % shapes.len()];
        let offset = ((seed / 11) % 41) as isize - 20;
        match (seed / 13) % 3 {
            0 => b.add(parent, offset, &shape, outline(&shape), pose(0.0), Flags::empty()),
            1 => b.addl(parent, offset, &shape, outline(&shape), pose(0.0), Flags::empty()),
            _ => b.addr(parent, offset, &shape, outline(&shape), pose(0.0), Flags::empty()),
        };
        assert_eq!(b.index(), step + 1);
        step += 1;
    }
    let agent = b.build();
    assert_eq!(agent.segments().len(), 61);
    check_tree(agent.segments());
}

#[test]
fn new_attachment_clamps_to_the_last_point() {
    let mut b = builder(1);
    let torso = star(3);
    b.start(Position::new(0.0, 0.0), 0.0, &torso, outline(&torso));
    let agent = b.build();
    let root = &agent.segments()[0];
    assert_eq!(root.new_attachment(0), Some(Attachment { index: 0, attachment_point: 0 }));
    assert_eq!(root.new_attachment(5), Some(Attachment { index: 0, attachment_point: 5 }));
    assert_eq!(root.new_attachment(6), Some(Attachment { index: 0, attachment_point: 5 }));
    assert_eq!(root.new_attachment(200), Some(Attachment { index: 0, attachment_point: 5 }));
}

#[test]
fn place_follows_the_line() {
    let mut b = builder(1);
    let torso = star(5);
    let arm = star(3);
    b.start(Position::new(0.0, 0.0), 0.0, &torso, outline(&torso));
    let line = Placement {
        parent_index: 0,
        offset: -2,
        part: Part::Arm,
        side: Side::Left,
        flags: Flags::from_bits(ARM),
    };
    b.place(&line, &arm, outline(&arm), pose(2.0));
    let agent = b.build();
    let s = &agent.segments()[1];
    assert_eq!(s.flags, Flags::from_bits(ARM | LEFT));
    assert_eq!(s.mesh.winding, Winding::CCW);
    assert_eq!(s.attached_to, Some(Attachment { index: 0, attachment_point: 8 }));
    assert_eq!(Side::Left.winding(), Winding::CCW);
    assert_eq!(Side::Right.winding(), Winding::CW);
    assert_eq!(Side::Middle.winding(), Winding::CW);
    assert_eq!(Side::Middle.tag(), Flags::from_bits(MIDDLE));
    assert_eq!(Side::Left.tag(), Flags::from_bits(LEFT));
    assert_eq!(Side::Right.tag(), Flags::from_bits(RIGHT));
}

#[test]
fn builder_identity_can_be_changed() {
    let mut b = builder(1);
    let torso = star(5);
    b.id(42).start(Position::new(0.0, 0.0), 0.0, &torso, outline(&torso));
    assert_eq!(b.build().id(), 42);
}

fn body() -> Agent<f32> {
    let mut b = builder(3);
    let torso = star(5);
    let arm = star(3);
    b.start(Position::new(1.0, 2.0), 0.5, &torso, outline(&torso));
    b.add(0, 0, &arm, outline(&arm), pose(1.0), Flags::from_bits(HEAD | SENSOR));
    b.addl(0, 1, &arm, outline(&arm), pose(2.0), Flags::from_bits(ARM));
    b.build()
}

#[test]
fn agent_hands_out_its_segments() {
    let mut agent = body();
    assert_eq!(agent.id(), 3);
    assert_eq!(agent.segments().len(), 3);
    assert_eq!(agent.segment(1).map(|s| s.index), Some(1));
    assert!(agent.segment(3).is_none());
    assert!(agent.segment_mut(3).is_none());
    match agent.segment_mut(2) {
        Some(s) => s.state.set_target_charge(0.75),
        None => panic!("segment 2 is missing"),
    }
    assert_eq!(agent.segments()[2].state.target_charge, 0.75);
    assert_eq!(agent.segments()[1].state.target_charge, 0.3);
    agent.segments_mut()[0].state.set_charge(0.5);
    assert_eq!(agent.segments()[0].state.get_charge(), 0.5);
    assert_eq!(agent.segments().len(), 3);
}

#[test]
fn agent_pose_is_that_of_its_root() {
    let mut agent = body();
    assert_eq!(agent.transform(), Transform { position: Position { x: 1.0, y: 2.0 }, angle: 0.5 });
    agent.transform_to(pose(9.0));
    assert_eq!(agent.transform(), pose(9.0));
    assert_eq!(agent.segments()[0].transform(), pose(9.0));
    assert_eq!(agent.segments()[1].transform(), pose(1.0));
}

#[test]
fn first_segment_finds_the_first_with_all_tags() {
    let agent = body();
    assert_eq!(agent.first_segment(Flags::from_bits(SENSOR)).map(|s| s.index), Some(1));
    assert_eq!(agent.first_segment(Flags::from_bits(MIDDLE)).map(|s| s.index), Some(0));
    assert_eq!(agent.first_segment(Flags::from_bits(ARM | LEFT)).map(|s| s.index), Some(2));
    assert!(agent.first_segment(Flags::from_bits(ARM | RIGHT)).is_none());
    assert_eq!(agent.first_segment(Flags::empty()).map(|s| s.index), Some(0));
}

#[test]
fn segment_accessors() {
    let mut agent = body();
    let s = &agent.segments()[1];
    assert_eq!(s.mesh().shape, star(3));
    assert_eq!(s.material(), Material { density: 0.2, restitution: 0.2, friction: 0.3 });
    assert_eq!(s.livery(), Livery { albedo: [1.0, 0.5, 0.25, 1.0] });
    agent.segments_mut()[1].transform_to(pose(5.0));
    assert_eq!(agent.segments()[1].transform(), pose(5.0));
}

#[test]
fn builder_shows_what_it_has_made() {
    let mut b = builder(1);
    assert_eq!(b.len(), 0);
    assert!(b.segment(0).is_none());
    let torso = star(5);
    let arm = star(3);
    b.start(Position::new(0.0, 0.0), 0.0, &torso, outline(&torso));
    b.addr(0, 2, &arm, outline(&arm), pose(3.0), Flags::from_bits(ARM));
    assert_eq!(b.len(), 2);
    assert_eq!(b.segment(0).map(|s| s.mesh.shape), Some(torso));
    assert_eq!(b.segment(1).map(|s| s.transform), Some(pose(3.0)));
    assert!(b.segment(2).is_none());
    assert_eq!(b.attachment(0, 12), Attachment { index: 0, attachment_point: 2 });
    assert_eq!(b.attachment(1, -1), Attachment { index: 1, attachment_point: 5 });
}

#[test]
fn a_built_body_is_a_tree_until_it_is_tampered_with() {
    let mut agent = body();
    assert!(agent.is_wf());
    agent.segments_mut()[2].index = 1;
    assert!(!agent.is_wf());
    agent.segments_mut()[2].index = 2;
    assert!(agent.is_wf());
    agent.segments_mut()[1].attached_to = Some(Attachment { index: 2, attachment_point: 0 });
    assert!(!agent.is_wf());
    agent.segments_mut()[1].attached_to = Some(Attachment { index: 0, attachment_point: 10 });
    assert!(!agent.is_wf());
    agent.segments_mut()[1].attached_to = Some(Attachment { index: 0, attachment_point: 9 });
    assert!(agent.is_wf());
    agent.segments_mut()[1].attached_to = None;
    assert!(!agent.is_wf());
    agent.segments_mut()[1].attached_to = Some(Attachment { index: 0, attachment_point: 0 });
    agent.segments_mut()[0].attached_to = Some(Attachment { index: 0, attachment_point: 0 });
    assert!(!agent.is_wf());
    agent.segments_mut()[0].attached_to = None;
    agent.segments_mut()[2].mesh.vertices.pop();
    assert!(!agent.is_wf());
}

#[test]
fn meshes_and_shapes_tell_whether_they_are_sound() {
    let shape = star(3);
    assert!(shape.is_wf());
    let lone: Shape<f32> = Shape::Star { radius: 1.0, n: 1, a: 0.8, b: 0.1, c: 1.0, ratio: 0.5 };
    assert!(!lone.is_wf());
    let none: Shape<f32> = Shape::Star { radius: 1.0, n: 0, a: 0.8, b: 0.1, c: 1.0, ratio: 0.5 };
    assert!(!none.is_wf());
    let ball: Shape<f32> = Shape::new_ball(1.0);
    assert!(ball.is_wf());
    let mut mesh = rust_oids::obj::Mesh::from_shape(shape, outline(&shape), Winding::CW);
    assert!(mesh.is_wf());
    mesh.vertices.pop();
    assert!(!mesh.is_wf());
}
