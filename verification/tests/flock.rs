use rust_oids::agent::AgentBuilder;
use rust_oids::flags::{
    Flags, ACTUATOR, ARM, BELLY, BRAKE, HEAD, JOINT, LEFT, LEG, MIDDLE, RIGHT, RUDDER, SENSOR,
    TAIL, THRUSTER, TORSO,
};
use rust_oids::flock::{spread, spread_u8, Flock, Randomizer};
use rust_oids::geometry::{Position, Rect, Transform};
use rust_oids::obj::{Livery, Material, Mesh, Shape, Winding};
use rust_oids::recipe::{fit, minion_plan, Belly, Parts, Piece};
use rust_oids::segment::{Attachment, State};
use rust_oids::world::{World, WorldState};

const MATERIAL: Material<f32> = Material { density: 1.0, restitution: 0.2, friction: 0.3 };

const LIVERY: Livery<f32> = Livery { albedo: [0.5, 0.5, 0.5, 1.0] };

fn state() -> State<f32> {
    State::with_charge(0.3, 0.0, 1.0, 0.0, 1.0, 2.0)
}

fn spawn(flock: &mut Flock<f32>, x: f32) -> usize {
    let ball: Shape<f32> = Shape::new_ball(1.5);
    flock.new_resource(
        Position::new(x, 0.0),
        0.0,
        &ball,
        vec![Position::new(0.0, 1.5)],
        MATERIAL,
        LIVERY,
        state(),
    )
}

#[test]
fn spread_folds_a_word_into_the_range() {
    assert_eq!(spread(0, 0, 4), 0);
    assert_eq!(spread(4, 0, 4), 4);
    assert_eq!(spread(5, 0, 4), 0);
    assert_eq!(spread(7, 0, 4), 2);
    assert_eq!(spread(13, 3, 8), 4);
    assert_eq!(spread(i32::MAX, 0, 4), i32::MAX % 5);
    assert_eq!(spread(9, 2, 2), 2);
}

#[test]
fn spread_of_a_negative_word_lands_below() {
    assert_eq!(spread(-1, 0, 4), -1);
    assert_eq!(spread(-5, 0, 4), 0);
    assert_eq!(spread(-7, 0, 4), -2);
    assert_eq!(spread(-7, 3, 8), 2);
    assert_eq!(spread(i32::MIN, 0, 4), i32::MIN % 5);
}

#[test]
fn spread_u8_folds_a_byte_into_the_range() {
    assert_eq!(spread_u8(0, 3, 8), 3);
    assert_eq!(spread_u8(5, 3, 8), 8);
    assert_eq!(spread_u8(6, 3, 8), 3);
    assert_eq!(spread_u8(255, 3, 8), 6);
    assert_eq!(spread_u8(200, 0, 254), 200);
    assert_eq!(spread_u8(255, 0, 254), 0);
}

#[test]
fn draws_stay_in_their_bounds() {
    let mut rnd = Randomizer::new();
    let mut seen_low = false;
    let mut seen_high = false;
    let mut i: usize = 0;
    while i < 2000 {
        let r = rnd.irand(0, 4);
        assert!(-4 <= r && r <= 4);
        let b = rnd.irand_u8(3, 8);
        assert!(3 <= b && b <= 8);
        seen_low = seen_low || b == 3;
        seen_high = seen_high || b == 8;
        i += 1;
    }
    assert!(seen_low && seen_high);
}

#[test]
fn bellies_keep_their_shapes() {
    let mut rnd = Randomizer::new();
    let shapes: Vec<Shape<f32>> = vec![
        Shape::new_ball(1.0),
        Shape::new_box(1.0, 2.0),
        Shape::new_star(1.0, 4, 0.83255, 0.14, 1.0, 0.5),
    ];
    let bellies = rnd.bellies(&shapes);
    assert_eq!(bellies.len(), 3);
    let mut k: usize = 0;
    while k < 3 {
        assert_eq!(bellies[k].shape, shapes[k]);
        k += 1;
    }
    assert!(rnd.bellies::<f32>(&Vec::new()).is_empty());
}

#[test]
fn identities_count_up_from_one() {
    let mut flock: Flock<f32> = Flock::new();
    assert_eq!(flock.next_id(), 1);
    assert_eq!(flock.next_id(), 2);
    assert_eq!(flock.next_id(), 3);
    assert!(flock.agents().is_empty());
}

#[test]
fn resources_are_filed_under_fresh_identities() {
    let mut flock: Flock<f32> = Flock::new();
    let a = spawn(&mut flock, 1.0);
    let b = spawn(&mut flock, 2.0);
    assert_eq!((a, b), (1, 2));
    assert_eq!(flock.agents().len(), 2);
    let first = flock.get(a).expect("the first resource");
    assert_eq!(first.id(), a);
    assert_eq!(first.segments().len(), 1);
    let root = &first.segments()[0];
    assert_eq!(root.index, 0);
    assert_eq!(root.attached_to, None);
    assert_eq!(root.flags, Flags::from_bits(TORSO | MIDDLE));
    assert_eq!(root.transform, Transform { position: Position { x: 1.0, y: 0.0 }, angle: 0.0 });
    assert_eq!(
        root.mesh,
        Mesh {
            shape: Shape::Ball { radius: 1.5 },
            vertices: vec![Position { x: 0.0, y: 1.5 }],
            winding: Winding::CW,
        }
    );
    assert_eq!(root.material, MATERIAL);
    assert_eq!(root.livery, LIVERY);
    assert_eq!(root.state, state());
    assert_eq!(flock.get(b).map(|agent| agent.transform().position.x), Some(2.0));
    assert!(flock.get(3).is_none());
    assert!(flock.get(0).is_none());
}

#[test]
fn kill_removes_at_once_and_identities_are_not_reused() {
    let mut flock: Flock<f32> = Flock::new();
    let a = spawn(&mut flock, 1.0);
    let b = spawn(&mut flock, 2.0);
    flock.kill(&a);
    assert!(flock.get(a).is_none());
    assert!(flock.get(b).is_some());
    assert_eq!(flock.agents().len(), 1);
    flock.kill(&a);
    flock.kill(&99);
    assert_eq!(flock.agents().len(), 1);
    let c = spawn(&mut flock, 3.0);
    assert_eq!(c, 3);
    assert!(flock.get(a).is_none());
}

#[test]
fn get_mut_opens_one_body_for_writing() {
    let mut flock: Flock<f32> = Flock::new();
    let a = spawn(&mut flock, 1.0);
    let b = spawn(&mut flock, 2.0);
    match flock.get_mut(a) {
        Some(agent) => agent.segments_mut()[0].state.set_target_charge(0.9),
        None => panic!("the first resource is missing"),
    }
    assert!(flock.get_mut(7).is_none());
    assert_eq!(flock.get(a).map(|agent| agent.segments()[0].state.target_charge), Some(0.9));
    assert_eq!(flock.get(b).map(|agent| agent.segments()[0].state.target_charge), Some(0.0));
    flock.agents_mut().clear();
    assert!(flock.agents().is_empty());
    assert_eq!(flock.next_id(), 3);
}

#[test]
fn insert_files_a_body_under_its_own_identity() {
    let mut flock: Flock<f32> = Flock::new();
    let id = flock.next_id();
    let mut builder: AgentBuilder<f32> = AgentBuilder::new(id, MATERIAL, LIVERY, state());
    let ball: Shape<f32> = Shape::new_ball(1.0);
    builder.start(Position::new(0.0, 0.0), 0.0, &ball, vec![Position::new(0.0, 1.0)]);
    assert_eq!(flock.insert(builder.build()), id);
    assert_eq!(flock.get(id).map(|agent| agent.id()), Some(id));
}

#[test]
fn world_keeps_its_populations_apart() {
    let fence_shape: Shape<f32> = Shape::new_ball(500.0);
    let fence = Mesh::from_shape(fence_shape, vec![Position::new(0.0, 500.0)], Winding::CW);
    let mut world: World<f32> = World::new(Rect::new(-550.0, -550.0, 550.0, 550.0), fence);
    assert_eq!(world.extent.top_right(), Position { x: 550.0, y: 550.0 });
    assert_eq!(world.fence.shape, fence_shape);
    let ball: Shape<f32> = Shape::new_ball(1.0);
    let id = world.new_resource(
        Position::new(4.0, 4.0),
        0.0,
        &ball,
        vec![Position::new(0.0, 1.0)],
        MATERIAL,
        LIVERY,
        state(),
    );
    assert_eq!(id, 1);
    assert_eq!(world.minion(id).map(|agent| agent.id()), Some(1));
    assert!(world.minion(2).is_none());
    assert!(world.resources.agents().is_empty());
    assert!(world.players.agents().is_empty());
    match world.friend_mut(id) {
        Some(agent) => agent.transform_to(Transform::new(Position::new(1.0, 1.0), 0.5)),
        None => panic!("the resource is missing"),
    }
    assert!(world.friend_mut(2).is_none());
    assert_eq!(world.minion(id).map(|agent| agent.transform().angle), Some(0.5));
}

fn star(n: u8) -> Shape<f32> {
    Shape::new_star(1.0, n, 0.83255, 0.14, 1.0, 0.5)
}

fn outline(shape: &Shape<f32>) -> Vec<Position<f32>> {
    let mut v: Vec<Position<f32>> = Vec::new();
    let mut i: usize = 0;
    while i < shape.length() {
        v.push(Position::new(i as f32, 1.0));
        i += 1;
    }
    v
}

fn parts() -> Parts<f32> {
    Parts {
        torso: star(5),
        arm: star(3),
        head: Shape::new_box(1.0, 2.0),
        leg: star(4),
        tail: Shape::new_ball(1.0),
    }
}

fn pieces(parts: &Parts<f32>, bellies: &Vec<Belly<f32>>) -> Vec<Piece<f32>> {
    let plan = minion_plan(&parts.torso, bellies);
    let mut pieces: Vec<Piece<f32>> = Vec::new();
    let mut j: usize = 0;
    while j < plan.len() {
        let shape = parts.shape_of(plan[j].part, bellies);
        pieces.push(Piece {
            vertices: outline(&shape),
            transform: Transform::new(Position::new(j as f32, 0.0), 0.5),
        });
        j += 1;
    }
    pieces
}

#[test]
fn a_minion_is_assembled_from_its_plan() {
    let parts = parts();
    let bellies = vec![Belly { shape: star(6), arms: true }, Belly { shape: star(3), arms: false }];
    let pieces = pieces(&parts, &bellies);
    assert_eq!(pieces.len(), 12);
    assert!(fit(&parts, &bellies, &outline(&parts.torso), &pieces));
    let mut flock: Flock<f32> = Flock::new();
    let id = flock.new_minion(
        Position::new(3.0, 4.0),
        0.25,
        &parts,
        &bellies,
        outline(&parts.torso),
        pieces,
        MATERIAL,
        LIVERY,
        state(),
    );
    assert_eq!(id, 1);
    let agent = flock.get(id).expect("the minion");
    assert!(agent.is_wf());
    assert_eq!(agent.id(), 1);
    let s = agent.segments();
    assert_eq!(s.len(), 13);
    // the torso
    assert_eq!(s[0].transform, Transform { position: Position { x: 3.0, y: 4.0 }, angle: 0.25 });
    assert_eq!(s[0].flags, Flags::from_bits(TORSO | MIDDLE));
    assert_eq!(s[0].attached_to, None);
    // the front: arms, head, rudders
    let hangs: Vec<(usize, usize)> = s[1..]
        .iter()
        .map(|x| match x.attached_to {
            Some(Attachment { index, attachment_point }) => (index, attachment_point),
            None => panic!("only the torso hangs on nothing"),
        })
        .collect();
    assert_eq!(
        hangs,
        vec![
            (0, 2),
            (0, 8),
            (0, 0),
            (3, 1),
            (3, 2),
            // first belly on the torso's halfway point, with arms
            (0, 5),
            (6, 2),
            (6, 10),
            // second belly on the first belly's halfway point
            (6, 6),
            // legs and tail on the second belly, whose outline has six points
            (9, 2),
            (9, 4),
            (9, 3),
        ]
    );
    let bits: Vec<u32> = s.iter().map(|x| x.flags.bits()).collect();
    assert_eq!(
        bits,
        vec![
            TORSO | MIDDLE,
            ARM | JOINT | ACTUATOR | RUDDER | RIGHT,
            ARM | JOINT | ACTUATOR | RUDDER | LEFT,
            HEAD | SENSOR | MIDDLE,
            HEAD | ACTUATOR | RUDDER | RIGHT,
            HEAD | ACTUATOR | RUDDER | LEFT,
            BELLY | JOINT | MIDDLE,
            ARM | ACTUATOR | RUDDER | RIGHT,
            ARM | ACTUATOR | RUDDER | LEFT,
            BELLY | JOINT | MIDDLE,
            LEG | ACTUATOR | THRUSTER | RIGHT,
            LEG | ACTUATOR | THRUSTER | LEFT,
            TAIL | ACTUATOR | BRAKE | MIDDLE,
        ]
    );
    let windings: Vec<Winding> = s.iter().map(|x| x.mesh.winding).collect();
    let mut k: usize = 0;
    while k < s.len() {
        let left = s[k].flags.contains(Flags::from_bits(LEFT));
        assert_eq!(windings[k], if left { Winding::CCW } else { Winding::CW });
        assert_eq!(s[k].index, k);
        assert_eq!(s[k].material, MATERIAL);
        assert_eq!(s[k].state, state());
        if k > 0 {
            let at = Transform { position: Position { x: (k - 1) as f32, y: 0.0 }, angle: 0.5 };
            assert_eq!(s[k].transform, at);
        }
        k += 1;
    }
    assert_eq!(s[3].mesh.shape, parts.head);
    assert_eq!(s[6].mesh.shape, star(6));
    assert_eq!(s[9].mesh.shape, star(3));
    assert_eq!(s[12].mesh.shape, parts.tail);
    assert_eq!(s[12].mesh.vertices, outline(&parts.tail));
}

#[test]
fn pieces_that_do_not_fit_are_told_apart() {
    let parts = parts();
    let bellies = vec![Belly { shape: star(6), arms: false }];
    let good = pieces(&parts, &bellies);
    assert!(fit(&parts, &bellies, &outline(&parts.torso), &good));
    // one piece short
    let mut short = good.clone();
    short.pop();
    assert!(!fit(&parts, &bellies, &outline(&parts.torso), &short));
    // an outline with a point too many
    let mut long = good.clone();
    long[2].vertices.push(Position::new(0.0, 0.0));
    assert!(!fit(&parts, &bellies, &outline(&parts.torso), &long));
    // a torso outline of the wrong length
    assert!(!fit(&parts, &bellies, &outline(&parts.arm), &good));
    // a star with a single lobe is no shape
    let lone: Shape<f32> = Shape::Star { radius: 1.0, n: 1, a: 0.8, b: 0.1, c: 1.0, ratio: 0.5 };
    let bad = Parts { arm: lone, ..parts };
    assert!(!fit(&bad, &bellies, &outline(&parts.torso), &pieces(&bad, &bellies)));
    assert!(!bad.arm.is_wf());
    assert!(parts.arm.is_wf());
}

#[test]
fn the_world_spawns_minions_among_the_minions() {
    let fence_shape: Shape<f32> = Shape::new_ball(500.0);
    let fence = Mesh::from_shape(fence_shape, vec![Position::new(0.0, 500.0)], Winding::CW);
    let mut world: World<f32> = World::new(Rect::new(-550.0, -550.0, 550.0, 550.0), fence);
    let parts = parts();
    let bellies: Vec<Belly<f32>> = Vec::new();
    let id = world.new_minion(
        Position::new(1.0, 2.0),
        0.0,
        &parts,
        &bellies,
        outline(&parts.torso),
        pieces(&parts, &bellies),
        MATERIAL,
        LIVERY,
        state(),
    );
    assert_eq!(id, 1);
    let minion = world.minion(id).expect("the minion");
    assert_eq!(minion.segments().len(), 9);
    assert!(minion.is_wf());
    assert_eq!(minion.first_segment(Flags::from_bits(SENSOR)).map(|s| s.index), Some(3));
    assert!(world.enemies.agents().is_empty());
}
