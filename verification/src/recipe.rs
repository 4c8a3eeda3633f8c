//! The body plan of a minion: which part hangs where.
use crate::flags::{
    Flags, ACTUATOR, ARM, BELLY, BRAKE, HEAD, JOINT, LEFT, LEG, MIDDLE, RIGHT, RUDDER, SENSOR,
    TAIL, THRUSTER,
};
use crate::agent::Step;
use crate::geometry::{Position, Transform};
use crate::obj::{Mesh, SegmentIndex, Shape, Winding};
use vstd::prelude::*;

verus! {

/// The kinds of part a minion is made of, besides its torso.
#[derive(Clone, Copy, Debug, PartialEq, Eq, Structural)]
pub enum Part {
    Arm,
    Head,
    /// The belly segment with this number, counted from the torso.
    Belly(usize),
    Leg,
    Tail,
}

/// On which side of its parent a part sits.
#[derive(Clone, Copy, Debug, PartialEq, Eq, Structural)]
pub enum Side {
    Middle,
    Left,
    Right,
}

impl Side {
    /// The winding of the outline of a part on this side: counter-clockwise
    /// on the left, clockwise elsewhere.
    pub open spec fn spec_winding(self) -> Winding {
        match self {
            Side::Left => Winding::CCW,
            _ => Winding::CW,
        }
    }

    /// The tag that marks a part as sitting on this side.
    pub open spec fn spec_tag(self) -> Flags {
        match self {
            Side::Middle => Flags { bits: MIDDLE },
            Side::Left => Flags { bits: LEFT },
            Side::Right => Flags { bits: RIGHT },
        }
    }

    pub fn winding(self) -> (w: Winding)
        ensures
            w == self.spec_winding(),
    {
        match self {
            Side::Left => Winding::CCW,
            _ => Winding::CW,
        }
    }

    pub fn tag(self) -> (f: Flags)
        ensures
            f == self.spec_tag(),
    {
        match self {
            Side::Middle => Flags::from_bits(MIDDLE),
            Side::Left => Flags::from_bits(LEFT),
            Side::Right => Flags::from_bits(RIGHT),
        }
    }
}

/// One line of a body plan: hang `part` on segment `parent_index`, `offset`
/// points round the parent's outline.
#[derive(Clone, Copy, Debug, PartialEq, Eq, Structural)]
pub struct Placement {
    pub parent_index: SegmentIndex,
    pub offset: isize,
    pub part: Part,
    pub side: Side,
    pub flags: Flags,
}

/// One belly segment of a plan: its shape, and whether it grows arms.
#[derive(Clone, Copy, Debug, PartialEq)]
pub struct Belly<S> {
    pub shape: Shape<S>,
    pub arms: bool,
}

/// The shapes a minion is made of, besides its bellies.
#[derive(Clone, Copy, Debug, PartialEq)]
pub struct Parts<S> {
    pub torso: Shape<S>,
    pub arm: Shape<S>,
    pub head: Shape<S>,
    pub leg: Shape<S>,
    pub tail: Shape<S>,
}

impl<S: Copy> Parts<S> {
    /// The shape that `part` is made of.
    pub open spec fn spec_shape_of(self, part: Part, bellies: Seq<Belly<S>>) -> Shape<S> {
        match part {
            Part::Arm => self.arm,
            Part::Head => self.head,
            Part::Belly(k) => bellies[k as int].shape,
            Part::Leg => self.leg,
            Part::Tail => self.tail,
        }
    }

    /// The shape that `part` is made of.
    pub fn shape_of(&self, part: Part, bellies: &Vec<Belly<S>>) -> (shape: Shape<S>)
        requires
            known(part, bellies@.len()),
        ensures
            shape == self.spec_shape_of(part, bellies@),
    {
        match part {
            Part::Arm => self.arm,
            Part::Head => self.head,
            Part::Belly(k) => bellies[k].shape,
            Part::Leg => self.leg,
            Part::Tail => self.tail,
        }
    }
}

/// What the host has worked out for one segment of a plan: its outline and
/// its pose.
#[derive(Clone, Debug, PartialEq)]
pub struct Piece<S> {
    pub vertices: Vec<Position<S>>,
    pub transform: Transform<S>,
}

/// The builder step that carries out `line` with a part of the given shape,
/// outline and pose.
pub open spec fn line_step<S: Copy>(line: Placement, shape: Shape<S>, piece: Piece<S>) -> Step<S> {
    Step::Add {
        parent_index: line.parent_index,
        offset: line.offset,
        mesh: Mesh { shape, vertices: piece.vertices, winding: line.side.spec_winding() },
        transform: piece.transform,
        flags: line.flags.or(line.side.spec_tag()),
    }
}

/// The builder steps that make a minion: the torso at the given pose, then
/// the lines of its plan, each with the piece the host worked out for it.
pub open spec fn minion_steps<S: Copy>(
    parts: Parts<S>,
    bellies: Seq<Belly<S>>,
    position: Position<S>,
    angle: S,
    torso_outline: Vec<Position<S>>,
    pieces: Seq<Piece<S>>,
) -> Seq<Step<S>> {
    let plan = minion_plan_of(parts.torso, bellies);
    seq![
        Step::Start {
            position,
            angle,
            mesh: Mesh { shape: parts.torso, vertices: torso_outline, winding: Winding::CW },
        },
    ] + Seq::new(
        plan.len(),
        |j: int| line_step(plan[j], parts.spec_shape_of(plan[j].part, bellies), pieces[j]),
    )
}

/// Whether the outlines fit the plan: every shape is valid, there is one
/// piece for each line of the plan, and every outline has as many points as
/// the shape of its part prescribes.
pub open spec fn fits<S: Copy>(
    parts: Parts<S>,
    bellies: Seq<Belly<S>>,
    torso_outline: Seq<Position<S>>,
    pieces: Seq<Piece<S>>,
) -> bool {
    let plan = minion_plan_of(parts.torso, bellies);
    &&& parts.torso.wf()
    &&& torso_outline.len() == parts.torso.spec_length()
    &&& pieces.len() == plan.len()
    &&& forall|j: int|
        0 <= j < plan.len() ==> {
            let shape = parts.spec_shape_of((#[trigger] plan[j]).part, bellies);
            shape.wf() && pieces[j].vertices@.len() == shape.spec_length()
        }
}

/// The line that hangs `part` on segment `parent_index`, `offset` points
/// round, on the given side and with the given tags.
pub open spec fn line(
    parent_index: int,
    offset: int,
    part: Part,
    side: Side,
    bits: u32,
) -> Placement {
    Placement {
        parent_index: parent_index as usize,
        offset: offset as isize,
        part,
        side,
        flags: Flags { bits },
    }
}

/// The offset of the point halfway round the outline of `shape`.
pub open spec fn mid_of<S: Copy>(shape: Shape<S>) -> int {
    (shape.spec_length() / 2) as int
}

/// The front of every minion: an arm on either side of the torso, and a head
/// with a rudder on either side. The torso is segment 0, the head segment 3.
pub open spec fn front() -> Seq<Placement> {
    seq![
        line(0, 2, Part::Arm, Side::Right, ARM | JOINT | ACTUATOR | RUDDER),
        line(0, -2, Part::Arm, Side::Left, ARM | JOINT | ACTUATOR | RUDDER),
        line(0, 0, Part::Head, Side::Middle, HEAD | SENSOR),
        line(3, 1, Part::Head, Side::Right, HEAD | ACTUATOR | RUDDER),
        line(3, 2, Part::Head, Side::Left, HEAD | ACTUATOR | RUDDER),
    ]
}

/// A pair of arms on segment `parent`.
pub open spec fn arms(parent: int) -> Seq<Placement> {
    seq![
        line(parent, 2, Part::Arm, Side::Right, ARM | ACTUATOR | RUDDER),
        line(parent, -2, Part::Arm, Side::Left, ARM | ACTUATOR | RUDDER),
    ]
}

/// The rear of every minion, hung on the last segment of the spine: a leg on
/// either side of the point halfway round, and a tail on that point.
pub open spec fn rear(parent: int, mid: int) -> Seq<Placement> {
    seq![
        line(parent, mid - 1, Part::Leg, Side::Right, LEG | ACTUATOR | THRUSTER),
        line(parent, -(mid - 1), Part::Leg, Side::Left, LEG | ACTUATOR | THRUSTER),
        line(parent, mid, Part::Tail, Side::Middle, TAIL | ACTUATOR | BRAKE),
    ]
}

/// The bellies from number `k` on, followed by the rear. The spine so far
/// ends in segment `parent`, on whose halfway point (`mid`) the next belly
/// hangs; `next` is the index that the next segment will get.
pub open spec fn spine<S: Copy>(
    bellies: Seq<Belly<S>>,
    k: int,
    parent: int,
    mid: int,
    next: int,
) -> Seq<Placement>
    decreases bellies.len() - k,
{
    if k < 0 || k >= bellies.len() {
        rear(parent, mid)
    } else {
        let belly = seq![line(parent, mid, Part::Belly(k as usize), Side::Middle, BELLY | JOINT)];
        let limbs = if bellies[k].arms {
            arms(next)
        } else {
            Seq::empty()
        };
        belly + limbs + spine(
            bellies,
            k + 1,
            next,
            mid_of(bellies[k].shape),
            next + 1 + limbs.len(),
        )
    }
}

/// The plan of a minion with the given torso and bellies. Line `j` of the
/// plan makes segment `j + 1` of the body; the torso itself is segment 0.
pub open spec fn minion_plan_of<S: Copy>(torso: Shape<S>, bellies: Seq<Belly<S>>) -> Seq<
    Placement,
> {
    front() + spine(bellies, 0, 0, mid_of(torso), 6)
}

/// Whether `part` is something a plan for `count` bellies may name: any
/// part, but a belly only with a number below `count`.
pub open spec fn known(part: Part, count: nat) -> bool {
    match part {
        Part::Belly(k) => k < count,
        _ => true,
    }
}

/// The spine has three lines at least and three for each belly at most
/// besides. Every line hangs its part on a segment that exists by then: on
/// the spine's current end, or on a segment the spine itself has made. And
/// every belly it names is one of `bellies`.
pub proof fn lemma_spine<S: Copy>(
    bellies: Seq<Belly<S>>,
    k: int,
    parent: int,
    mid: int,
    next: int,
)
    requires
        0 <= k <= bellies.len(),
        0 <= parent < next,
        next + 3 * (bellies.len() - k) + 3 <= usize::MAX,
    ensures
        3 <= spine(bellies, k, parent, mid, next).len() <= 3 * (bellies.len() - k) + 3,
        forall|j: int|
            0 <= j < spine(bellies, k, parent, mid, next).len() ==> {
                let line = #[trigger] spine(bellies, k, parent, mid, next)[j];
                line.parent_index < next + j && known(line.part, bellies.len())
            },
    decreases bellies.len() - k,
{
    if k < bellies.len() {
        let limbs = if bellies[k].arms {
            arms(next)
        } else {
            Seq::empty()
        };
        let shift = 1 + limbs.len() as int;
        lemma_spine(bellies, k + 1, next, mid_of(bellies[k].shape), next + shift);
    }
}

/// A plan has eight lines at least, and three for each belly at most
/// besides. Every line hangs its part on a segment that an earlier line, or
/// the torso, has made, and every belly it names is one of `bellies`.
pub proof fn lemma_plan<S: Copy>(torso: Shape<S>, bellies: Seq<Belly<S>>)
    requires
        3 * bellies.len() + 9 <= usize::MAX,
    ensures
        8 <= minion_plan_of(torso, bellies).len() <= 3 * bellies.len() + 8,
        forall|j: int|
            0 <= j < minion_plan_of(torso, bellies).len() ==> {
                let line = #[trigger] minion_plan_of(torso, bellies)[j];
                line.parent_index <= j && known(line.part, bellies.len())
            },
{
    lemma_spine(bellies, 0, 0, mid_of(torso), 6);
}

fn place(parent_index: usize, offset: isize, part: Part, side: Side, bits: u32) -> (p: Placement)
    ensures
        p == line(parent_index as int, offset as int, part, side, bits),
{
    Placement { parent_index, offset, part, side, flags: Flags::from_bits(bits) }
}

/// Lays out the plan of a minion: the front, then each belly in turn, hung on
/// the halfway point of the one before, with a pair of arms where asked for,
/// then the rear on the last belly.
pub fn minion_plan<S: Copy>(torso: &Shape<S>, bellies: &Vec<Belly<S>>) -> (plan: Vec<Placement>)
    requires
        3 * bellies@.len() + 9 <= usize::MAX,
    ensures
        plan@ == minion_plan_of(*torso, bellies@),
{
    let mut plan: Vec<Placement> = Vec::new();
    plan.push(place(0, 2, Part::Arm, Side::Right, ARM | JOINT | ACTUATOR | RUDDER));
    plan.push(place(0, -2, Part::Arm, Side::Left, ARM | JOINT | ACTUATOR | RUDDER));
    plan.push(place(0, 0, Part::Head, Side::Middle, HEAD | SENSOR));
    plan.push(place(3, 1, Part::Head, Side::Right, HEAD | ACTUATOR | RUDDER));
    plan.push(place(3, 2, Part::Head, Side::Left, HEAD | ACTUATOR | RUDDER));
    assert(plan@ =~= front());
    let mut belly: usize = 0;
    let mut belly_mid: isize = torso.mid();
    let mut k: usize = 0;
    while k < bellies.len()
        invariant
            k <= bellies@.len(),
            3 * bellies@.len() + 9 <= usize::MAX,
            plan@.len() <= 3 * k + 5,
            belly <= plan@.len(),
            0 <= belly_mid <= 255,
            minion_plan_of(*torso, bellies@) == plan@ + spine(
                bellies@,
                k as int,
                belly as int,
                belly_mid as int,
                (plan@.len() + 1) as int,
            ),
        decreases bellies@.len() - k,
    {
        let ghost before = plan@;
        let ghost next = (plan@.len() + 1) as int;
        let ghost parent = belly as int;
        let ghost mid = belly_mid as int;
        plan.push(place(belly, belly_mid, Part::Belly(k), Side::Middle, BELLY | JOINT));
        belly = plan.len();
        belly_mid = bellies[k].shape.mid();
        if bellies[k].arms {
            plan.push(place(belly, 2, Part::Arm, Side::Right, ARM | ACTUATOR | RUDDER));
            plan.push(place(belly, -2, Part::Arm, Side::Left, ARM | ACTUATOR | RUDDER));
        }
        proof {
            let limbs = if bellies@[k as int].arms {
                arms(next)
            } else {
                Seq::empty()
            };
            let head = seq![line(parent, mid, Part::Belly(k), Side::Middle, BELLY | JOINT)];
            let rest = spine(
                bellies@,
                k + 1,
                next,
                mid_of(bellies@[k as int].shape),
                (next + 1 + limbs.len()) as int,
            );
            assert(spine(bellies@, k as int, parent, mid, next) == head + limbs + rest);
            assert(plan@ =~= before + head + limbs);
            assert(before + (head + limbs + rest) =~= (before + head + limbs) + rest);
        }
        k = k + 1;
    }
    let ghost before = plan@;
    plan.push(place(belly, belly_mid - 1, Part::Leg, Side::Right, LEG | ACTUATOR | THRUSTER));
    plan.push(place(belly, -(belly_mid - 1), Part::Leg, Side::Left, LEG | ACTUATOR | THRUSTER));
    plan.push(place(belly, belly_mid, Part::Tail, Side::Middle, TAIL | ACTUATOR | BRAKE));
    proof {
        assert(plan@ =~= before + rear(belly as int, belly_mid as int));
    }
    plan
}

/// Tells whether the outlines fit the plan for the given parts and bellies.
pub fn fit<S: Copy>(
    parts: &Parts<S>,
    bellies: &Vec<Belly<S>>,
    torso_outline: &Vec<Position<S>>,
    pieces: &Vec<Piece<S>>,
) -> (r: bool)
    requires
        3 * bellies@.len() + 9 <= usize::MAX,
    ensures
        r == fits(*parts, bellies@, torso_outline@, pieces@),
{
    let plan = minion_plan(&parts.torso, bellies);
    proof {
        lemma_plan(parts.torso, bellies@);
    }
    if !parts.torso.is_wf() || torso_outline.len() != parts.torso.length() || pieces.len()
        != plan.len() {
        return false;
    }
    let n: usize = plan.len();
    let mut j: usize = 0;
    while j < n
        invariant
            n == plan@.len(),
            n == pieces@.len(),
            plan@ == minion_plan_of(parts.torso, bellies@),
            forall|k: int|
                0 <= k < n ==> known((#[trigger] plan@[k]).part, bellies@.len()),
            j <= n,
            forall|k: int|
                0 <= k < j ==> {
                    let shape = parts.spec_shape_of((#[trigger] plan@[k]).part, bellies@);
                    shape.wf() && pieces@[k].vertices@.len() == shape.spec_length()
                },
        decreases n - j,
    {
        let shape = parts.shape_of(plan[j].part, bellies);
        if !shape.is_wf() || pieces[j].vertices.len() != shape.length() {
            return false;
        }
        j = j + 1;
    }
    true
}

} // verus!
