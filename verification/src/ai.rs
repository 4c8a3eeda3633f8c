//! The reflex controller: what a minion aims for, and what each of its
//! actuators resolves to do.
//!
//! A tick has two phases. `from_world` takes a snapshot of the beacons and of
//! the resources that are active. Then, for each minion, `retarget` settles
//! what the minion aims for and `actuate` writes an intent and a charge goal
//! into each actuator. Between the two the host measures, in its own
//! arithmetic, where the target lies and how the minion's personality
//! responds; it hands the outcome over as plain flags and ready-made vectors.
use crate::agent::{is_tree, well_placed, Agent};
use crate::flags::{Flags, ACTUATOR, BRAKE, LEFT, RIGHT, RUDDER, SENSOR, THRUSTER};
use crate::geometry::Position;
use crate::obj::Id;
use crate::segment::{AgentType, Contact, Intent, Segment, State};
use std::collections::HashMap;
use vstd::prelude::*;

verus! {

broadcast use vstd::std_specs::hash::group_hash_axioms;

/// One resource as the world reports it.
#[derive(Clone, Copy, Debug, PartialEq)]
pub struct Resource<S> {
    pub id: Id,
    pub position: Position<S>,
    pub active: bool,
}

/// What a minion aims for: a resource, if it has one in sight, and the place
/// it last headed for.
#[derive(Clone, Copy, Debug, PartialEq)]
pub struct Tracking<S> {
    pub target: Option<Id>,
    pub target_position: Position<S>,
}

impl<S: Copy> Tracking<S> {
    pub fn new(position: Position<S>) -> (t: Self)
        ensures
            t == (Tracking { target: None, target_position: position }),
    {
        Tracking { target: None, target_position: position }
    }

    pub fn target(&self) -> (t: Option<Id>)
        ensures
            t == self.target,
    {
        self.target
    }

    pub fn target_position(&self) -> (p: Position<S>)
        ensures
            p == self.target_position,
    {
        self.target_position
    }

    pub fn retarget(&mut self, target: Option<Id>, position: Position<S>)
        ensures
            *final(self) == (Tracking { target, target_position: position }),
    {
        self.target = target;
        self.target_position = position;
    }
}

/// Which responses of the personality exceed the trait they are held
/// against: the two turning responses against hunger, the thrusting response
/// against haste, the braking response against prudence.
#[derive(Clone, Copy, Debug, PartialEq, Eq, Structural)]
pub struct Urges {
    pub turn_left: bool,
    pub turn_right: bool,
    pub thrust: bool,
    pub brake: bool,
}

impl Urges {
    /// The urges, given for each of the four responses of the personality
    /// whether it exceeds its threshold: the first two are the urges to turn
    /// left and right, the third the urge to thrust, the fourth the urge to
    /// brake.
    pub fn from_excess(exceeds: [bool; 4]) -> (u: Urges)
        ensures
            u == (Urges {
                turn_left: exceeds[0],
                turn_right: exceeds[1],
                thrust: exceeds[2],
                brake: exceeds[3],
            }),
    {
        Urges {
            turn_left: exceeds[0],
            turn_right: exceeds[1],
            thrust: exceeds[2],
            brake: exceeds[3],
        }
    }
}

/// The named traits of a personality.
#[derive(Clone, Copy, Debug, PartialEq)]
pub struct Traits<S> {
    pub hunger: S,
    pub haste: S,
    pub prudence: S,
    pub fear: S,
    pub rest: S,
    pub thrust: S,
}

impl<S: Copy> Traits<S> {
    /// The threshold each of the four responses is held against, in order:
    /// hunger for the two turning responses, haste for the thrusting one and
    /// prudence for the braking one.
    pub fn thresholds(&self) -> (t: [S; 4])
        ensures
            t@ == seq![self.hunger, self.hunger, self.haste, self.prudence],
    {
        let t = [self.hunger, self.hunger, self.haste, self.prudence];
        proof {
            assert(t@ =~= seq![self.hunger, self.hunger, self.haste, self.prudence]);
        }
        t
    }

    /// The charge goals that go with these traits.
    pub fn drive(&self) -> (d: Drive<S>)
        ensures
            d == (Drive { rest: self.rest, thrust: self.thrust }),
    {
        Drive { rest: self.rest, thrust: self.thrust }
    }
}

/// The forces one actuator can exert this tick: along its heading, against
/// it, and along it scaled by fear.
#[derive(Clone, Copy, Debug, PartialEq)]
pub struct Forces<S> {
    pub forward: Position<S>,
    pub reverse: Position<S>,
    pub flee: Position<S>,
}

/// The charge goals of a personality: at rest, and under thrust.
#[derive(Clone, Copy, Debug, PartialEq)]
pub struct Drive<S> {
    pub rest: S,
    pub thrust: S,
}

/// The targets of a snapshot: each active resource under its identity. Where
/// two active resources share an identity the later one counts.
pub open spec fn active_targets<S>(resources: Seq<Resource<S>>) -> Map<Id, Position<S>>
    decreases resources.len(),
{
    if resources.len() == 0 {
        Map::empty()
    } else {
        let before = active_targets(resources.drop_last());
        let last = resources.last();
        if last.active {
            before.insert(last.id, last.position)
        } else {
            before
        }
    }
}

/// Row `i` of `resources` reports an active resource of identity `id`.
pub open spec fn reports<S>(resources: Seq<Resource<S>>, i: int, id: Id) -> bool {
    0 <= i < resources.len() && resources[i].active && resources[i].id == id
}

/// The targets of a snapshot are the identities of its active resources, and
/// each target lies where an active resource of that identity lies.
pub proof fn lemma_active_targets<S>(resources: Seq<Resource<S>>)
    ensures
        forall|id: Id| #[trigger]
            active_targets(resources).contains_key(id) <==> exists|i: int|
                reports(resources, i, id),
        forall|id: Id| #[trigger]
            active_targets(resources).contains_key(id) ==> exists|i: int|
                reports(resources, i, id) && resources[i].position == active_targets(
                    resources,
                )[id],
    decreases resources.len(),
{
    if resources.len() > 0 {
        let front = resources.drop_last();
        let last = resources.last();
        let n = front.len() as int;
        lemma_active_targets(front);
        assert forall|id: Id| #[trigger]
            active_targets(resources).contains_key(id) implies exists|i: int|
            reports(resources, i, id) && resources[i].position == active_targets(
                resources,
            )[id] by {
            if last.active && last.id == id {
                assert(reports(resources, n, id));
            } else {
                assert(active_targets(front).contains_key(id));
                let i = choose|i: int|
                    reports(front, i, id) && front[i].position == active_targets(front)[id];
                assert(reports(resources, i, id));
            }
        }
        assert forall|id: Id| (exists|i: int| reports(resources, i, id)) implies #[trigger]
            active_targets(resources).contains_key(id) by {
            let i = choose|i: int| reports(resources, i, id);
            if i < n {
                assert(reports(front, i, id));
                assert(active_targets(front).contains_key(id));
            }
        }
    }
}

/// The first of `ids` that `targets` knows, if any.
pub open spec fn first_known<S>(targets: Map<Id, Position<S>>, ids: Seq<Id>) -> Option<Id>
    decreases ids.len(),
{
    if ids.len() == 0 {
        None
    } else if targets.contains_key(ids[0]) {
        Some(ids[0])
    } else {
        first_known(targets, ids.drop_first())
    }
}

/// Place `i` holds the least of `ranges`, and no earlier place holds the same.
pub open spec fn is_nearest(ranges: Seq<u64>, i: int) -> bool {
    &&& 0 <= i < ranges.len()
    &&& forall|j: int| 0 <= j < ranges.len() ==> ranges[i] <= #[trigger] ranges[j]
    &&& forall|j: int| 0 <= j < i ==> ranges[i] < #[trigger] ranges[j]
}

/// The place of the least of `ranges`, the first such place where several
/// hold the least. Zero when `ranges` is empty.
pub open spec fn nearest(ranges: Seq<u64>) -> int
    decreases ranges.len(),
{
    if ranges.len() <= 1 {
        0
    } else {
        let best = nearest(ranges.drop_last());
        if ranges.last() < ranges[best] {
            ranges.len() - 1
        } else {
            best
        }
    }
}

/// `nearest` is the one place that `is_nearest` describes.
pub proof fn lemma_nearest(ranges: Seq<u64>)
    requires
        ranges.len() > 0,
    ensures
        is_nearest(ranges, nearest(ranges)),
        forall|i: int| is_nearest(ranges, i) ==> i == nearest(ranges),
    decreases ranges.len(),
{
    if ranges.len() > 1 {
        let front = ranges.drop_last();
        lemma_nearest(front);
        let best = nearest(front);
        assert forall|j: int| 0 <= j < front.len() implies front[j] == ranges[j] by {}
        let pick = nearest(ranges);
        assert(is_nearest(ranges, pick)) by {
            assert forall|j: int| 0 <= j < ranges.len() implies ranges[pick]
                <= #[trigger] ranges[j] by {
                if j < front.len() {
                    assert(front[best] <= front[j]);
                }
            }
            assert forall|j: int| 0 <= j < pick implies ranges[pick] < #[trigger] ranges[j] by {
                if pick == best {
                    assert(front[best] < front[j]);
                } else {
                    assert(front[best] <= front[j]);
                }
            }
        }
    }
    let pick = nearest(ranges);
    assert forall|i: int| is_nearest(ranges, i) implies i == pick by {
        if i < pick {
            assert(ranges[pick] < ranges[i]);
            assert(ranges[i] <= ranges[pick]);
        } else if pick < i {
            assert(ranges[i] < ranges[pick]);
            assert(ranges[pick] <= ranges[i]);
        }
    }
}

/// The beacon to fall back on from `position`: the nearest one, or `position`
/// itself where there is no beacon.
pub open spec fn fallback<S>(
    beacons: Seq<Position<S>>,
    ranges: Seq<u64>,
    position: Position<S>,
) -> Position<S> {
    if beacons.len() == 0 {
        position
    } else {
        beacons[nearest(ranges)]
    }
}

/// What a minion aims for after a look at the snapshot.
///
/// A minion without a target takes the first resource in range that the
/// snapshot knows. A minion with a target keeps it as long as the snapshot
/// still knows it, and follows it to where it is now. A minion left without
/// a target heads for the beacon nearest to the place it last headed for.
pub open spec fn resolved<S>(
    targets: Map<Id, Position<S>>,
    beacons: Seq<Position<S>>,
    tracking: Tracking<S>,
    in_range: Seq<Id>,
    beacon_ranges: Seq<u64>,
) -> Tracking<S> {
    let found = match tracking.target {
        None => first_known(targets, in_range),
        Some(id) => if targets.contains_key(id) {
            Some(id)
        } else {
            None
        },
    };
    match found {
        Some(id) => Tracking { target: Some(id), target_position: targets[id] },
        None => Tracking {
            target: None,
            target_position: fallback(beacons, beacon_ranges, tracking.target_position),
        },
    }
}

/// Whether `contact` is a touch to run away from: any touch but that of a
/// resource.
pub open spec fn scares(contact: Option<Contact>) -> bool {
    match contact {
        Some(c) => c.kind != AgentType::Resource,
        None => false,
    }
}

/// What an actuator with the tags `flags` resolves to do. The rules are
/// tried in this order, and the first that applies decides:
/// a scare makes it run away; a left rudder turns when urged to turn left;
/// a right rudder turns, the same way, when urged to turn right; a thruster
/// pushes when urged to thrust; a brake brakes when urged to brake;
/// otherwise it idles.
pub open spec fn decided<S>(
    flags: Flags,
    last_touched: Option<Contact>,
    urges: Urges,
    forces: Forces<S>,
) -> Intent<S> {
    if scares(last_touched) {
        Intent::RunAway(forces.flee)
    } else if flags.has(Flags { bits: RUDDER | LEFT }) && urges.turn_left {
        Intent::Move(forces.reverse)
    } else if flags.has(Flags { bits: RUDDER | RIGHT }) && urges.turn_right {
        Intent::Move(forces.reverse)
    } else if flags.has(Flags { bits: THRUSTER }) && urges.thrust {
        Intent::Move(forces.forward)
    } else if flags.has(Flags { bits: BRAKE }) && urges.brake {
        Intent::Brake(forces.reverse)
    } else {
        Intent::Idle
    }
}

/// The charge state after `intent` is taken up: idling aims for the rest
/// charge, moving and braking aim for the thrust charge, and running away
/// forces the thrust charge at once.
pub open spec fn taken_up<S: Copy>(
    state: State<S>,
    intent: Intent<S>,
    drive: Drive<S>,
) -> State<S> {
    let charged = match intent {
        Intent::Idle => State { target_charge: drive.rest, ..state },
        Intent::Move(_) => State { target_charge: drive.thrust, ..state },
        Intent::Brake(_) => State { target_charge: drive.thrust, ..state },
        Intent::RunAway(_) => state.forced(drive.thrust),
    };
    State { intent, ..charged }
}

/// A segment after one pass of the controller: an actuator takes up what it
/// resolves to do, any other segment stays as it is.
pub open spec fn driven<S: Copy>(
    segment: Segment<S>,
    urges: Urges,
    drive: Drive<S>,
    forces: Forces<S>,
) -> Segment<S> {
    if segment.flags.has(Flags { bits: ACTUATOR }) {
        Segment {
            state: taken_up(
                segment.state,
                decided(segment.flags, segment.state.last_touched, urges, forces),
                drive,
            ),
            ..segment
        }
    } else {
        segment
    }
}

/// Whether a body has a segment to sense with.
pub open spec fn senses<S: Copy>(segments: Seq<Segment<S>>) -> bool {
    Agent::has_tagged(segments, Flags { bits: SENSOR })
}

/// The segments of a body after one pass of the controller. A body without
/// a sensor is passed over.
pub open spec fn actuated<S: Copy>(
    segments: Seq<Segment<S>>,
    urges: Urges,
    drive: Drive<S>,
    forces: Seq<Forces<S>>,
) -> Seq<Segment<S>> {
    if senses(segments) {
        Seq::new(segments.len(), |i: int| driven(segments[i], urges, drive, forces[i]))
    } else {
        segments
    }
}

/// A scared actuator runs away, whatever it is urged to do and whatever
/// tags it carries.
pub proof fn lemma_scare_comes_first<S: Copy>(
    flags: Flags,
    contact: Contact,
    urges: Urges,
    forces: Forces<S>,
)
    requires
        contact.kind != AgentType::Resource,
    ensures
        decided(flags, Some(contact), urges, forces) == Intent::RunAway(forces.flee),
{
}

/// In a body that senses, an actuator that was last touched by anything but
/// a resource ends the pass running away with its charge forced to the
/// thrust charge, whatever the urges are.
pub proof fn lemma_scared_actuator_runs<S: Copy>(
    segments: Seq<Segment<S>>,
    urges: Urges,
    drive: Drive<S>,
    forces: Seq<Forces<S>>,
    i: int,
)
    requires
        0 <= i < segments.len(),
        senses(segments),
        segments[i].flags.has(Flags { bits: ACTUATOR }),
        scares(segments[i].state.last_touched),
    ensures
        actuated(segments, urges, drive, forces)[i].state.intent == Intent::RunAway(forces[i].flee),
        actuated(segments, urges, drive, forces)[i].state.charge == drive.thrust,
{
}

/// The controller touches nothing but charge states: a tree stays a tree, of
/// the same length.
pub proof fn lemma_actuated_keeps_tree<S: Copy>(
    segments: Seq<Segment<S>>,
    urges: Urges,
    drive: Drive<S>,
    forces: Seq<Forces<S>>,
)
    requires
        is_tree(segments),
    ensures
        is_tree(actuated(segments, urges, drive, forces)),
        actuated(segments, urges, drive, forces).len() == segments.len(),
{
    let after = actuated(segments, urges, drive, forces);
    assert forall|i: int| 0 <= i < after.len() implies well_placed(after, i) by {
        assert(well_placed(segments, i));
    }
}

/// Resolves what an actuator with the tags `flags` does this tick.
pub fn decide<S: Copy>(
    flags: Flags,
    last_touched: Option<Contact>,
    urges: &Urges,
    forces: &Forces<S>,
) -> (intent: Intent<S>)
    ensures
        intent == decided(flags, last_touched, *urges, *forces),
{
    let scared: bool = match last_touched {
        Some(contact) => match contact.kind {
            AgentType::Resource => false,
            _ => true,
        },
        None => false,
    };
    if scared {
        Intent::RunAway(forces.flee)
    } else if flags.contains(Flags::from_bits(RUDDER | LEFT)) && urges.turn_left {
        Intent::Move(forces.reverse)
    } else if flags.contains(Flags::from_bits(RUDDER | RIGHT)) && urges.turn_right {
        Intent::Move(forces.reverse)
    } else if flags.contains(Flags::from_bits(THRUSTER)) && urges.thrust {
        Intent::Move(forces.forward)
    } else if flags.contains(Flags::from_bits(BRAKE)) && urges.brake {
        Intent::Brake(forces.reverse)
    } else {
        Intent::Idle
    }
}

/// Takes `intent` up into `state`: sets the charge goal that goes with it,
/// or forces the charge when running away, and records the intent.
pub fn take_up<S: Copy>(state: &mut State<S>, intent: Intent<S>, drive: &Drive<S>)
    ensures
        *final(state) == taken_up(*old(state), intent, *drive),
{
    match intent {
        Intent::Idle => state.set_target_charge(drive.rest),
        Intent::Move(_) => state.set_target_charge(drive.thrust),
        Intent::Brake(_) => state.set_target_charge(drive.thrust),
        Intent::RunAway(_) => state.set_charge(drive.thrust),
    }
    state.intent = intent;
}

/// The snapshot that the controller decides on.
pub struct AiSystem<S> {
    pub beacons: Vec<Position<S>>,
    pub targets: HashMap<Id, Position<S>>,
}

impl<S: Copy> Default for AiSystem<S> {
    fn default() -> (ai: Self)
        ensures
            ai.beacons@ == Seq::<Position<S>>::empty(),
            ai.targets@ == Map::<Id, Position<S>>::empty(),
    {
        AiSystem { beacons: Vec::new(), targets: HashMap::new() }
    }
}

impl<S: Copy> AiSystem<S> {
    /// Takes the snapshot: the places of all emitters become the beacons, the
    /// active resources become the targets.
    pub fn from_world(&mut self, emitters: &Vec<Position<S>>, resources: &Vec<Resource<S>>)
        ensures
            final(self).beacons@ == emitters@,
            final(self).targets@ == active_targets(resources@),
            forall|id: Id| #[trigger]
                final(self).targets@.contains_key(id) <==> exists|i: int|
                    reports(resources@, i, id),
    {
        proof {
            lemma_active_targets(resources@);
        }
        let mut beacons: Vec<Position<S>> = Vec::new();
        let mut i: usize = 0;
        while i < emitters.len()
            invariant
                i <= emitters@.len(),
                beacons@ == emitters@.take(i as int),
            decreases emitters@.len() - i,
        {
            beacons.push(emitters[i]);
            proof {
                assert(emitters@.take(i + 1) =~= emitters@.take(i as int).push(
                    emitters@[i as int],
                ));
            }
            i = i + 1;
        }
        proof {
            assert(emitters@.take(emitters@.len() as int) =~= emitters@);
        }
        let mut targets: HashMap<Id, Position<S>> = HashMap::new();
        let mut k: usize = 0;
        while k < resources.len()
            invariant
                k <= resources@.len(),
                targets@ == active_targets(resources@.take(k as int)),
            decreases resources@.len() - k,
        {
            let resource = resources[k];
            proof {
                assert(resources@.take(k + 1).drop_last() =~= resources@.take(k as int));
            }
            if resource.active {
                targets.insert(resource.id, resource.position);
            }
            k = k + 1;
        }
        proof {
            assert(resources@.take(resources@.len() as int) =~= resources@);
        }
        self.beacons = beacons;
        self.targets = targets;
    }

    /// The beacon nearest to `position`, where `ranges` holds for each beacon,
    /// in order, a key that grows with its distance from `position`. Of
    /// several beacons at the least distance the first is taken. Without
    /// beacons the answer is `position` itself.
    pub fn nearest_beacon(&self, ranges: &Vec<u64>, position: Position<S>) -> (p: Position<S>)
        requires
            ranges@.len() == self.beacons@.len(),
        ensures
            p == fallback(self.beacons@, ranges@, position),
            self.beacons@.len() > 0 ==> is_nearest(ranges@, nearest(ranges@)),
    {
        let n: usize = self.beacons.len();
        if n == 0 {
            return position;
        }
        proof {
            lemma_nearest(ranges@);
        }
        let mut best: usize = 0;
        let mut i: usize = 1;
        proof {
            assert(ranges@.take(1).drop_last() =~= Seq::<u64>::empty());
        }
        while i < n
            invariant
                n == ranges@.len(),
                1 <= i <= n,
                best == nearest(ranges@.take(i as int)),
                best < i,
            decreases n - i,
        {
            proof {
                assert(ranges@.take(i + 1).drop_last() =~= ranges@.take(i as int));
            }
            if ranges[i] < ranges[best] {
                best = i;
            }
            i = i + 1;
        }
        proof {
            assert(ranges@.take(n as int) =~= ranges@);
        }
        self.beacons[best]
    }

    /// Settles what a minion aims for. `in_range` lists the targets of the
    /// snapshot that lie within radar range of the minion's sensor, in the
    /// order the host came across them; `beacon_ranges` holds for each
    /// beacon, in order, a key that grows with its distance from the place
    /// the minion last headed for. A body without a sensor is passed over.
    pub fn retarget(
        &self,
        agent: &Agent<S>,
        tracking: &mut Tracking<S>,
        in_range: &Vec<Id>,
        beacon_ranges: &Vec<u64>,
    )
        requires
            beacon_ranges@.len() == self.beacons@.len(),
        ensures
            *final(tracking) == if senses(agent@) {
                resolved(self.targets@, self.beacons@, *old(tracking), in_range@, beacon_ranges@)
            } else {
                *old(tracking)
            },
    {
        if agent.first_segment(Flags::from_bits(SENSOR)).is_none() {
            return ;
        }
        let new_target: Option<(Id, Position<S>)> = match tracking.target {
            None => self.first_in_range(in_range),
            Some(id) => match self.targets.get(&id) {
                Some(position) => Some((id, *position)),
                None => None,
            },
        };
        match new_target {
            None => {
                let beacon = self.nearest_beacon(beacon_ranges, tracking.target_position);
                tracking.retarget(None, beacon);
            },
            Some((id, position)) => {
                tracking.retarget(Some(id), position);
            },
        }
    }

    /// The first of `in_range` that the snapshot knows, with its place.
    fn first_in_range(&self, in_range: &Vec<Id>) -> (found: Option<(Id, Position<S>)>)
        ensures
            match found {
                Some((id, position)) => first_known(self.targets@, in_range@) == Some(id)
                    && self.targets@.contains_key(id) && position == self.targets@[id],
                None => first_known(self.targets@, in_range@).is_none(),
            },
    {
        let mut i: usize = 0;
        proof {
            assert(in_range@.skip(0) =~= in_range@);
        }
        while i < in_range.len()
            invariant
                i <= in_range@.len(),
                first_known(self.targets@, in_range@) == first_known(
                    self.targets@,
                    in_range@.skip(i as int),
                ),
            decreases in_range@.len() - i,
        {
            let id: Id = in_range[i];
            proof {
                assert(in_range@.skip(i as int).drop_first() =~= in_range@.skip(i + 1));
            }
            match self.targets.get(&id) {
                Some(position) => {
                    return Some((id, *position));
                },
                None => {},
            }
            i = i + 1;
        }
        None
    }

    /// Writes this tick's decisions into the actuators of `agent`: each
    /// actuator resolves what to do from its tags, its last touch and the
    /// urges, and takes that up. `forces` holds, for each segment in order,
    /// the forces it can exert. A body without a sensor is passed over.
    pub fn actuate(agent: &mut Agent<S>, urges: &Urges, drive: &Drive<S>, forces: &Vec<Forces<S>>)
        requires
            forces@.len() == old(agent)@.len(),
        ensures
            final(agent).spec_id() == old(agent).spec_id(),
            final(agent)@ == actuated(old(agent)@, *urges, *drive, forces@),
            old(agent).wf() ==> final(agent).wf(),
    {
        proof {
            if old(agent).wf() {
                lemma_actuated_keeps_tree(old(agent)@, *urges, *drive, forces@);
            }
        }
        if agent.first_segment(Flags::from_bits(SENSOR)).is_none() {
            return ;
        }
        let n: usize = agent.segments().len();
        let mut i: usize = 0;
        while i < n
            invariant
                n == old(agent)@.len(),
                n == forces@.len(),
                i <= n,
                agent.spec_id() == old(agent).spec_id(),
                agent@.len() == n,
                forall|k: int|
                    0 <= k < i ==> #[trigger] agent@[k] == driven(
                        old(agent)@[k],
                        *urges,
                        *drive,
                        forces@[k],
                    ),
                forall|k: int| i <= k < n ==> #[trigger] agent@[k] == old(agent)@[k],
            decreases n - i,
        {
            match agent.segment_mut(i) {
                Some(segment) => {
                    let flags: Flags = segment.flags;
                    if flags.contains(Flags::from_bits(ACTUATOR)) {
                        let intent = decide(flags, segment.state.last_touched, urges, &forces[i]);
                        take_up(&mut segment.state, intent, drive);
                    }
                },
                None => {},
            }
            i = i + 1;
        }
        proof {
            assert(agent@ =~= actuated(old(agent)@, *urges, *drive, forces@));
        }
    }
}

} // verus!
