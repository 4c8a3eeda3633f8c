//! A population of bodies, each known by the identity it was given at birth.
use crate::agent::{Agent, AgentBuilder, Make, Step};
use crate::geometry::Position;
use crate::obj::{Id, Livery, Material, Mesh, Shape, Winding};
use crate::recipe::{
    fits, known, lemma_plan, line_step, minion_plan, minion_plan_of, minion_steps, Belly, Parts,
    Piece,
};
use crate::segment::{Segment, State};
use rand::rngs::ThreadRng;
use rand::RngExt;
use std::collections::HashMap;
use vstd::prelude::*;

verus! {

broadcast use vstd::std_specs::hash::group_hash_axioms;

/// The generator of the `rand` crate that is local to the calling thread.
#[verifier::external_type_specification]
#[verifier::external_body]
pub struct ExThreadRng(ThreadRng);

/// `rand::rng`: a handle on the calling thread's generator. Nothing is
/// claimed of the handle. The call fails only where the system cannot seed
/// the generator.
#[verifier::external_body]
fn thread_rng() -> (rng: ThreadRng) {
    rand::rng()
}

/// `RngExt::random` at `i32`: the next word of the generator. Nothing is
/// claimed of the word: any `i32` may come back.
#[verifier::external_body]
fn next_i32(rng: &mut ThreadRng) -> (word: i32) {
    rng.random::<i32>()
}

/// `RngExt::random` at `u8`: the next byte of the generator. Nothing is
/// claimed of the byte: any `u8` may come back.
#[verifier::external_body]
fn next_u8(rng: &mut ThreadRng) -> (byte: u8) {
    rng.random::<u8>()
}

/// `HashMap::get_mut`: the entry under `k`, open for writing. Writing through
/// the reference replaces that entry and no other; without an entry under `k`
/// the map stays as it is.
#[verifier::external_body]
fn entry_mut<'a, V>(m: &'a mut HashMap<usize, V>, k: usize) -> (r: Option<&'a mut V>)
    ensures
        match r {
            Some(v) => old(m)@.contains_key(k) && *v == old(m)@[k] && final(m)@ == old(m)@.insert(
                k,
                *final(v),
            ),
            None => !old(m)@.contains_key(k) && final(m)@ == old(m)@,
        },
{
    m.get_mut(&k)
}

/// The remainder of `word` by `span`, with the sign of `word`.
pub open spec fn remainder(word: int, span: int) -> int {
    if word >= 0 {
        word % span
    } else {
        -((-word) % span)
    }
}

/// Folds a random word into the `max - min + 1` values that start at `min`.
/// A word that is not negative lands between `min` and `max`; a negative
/// word lands below `min` by the size of its remainder.
pub fn spread(word: i32, min: i32, max: i32) -> (r: i32)
    requires
        min <= max,
        max - min < i32::MAX,
        2 * min - max >= i32::MIN,
    ensures
        r == min + remainder(word as int, max - min + 1),
        word >= 0 ==> min <= r <= max,
        2 * min - max <= r <= max,
{
    let span: i32 = max - min + 1;
    let ghost w = word as int;
    let ghost s = span as int;
    proof {
        if w >= 0 {
            vstd::arithmetic::div_mod::lemma_mod_bound(w, s);
        } else {
            vstd::arithmetic::div_mod::lemma_mod_bound(-w, s);
        }
    }
    let rem: i32 = word % span;
    rem + min
}

/// Folds a random byte into the `max - min + 1` values from `min` to `max`.
pub fn spread_u8(byte: u8, min: u8, max: u8) -> (r: u8)
    requires
        min <= max,
        max - min < u8::MAX,
    ensures
        r == min + (byte as int) % (max - min + 1),
        min <= r <= max,
{
    let span: u8 = max - min + 1;
    byte % span + min
}

/// The source of chance behind the spawn recipes.
pub struct Randomizer {
    pub rng: ThreadRng,
}

impl Randomizer {
    pub fn new() -> (r: Self) {
        Randomizer { rng: thread_rng() }
    }

    /// A random integer around `min..=max`: one word of the generator, folded
    /// by `spread`.
    pub fn irand(&mut self, min: i32, max: i32) -> (r: i32)
        requires
            min <= max,
            max - min < i32::MAX,
            2 * min - max >= i32::MIN,
        ensures
            2 * min - max <= r <= max,
    {
        let word: i32 = next_i32(&mut self.rng);
        spread(word, min, max)
    }

    /// A random byte in `min..=max`: one byte of the generator, folded by
    /// `spread_u8`.
    pub fn irand_u8(&mut self, min: u8, max: u8) -> (r: u8)
        requires
            min <= max,
            max - min < u8::MAX,
        ensures
            min <= r <= max,
    {
        let byte: u8 = next_u8(&mut self.rng);
        spread_u8(byte, min, max)
    }

    /// Decides for each of `shapes`, by one draw in five, whether the belly
    /// made of it grows arms.
    pub fn bellies<S: Copy>(&mut self, shapes: &Vec<Shape<S>>) -> (bellies: Vec<Belly<S>>)
        ensures
            bellies@.len() == shapes@.len(),
            forall|k: int| 0 <= k < shapes@.len() ==> (#[trigger] bellies@[k]).shape == shapes@[k],
    {
        let mut bellies: Vec<Belly<S>> = Vec::new();
        let mut k: usize = 0;
        while k < shapes.len()
            invariant
                k <= shapes@.len(),
                bellies@.len() == k,
                forall|j: int| 0 <= j < k ==> (#[trigger] bellies@[j]).shape == shapes@[j],
            decreases shapes@.len() - k,
        {
            let arms: bool = self.irand(0, 4) == 0;
            bellies.push(Belly { shape: shapes[k], arms });
            k = k + 1;
        }
        bellies
    }
}

/// A population: a counter of the identities given out, and the bodies alive.
pub struct Flock<S> {
    pub seq: Id,
    pub rnd: Randomizer,
    pub agents: HashMap<Id, Agent<S>>,
}

impl<S: Copy> Flock<S> {
    /// Every body is filed under its own identity, and no identity is beyond
    /// the counter.
    pub open spec fn wf(self) -> bool {
        forall|id: Id| #[trigger]
            self.agents@.contains_key(id) ==> id <= self.seq && self.agents@[id].spec_id() == id
    }

    pub fn new() -> (f: Self)
        ensures
            f.seq == 0,
            f.agents@ == Map::<Id, Agent<S>>::empty(),
            f.wf(),
    {
        Flock { seq: 0, rnd: Randomizer::new(), agents: HashMap::new() }
    }

    pub fn get(&self, id: Id) -> (a: Option<&Agent<S>>)
        ensures
            match a {
                Some(agent) => self.agents@.contains_key(id) && *agent == self.agents@[id],
                None => !self.agents@.contains_key(id),
            },
    {
        self.agents.get(&id)
    }

    pub fn get_mut(&mut self, id: Id) -> (a: Option<&mut Agent<S>>)
        ensures
            final(self).seq == old(self).seq,
            match a {
                Some(agent) => old(self).agents@.contains_key(id) && *agent == old(self).agents@[id]
                    && final(self).agents@ == old(self).agents@.insert(id, *final(agent)),
                None => !old(self).agents@.contains_key(id) && final(self).agents@ == old(
                    self,
                ).agents@,
            },
    {
        entry_mut(&mut self.agents, id)
    }

    /// Gives out the next identity: one more than the last.
    pub fn next_id(&mut self) -> (id: Id)
        requires
            old(self).seq < usize::MAX,
        ensures
            id == old(self).seq + 1,
            final(self).seq == id,
            final(self).agents@ == old(self).agents@,
            old(self).wf() ==> final(self).wf() && !final(self).agents@.contains_key(id),
    {
        self.seq = self.seq + 1;
        self.seq
    }

    /// Files `agent` under its identity, in place of any body filed there.
    pub fn insert(&mut self, agent: Agent<S>) -> (id: Id)
        ensures
            id == agent.spec_id(),
            final(self).seq == old(self).seq,
            final(self).agents@ == old(self).agents@.insert(agent.spec_id(), agent),
            old(self).wf() && agent.spec_id() <= old(self).seq ==> final(self).wf(),
    {
        let id: Id = agent.id();
        self.agents.insert(id, agent);
        id
    }

    /// Spawns a resource: a body of a single segment of the given shape at
    /// `initial_pos`, under a fresh identity.
    pub fn new_resource(
        &mut self,
        initial_pos: Position<S>,
        angle: S,
        shape: &Shape<S>,
        vertices: Vec<Position<S>>,
        material: Material<S>,
        livery: Livery<S>,
        state: State<S>,
    ) -> (id: Id)
        requires
            old(self).seq < usize::MAX,
            shape.wf(),
            vertices@.len() == shape.spec_length(),
        ensures
            id == old(self).seq + 1,
            final(self).seq == id,
            final(self).agents@.dom() == old(self).agents@.dom().insert(id),
            forall|other: Id|
                other != id && old(self).agents@.contains_key(other) ==> final(self).agents@[other]
                    == old(self).agents@[other],
            final(self).agents@[id].spec_id() == id,
            final(self).agents@[id]@ == seq![
                (Make { material, livery, state }).root(
                    initial_pos,
                    angle,
                    Mesh { shape: *shape, vertices, winding: Winding::CW },
                ),
            ],
            final(self).agents@[id].wf(),
            old(self).wf() ==> final(self).wf(),
    {
        let id: Id = self.next_id();
        let mut builder = AgentBuilder::new(id, material, livery, state);
        builder.start(initial_pos, angle, shape, vertices);
        self.insert(builder.build())
    }

    /// Spawns a minion: a body assembled from the plan for the given torso
    /// and bellies, under a fresh identity. `pieces` holds, for each line of
    /// the plan in turn, the outline and the pose of the segment it makes.
    pub fn new_minion(
        &mut self,
        initial_pos: Position<S>,
        initial_angle: S,
        parts: &Parts<S>,
        bellies: &Vec<Belly<S>>,
        torso_outline: Vec<Position<S>>,
        pieces: Vec<Piece<S>>,
        material: Material<S>,
        livery: Livery<S>,
        state: State<S>,
    ) -> (id: Id)
        requires
            old(self).seq < usize::MAX,
            3 * bellies@.len() + 9 <= usize::MAX,
            fits(*parts, bellies@, torso_outline@, pieces@),
        ensures
            id == old(self).seq + 1,
            final(self).seq == id,
            final(self).agents@.dom() == old(self).agents@.dom().insert(id),
            forall|other: Id|
                other != id && old(self).agents@.contains_key(other) ==> final(self).agents@[other]
                    == old(self).agents@[other],
            final(self).agents@[id].spec_id() == id,
            final(self).agents@[id]@ == (Make { material, livery, state }).replay(
                minion_steps(*parts, bellies@, initial_pos, initial_angle, torso_outline, pieces@),
            ),
            final(self).agents@[id]@.len() == pieces@.len() + 1,
            final(self).agents@[id].wf(),
            old(self).wf() ==> final(self).wf(),
    {
        let ghost make = Make { material, livery, state };
        let ghost steps = minion_steps(
            *parts,
            bellies@,
            initial_pos,
            initial_angle,
            torso_outline,
            pieces@,
        );
        let ghost lines = minion_plan_of(parts.torso, bellies@);
        let plan = minion_plan(&parts.torso, bellies);
        proof {
            lemma_plan(parts.torso, bellies@);
        }
        let id: Id = self.next_id();
        let mut builder = AgentBuilder::new(id, material, livery, state);
        builder.start(initial_pos, initial_angle, &parts.torso, torso_outline);
        proof {
            assert(steps.take(1).drop_last() =~= Seq::<Step<S>>::empty());
            assert(make.replay(steps.take(1).drop_last()) == Seq::<Segment<S>>::empty());
        }
        let mut pieces = pieces;
        let ghost given = pieces@;
        let n: usize = plan.len();
        let mut j: usize = 0;
        while j < n
            invariant
                n == lines.len(),
                plan@ == lines,
                lines == minion_plan_of(parts.torso, bellies@),
                steps.len() == n + 1,
                forall|k: int|
                    0 <= k < n ==> #[trigger] steps[k + 1] == line_step(
                        lines[k],
                        parts.spec_shape_of(lines[k].part, bellies@),
                        given[k],
                    ),
                fits(*parts, bellies@, torso_outline@, given),
                forall|k: int|
                    0 <= k < n ==> (#[trigger] lines[k]).parent_index <= k && known(
                        lines[k].part,
                        bellies@.len(),
                    ),
                j <= n,
                pieces@.len() == n,
                forall|k: int| j <= k < n ==> #[trigger] pieces@[k] == given[k],
                builder@ == make.replay(steps.take(j + 1)),
                builder@.len() == j + 1,
                builder.make() == make,
                builder.spec_id() == id,
            decreases n - j,
        {
            let line = plan[j];
            let shape = parts.shape_of(line.part, bellies);
            let transform = pieces[j].transform;
            let mut outline: Vec<Position<S>> = Vec::new();
            std::mem::swap(&mut pieces[j].vertices, &mut outline);
            proof {
                let step = steps[j + 1];
                assert(lines[j as int] == line);
                assert(step == line_step(line, shape, given[j as int]));
                assert(steps.take(j + 2).drop_last() =~= steps.take(j + 1));
                assert(steps.take(j + 2).last() == step);
                assert(Make::admits(builder@, step));
            }
            builder.place(&line, &shape, outline, transform);
            j = j + 1;
        }
        proof {
            assert(steps.take(n + 1) =~= steps);
        }
        self.insert(builder.build())
    }

    /// Removes the body filed under `id`, if there is one.
    pub fn kill(&mut self, id: &Id)
        ensures
            final(self).seq == old(self).seq,
            final(self).agents@ == old(self).agents@.remove(*id),
            old(self).wf() ==> final(self).wf(),
    {
        self.agents.remove(id);
    }

    pub fn agents(&self) -> (m: &HashMap<Id, Agent<S>>)
        ensures
            *m == self.agents,
    {
        &self.agents
    }

    pub fn agents_mut(&mut self) -> (m: &mut HashMap<Id, Agent<S>>)
        ensures
            *m == old(self).agents,
            final(self).agents == *final(m),
            final(self).seq == old(self).seq,
    {
        &mut self.agents
    }
}

} // verus!
