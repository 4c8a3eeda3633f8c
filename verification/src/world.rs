//! The world: its bounds and the populations that live in it.
use crate::agent::{Agent, Make};
use crate::flock::Flock;
use crate::geometry::{Position, Rect};
use crate::obj::{Id, Livery, Material, Mesh, Shape, Winding};
use crate::recipe::{fits, minion_steps, Belly, Parts, Piece};
use crate::segment::State;
use vstd::prelude::*;

verus! {

/// Everything that exists: the extent of the world, the fence round it and
/// one population for each kind of agent.
pub struct World<S> {
    pub extent: Rect<S>,
    pub fence: Mesh<S>,
    pub players: Flock<S>,
    pub minions: Flock<S>,
    pub friendly_fire: Flock<S>,
    pub enemies: Flock<S>,
    pub enemy_fire: Flock<S>,
    pub resources: Flock<S>,
    pub props: Flock<S>,
}

/// A read-only look at the world.
pub trait WorldState<S> {
    fn minion(&self, id: Id) -> Option<&Agent<S>>;
}

impl<S: Copy> WorldState<S> for World<S> {
    fn minion(&self, id: Id) -> (a: Option<&Agent<S>>)
        ensures
            match a {
                Some(agent) => self.minions.agents@.contains_key(id) && *agent
                    == self.minions.agents@[id],
                None => !self.minions.agents@.contains_key(id),
            },
    {
        self.minions.get(id)
    }
}

impl<S: Copy> World<S> {
    /// Everything in the world but its minions.
    pub open spec fn others(self) -> (
        Rect<S>,
        Mesh<S>,
        Flock<S>,
        Flock<S>,
        Flock<S>,
        Flock<S>,
        Flock<S>,
        Flock<S>,
    ) {
        (
            self.extent,
            self.fence,
            self.players,
            self.friendly_fire,
            self.enemies,
            self.enemy_fire,
            self.resources,
            self.props,
        )
    }

    /// An empty world of the given extent, fenced by `fence`.
    pub fn new(extent: Rect<S>, fence: Mesh<S>) -> (w: Self)
        ensures
            w.extent == extent,
            w.fence == fence,
            w.players.agents@.len() == 0 && w.players.seq == 0,
            w.minions.agents@.len() == 0 && w.minions.seq == 0,
            w.friendly_fire.agents@.len() == 0 && w.friendly_fire.seq == 0,
            w.enemies.agents@.len() == 0 && w.enemies.seq == 0,
            w.enemy_fire.agents@.len() == 0 && w.enemy_fire.seq == 0,
            w.resources.agents@.len() == 0 && w.resources.seq == 0,
            w.props.agents@.len() == 0 && w.props.seq == 0,
    {
        World {
            extent,
            fence,
            players: Flock::new(),
            minions: Flock::new(),
            friendly_fire: Flock::new(),
            enemies: Flock::new(),
            enemy_fire: Flock::new(),
            resources: Flock::new(),
            props: Flock::new(),
        }
    }

    /// Spawns a resource and returns its identity. The resource is filed with
    /// the minions.
    pub fn new_resource(
        &mut self,
        pos: Position<S>,
        angle: S,
        shape: &Shape<S>,
        vertices: Vec<Position<S>>,
        material: Material<S>,
        livery: Livery<S>,
        state: State<S>,
    ) -> (id: Id)
        requires
            old(self).minions.seq < usize::MAX,
            shape.wf(),
            vertices@.len() == shape.spec_length(),
        ensures
            id == old(self).minions.seq + 1,
            final(self).minions.seq == id,
            final(self).minions.agents@.dom() == old(self).minions.agents@.dom().insert(id),
            forall|other: Id|
                other != id && old(self).minions.agents@.contains_key(other)
                    ==> final(self).minions.agents@[other] == old(self).minions.agents@[other],
            final(self).minions.agents@[id].spec_id() == id,
            final(self).minions.agents@[id]@ == seq![
                (Make { material, livery, state }).root(
                    pos,
                    angle,
                    Mesh { shape: *shape, vertices, winding: Winding::CW },
                ),
            ],
            final(self).minions.agents@[id].wf(),
            old(self).minions.wf() ==> final(self).minions.wf(),
            final(self).others() == old(self).others(),
    {
        self.minions.new_resource(pos, angle, shape, vertices, material, livery, state)
    }

    /// Spawns a minion assembled from the plan for the given torso and
    /// bellies, and returns its identity.
    pub fn new_minion(
        &mut self,
        pos: Position<S>,
        angle: S,
        parts: &Parts<S>,
        bellies: &Vec<Belly<S>>,
        torso_outline: Vec<Position<S>>,
        pieces: Vec<Piece<S>>,
        material: Material<S>,
        livery: Livery<S>,
        state: State<S>,
    ) -> (id: Id)
        requires
            old(self).minions.seq < usize::MAX,
            3 * bellies@.len() + 9 <= usize::MAX,
            fits(*parts, bellies@, torso_outline@, pieces@),
        ensures
            id == old(self).minions.seq + 1,
            final(self).minions.seq == id,
            final(self).minions.agents@.dom() == old(self).minions.agents@.dom().insert(id),
            forall|other: Id|
                other != id && old(self).minions.agents@.contains_key(other)
                    ==> final(self).minions.agents@[other] == old(self).minions.agents@[other],
            final(self).minions.agents@[id].spec_id() == id,
            final(self).minions.agents@[id]@ == (Make { material, livery, state }).replay(
                minion_steps(*parts, bellies@, pos, angle, torso_outline, pieces@),
            ),
            final(self).minions.agents@[id].wf(),
            old(self).minions.wf() ==> final(self).minions.wf(),
            final(self).others() == old(self).others(),
    {
        self.minions.new_minion(
            pos,
            angle,
            parts,
            bellies,
            torso_outline,
            pieces,
            material,
            livery,
            state,
        )
    }

    /// The minion filed under `id`, open for writing.
    pub fn friend_mut(&mut self, id: Id) -> (a: Option<&mut Agent<S>>)
        ensures
            final(self).others() == old(self).others(),
            final(self).minions.seq == old(self).minions.seq,
            match a {
                Some(agent) => old(self).minions.agents@.contains_key(id) && *agent == old(
                    self,
                ).minions.agents@[id] && final(self).minions.agents@ == old(
                    self,
                ).minions.agents@.insert(id, *final(agent)),
                None => !old(self).minions.agents@.contains_key(id) && final(self).minions.agents@
                    == old(self).minions.agents@,
            },
    {
        self.minions.get_mut(id)
    }
}

} // verus!
