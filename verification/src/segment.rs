//! One rigid part of a body: where it sits in the tree, what it is for and
//! how much charge it holds.
use crate::flags::Flags;
use crate::geometry::{Motion, Position, Transform};
use crate::obj::{AttachmentIndex, BoneIndex, Id, Livery, Material, Mesh, SegmentIndex};
use vstd::prelude::*;

verus! {

/// The population an agent belongs to.
#[derive(Clone, Copy, Debug, PartialEq, Eq, Structural)]
pub enum AgentType {
    Player,
    Minion,
    FriendlyFire,
    Enemy,
    EnemyFire,
    Resource,
    Prop,
}

/// Names an agent, one of its segments and one bone of that segment.
#[derive(Clone, Copy, Debug, PartialEq, Eq, Hash, Structural)]
pub struct AgentRefs {
    pub agent_id: Id,
    pub segment_index: SegmentIndex,
    pub bone_index: BoneIndex,
}

impl AgentRefs {
    /// The reference that names nothing in particular.
    pub open spec fn unset() -> AgentRefs {
        AgentRefs { agent_id: 0xdeadbeef, segment_index: 0xff, bone_index: 0xff }
    }

    pub fn with_id(id: Id) -> (r: AgentRefs)
        ensures
            r == (AgentRefs { agent_id: id, ..AgentRefs::unset() }),
    {
        AgentRefs { agent_id: id, segment_index: 0xff, bone_index: 0xff }
    }

    pub fn with_segment(id: Id, segment_index: SegmentIndex) -> (r: AgentRefs)
        ensures
            r == (AgentRefs { agent_id: id, segment_index, ..AgentRefs::unset() }),
    {
        AgentRefs { agent_id: id, segment_index, bone_index: 0xff }
    }

    pub fn with_bone(id: Id, segment_index: SegmentIndex, bone_index: BoneIndex) -> (r: AgentRefs)
        ensures
            r == (AgentRefs { agent_id: id, segment_index, bone_index }),
    {
        AgentRefs { agent_id: id, segment_index, bone_index }
    }
}

impl Default for AgentRefs {
    fn default() -> (r: AgentRefs)
        ensures
            r == AgentRefs::unset(),
    {
        AgentRefs { agent_id: 0xdeadbeef, segment_index: 0xff, bone_index: 0xff }
    }
}

/// Who touched a segment last.
#[derive(Clone, Copy, Debug, PartialEq, Eq, Structural)]
pub struct Contact {
    pub kind: AgentType,
    pub refs: AgentRefs,
}

/// What an actuator has resolved to do this tick. The vector is the force the
/// downstream stage is to apply.
#[derive(Clone, Copy, Debug, PartialEq)]
pub enum Intent<S> {
    Idle,
    Move(Position<S>),
    Brake(Position<S>),
    RunAway(Position<S>),
}

/// The memory of the exponential filter that smooths the charge.
#[derive(Clone, Copy, Debug, PartialEq)]
pub struct Exponential<S> {
    pub last: S,
    pub dt: S,
    pub tau: S,
}

impl<S: Copy> Exponential<S> {
    pub fn new(initial: S, dt: S, tau: S) -> (e: Self)
        ensures
            e == (Exponential { last: initial, dt, tau }),
    {
        Exponential { last: initial, dt, tau }
    }

    /// Forgets the history: the filter continues from `value`.
    pub fn reset(&mut self, value: S)
        ensures
            *final(self) == (Exponential { last: value, ..*old(self) }),
    {
        self.last = value;
    }
}

/// The outcome of one smoothing step, worked out by the host from the state
/// as it stood before the step.
#[derive(Clone, Copy, Debug, PartialEq)]
pub struct Tick<S> {
    /// The length of the step.
    pub dt: S,
    /// The age of the segment after the step.
    pub age_seconds: S,
    /// The charge after blending the target into the filter's memory.
    pub charge: S,
    /// True when that charge lies within the settling threshold of the target.
    pub settled: bool,
}

/// The charge of a segment and what drives it.
#[derive(Clone, Copy, Debug, PartialEq)]
pub struct State<S> {
    pub age_seconds: S,
    pub age_frames: usize,
    pub charge: S,
    pub target_charge: S,
    pub recharge: S,
    pub smooth: Exponential<S>,
    pub intent: Intent<S>,
    pub last_touched: Option<Contact>,
}

impl<S: Copy> State<S> {
    /// The filter remembers the charge it last produced.
    pub open spec fn wf(self) -> bool {
        self.smooth.last == self.charge
    }

    /// The state after the charge is forced to `charge`.
    pub open spec fn forced(self, charge: S) -> Self {
        State { charge, smooth: Exponential { last: charge, ..self.smooth }, ..self }
    }

    /// The state after one step whose outcome is `tick`: the charge follows
    /// the filter, and once settled on the target it falls back to the
    /// recharge baseline.
    pub open spec fn stepped(self, tick: Tick<S>) -> Self {
        let run = State {
            age_seconds: tick.age_seconds,
            age_frames: (self.age_frames + 1) as usize,
            charge: tick.charge,
            smooth: Exponential { last: tick.charge, dt: tick.dt, tau: self.smooth.tau },
            ..self
        };
        if tick.settled {
            run.forced(self.recharge)
        } else {
            run
        }
    }

    /// A fresh state that idles, untouched, with the given charges. The filter
    /// starts from `initial`; `age_seconds` is the host's zero.
    pub fn with_charge(
        initial: S,
        target: S,
        recharge: S,
        age_seconds: S,
        dt: S,
        tau: S,
    ) -> (s: Self)
        ensures
            s == (State {
                age_seconds,
                age_frames: 0,
                charge: initial,
                target_charge: target,
                recharge,
                smooth: Exponential { last: initial, dt, tau },
                intent: Intent::Idle,
                last_touched: None,
            }),
            s.wf(),
    {
        State {
            age_seconds,
            age_frames: 0,
            charge: initial,
            target_charge: target,
            recharge,
            smooth: Exponential::new(initial, dt, tau),
            intent: Intent::Idle,
            last_touched: None,
        }
    }

    pub fn get_charge(&self) -> (c: S)
        ensures
            c == self.charge,
    {
        self.charge
    }

    /// Forces the charge to `charge` at once and restarts the filter from it.
    pub fn set_charge(&mut self, charge: S)
        ensures
            *final(self) == old(self).forced(charge),
            final(self).wf(),
    {
        self.charge = charge;
        self.smooth.reset(charge);
    }

    /// Sets the goal of the following steps; the charge itself stays.
    pub fn set_target_charge(&mut self, target_charge: S)
        ensures
            *final(self) == (State { target_charge, ..*old(self) }),
    {
        self.target_charge = target_charge;
    }

    /// Advances the state by one step whose numeric outcome is `tick`.
    pub fn update(&mut self, tick: Tick<S>)
        requires
            old(self).age_frames < usize::MAX,
        ensures
            *final(self) == old(self).stepped(tick),
            final(self).wf(),
    {
        self.age_seconds = tick.age_seconds;
        self.age_frames = self.age_frames + 1;
        self.smooth.dt = tick.dt;
        self.smooth.reset(tick.charge);
        self.charge = tick.charge;
        if tick.settled {
            let baseline = self.recharge;
            self.set_charge(baseline);
        }
    }
}

/// The place on a parent where a child hangs.
#[derive(Clone, Copy, Debug, PartialEq, Eq, Structural)]
pub struct Attachment {
    pub index: SegmentIndex,
    pub attachment_point: AttachmentIndex,
}

/// One rigid part of a body.
#[derive(Clone, Debug, PartialEq)]
pub struct Segment<S> {
    pub transform: Transform<S>,
    pub motion: Option<Motion<S>>,
    pub index: SegmentIndex,
    pub mesh: Mesh<S>,
    pub material: Material<S>,
    pub livery: Livery<S>,
    pub attached_to: Option<Attachment>,
    pub state: State<S>,
    pub flags: Flags,
}

impl<S: Copy> Segment<S> {
    /// The point of this segment's outline that `attachment_point` selects:
    /// itself when it lies on the outline, the last point otherwise.
    pub open spec fn clamped(self, attachment_point: AttachmentIndex) -> AttachmentIndex {
        if attachment_point < self.mesh.vertices@.len() {
            attachment_point
        } else {
            (self.mesh.vertices@.len() - 1) as usize
        }
    }

    /// An attachment to this segment at `attachment_point`, or at the last
    /// point of the outline when `attachment_point` lies beyond it.
    pub fn new_attachment(&self, attachment_point: AttachmentIndex) -> (a: Option<Attachment>)
        requires
            self.mesh.vertices@.len() > 0,
        ensures
            a == Some(
                Attachment { index: self.index, attachment_point: self.clamped(attachment_point) },
            ),
            a.unwrap().attachment_point < self.mesh.vertices@.len(),
    {
        let max: usize = self.mesh.vertices.len();
        Some(
            Attachment {
                index: self.index,
                attachment_point: if attachment_point < max {
                    attachment_point
                } else {
                    max - 1
                },
            },
        )
    }

    pub fn transform(&self) -> (t: Transform<S>)
        ensures
            t == self.transform,
    {
        self.transform
    }

    pub fn transform_to(&mut self, t: Transform<S>)
        ensures
            *final(self) == (Segment { transform: t, ..*old(self) }),
    {
        self.transform = t;
    }

    pub fn mesh(&self) -> (m: &Mesh<S>)
        ensures
            *m == self.mesh,
    {
        &self.mesh
    }

    pub fn material(&self) -> (m: Material<S>)
        ensures
            m == self.material,
    {
        self.material
    }

    pub fn livery(&self) -> (l: Livery<S>)
        ensures
            l == self.livery,
    {
        self.livery
    }
}

} // verus!
