//! Bodies as ordered trees of segments, and the builder that grows them.
use crate::flags::{Flags, LEFT, MIDDLE, RIGHT, TORSO};
use crate::geometry::{Position, Transform};
use crate::obj::{AttachmentIndex, Id, Livery, Material, Mesh, SegmentIndex, Shape, Winding};
use crate::recipe::{Placement, Side};
use crate::segment::{Attachment, Segment, State};
use vstd::prelude::*;

verus! {

/// Segment `i` of `segments` knows its own place, has a sound mesh, and hangs
/// on a point of an earlier segment, unless it is the root, which hangs on
/// nothing.
pub open spec fn well_placed<S: Copy>(segments: Seq<Segment<S>>, i: int) -> bool {
    &&& segments[i].index == i
    &&& segments[i].mesh.wf()
    &&& match segments[i].attached_to {
        None => i == 0,
        Some(a) => 0 < i && a.index < i && a.attachment_point
            < segments[a.index as int].mesh.vertices@.len(),
    }
}

/// Every segment is well placed: the attachments form a tree rooted at the
/// first segment, and parents come before their children.
pub open spec fn is_tree<S: Copy>(segments: Seq<Segment<S>>) -> bool {
    forall|i: int| 0 <= i < segments.len() ==> well_placed(segments, i)
}

/// The point of an outline of `n` points that lies `offset` steps from its
/// first point. Negative offsets count backwards from the first point.
pub open spec fn wrap(offset: int, n: int) -> int {
    (offset + n) % n
}

/// Shifting an offset by the length of the outline selects the same point;
/// in particular offset zero and offset `n` both select the first point.
pub proof fn lemma_wrap_period(offset: int, n: int)
    requires
        n > 0,
    ensures
        wrap(offset + n, n) == wrap(offset, n),
        0 <= wrap(offset, n) < n,
        wrap(n, n) == wrap(0, n),
        0 <= offset < n ==> wrap(offset, n) == offset,
        -n <= offset < 0 ==> wrap(offset, n) == n + offset,
{
    vstd::arithmetic::div_mod::lemma_mod_add_multiples_vanish(offset + n, n);
    vstd::arithmetic::div_mod::lemma_mod_add_multiples_vanish(0, n);
    vstd::arithmetic::div_mod::lemma_mod_add_multiples_vanish(n, n);
    vstd::arithmetic::div_mod::lemma_mod_add_multiples_vanish(offset, n);
    if 0 <= offset < n {
        vstd::arithmetic::div_mod::lemma_small_mod(offset as nat, n as nat);
    }
    if -n <= offset < 0 {
        vstd::arithmetic::div_mod::lemma_small_mod((offset + n) as nat, n as nat);
    }
}

/// The point of an outline of `n` points that lies `offset` steps from its
/// first point.
pub fn attachment_point(offset: isize, n: usize) -> (point: AttachmentIndex)
    requires
        0 < n <= isize::MAX,
    ensures
        point == wrap(offset as int, n as int),
        point < n,
{
    proof {
        lemma_wrap_period(offset as int, n as int);
        vstd::arithmetic::div_mod::lemma_mod_add_multiples_vanish(offset as int, n as int);
    }
    let len: isize = n as isize;
    let point: isize = offset.checked_rem_euclid(len).unwrap();
    point as usize
}

/// One operation of a builder, as data.
pub enum Step<S> {
    /// Start over with a single root at the given pose.
    Start { position: Position<S>, angle: S, mesh: Mesh<S> },
    /// Hang a child on the point of segment `parent_index` that lies `offset`
    /// steps round its outline.
    Add {
        parent_index: SegmentIndex,
        offset: isize,
        mesh: Mesh<S>,
        transform: Transform<S>,
        flags: Flags,
    },
}

/// What a builder stamps on every segment it makes.
#[derive(Clone, Copy, Debug, PartialEq)]
pub struct Make<S> {
    pub material: Material<S>,
    pub livery: Livery<S>,
    pub state: State<S>,
}

impl<S: Copy> Make<S> {
    /// The segment made for place `index` of a body.
    pub open spec fn fresh(
        self,
        index: SegmentIndex,
        mesh: Mesh<S>,
        transform: Transform<S>,
        attachment: Option<Attachment>,
        flags: Flags,
    ) -> Segment<S> {
        Segment {
            transform,
            motion: None,
            index,
            mesh,
            material: self.material,
            livery: self.livery,
            attached_to: attachment,
            state: self.state,
            flags,
        }
    }

    /// The root of a body: a middle torso that hangs on nothing.
    pub open spec fn root(self, position: Position<S>, angle: S, mesh: Mesh<S>) -> Segment<S> {
        self.fresh(0, mesh, Transform { position, angle }, None, Flags { bits: TORSO | MIDDLE })
    }

    /// The child that is appended to `segments` when it is hung on segment
    /// `parent_index`, `offset` steps round the parent's outline.
    pub open spec fn child(
        self,
        segments: Seq<Segment<S>>,
        parent_index: SegmentIndex,
        offset: isize,
        mesh: Mesh<S>,
        transform: Transform<S>,
        flags: Flags,
    ) -> Segment<S> {
        let parent = segments[parent_index as int];
        self.fresh(
            segments.len() as usize,
            mesh,
            transform,
            Some(
                Attachment {
                    index: parent_index,
                    attachment_point: wrap(
                        offset as int,
                        parent.mesh.vertices@.len() as int,
                    ) as usize,
                },
            ),
            flags,
        )
    }

    /// Whether `step` can be taken on a body that holds `segments`.
    pub open spec fn admits(segments: Seq<Segment<S>>, step: Step<S>) -> bool {
        match step {
            Step::Start { mesh, .. } => mesh.wf(),
            Step::Add { parent_index, mesh, .. } => parent_index < segments.len() && mesh.wf(),
        }
    }

    /// The segments after `step` is taken on `segments`. A step that cannot
    /// be taken leaves them as they are.
    pub open spec fn step(self, segments: Seq<Segment<S>>, step: Step<S>) -> Seq<Segment<S>> {
        if !Self::admits(segments, step) {
            segments
        } else {
            match step {
                Step::Start { position, angle, mesh } => seq![self.root(position, angle, mesh)],
                Step::Add { parent_index, offset, mesh, transform, flags } => segments.push(
                    self.child(segments, parent_index, offset, mesh, transform, flags),
                ),
            }
        }
    }

    /// The segments after `steps` are taken in turn, starting from nothing.
    pub open spec fn replay(self, steps: Seq<Step<S>>) -> Seq<Segment<S>>
        decreases steps.len(),
    {
        if steps.len() == 0 {
            Seq::empty()
        } else {
            self.step(self.replay(steps.drop_last()), steps.last())
        }
    }

    /// A step taken on a tree gives a tree, and adds one segment at most.
    pub proof fn lemma_step_keeps_tree(self, segments: Seq<Segment<S>>, step: Step<S>)
        requires
            is_tree(segments),
            segments.len() <= usize::MAX,
        ensures
            is_tree(self.step(segments, step)),
            self.step(segments, step).len() <= segments.len() + 1,
    {
        let after = self.step(segments, step);
        if Self::admits(segments, step) {
            match step {
                Step::Start { position, angle, mesh } => {
                    assert(well_placed(after, 0));
                },
                Step::Add { parent_index, offset, mesh, transform, flags } => {
                    let n = segments.len() as int;
                    let parent = segments[parent_index as int];
                    assert(well_placed(segments, parent_index as int));
                    lemma_wrap_period(offset as int, parent.mesh.vertices@.len() as int);
                    assert forall|i: int| 0 <= i < after.len() implies well_placed(after, i) by {
                        if i < n {
                            assert(well_placed(segments, i));
                            assert(after[i] == segments[i]);
                            if let Some(a) = segments[i].attached_to {
                                assert(after[a.index as int] == segments[a.index as int]);
                            }
                        } else {
                            assert(after[parent_index as int] == parent);
                            assert(after[i] == self.child(
                                segments,
                                parent_index,
                                offset,
                                mesh,
                                transform,
                                flags,
                            ));
                        }
                    }
                },
            }
        }
    }

    /// Whatever operations are taken, in whatever order, the result is a tree:
    /// each segment's stored index is its place in the list, the first
    /// segment is the only one that hangs on nothing, and every other segment
    /// hangs on a point of a segment that comes before it.
    pub proof fn lemma_replay_is_tree(self, steps: Seq<Step<S>>)
        requires
            steps.len() <= usize::MAX,
        ensures
            is_tree(self.replay(steps)),
            self.replay(steps).len() <= steps.len(),
        decreases steps.len(),
    {
        if steps.len() > 0 {
            self.lemma_replay_is_tree(steps.drop_last());
            self.lemma_step_keeps_tree(self.replay(steps.drop_last()), steps.last());
        }
    }

    /// Offsets that differ by the length of the parent's outline hang the
    /// child on the same point: offset zero and an offset equal to the number
    /// of points of the parent select the same attachment.
    pub proof fn lemma_offset_wraps(
        self,
        segments: Seq<Segment<S>>,
        parent_index: SegmentIndex,
        offset: isize,
        shifted: isize,
        mesh: Mesh<S>,
        transform: Transform<S>,
        flags: Flags,
    )
        requires
            is_tree(segments),
            parent_index < segments.len(),
            shifted == offset + segments[parent_index as int].mesh.vertices@.len(),
        ensures
            self.child(segments, parent_index, shifted, mesh, transform, flags) == self.child(
                segments,
                parent_index,
                offset,
                mesh,
                transform,
                flags,
            ),
    {
        assert(well_placed(segments, parent_index as int));
        lemma_wrap_period(offset as int, segments[parent_index as int].mesh.vertices@.len() as int);
    }
}

/// Assembles a body segment by segment. What it holds is a tree at all
/// times.
pub struct AgentBuilder<S: Copy> {
    id: Id,
    material: Material<S>,
    livery: Livery<S>,
    state: State<S>,
    segments: Vec<Segment<S>>,
}

impl<S: Copy> View for AgentBuilder<S> {
    type V = Seq<Segment<S>>;

    /// The segments made so far.
    closed spec fn view(&self) -> Seq<Segment<S>> {
        self.segments@
    }
}

impl<S: Copy> AgentBuilder<S> {
    #[verifier::type_invariant]
    spec fn inv(self) -> bool {
        is_tree(self.segments@)
    }

    /// The identity that the finished body will carry.
    pub closed spec fn spec_id(self) -> Id {
        self.id
    }

    /// What the builder stamps on the segments it makes.
    pub closed spec fn make(self) -> Make<S> {
        Make { material: self.material, livery: self.livery, state: self.state }
    }

    pub fn new(id: Id, material: Material<S>, livery: Livery<S>, state: State<S>) -> (b: Self)
        ensures
            b.spec_id() == id,
            b.make() == (Make { material, livery, state }),
            b@ == Seq::<Segment<S>>::empty(),
    {
        AgentBuilder { id, material, livery, state, segments: Vec::new() }
    }

    fn new_segment(
        &self,
        mesh: Mesh<S>,
        transform: Transform<S>,
        attachment: Option<Attachment>,
        flags: Flags,
    ) -> (s: Segment<S>)
        ensures
            s == self.make().fresh(self@.len() as usize, mesh, transform, attachment, flags),
            s.index == self@.len(),
    {
        Segment {
            transform,
            motion: None,
            index: self.segments.len(),
            mesh,
            material: self.material,
            livery: self.livery,
            attached_to: attachment,
            state: self.state,
            flags,
        }
    }

    /// Sets the identity of the bodies built from here on.
    pub fn id(&mut self, id: Id) -> (b: &mut Self)
        ensures
            b.spec_id() == id,
            b.make() == old(self).make(),
            b@ == old(self)@,
            *final(b) == *final(self),
    {
        proof {
            use_type_invariant(&*self);
        }
        self.id = id;
        self
    }

    /// Drops whatever was built and starts over with a single root segment at
    /// the given pose. `vertices` is the outline of `shape`, wound clockwise.
    pub fn start(
        &mut self,
        position: Position<S>,
        angle: S,
        shape: &Shape<S>,
        vertices: Vec<Position<S>>,
    ) -> (b: &mut Self)
        requires
            shape.wf(),
            vertices@.len() == shape.spec_length(),
        ensures
            b@ == seq![
                old(self).make().root(
                    position,
                    angle,
                    Mesh { shape: *shape, vertices, winding: Winding::CW },
                ),
            ],
            b@ == old(self).make().step(
                old(self)@,
                Step::Start {
                    position,
                    angle,
                    mesh: Mesh { shape: *shape, vertices, winding: Winding::CW },
                },
            ),
            b.make() == old(self).make(),
            b.spec_id() == old(self).spec_id(),
            is_tree(b@),
            *final(b) == *final(self),
    {
        let mesh = Mesh::from_shape(*shape, vertices, Winding::CW);
        let segment = Segment {
            transform: Transform::new(position, angle),
            motion: None,
            index: 0,
            mesh,
            material: self.material,
            livery: self.livery,
            attached_to: None,
            state: self.state,
            flags: Flags::from_bits(TORSO | MIDDLE),
        };
        let mut segments: Vec<Segment<S>> = Vec::new();
        segments.push(segment);
        proof {
            assert(well_placed(segments@, 0));
        }
        self.segments = segments;
        self
    }

    /// The point of segment `parent_index` on which a child added with
    /// `attachment_index_offset` will hang.
    pub fn attachment(&self, parent_index: SegmentIndex, attachment_index_offset: isize) -> (a:
        Attachment)
        requires
            parent_index < self@.len(),
        ensures
            a.index == parent_index,
            a.attachment_point == wrap(
                attachment_index_offset as int,
                self@[parent_index as int].mesh.vertices@.len() as int,
            ),
            a.attachment_point < self@[parent_index as int].mesh.vertices@.len(),
    {
        proof {
            use_type_invariant(self);
            assert(well_placed(self.segments@, parent_index as int));
        }
        let parent = &self.segments[parent_index];
        let parent_length: usize = parent.mesh.shape.length();
        let attachment_index: usize = attachment_point(attachment_index_offset, parent_length);
        let a = parent.new_attachment(attachment_index);
        a.unwrap()
    }

    /// Appends a segment with the given winding and tags, hung on segment
    /// `parent_index` at the point that lies `attachment_index_offset` steps
    /// round the parent's outline. `vertices` is the outline of `shape` for
    /// that winding and `transform` the pose of the new segment; the host
    /// derives the pose from the parent and the point that `attachment`
    /// reports.
    pub fn addw(
        &mut self,
        parent_index: SegmentIndex,
        attachment_index_offset: isize,
        shape: &Shape<S>,
        vertices: Vec<Position<S>>,
        winding: Winding,
        transform: Transform<S>,
        flags: Flags,
    ) -> (b: &mut Self)
        requires
            parent_index < old(self)@.len(),
            shape.wf(),
            vertices@.len() == shape.spec_length(),
        ensures
            b@ == old(self)@.push(
                old(self).make().child(
                    old(self)@,
                    parent_index,
                    attachment_index_offset,
                    Mesh { shape: *shape, vertices, winding },
                    transform,
                    flags,
                ),
            ),
            b@ == old(self).make().step(
                old(self)@,
                Step::Add {
                    parent_index,
                    offset: attachment_index_offset,
                    mesh: Mesh { shape: *shape, vertices, winding },
                    transform,
                    flags,
                },
            ),
            b.make() == old(self).make(),
            b.spec_id() == old(self).spec_id(),
            is_tree(b@),
            *final(b) == *final(self),
    {
        let attachment = self.attachment(parent_index, attachment_index_offset);
        let mesh = Mesh::from_shape(*shape, vertices, winding);
        let segment = self.new_segment(mesh, transform, Some(attachment), flags);
        proof {
            use_type_invariant(&*self);
            self.make().lemma_step_keeps_tree(
                self.segments@,
                Step::Add {
                    parent_index,
                    offset: attachment_index_offset,
                    mesh,
                    transform,
                    flags,
                },
            );
        }
        let mut segments: Vec<Segment<S>> = Vec::new();
        std::mem::swap(&mut self.segments, &mut segments);
        segments.push(segment);
        self.segments = segments;
        self
    }

    /// Appends a middle segment, wound clockwise.
    pub fn add(
        &mut self,
        parent_index: SegmentIndex,
        attachment_index_offset: isize,
        shape: &Shape<S>,
        vertices: Vec<Position<S>>,
        transform: Transform<S>,
        flags: Flags,
    ) -> (b: &mut Self)
        requires
            parent_index < old(self)@.len(),
            shape.wf(),
            vertices@.len() == shape.spec_length(),
        ensures
            b@ == old(self)@.push(
                old(self).make().child(
                    old(self)@,
                    parent_index,
                    attachment_index_offset,
                    Mesh { shape: *shape, vertices, winding: Winding::CW },
                    transform,
                    flags.or(Flags { bits: MIDDLE }),
                ),
            ),
            b.make() == old(self).make(),
            b.spec_id() == old(self).spec_id(),
            is_tree(b@),
            *final(b) == *final(self),
    {
        self.addw(
            parent_index,
            attachment_index_offset,
            shape,
            vertices,
            Winding::CW,
            transform,
            flags.union(Flags::from_bits(MIDDLE)),
        )
    }

    /// Appends a left segment, wound counter-clockwise.
    pub fn addl(
        &mut self,
        parent_index: SegmentIndex,
        attachment_index_offset: isize,
        shape: &Shape<S>,
        vertices: Vec<Position<S>>,
        transform: Transform<S>,
        flags: Flags,
    ) -> (b: &mut Self)
        requires
            parent_index < old(self)@.len(),
            shape.wf(),
            vertices@.len() == shape.spec_length(),
        ensures
            b@ == old(self)@.push(
                old(self).make().child(
                    old(self)@,
                    parent_index,
                    attachment_index_offset,
                    Mesh { shape: *shape, vertices, winding: Winding::CCW },
                    transform,
                    flags.or(Flags { bits: LEFT }),
                ),
            ),
            b.make() == old(self).make(),
            b.spec_id() == old(self).spec_id(),
            is_tree(b@),
            *final(b) == *final(self),
    {
        self.addw(
            parent_index,
            attachment_index_offset,
            shape,
            vertices,
            Winding::CCW,
            transform,
            flags.union(Flags::from_bits(LEFT)),
        )
    }

    /// Appends a right segment, wound clockwise.
    pub fn addr(
        &mut self,
        parent_index: SegmentIndex,
        attachment_index_offset: isize,
        shape: &Shape<S>,
        vertices: Vec<Position<S>>,
        transform: Transform<S>,
        flags: Flags,
    ) -> (b: &mut Self)
        requires
            parent_index < old(self)@.len(),
            shape.wf(),
            vertices@.len() == shape.spec_length(),
        ensures
            b@ == old(self)@.push(
                old(self).make().child(
                    old(self)@,
                    parent_index,
                    attachment_index_offset,
                    Mesh { shape: *shape, vertices, winding: Winding::CW },
                    transform,
                    flags.or(Flags { bits: RIGHT }),
                ),
            ),
            b.make() == old(self).make(),
            b.spec_id() == old(self).spec_id(),
            is_tree(b@),
            *final(b) == *final(self),
    {
        self.addw(
            parent_index,
            attachment_index_offset,
            shape,
            vertices,
            Winding::CW,
            transform,
            flags.union(Flags::from_bits(RIGHT)),
        )
    }

    /// Carries out one line of a body plan: appends the part on the side the
    /// line names, with the winding and the tag of that side.
    pub fn place(
        &mut self,
        placement: &Placement,
        shape: &Shape<S>,
        vertices: Vec<Position<S>>,
        transform: Transform<S>,
    ) -> (b: &mut Self)
        requires
            placement.parent_index < old(self)@.len(),
            shape.wf(),
            vertices@.len() == shape.spec_length(),
        ensures
            b@ == old(self)@.push(
                old(self).make().child(
                    old(self)@,
                    placement.parent_index,
                    placement.offset,
                    Mesh { shape: *shape, vertices, winding: placement.side.spec_winding() },
                    transform,
                    placement.flags.or(placement.side.spec_tag()),
                ),
            ),
            b.make() == old(self).make(),
            b.spec_id() == old(self).spec_id(),
            is_tree(b@),
            *final(b) == *final(self),
    {
        match placement.side {
            Side::Middle => self.add(
                placement.parent_index,
                placement.offset,
                shape,
                vertices,
                transform,
                placement.flags,
            ),
            Side::Left => self.addl(
                placement.parent_index,
                placement.offset,
                shape,
                vertices,
                transform,
                placement.flags,
            ),
            Side::Right => self.addr(
                placement.parent_index,
                placement.offset,
                shape,
                vertices,
                transform,
                placement.flags,
            ),
        }
    }

    /// The segment made for place `index`, if that many have been made.
    pub fn segment(&self, index: SegmentIndex) -> (s: Option<&Segment<S>>)
        ensures
            index < self@.len() ==> s == Some(&self@[index as int]),
            index >= self@.len() ==> s.is_none(),
    {
        if index < self.segments.len() {
            Some(&self.segments[index])
        } else {
            None
        }
    }

    /// The number of segments made so far.
    pub fn len(&self) -> (n: usize)
        ensures
            n == self@.len(),
    {
        self.segments.len()
    }

    /// The index of the segment appended last, or zero when there is none.
    pub fn index(&self) -> (i: SegmentIndex)
        ensures
            i == if self@.len() == 0 {
                0
            } else {
                self@.len() - 1
            },
    {
        let n: usize = self.segments.len();
        if n == 0 {
            0
        } else {
            n - 1
        }
    }

    /// Hands over what was built as a finished body.
    pub fn build(self) -> (agent: Agent<S>)
        ensures
            agent.spec_id() == self.spec_id(),
            agent@ == self@,
            agent.wf(),
    {
        proof {
            use_type_invariant(&self);
        }
        Agent { id: self.id, segments: self.segments }
    }
}

/// A body: an identity and its segments, root first.
#[derive(Clone, Debug, PartialEq)]
pub struct Agent<S> {
    id: Id,
    segments: Vec<Segment<S>>,
}

impl<S> View for Agent<S> {
    type V = Seq<Segment<S>>;

    /// The segments of the body, root first.
    closed spec fn view(&self) -> Seq<Segment<S>> {
        self.segments@
    }
}

impl<S: Copy> Agent<S> {
    /// The identity of the body.
    pub closed spec fn spec_id(self) -> Id {
        self.id
    }

    /// The segments form a tree.
    pub open spec fn wf(self) -> bool {
        is_tree(self@)
    }

    /// Whether some segment of `segments` carries every tag of `flags`.
    pub open spec fn has_tagged(segments: Seq<Segment<S>>, flags: Flags) -> bool {
        exists|i: int| 0 <= i < segments.len() && (#[trigger] segments[i]).flags.has(flags)
    }

    /// Whether segment `i` is the first of `segments` that carries every tag
    /// of `flags`.
    pub open spec fn is_first_tagged(segments: Seq<Segment<S>>, flags: Flags, i: int) -> bool {
        &&& 0 <= i < segments.len()
        &&& segments[i].flags.has(flags)
        &&& forall|j: int| 0 <= j < i ==> !(#[trigger] segments[j]).flags.has(flags)
    }

    pub fn id(&self) -> (id: Id)
        ensures
            id == self.spec_id(),
    {
        self.id
    }

    /// Tells whether the segments form a tree.
    pub fn is_wf(&self) -> (r: bool)
        ensures
            r == self.wf(),
    {
        let n: usize = self.segments.len();
        let mut i: usize = 0;
        while i < n
            invariant
                n == self@.len(),
                i <= n,
                forall|k: int| 0 <= k < i ==> well_placed(self@, k),
            decreases n - i,
        {
            let s = &self.segments[i];
            let hangs: bool = match s.attached_to {
                None => i == 0,
                Some(a) => 0 < i && a.index < i && a.attachment_point
                    < self.segments[a.index].mesh.vertices.len(),
            };
            if s.index != i || !s.mesh.is_wf() || !hangs {
                proof {
                    assert(!well_placed(self@, i as int));
                }
                return false;
            }
            i = i + 1;
        }
        true
    }

    pub fn segments(&self) -> (s: &[Segment<S>])
        ensures
            s@ == self@,
    {
        self.segments.as_slice()
    }

    pub fn segments_mut(&mut self) -> (s: &mut [Segment<S>])
        ensures
            s@ == old(self)@,
            final(self)@ == final(s)@,
            final(self).spec_id() == old(self).spec_id(),
    {
        self.segments.as_mut_slice()
    }

    pub fn segment(&self, index: SegmentIndex) -> (s: Option<&Segment<S>>)
        ensures
            index < self@.len() ==> s == Some(&self@[index as int]),
            index >= self@.len() ==> s.is_none(),
    {
        if index < self.segments.len() {
            Some(&self.segments[index])
        } else {
            None
        }
    }

    pub fn segment_mut(&mut self, index: SegmentIndex) -> (s: Option<&mut Segment<S>>)
        ensures
            final(self).spec_id() == old(self).spec_id(),
            match s {
                Some(r) => index < old(self)@.len() && *r == old(self)@[index as int]
                    && final(self)@ == old(self)@.update(index as int, *final(r)),
                None => index >= old(self)@.len() && final(self)@ == old(self)@,
            },
    {
        if index < self.segments.len() {
            Some(&mut self.segments[index])
        } else {
            None
        }
    }

    /// The first segment that carries every tag of `flags`, if there is one.
    pub fn first_segment(&self, flags: Flags) -> (s: Option<&Segment<S>>)
        ensures
            s.is_some() == Self::has_tagged(self@, flags),
            match s {
                Some(r) => exists|i: int|
                    Self::is_first_tagged(self@, flags, i) && *r == #[trigger] self@[i],
                None => true,
            },
    {
        let n: usize = self.segments.len();
        let mut i: usize = 0;
        while i < n
            invariant
                n == self.segments@.len(),
                i <= n,
                forall|k: int| 0 <= k < i ==> !(#[trigger] self.segments@[k]).flags.has(flags),
            decreases n - i,
        {
            if self.segments[i].flags.contains(flags) {
                proof {
                    assert(Self::is_first_tagged(self@, flags, i as int));
                }
                return Some(&self.segments[i]);
            }
            i = i + 1;
        }
        None
    }

    /// The pose of the body, which is that of its root.
    pub fn transform(&self) -> (t: Transform<S>)
        requires
            self@.len() > 0,
        ensures
            t == self@[0].transform,
    {
        self.segments[0].transform()
    }

    /// Moves the root of the body to the pose `t`.
    pub fn transform_to(&mut self, t: Transform<S>)
        requires
            old(self)@.len() > 0,
        ensures
            final(self).spec_id() == old(self).spec_id(),
            final(self)@ == old(self)@.update(
                0,
                Segment { transform: t, ..old(self)@[0] },
            ),
    {
        self.segments[0].transform_to(t);
    }
}

} // verus!
