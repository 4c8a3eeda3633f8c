//! Identities, outlines and surface properties shared by every kind of body.
use crate::geometry::Position;
use vstd::prelude::*;

verus! {

pub type Id = usize;

pub type SegmentIndex = usize;

pub type AttachmentIndex = usize;

pub type BoneIndex = u8;

pub type Rgba<S> = [S; 4];

/// The direction in which the outline of a mesh is walked.
#[derive(Clone, Copy, Debug, PartialEq, Eq, Structural)]
pub enum Winding {
    CW,
    CCW,
}

/// A geometric primitive. The scalars are the host's; the library reads only
/// the kind of the primitive and the number of lobes of a star.
#[derive(Clone, Copy, Debug, PartialEq)]
pub enum Shape<S> {
    Ball { radius: S },
    Box { width: S, height: S },
    Star { radius: S, n: u8, a: S, b: S, c: S, ratio: S },
}

impl<S: Copy> Shape<S> {
    /// A star needs two lobes at least; the other primitives are always valid.
    pub open spec fn wf(self) -> bool {
        match self {
            Shape::Star { n, .. } => n >= 2,
            _ => true,
        }
    }

    /// The number of points on the outline: one for a ball, five for a box
    /// and two for each lobe of a star.
    pub open spec fn spec_length(self) -> nat {
        match self {
            Shape::Ball { .. } => 1,
            Shape::Box { .. } => 5,
            Shape::Star { n, .. } => 2 * (n as nat),
        }
    }

    /// Tells whether the shape is valid.
    pub fn is_wf(&self) -> (r: bool)
        ensures
            r == self.wf(),
    {
        match self {
            Shape::Star { n, .. } => *n >= 2,
            _ => true,
        }
    }

    pub fn new_ball(r: S) -> (s: Self)
        ensures
            s == (Shape::Ball { radius: r }),
            s.wf(),
    {
        Shape::Ball { radius: r }
    }

    pub fn new_box(width: S, height: S) -> (s: Self)
        ensures
            s == (Shape::Box { width, height }),
            s.wf(),
    {
        Shape::Box { width, height }
    }

    /// A star of `n` lobes whose largest lobe reaches `radius`. The profile of
    /// the lobes is given by the curvature scalars `a`, `b`, `c` and `ratio`.
    /// The caller vouches that `radius` is positive.
    pub fn new_star(radius: S, n: u8, a: S, b: S, c: S, ratio: S) -> (s: Self)
        requires
            n > 1,
        ensures
            s == (Shape::Star { radius, n, a, b, c, ratio }),
            s.wf(),
    {
        Shape::Star { radius, n, a, b, c, ratio }
    }

    /// The outline of a ball: the single point straight above the centre, at
    /// the distance of the radius. `zero` is the host's zero.
    pub fn ball_outline(zero: S, radius: S) -> (v: Vec<Position<S>>)
        ensures
            v@ == seq![Position { x: zero, y: radius }],
            v@.len() == (Shape::Ball { radius }).spec_length(),
    {
        let mut v: Vec<Position<S>> = Vec::new();
        v.push(Position::new(zero, radius));
        v
    }

    /// The outline of a box whose sides lie at `left`, `right`, `bottom` and
    /// `top`: it sets out from the middle of the top side and goes round
    /// clockwise by the four corners, top right first. `zero` is the host's
    /// zero.
    pub fn box_outline(zero: S, left: S, right: S, bottom: S, top: S) -> (v: Vec<Position<S>>)
        ensures
            v@ == seq![
                Position { x: zero, y: top },
                Position { x: right, y: top },
                Position { x: right, y: bottom },
                Position { x: left, y: bottom },
                Position { x: left, y: top },
            ],
            v@.len() == 5,
    {
        let mut v: Vec<Position<S>> = Vec::new();
        v.push(Position::new(zero, top));
        v.push(Position::new(right, top));
        v.push(Position::new(right, bottom));
        v.push(Position::new(left, bottom));
        v.push(Position::new(left, top));
        v
    }

    pub fn length(&self) -> (len: usize)
        ensures
            len == self.spec_length(),
            self.wf() ==> len >= 1,
    {
        match self {
            Shape::Ball { .. } => 1,
            Shape::Box { .. } => 5,
            Shape::Star { n, .. } => {
                let lobes: usize = *n as usize;
                2 * lobes
            },
        }
    }

    /// The offset of the point that lies halfway round the outline.
    pub fn mid(&self) -> (m: isize)
        ensures
            m == self.spec_length() / 2,
    {
        let len: usize = self.length();
        (len / 2) as isize
    }
}

/// An outline together with the shape it was generated from.
#[derive(Clone, Debug, PartialEq)]
pub struct Mesh<S> {
    pub shape: Shape<S>,
    pub vertices: Vec<Position<S>>,
    pub winding: Winding,
}

impl<S: Copy> Mesh<S> {
    /// The outline has exactly as many points as its shape prescribes.
    pub open spec fn wf(self) -> bool {
        &&& self.shape.wf()
        &&& self.vertices@.len() == self.shape.spec_length()
    }

    /// Tells whether the outline has as many points as the shape prescribes.
    pub fn is_wf(&self) -> (r: bool)
        ensures
            r == self.wf(),
    {
        self.shape.is_wf() && self.vertices.len() == self.shape.length()
    }

    /// Pairs a shape with its outline, as computed by the host, and a winding.
    pub fn from_shape(shape: Shape<S>, vertices: Vec<Position<S>>, winding: Winding) -> (m: Self)
        requires
            shape.wf(),
            vertices@.len() == shape.spec_length(),
        ensures
            m.shape == shape,
            m.vertices == vertices,
            m.winding == winding,
            m.wf(),
    {
        Mesh { shape, vertices, winding }
    }
}

/// Bulk properties of the stuff a segment is made of.
#[derive(Clone, Copy, Debug, PartialEq)]
pub struct Material<S> {
    pub density: S,
    pub restitution: S,
    pub friction: S,
}

/// The looks of a segment.
#[derive(Clone, Copy, Debug, PartialEq)]
pub struct Livery<S> {
    pub albedo: Rgba<S>,
}

} // verus!
