//! Plain geometric records and the convexity census of a polygon.
use vstd::prelude::*;

verus! {

/// A point or a vector of the plane.
#[derive(Clone, Copy, Debug, PartialEq)]
pub struct Position<S> {
    pub x: S,
    pub y: S,
}

pub type Translation<S> = Position<S>;

pub type Velocity<S> = Position<S>;

impl<S: Copy> Position<S> {
    pub fn new(x: S, y: S) -> (p: Self)
        ensures
            p.x == x,
            p.y == y,
    {
        Position { x, y }
    }
}

pub type Angle<S> = S;

pub type Rotation<S> = S;

pub type Spin<S> = S;

/// The extent of a box along each axis.
#[derive(Clone, Copy, Debug, PartialEq)]
pub struct Size<S> {
    pub width: S,
    pub height: S,
}

/// Where a body is and which way it faces.
#[derive(Clone, Copy, Debug, PartialEq)]
pub struct Transform<S> {
    pub position: Position<S>,
    pub angle: Angle<S>,
}

impl<S: Copy> Transform<S> {
    pub fn new(position: Position<S>, angle: S) -> (t: Self)
        ensures
            t.position == position,
            t.angle == angle,
    {
        Transform { position, angle }
    }
}

/// How a body moves: its velocity and the rate at which it turns.
#[derive(Clone, Copy, Debug, PartialEq)]
pub struct Motion<S> {
    pub velocity: Velocity<S>,
    pub spin: Spin<S>,
}

/// An axis-aligned rectangle given by two opposite corners.
#[derive(Clone, Copy, Debug, PartialEq)]
pub struct Rect<S> {
    pub min: Position<S>,
    pub max: Position<S>,
}

impl<S: Copy> Rect<S> {
    pub fn new(left: S, bottom: S, right: S, top: S) -> (r: Self)
        ensures
            r.min == (Position { x: left, y: bottom }),
            r.max == (Position { x: right, y: top }),
    {
        Rect { min: Position::new(left, bottom), max: Position::new(right, top) }
    }

    pub fn bottom_left(&self) -> (p: Position<S>)
        ensures
            p == self.min,
    {
        self.min
    }

    pub fn top_right(&self) -> (p: Position<S>)
        ensures
            p == self.max,
    {
        self.max
    }

    pub fn bottom_right(&self) -> (p: Position<S>)
        ensures
            p == (Position { x: self.max.x, y: self.min.y }),
    {
        Position::new(self.max.x, self.min.y)
    }

    pub fn top_left(&self) -> (p: Position<S>)
        ensures
            p == (Position { x: self.min.x, y: self.max.y }),
    {
        Position::new(self.min.x, self.max.y)
    }
}

/// Which way an outline turns at one of its points.
#[derive(Clone, Copy, Debug, PartialEq, Eq, Structural)]
pub enum VertexType {
    Plus,
    Minus,
    Flat,
}

/// How many of `turns` are of the given kind.
pub open spec fn tally(turns: Seq<VertexType>, kind: VertexType) -> nat
    decreases turns.len(),
{
    if turns.len() == 0 {
        0
    } else {
        tally(turns.drop_last(), kind) + if turns.last() == kind {
            1nat
        } else {
            0nat
        }
    }
}

/// The three kinds of turn share out the points of an outline among them.
pub proof fn lemma_tally_total(turns: Seq<VertexType>)
    ensures
        tally(turns, VertexType::Plus) + tally(turns, VertexType::Minus) + tally(
            turns,
            VertexType::Flat,
        ) == turns.len(),
    decreases turns.len(),
{
    if turns.len() > 0 {
        lemma_tally_total(turns.drop_last());
    }
}

/// A census of the turns of a polygon.
pub struct PolygonType {
    pub plus: usize,
    pub minus: usize,
    pub flat: usize,
}

impl PolygonType {
    /// The points before and after point `i` on a closed outline of `n`
    /// points, with `i` itself between them.
    pub fn corner(i: usize, n: usize) -> (c: (usize, usize, usize))
        requires
            i < n,
        ensures
            c.0 == (i + n - 1) % (n as int),
            c.1 == i,
            c.2 == (i + 1) % (n as int),
    {
        let before: usize = if i == 0 {
            n - 1
        } else {
            i - 1
        };
        let after: usize = if i == n - 1 {
            0
        } else {
            i + 1
        };
        proof {
            if i == 0 {
                vstd::arithmetic::div_mod::lemma_small_mod((n - 1) as nat, n as nat);
            } else {
                vstd::arithmetic::div_mod::lemma_mod_add_multiples_vanish(i - 1, n as int);
                vstd::arithmetic::div_mod::lemma_small_mod((i - 1) as nat, n as nat);
            }
            if i == n - 1 {
                vstd::arithmetic::div_mod::lemma_mod_self_0(n as int);
            } else {
                vstd::arithmetic::div_mod::lemma_small_mod((i + 1) as nat, n as nat);
            }
        }
        (before, i, after)
    }

    /// Counts the turns of each kind, given the turn at every point of the
    /// outline.
    pub fn classify(v: &[VertexType]) -> (p: Self)
        ensures
            p.plus == tally(v@, VertexType::Plus),
            p.minus == tally(v@, VertexType::Minus),
            p.flat == tally(v@, VertexType::Flat),
    {
        let mut plus: usize = 0;
        let mut minus: usize = 0;
        let mut flat: usize = 0;
        let n: usize = v.len();
        let mut i: usize = 0;
        while i < n
            invariant
                n == v@.len(),
                i <= n,
                plus == tally(v@.take(i as int), VertexType::Plus),
                minus == tally(v@.take(i as int), VertexType::Minus),
                flat == tally(v@.take(i as int), VertexType::Flat),
            decreases n - i,
        {
            proof {
                lemma_tally_total(v@.take(i as int));
                assert(v@.take(i + 1).drop_last() =~= v@.take(i as int));
            }
            match v[i] {
                VertexType::Plus => {
                    plus = plus + 1;
                },
                VertexType::Minus => {
                    minus = minus + 1;
                },
                VertexType::Flat => {
                    flat = flat + 1;
                },
            }
            i = i + 1;
        }
        proof {
            assert(v@.take(n as int) =~= v@);
        }
        PolygonType { plus, minus, flat }
    }

    /// A polygon is convex when it never turns both ways.
    pub fn is_convex(&self) -> (r: bool)
        ensures
            r == (self.plus == 0 || self.minus == 0),
    {
        self.plus == 0 || self.minus == 0
    }

    /// A polygon is concave when it turns both ways.
    pub fn is_concave(&self) -> (r: bool)
        ensures
            r == (self.plus > 0 && self.minus > 0),
            r == !(self.plus == 0 || self.minus == 0),
    {
        self.plus > 0 && self.minus > 0
    }

    pub fn has_flat_vertices(&self) -> (r: bool)
        ensures
            r == (self.flat > 0),
    {
        self.flat > 0
    }
}

} // verus!
