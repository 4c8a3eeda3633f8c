//! Which keys are down, where the pointer is, and what is being dragged.
use crate::geometry::Position;
use bit_set::BitSet;
use vstd::prelude::*;

verus! {

/// A set of small integers, kept in a `BitSet` of the `bit-set` crate.
#[verifier::external_body]
pub struct Bits {
    set: BitSet,
}

/// The integers that a set holds.
pub uninterp spec fn members(s: Bits) -> Set<usize>;

/// `BitSet::new`: a set that holds nothing.
#[verifier::external_body]
fn bits_new() -> (s: Bits)
    ensures
        members(s) == Set::<usize>::empty(),
{
    Bits { set: BitSet::new() }
}

/// `BitSet::contains`: whether the set holds `value`.
#[verifier::external_body]
fn bits_contains(s: &Bits, value: usize) -> (r: bool)
    ensures
        r == members(*s).contains(value),
{
    s.set.contains(value)
}

/// `BitSet::insert`: adds `value` to the set and tells whether it was new.
/// The largest `usize` is left out: the set would have to grow past what a
/// `usize` can count.
#[verifier::external_body]
fn bits_insert(s: &mut Bits, value: usize) -> (r: bool)
    requires
        value < usize::MAX,
    ensures
        members(*final(s)) == members(*old(s)).insert(value),
        r == !members(*old(s)).contains(value),
{
    s.set.insert(value)
}

/// `BitSet::remove`: takes `value` out of the set and tells whether it was
/// there.
#[verifier::external_body]
fn bits_remove(s: &mut Bits, value: usize) -> (r: bool)
    ensures
        members(*final(s)) == members(*old(s)).remove(value),
        r == members(*old(s)).contains(value),
{
    s.set.remove(value)
}

/// `BitSet::is_disjoint`: whether the two sets have nothing in common.
#[verifier::external_body]
fn bits_is_disjoint(s: &Bits, other: &Bits) -> (r: bool)
    ensures
        r == members(*s).disjoint(members(*other)),
{
    s.set.is_disjoint(&other.set)
}

/// `BitSet::is_superset`: whether the first set holds all of the second.
#[verifier::external_body]
fn bits_is_superset(s: &Bits, other: &Bits) -> (r: bool)
    ensures
        r == members(*other).subset_of(members(*s)),
{
    s.set.is_superset(&other.set)
}

/// The last few values of something that changes, oldest first. When the
/// history is full the oldest value makes room for the newest.
pub struct History<T> {
    pub capacity: usize,
    pub items: Vec<T>,
}

impl<T: Copy> History<T> {
    pub open spec fn wf(self) -> bool {
        self.items@.len() <= self.capacity
    }

    /// The items after `item` is recorded.
    pub open spec fn recorded(self, item: T) -> Seq<T> {
        if self.capacity == 0 {
            self.items@
        } else if self.items@.len() < self.capacity {
            self.items@.push(item)
        } else {
            self.items@.drop_first().push(item)
        }
    }

    pub fn new(capacity: usize) -> (h: Self)
        ensures
            h.capacity == capacity,
            h.items@ == Seq::<T>::empty(),
            h.wf(),
    {
        History { capacity, items: Vec::new() }
    }

    pub fn push(&mut self, item: T)
        requires
            old(self).wf(),
        ensures
            final(self).capacity == old(self).capacity,
            final(self).items@ == old(self).recorded(item),
            final(self).wf(),
    {
        if self.capacity == 0 {
            return ;
        }
        if self.items.len() >= self.capacity {
            self.items.remove(0);
            proof {
                assert(self.items@ =~= old(self).items@.drop_first());
            }
        }
        self.items.push(item);
    }

    /// The value recorded last, if any.
    pub fn latest(&self) -> (item: Option<T>)
        ensures
            item == if self.items@.len() == 0 {
                None
            } else {
                Some(self.items@.last())
            },
    {
        let n: usize = self.items.len();
        if n == 0 {
            None
        } else {
            Some(self.items[n - 1])
        }
    }
}

/// What is held since a drag began.
#[derive(Clone, Copy, Debug, PartialEq)]
pub enum DragState<S> {
    Nothing,
    Hold(Key, Position<S>),
}

/// What a drag is doing right now.
#[derive(Clone, Copy, Debug, PartialEq)]
pub enum Dragging<S> {
    Nothing,
    Begin(Key, Position<S>),
    Dragging(Key, Position<S>, Position<S>),
    End(Key, Position<S>, Position<S>, Position<S>),
}

/// Whether a key went down or came up.
#[derive(Clone, Copy, Debug, PartialEq, Eq, Structural)]
pub enum State {
    Down,
    Up,
}

#[derive(Clone, Copy, Debug, PartialEq, Eq, Structural)]
pub enum Key {
    A,
    B,
    C,
    D,
    E,
    F,
    G,
    H,
    I,
    J,
    K,
    L,
    M,
    N,
    O,
    P,
    Q,
    R,
    S,
    T,
    U,
    V,
    W,
    X,
    Y,
    Z,
    F1,
    F2,
    F3,
    F4,
    F5,
    F6,
    F7,
    F8,
    F9,
    F10,
    F11,
    F12,
    N0,
    N1,
    N2,
    N3,
    N4,
    N5,
    N6,
    N7,
    N8,
    N9,
    Plus,
    Minus,
    Backspace,
    Backtick,
    OpenBracket,
    CloseBracket,
    Semicolon,
    Apostrophe,
    Tilde,
    Up,
    Down,
    Left,
    Right,
    Del,
    Ins,
    Home,
    End,
    Enter,
    PageUp,
    PageDown,
    Kp1,
    Kp2,
    Kp3,
    Kp4,
    Kp5,
    Kp6,
    Kp7,
    Kp8,
    Kp9,
    Kp0,
    KpPlus,
    KpMinus,
    KpDel,
    KpIns,
    KpHome,
    KpEnd,
    KpEnter,
    KpPageUp,
    KpPageDown,
    LShift,
    RShift,
    LAlt,
    RAlt,
    LSuper,
    RSuper,
    LCtrl,
    RCtrl,
    CapsLock,
    Space,
    Esc,
    Tab,
    PrintScreen,
    MouseLeft,
    MouseRight,
    MouseMiddle,
    MouseScrollUp,
    MouseScrollDown,
}

impl Key {
    /// The number that stands for this key in a set of keys.
    pub fn code(self) -> (c: usize)
        ensures
            c == self as usize,
            c < 105,
    {
        self as usize
    }
}

/// Something the user did.
#[derive(Clone, Copy, Debug, PartialEq)]
pub enum Event<S> {
    Key(State, Key),
    Mouse(Position<S>),
}

/// The numbers of the given keys.
pub open spec fn codes(keys: Seq<Key>) -> Set<usize> {
    Set::new(|c: usize| exists|i: int| 0 <= i < keys.len() && c == #[trigger] keys[i] as usize)
}

/// The next state of a drag and what the drag is doing, given what is held,
/// whether `key` is down, where the pointer is and where it was before.
pub open spec fn dragged<S>(
    held: DragState<S>,
    down: bool,
    key: Key,
    pos: Position<S>,
    prev: Position<S>,
) -> (DragState<S>, Dragging<S>) {
    match held {
        DragState::Nothing => if down {
            (DragState::Hold(key, pos), Dragging::Begin(key, pos))
        } else {
            (DragState::Nothing, Dragging::Nothing)
        },
        DragState::Hold(other, start) => if other != key {
            (held, Dragging::Nothing)
        } else if down {
            (DragState::Hold(key, start), Dragging::Dragging(key, start, pos))
        } else {
            (DragState::Nothing, Dragging::End(key, start, pos, prev))
        },
    }
}

/// The keys that are down, the keys already answered for, the drag under
/// way and the trail of the pointer.
pub struct InputState<S> {
    pub key_pressed: Bits,
    pub key_ack: Bits,
    pub drag_state: DragState<S>,
    pub mouse_history: History<Position<S>>,
    pub mouse_position: Position<S>,
}

impl<S: Copy> InputState<S> {
    pub open spec fn wf(self) -> bool {
        self.mouse_history.wf()
    }

    /// The keys that are down.
    pub open spec fn pressed(self) -> Set<usize> {
        members(self.key_pressed)
    }

    /// The keys whose press has been answered for.
    pub open spec fn acked(self) -> Set<usize> {
        members(self.key_ack)
    }

    /// Where the pointer was before it came to where it is: the last entry
    /// of the trail, or the present place when the trail is empty.
    pub open spec fn previous(self) -> Position<S> {
        if self.mouse_history.items@.len() == 0 {
            self.mouse_position
        } else {
            self.mouse_history.items@.last()
        }
    }

    /// No key down, nothing dragged, the pointer at `origin` with a trail of
    /// sixty places at most.
    pub fn new(origin: Position<S>) -> (s: Self)
        ensures
            s.pressed() == Set::<usize>::empty(),
            s.acked() == Set::<usize>::empty(),
            s.drag_state == DragState::<S>::Nothing,
            s.mouse_history.capacity == 60,
            s.mouse_history.items@ == Seq::<Position<S>>::empty(),
            s.mouse_position == origin,
            s.wf(),
    {
        InputState {
            key_pressed: bits_new(),
            key_ack: bits_new(),
            drag_state: DragState::Nothing,
            mouse_history: History::new(60),
            mouse_position: origin,
        }
    }

    pub fn event(&mut self, event: &Event<S>)
        requires
            old(self).wf(),
        ensures
            final(self).wf(),
            match *event {
                Event::Key(state, key) => {
                    &&& final(self).acked() == old(self).acked().remove(key as usize)
                    &&& final(self).pressed() == match state {
                        State::Down => old(self).pressed().insert(key as usize),
                        State::Up => old(self).pressed().remove(key as usize),
                    }
                    &&& final(self).drag_state == old(self).drag_state
                    &&& final(self).mouse_history == old(self).mouse_history
                    &&& final(self).mouse_position == old(self).mouse_position
                },
                Event::Mouse(position) => {
                    &&& final(self).acked() == old(self).acked()
                    &&& final(self).pressed() == old(self).pressed()
                    &&& final(self).drag_state == old(self).drag_state
                    &&& final(self).mouse_history.capacity == old(self).mouse_history.capacity
                    &&& final(self).mouse_history.items@ == old(self).mouse_history.recorded(
                        old(self).mouse_position,
                    )
                    &&& final(self).mouse_position == position
                },
            },
    {
        match *event {
            Event::Key(state, key) => self.key(state, key),
            Event::Mouse(position) => self.mouse_at(position),
        }
    }

    pub fn key_pressed(&self, b: Key) -> (r: bool)
        ensures
            r == self.pressed().contains(b as usize),
    {
        bits_contains(&self.key_pressed, b.code())
    }

    pub fn any_ctrl_pressed(&self) -> (r: bool)
        ensures
            r == (self.pressed().contains(Key::LCtrl as usize) || self.pressed().contains(
                Key::RCtrl as usize,
            )),
    {
        let keys = [Key::LCtrl, Key::RCtrl];
        let r = self.any_key_pressed(&keys);
        proof {
            assert(keys@[0] == Key::LCtrl && keys@[1] == Key::RCtrl);
        }
        r
    }

    pub fn any_alt_pressed(&self) -> (r: bool)
        ensures
            r == (self.pressed().contains(Key::LAlt as usize) || self.pressed().contains(
                Key::RAlt as usize,
            )),
    {
        let keys = [Key::LAlt, Key::RAlt];
        let r = self.any_key_pressed(&keys);
        proof {
            assert(keys@[0] == Key::LAlt && keys@[1] == Key::RAlt);
        }
        r
    }

    pub fn any_super_pressed(&self) -> (r: bool)
        ensures
            r == (self.pressed().contains(Key::LSuper as usize) || self.pressed().contains(
                Key::RSuper as usize,
            )),
    {
        let keys = [Key::LSuper, Key::RSuper];
        let r = self.any_key_pressed(&keys);
        proof {
            assert(keys@[0] == Key::LSuper && keys@[1] == Key::RSuper);
        }
        r
    }

    /// The set of the numbers of the given keys.
    fn set_of(b: &[Key]) -> (other: Bits)
        ensures
            members(other) == codes(b@),
    {
        let mut other = bits_new();
        let mut i: usize = 0;
        while i < b.len()
            invariant
                i <= b@.len(),
                members(other) == codes(b@.take(i as int)),
            decreases b@.len() - i,
        {
            let key: Key = b[i];
            bits_insert(&mut other, key.code());
            proof {
                let before = b@.take(i as int);
                let after = b@.take(i + 1);
                assert(after[i as int] == key);
                assert forall|c: usize| codes(after).contains(c) <==> codes(before).insert(
                    key as usize,
                ).contains(c) by {
                    if codes(after).contains(c) {
                        let j = choose|j: int|
                            0 <= j < after.len() && c == #[trigger] after[j] as usize;
                        if j < i {
                            assert(before[j] == after[j]);
                        }
                    }
                    if codes(before).contains(c) {
                        let j = choose|j: int|
                            0 <= j < before.len() && c == #[trigger] before[j] as usize;
                        assert(after[j] == before[j]);
                    }
                }
                assert(codes(after) =~= codes(before).insert(key as usize));
            }
            i = i + 1;
        }
        proof {
            assert(b@.take(b@.len() as int) =~= b@);
            assert(codes(b@.take(0)) =~= Set::<usize>::empty());
        }
        other
    }

    /// Whether one of the given keys, at least, is down.
    pub fn any_key_pressed(&self, b: &[Key]) -> (r: bool)
        ensures
            r == exists|i: int|
                0 <= i < b@.len() && self.pressed().contains(#[trigger] b@[i] as usize),
    {
        let other = Self::set_of(b);
        let disjoint = bits_is_disjoint(&self.key_pressed, &other);
        proof {
            if !disjoint {
                let c = choose|c: usize| self.pressed().contains(c) && codes(b@).contains(c);
                let i = choose|i: int| 0 <= i < b@.len() && c == #[trigger] b@[i] as usize;
                assert(self.pressed().contains(b@[i] as usize));
            } else {
                assert forall|i: int| 0 <= i < b@.len() implies !self.pressed().contains(
                    #[trigger] b@[i] as usize,
                ) by {
                    assert(codes(b@).contains(b@[i] as usize));
                }
            }
        }
        !disjoint
    }

    /// Whether all of the given keys are down.
    pub fn chord_pressed(&self, b: &[Key]) -> (r: bool)
        ensures
            r == forall|i: int|
                0 <= i < b@.len() ==> self.pressed().contains(#[trigger] b@[i] as usize),
    {
        let other = Self::set_of(b);
        let all = bits_is_superset(&self.key_pressed, &other);
        proof {
            if all {
                assert forall|i: int| 0 <= i < b@.len() implies self.pressed().contains(
                    #[trigger] b@[i] as usize,
                ) by {
                    assert(codes(b@).contains(b@[i] as usize));
                }
            } else {
                let c = choose|c: usize| codes(b@).contains(c) && !self.pressed().contains(c);
                let i = choose|i: int| 0 <= i < b@.len() && c == #[trigger] b@[i] as usize;
                assert(!self.pressed().contains(b@[i] as usize));
            }
        }
        all
    }

    /// Answers for a key press once: true the first time it is asked of a key
    /// that is down, false from then on until the key is pressed or released
    /// again.
    pub fn key_once(&mut self, b: Key) -> (r: bool)
        ensures
            r == (!old(self).acked().contains(b as usize) && old(self).pressed().contains(
                b as usize,
            )),
            final(self).acked() == old(self).acked().insert(b as usize),
            final(self).pressed() == old(self).pressed(),
            final(self).drag_state == old(self).drag_state,
            final(self).mouse_history == old(self).mouse_history,
            final(self).mouse_position == old(self).mouse_position,
    {
        if bits_contains(&self.key_ack, b.code()) {
            proof {
                assert(old(self).acked().insert(b as usize) =~= old(self).acked());
            }
            false
        } else {
            bits_insert(&mut self.key_ack, b.code());
            bits_contains(&self.key_pressed, b.code())
        }
    }

    pub fn mouse_position(&self) -> (p: Position<S>)
        ensures
            p == self.mouse_position,
    {
        self.mouse_position
    }

    fn key(&mut self, state: State, b: Key)
        ensures
            final(self).acked() == old(self).acked().remove(b as usize),
            final(self).pressed() == match state {
                State::Down => old(self).pressed().insert(b as usize),
                State::Up => old(self).pressed().remove(b as usize),
            },
            final(self).drag_state == old(self).drag_state,
            final(self).mouse_history == old(self).mouse_history,
            final(self).mouse_position == old(self).mouse_position,
    {
        bits_remove(&mut self.key_ack, b.code());
        match state {
            State::Down => {
                bits_insert(&mut self.key_pressed, b.code());
            },
            State::Up => {
                bits_remove(&mut self.key_pressed, b.code());
            },
        }
    }

    /// Moves the pointer to `pos` and adds the place it leaves to the trail.
    pub fn mouse_at(&mut self, pos: Position<S>)
        requires
            old(self).wf(),
        ensures
            final(self).wf(),
            final(self).acked() == old(self).acked(),
            final(self).pressed() == old(self).pressed(),
            final(self).drag_state == old(self).drag_state,
            final(self).mouse_history.capacity == old(self).mouse_history.capacity,
            final(self).mouse_history.items@ == old(self).mouse_history.recorded(
                old(self).mouse_position,
            ),
            final(self).mouse_position == pos,
    {
        self.mouse_history.push(self.mouse_position);
        self.mouse_position = pos;
    }

    /// Follows a drag with `key`: it begins when the key is found down, goes
    /// on while the key stays down, and ends when the key is found up. A
    /// drag held by another key is left alone.
    pub fn dragging(&mut self, key: Key, pos: Position<S>) -> (d: Dragging<S>)
        ensures
            (final(self).drag_state, d) == dragged(
                old(self).drag_state,
                old(self).pressed().contains(key as usize),
                key,
                pos,
                old(self).previous(),
            ),
            final(self).acked() == old(self).acked(),
            final(self).pressed() == old(self).pressed(),
            final(self).mouse_history == old(self).mouse_history,
            final(self).mouse_position == old(self).mouse_position,
    {
        let down: bool = self.key_pressed(key);
        let (drag_state, displacement) = match self.drag_state {
            DragState::Nothing => {
                if down {
                    (DragState::Hold(key, pos), Dragging::Begin(key, pos))
                } else {
                    (DragState::Nothing, Dragging::Nothing)
                }
            },
            DragState::Hold(held, start) => {
                if held != key {
                    (self.drag_state, Dragging::Nothing)
                } else if down {
                    (DragState::Hold(key, start), Dragging::Dragging(key, start, pos))
                } else {
                    let prev = match self.mouse_history.latest() {
                        Some(p) => p,
                        None => self.mouse_position,
                    };
                    (DragState::Nothing, Dragging::End(key, start, pos, prev))
                }
            },
        };
        self.drag_state = drag_state;
        displacement
    }
}

/// Turns the events of some window system into events of this library.
pub trait EventMapper<T, S> {
    fn translate(&self, e: &T) -> Option<Event<S>>;
}

} // verus!
