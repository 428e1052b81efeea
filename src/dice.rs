//! The two dice of a turn and which of them a move consumes.
use vstd::prelude::*;

verus! {

/// Which dice a move consumes.
#[derive(Clone, Copy, PartialEq, Eq, Structural, Debug, Hash, PartialOrd, Ord)]
pub enum WhichDie {
    One,
    Two,
    Both,
    /// A move that uses no die (the home-run power-up).
    Neither,
}

/// The faces still available this turn and the distance multiplier.
#[derive(Debug)]
pub struct Dice {
    pub one: Option<u8>,
    pub two: Option<u8>,
    pub doubles: bool,
    pub multiplier: u8,
}

pub open spec fn face_ok(f: Option<u8>) -> bool {
    match f {
        Some(v) => 1 <= v <= 6,
        None => true,
    }
}

impl Dice {
    /// Faces are between one and six, and the multiplier is one or two.
    pub open spec fn wf(&self) -> bool {
        face_ok(self.one) && face_ok(self.two) && (self.multiplier == 1 || self.multiplier == 2)
    }

    pub open spec fn spec_is_empty(&self) -> bool {
        self.one.is_none() && self.two.is_none()
    }

    /// A fresh roll.
    pub fn new(one: u8, two: u8) -> (r: Dice)
        requires
            1 <= one <= 6,
            1 <= two <= 6,
        ensures
            r.one == Some(one),
            r.two == Some(two),
            r.doubles == (one == two),
            r.multiplier == 1,
            r.wf(),
    {
        Dice { one: Some(one), two: Some(two), doubles: one == two, multiplier: 1 }
    }

    /// Marks the dice of a move as consumed; once both are gone the
    /// multiplier falls back to one.
    pub fn use_die(&mut self, which: WhichDie)
        ensures
            final(self).one == (if which == WhichDie::One || which == WhichDie::Both {
                None
            } else {
                old(self).one
            }),
            final(self).two == (if which == WhichDie::Two || which == WhichDie::Both {
                None
            } else {
                old(self).two
            }),
            final(self).doubles == old(self).doubles,
            final(self).multiplier == (if final(self).spec_is_empty() {
                1
            } else {
                old(self).multiplier
            }),
            old(self).wf() ==> final(self).wf(),
    {
        match which {
            WhichDie::One => self.one = None,
            WhichDie::Two => self.two = None,
            WhichDie::Both => {
                self.one = None;
                self.two = None;
            },
            WhichDie::Neither => {},
        }
        if self.is_empty() {
            self.multiplier = 1;
        }
    }

    /// Whether a die of this roll has been consumed.
    pub fn did_use_any(&self) -> (r: bool)
        ensures
            r == (self.one.is_none() || self.two.is_none()),
    {
        self.one.is_none() || self.two.is_none()
    }

    /// Whether both dice have been consumed.
    pub fn is_empty(&self) -> (r: bool)
        ensures
            r == self.spec_is_empty(),
    {
        self.one.is_none() && self.two.is_none()
    }
}

} // verus!
