//! Playback of a discretised reference path.
//!
//! The control loop holds a cursor into the path and moves it forward by a
//! fixed fraction of a point per tick. Once the cursor stands on the last
//! point, the next tick sends it back to the first.

use vstd::prelude::*;

verus! {

/// A position along a reference path: the index of the current point and how
/// many ticks have been spent on it, out of `ticks_per_point`.
#[derive(Debug, Clone, Copy, PartialEq, Eq, Structural)]
pub struct PathCursor {
    pub point: usize,
    pub tick: u64,
    pub ticks_per_point: u64,
}

impl PathCursor {
    pub open spec fn wf(self) -> bool {
        self.ticks_per_point >= 1 && self.tick < self.ticks_per_point
    }

    /// The cursor one tick later on a path of `path_len` points.
    pub open spec fn advanced(self, path_len: nat) -> PathCursor {
        if self.point + 1 < path_len {
            if self.tick + 1 == self.ticks_per_point {
                PathCursor { point: (self.point + 1) as usize, tick: 0, ..self }
            } else {
                PathCursor { tick: (self.tick + 1) as u64, ..self }
            }
        } else {
            PathCursor { point: 0, tick: 0, ..self }
        }
    }

    /// A cursor on the first point that moves on after `ticks_per_point`
    /// ticks; `None` when `ticks_per_point` is zero.
    pub fn new(ticks_per_point: u64) -> (r: Option<PathCursor>)
        ensures
            ticks_per_point == 0 <==> r is None,
            r matches Some(c) ==> (c == PathCursor { point: 0, tick: 0, ticks_per_point }),
            r matches Some(c) ==> c.wf(),
    {
        if ticks_per_point == 0 {
            None
        } else {
            Some(PathCursor { point: 0, tick: 0, ticks_per_point })
        }
    }

    /// The index of the path point that the cursor stands on.
    pub fn index(&self) -> (r: usize)
        ensures
            r == self.point,
    {
        self.point
    }

    /// Moves the cursor one tick forward on a path of `path_len` points,
    /// wrapping to the first point after the last.
    pub fn advance(&mut self, path_len: usize)
        requires
            old(self).wf(),
            old(self).point < path_len,
        ensures
            *final(self) == old(self).advanced(path_len as nat),
            final(self).wf(),
            final(self).point < path_len,
    {
        if self.point + 1 < path_len {
            if self.tick + 1 == self.ticks_per_point {
                self.point = self.point + 1;
                self.tick = 0;
            } else {
                self.tick = self.tick + 1;
            }
        } else {
            self.point = 0;
            self.tick = 0;
        }
    }
}

} // verus!
