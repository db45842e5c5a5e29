use vstd::prelude::*;

verus! {

/// Guides an enemy along a sequence of waypoints. `W` is the type of a
/// waypoint (a position in the world).
#[derive(Debug, Clone)]
pub struct PathFollower<W> {
    pub waypoints: Vec<W>,
    pub current_index: usize,
}

/// The content of a follower: its route and where along it the follower is.
pub struct FollowerView<W> {
    pub waypoints: Seq<W>,
    pub current_index: nat,
}

impl<W> View for PathFollower<W> {
    type V = FollowerView<W>;

    open spec fn view(&self) -> FollowerView<W> {
        FollowerView { waypoints: self.waypoints@, current_index: self.current_index as nat }
    }
}

impl<W> FollowerView<W> {
    /// The waypoint being headed for, if any.
    pub open spec fn target(self) -> Option<W> {
        if self.current_index < self.waypoints.len() {
            Some(self.waypoints[self.current_index as int])
        } else {
            None
        }
    }

    /// Whether there is a further waypoint to advance to.
    pub open spec fn can_advance(self) -> bool {
        self.current_index + 1 < self.waypoints.len()
    }

    /// The follower after an attempt to advance.
    pub open spec fn advanced(self) -> FollowerView<W> {
        if self.can_advance() {
            FollowerView { current_index: self.current_index + 1, ..self }
        } else {
            self
        }
    }

    pub open spec fn is_finished(self) -> bool {
        self.current_index >= self.waypoints.len()
    }
}

impl<W: Copy> PathFollower<W> {
    /// The waypoint the follower is heading for, or `None` past the end.
    pub fn current_target(&self) -> (t: Option<W>)
        ensures
            t == self@.target(),
    {
        if self.current_index < self.waypoints.len() {
            Some(self.waypoints[self.current_index])
        } else {
            None
        }
    }

    /// Moves on to the next waypoint if there is one; returns whether it did.
    /// At the last waypoint the follower stays put and `false` comes back.
    pub fn advance(&mut self) -> (moved: bool)
        requires
            old(self).current_index < usize::MAX,
        ensures
            moved == old(self)@.can_advance(),
            final(self)@ == old(self)@.advanced(),
    {
        if self.current_index + 1 < self.waypoints.len() {
            self.current_index = self.current_index + 1;
            true
        } else {
            false
        }
    }

    /// Whether the follower stands past the end of its route.
    pub fn finished(&self) -> (f: bool)
        ensures
            f == self@.is_finished(),
    {
        self.current_index >= self.waypoints.len()
    }
}

/// A follower on its route stays on it: advancing never carries it past the
/// last waypoint, so it always has a target and never reports finished; a
/// follower that cannot advance is at the last waypoint, and advancing it
/// changes nothing.
pub proof fn law_advance_stays_on_route<W>(f: FollowerView<W>)
    ensures
        f.current_index < f.waypoints.len() ==> {
            &&& f.advanced().current_index < f.waypoints.len()
            &&& !f.advanced().is_finished()
            &&& f.advanced().target() is Some
        },
        f.current_index < f.waypoints.len() && !f.can_advance() ==> f.current_index + 1
            == f.waypoints.len(),
        !f.can_advance() ==> f.advanced() == f,
        f.target() is Some <==> !f.is_finished(),
        f.advanced().waypoints == f.waypoints,
{
}

} // verus!
