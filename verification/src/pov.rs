//! The point of view: which objects of the scene are to be drawn.

use std::collections::HashSet;
use vstd::prelude::*;

verus! {

/// What happened to an object of the scene since the last cycle. An object is
/// known by its identifier.
#[derive(Clone, Copy, Debug, PartialEq, Eq, Structural)]
pub enum SceneEvent {
    /// The object came into the scene.
    New(u64),
    /// The object left the scene.
    Drop(u64),
}

/// The set of objects that are visible once `events` have been taken in, in
/// order, starting from `visible`.
pub open spec fn after_events(visible: Set<u64>, events: Seq<SceneEvent>) -> Set<u64>
    decreases events.len(),
{
    if events.len() == 0 {
        visible
    } else {
        let earlier = after_events(visible, events.drop_last());
        match events.last() {
            SceneEvent::New(object) => earlier.insert(object),
            SceneEvent::Drop(object) => earlier.remove(object),
        }
    }
}

/// The point of view. It keeps the identifiers of the visible objects.
pub struct Pov {
    visible_objects: HashSet<u64>,
}

impl View for Pov {
    type V = Set<u64>;

    closed spec fn view(&self) -> Set<u64> {
        self.visible_objects@
    }
}

impl Pov {
    /// A point of view from which nothing is visible yet.
    pub fn new() -> (pov: Pov)
        ensures
            pov@ == Set::<u64>::empty(),
    {
        Pov { visible_objects: HashSet::new() }
    }

    /// Takes in the events of one cycle of the scene: an object that came in
    /// is visible from then on, an object that left is not.
    pub fn cycle(&mut self, events: &Vec<SceneEvent>)
        ensures
            final(self)@ == after_events(old(self)@, events@),
    {
        let mut at: usize = 0;
        while at < events.len()
            invariant
                at <= events@.len(),
                self@ == after_events(old(self)@, events@.take(at as int)),
            decreases events@.len() - at,
        {
            proof {
                assert(events@.take(at + 1).drop_last() =~= events@.take(at as int));
                assert(events@.take(at + 1).last() == events@[at as int]);
            }
            match events[at] {
                SceneEvent::New(object) => {
                    self.visible_objects.insert(object);
                },
                SceneEvent::Drop(object) => {
                    self.visible_objects.remove(&object);
                },
            }
            at += 1;
        }
        proof {
            assert(events@.take(at as int) =~= events@);
        }
    }

    /// Whether `object` is visible.
    pub fn is_visible(&self, object: u64) -> (visible: bool)
        ensures
            visible == self@.contains(object),
    {
        self.visible_objects.contains(&object)
    }
}

} // verus!
