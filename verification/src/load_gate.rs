//! The one-shot gate that decides when a loaded scene is assembled.

use vstd::prelude::*;

verus! {

/// Whether the scene has already been assembled from its asset.
#[derive(Clone, Copy, PartialEq, Eq, Structural, Hash, Debug)]
pub struct GltfLoaded(pub bool);

/// What a frame has to do about the scene.
#[derive(Clone, Copy, PartialEq, Eq, Structural, Debug)]
pub enum LoadAction {
    /// Nothing: the scene is already there, or its asset is not.
    Idle,
    /// Assemble the scene now.
    Assemble,
}

impl GltfLoaded {
    /// The action owed in a frame, given whether the asset has arrived.
    pub open spec fn action(self, asset_ready: bool) -> LoadAction {
        if !self.0 && asset_ready {
            LoadAction::Assemble
        } else {
            LoadAction::Idle
        }
    }

    /// The state after a frame.
    pub open spec fn after(self, asset_ready: bool) -> GltfLoaded {
        GltfLoaded(self.0 || asset_ready)
    }

    /// Runs one frame: returns the state that follows and the action owed.
    pub fn step(self, asset_ready: bool) -> (r: (GltfLoaded, LoadAction))
        ensures
            r.0 == self.after(asset_ready),
            r.1 == self.action(asset_ready),
    {
        if self.0 {
            (self, LoadAction::Idle)
        } else if asset_ready {
            (GltfLoaded(true), LoadAction::Assemble)
        } else {
            (self, LoadAction::Idle)
        }
    }
}

/// How often the scene is assembled when the frames of `events` are run from
/// `state`, each event telling whether the asset had arrived in that frame.
pub open spec fn assemblies(state: GltfLoaded, events: Seq<bool>) -> nat
    decreases events.len(),
{
    if events.len() == 0 {
        0
    } else {
        let now: nat = if state.action(events[0]) == LoadAction::Assemble {
            1
        } else {
            0
        };
        now + assemblies(state.after(events[0]), events.skip(1))
    }
}

/// However the frames go, the scene is assembled at most once: never when it
/// was already there, and otherwise once if and only if the asset arrives in
/// some frame.
pub proof fn lemma_assembled_at_most_once(state: GltfLoaded, events: Seq<bool>)
    ensures
        assemblies(state, events) <= 1,
        assemblies(state, events) == 1 <==> !state.0 && events.contains(true),
    decreases events.len(),
{
    if events.len() > 0 {
        let rest = events.skip(1);
        lemma_assembled_at_most_once(state.after(events[0]), rest);
        if rest.contains(true) {
            let i = choose|i: int| 0 <= i < rest.len() && rest[i] == true;
            assert(events[i + 1] == true);
        }
        if events.contains(true) && !events[0] {
            let i = choose|i: int| 0 <= i < events.len() && events[i] == true;
            assert(rest[i - 1] == true);
        }
    }
}

} // verus!
