//! The registry of animations: for each animation the game knows, the atlas its
//! frames are cut from and the way the strip is played.

use vstd::prelude::*;
use crate::animation::SpriteAnimation;

verus! {

/// The animations the game knows.
#[derive(Clone, Copy, Debug, PartialEq, Eq, Hash, Structural)]
pub enum Animation {
    PlayerIdle,
}

/// Names a texture atlas that the caller has loaded. The number means nothing
/// here: it is handed back as it was given.
#[derive(Clone, Copy, Debug, PartialEq, Eq, Hash, Structural)]
pub struct AtlasHandle(pub u64);

/// One line of the registry.
type Entry = (Animation, AtlasHandle, SpriteAnimation);

/// The mapping that a list of entries stands for. A later entry replaces an
/// earlier one for the same animation.
spec fn table(entries: Seq<Entry>) -> Map<Animation, (AtlasHandle, SpriteAnimation)>
    decreases entries.len(),
{
    if entries.len() == 0 {
        Map::empty()
    } else {
        let entry = entries.last();
        table(entries.drop_last()).insert(entry.0, (entry.1, entry.2))
    }
}

/// Frames in the strip of the idle player.
pub const PLAYER_IDLE_FRAMES: usize = 6;

/// Frames per second at which the idle player is played.
pub const PLAYER_IDLE_FPS: usize = 5;

/// Maps each registered animation to its atlas and its description. It is
/// filled once, before any entity is spawned, and only read afterwards.
pub struct Animations {
    entries: Vec<Entry>,
}

impl View for Animations {
    type V = Map<Animation, (AtlasHandle, SpriteAnimation)>;

    closed spec fn view(&self) -> Self::V {
        table(self.entries@)
    }
}

impl Animations {
    /// Every registered animation is well formed.
    #[verifier::type_invariant]
    spec fn entries_wf(self) -> bool {
        forall|i: int| 0 <= i < self.entries@.len() ==> (#[trigger] self.entries@[i]).2.wf()
    }

    /// A registry with nothing in it.
    pub fn new() -> (animations: Animations)
        ensures
            animations@ == Map::<Animation, (AtlasHandle, SpriteAnimation)>::empty(),
    {
        Animations { entries: Vec::new() }
    }

    /// The registry with `animation` registered under `id`, cut from the atlas
    /// `atlas`. What was registered under `id` before is replaced.
    pub fn with(self, id: Animation, atlas: AtlasHandle, animation: SpriteAnimation) -> (animations: Animations)
        requires
            animation.wf(),
        ensures
            animations@ == self@.insert(id, (atlas, animation)),
    {
        proof {
            use_type_invariant(&self);
            assert(self.entries@.push((id, atlas, animation)).drop_last() =~= self.entries@);
        }
        let mut entries = self.entries;
        entries.push((id, atlas, animation));
        Animations { entries }
    }

    /// The registry of the game, where `player_idle` is the atlas that holds
    /// the strip of the idle player.
    pub fn from_atlases(player_idle: AtlasHandle) -> (animations: Animations)
        ensures
            animations@ == Map::<Animation, (AtlasHandle, SpriteAnimation)>::empty().insert(
                Animation::PlayerIdle,
                (player_idle, SpriteAnimation { len: 6, frame_time: 200_000 }),
            ),
    {
        Animations::new().with(
            Animation::PlayerIdle,
            player_idle,
            SpriteAnimation::new(PLAYER_IDLE_FRAMES, PLAYER_IDLE_FPS),
        )
    }

    /// Looks `id` up: the atlas and the description registered under it, or
    /// `None` where nothing is.
    pub fn get(&self, id: Animation) -> (found: Option<(AtlasHandle, SpriteAnimation)>)
        ensures
            found == (if self@.contains_key(id) {
                Some(self@[id])
            } else {
                None
            }),
            found matches Some(entry) ==> entry.1.wf(),
    {
        let mut i: usize = self.entries.len();
        proof {
            assert(self.entries@.take(i as int) =~= self.entries@);
        }
        while i > 0
            invariant
                i <= self.entries.len(),
                self@.contains_key(id) == table(self.entries@.take(i as int)).contains_key(id),
                self@.contains_key(id) ==> self@[id] == table(self.entries@.take(i as int))[id],
            decreases i,
        {
            i -= 1;
            let entry = self.entries[i];
            proof {
                let upto = self.entries@.take(i + 1);
                assert(upto.drop_last() =~= self.entries@.take(i as int));
                assert(upto.last() == entry);
                use_type_invariant(self);
            }
            if entry.0 == id {
                return Some((entry.1, entry.2));
            }
        }
        None
    }
}

} // verus!
