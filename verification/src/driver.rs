//! The frame driver: holds the constructed sprites in sprite-list order and
//! runs one frame of every sprite at a time.
//!
//! The caller owns the cadence (the sleep between frames) and the rendering
//! of each returned action; the driver owns the order. Within a frame every
//! sprite is ticked exactly once, in list order, and the first failure
//! aborts the frame with the failing sprite's list index and script path.

use vstd::prelude::*;

use crate::errors::SpriteError;
use crate::script::TickAction;
use crate::sprite::Sprite;

verus! {

/// The nominal frame period of the fixed 60 Hz cadence, in nanoseconds.
pub const FRAME_PERIOD_NANOS: u32 = 1_000_000_000 / 60;

/// The pixel dimensions of the display a sprite's window occupies.
#[derive(Debug, Clone, Copy, PartialEq, Eq, Structural)]
pub struct ScreenBounds {
    pub width: u32,
    pub height: u32,
}

/// A frame failure: which sprite failed, under which script path, and why.
#[derive(Debug)]
pub struct FrameError {
    pub sprite_index: usize,
    pub script_path: String,
    pub error: SpriteError,
}

/// The size and texture list of a sprite never change after construction.
pub open spec fn sprite_kept(before: Sprite, after: Sprite) -> bool {
    &&& after.path@ == before.path@
    &&& after.width == before.width
    &&& after.height == before.height
    &&& after.textures@ == before.textures@
}

/// The top-level driver: the sprites in sprite-list order.
pub struct FrameDriver {
    pub sprites: Vec<Sprite>,
}

impl FrameDriver {
    /// Takes ownership of the constructed sprites, keeping their order.
    pub fn new(sprites: Vec<Sprite>) -> (r: FrameDriver)
        ensures
            r.sprites@ == sprites@,
    {
        FrameDriver { sprites }
    }

    /// How many sprites the driver holds.
    pub fn sprite_count(&self) -> (r: usize)
        ensures
            r == self.sprites@.len(),
    {
        self.sprites.len()
    }

    /// Runs one frame: ticks every sprite once, in sprite-list order, with
    /// the display bounds supplied index for index.
    ///
    /// On success the actions come back in the same order, one per sprite,
    /// each naming a texture its sprite holds. On the first failure the
    /// frame is abandoned: every earlier sprite has completed its tick,
    /// the failing one and all later ones are untouched, and the error
    /// carries the failing sprite's list index and script path. No sprite's
    /// size or texture list ever changes.
    pub fn tick_frame(&mut self, bounds: &Vec<ScreenBounds>) -> (r: Result<
        Vec<TickAction>,
        FrameError,
    >)
        requires
            bounds@.len() == old(self).sprites@.len(),
        ensures
            final(self).sprites@.len() == old(self).sprites@.len(),
            forall|i: int|
                0 <= i < old(self).sprites@.len() ==> sprite_kept(
                    old(self).sprites@[i],
                    #[trigger] final(self).sprites@[i],
                ),
            r matches Ok(actions) ==> {
                &&& actions@.len() == old(self).sprites@.len()
                &&& forall|i: int|
                    0 <= i < actions@.len() ==> (#[trigger] actions@[i]).texture_index
                        < old(self).sprites@[i].textures@.len()
                &&& forall|i: int|
                    0 <= i < old(self).sprites@.len()
                        ==> (#[trigger] final(self).sprites@[i]).ticks@
                        == old(self).sprites@[i].ticks@ + 1
            },
            r matches Err(fe) ==> {
                &&& fe.sprite_index < old(self).sprites@.len()
                &&& fe.script_path@ == old(self).sprites@[fe.sprite_index as int].path@
                &&& (fe.error matches SpriteError::ScriptContract(_) || fe.error
                    matches SpriteError::ScriptRuntime(_))
                &&& forall|i: int|
                    0 <= i < fe.sprite_index ==> (#[trigger] final(self).sprites@[i]).ticks@
                        == old(self).sprites@[i].ticks@ + 1
                &&& forall|i: int|
                    fe.sprite_index <= i < old(self).sprites@.len()
                        ==> (#[trigger] final(self).sprites@[i]).ticks@
                        == old(self).sprites@[i].ticks@
            },
    {
        let ghost orig = self.sprites@;
        let n = self.sprites.len();
        let mut actions: Vec<TickAction> = Vec::new();
        let mut i: usize = 0;
        while i < n
            invariant
                i <= n,
                orig == old(self).sprites@,
                n == orig.len(),
                self.sprites@.len() == n,
                bounds@.len() == n,
                actions@.len() == i,
                forall|j: int|
                    0 <= j < n ==> sprite_kept(orig[j], #[trigger] self.sprites@[j]),
                forall|j: int|
                    0 <= j < i ==> (#[trigger] self.sprites@[j]).ticks@ == orig[j].ticks@ + 1,
                forall|j: int| i <= j < n ==> #[trigger] self.sprites@[j] == orig[j],
                forall|j: int|
                    0 <= j < i ==> (#[trigger] actions@[j]).texture_index
                        < orig[j].textures@.len(),
            decreases n - i,
        {
            let ghost before = self.sprites@;
            let mut s = self.sprites.remove(i);
            let b = bounds[i];
            match s.tick(b.width, b.height) {
                Ok(a) => {
                    self.sprites.insert(i, s);
                    proof {
                        assert(self.sprites@ =~= before.update(i as int, self.sprites@[i as int]));
                    }
                    actions.push(a);
                },
                Err(e) => {
                    let script_path = s.path.clone();
                    self.sprites.insert(i, s);
                    proof {
                        assert(self.sprites@ =~= before.update(i as int, self.sprites@[i as int]));
                    }
                    return Err(FrameError { sprite_index: i, script_path, error: e });
                },
            }
            i += 1;
        }
        Ok(actions)
    }
}

} // verus!
