//! Frame players: a vertically stacked sprite atlas and a pointer to the
//! frame of it that is currently shown.

use vstd::arithmetic::div_mod::lemma_add_mod_noop_right;
use vstd::arithmetic::div_mod::lemma_mod_self_0;
use vstd::arithmetic::div_mod::lemma_small_mod;
use vstd::prelude::*;

use crate::HEIGHT;
use crate::WIDTH;

verus! {

/// A rectangle of pixels inside an atlas.
#[derive(Clone, Copy, Debug, PartialEq, Eq, Structural)]
pub struct FrameArea {
    pub x: i32,
    pub y: i32,
    pub width: u32,
    pub height: u32,
}

/// What the caller has to put on the display.
#[derive(Debug, PartialEq, Eq)]
pub enum DrawCommand<'a, T> {
    /// Draw the part `area` of `atlas` at the origin of the display.
    Frame { atlas: &'a T, area: FrameArea },
    /// Draw the whole `image` at the origin of the display.
    Image { image: &'a T },
    /// Fill the display with one colour, given as 8-bit red, green and blue.
    Clear { red: u8, green: u8, blue: u8 },
}

/// The largest number of frames whose rows can still be addressed with a
/// signed 32-bit pixel coordinate.
pub const MAX_FRAME_COUNT: u32 = 8_947_848;

/// The mathematical state of a frame player.
pub struct Player {
    pub frame_count: nat,
    pub index: nat,
}

impl Player {
    /// The frame pointer lies inside a non-empty, addressable atlas.
    pub open spec fn wf(self) -> bool {
        &&& 0 < self.frame_count <= MAX_FRAME_COUNT
        &&& self.index < self.frame_count
    }

    /// A player at the first frame.
    pub open spec fn fresh(frame_count: nat) -> Player {
        Player { frame_count, index: 0 }
    }

    /// True when the next tick ends the cycle.
    pub open spec fn completes(self) -> bool {
        self.index + 1 >= self.frame_count
    }

    /// The player after one tick.
    pub open spec fn tick(self) -> Player {
        Player {
            frame_count: self.frame_count,
            index: if self.completes() { 0 } else { self.index + 1 },
        }
    }

    /// The player after `n` ticks.
    pub open spec fn after(self, n: nat) -> Player
        decreases n,
    {
        if n == 0 {
            self
        } else {
            self.after((n - 1) as nat).tick()
        }
    }

    /// The part of the atlas that holds the current frame.
    pub open spec fn area(self) -> FrameArea {
        FrameArea { x: 0, y: (self.index * HEIGHT) as i32, width: WIDTH, height: HEIGHT }
    }
}

/// One tick moves the frame pointer forward by one, modulo the number of
/// frames, and completes the cycle exactly when the pointer comes back to
/// the first frame.
pub proof fn lemma_tick_advances(p: Player)
    requires
        p.wf(),
    ensures
        p.tick().wf(),
        p.tick().frame_count == p.frame_count,
        p.tick().index == (p.index + 1) % p.frame_count,
        !p.completes() ==> p.tick().index == p.index + 1,
        p.completes() <==> p.tick().index == 0,
{
    if p.completes() {
        lemma_mod_self_0(p.frame_count as int);
    } else {
        lemma_small_mod((p.index + 1) as nat, p.frame_count);
    }
}

/// Ticking a player that stands at the first frame `frame_count` times
/// completes the cycle on the last tick and on no earlier one: the tick
/// number `n` leaves the pointer at frame `n`, but for the last, which
/// brings it back to the first frame.
pub proof fn lemma_full_cycle(frame_count: nat, n: nat)
    requires
        0 < frame_count,
        1 <= n <= frame_count,
    ensures
        Player::fresh(frame_count).after((n - 1) as nat).index == n - 1,
        Player::fresh(frame_count).after((n - 1) as nat).completes() <==> n == frame_count,
        Player::fresh(frame_count).after(n).frame_count == frame_count,
        Player::fresh(frame_count).after(n).index == if n == frame_count {
            0
        } else {
            n
        },
    decreases n,
{
    if n > 1 {
        lemma_full_cycle(frame_count, (n - 1) as nat);
    }
}

/// Ticking is periodic: after `n` ticks the pointer of any player has moved
/// forward by `n`, modulo the number of frames.
pub proof fn lemma_after(p: Player, n: nat)
    requires
        p.wf(),
    ensures
        p.after(n).wf(),
        p.after(n).frame_count == p.frame_count,
        p.after(n).index == (p.index + n) % p.frame_count,
    decreases n,
{
    if n == 0 {
        lemma_small_mod(p.index, p.frame_count);
    } else {
        let before = p.after((n - 1) as nat);
        lemma_after(p, (n - 1) as nat);
        lemma_tick_advances(before);
        lemma_add_mod_noop_right(1, p.index + n - 1, p.frame_count as int);
        lemma_add_mod_noop_right(1, before.index as int, p.frame_count as int);
        lemma_small_mod(before.index, p.frame_count);
    }
}

/// A sprite atlas of `frame_count` frames stacked vertically, with the
/// index of the current frame.
pub struct Animation<T> {
    atlas: T,
    frame_count: u32,
    current_frame_index: u32,
}

impl<T> View for Animation<T> {
    type V = Player;

    closed spec fn view(&self) -> Player {
        Player { frame_count: self.frame_count as nat, index: self.current_frame_index as nat }
    }
}

impl<T> Animation<T> {
    /// Holds of every player: the frame pointer lies inside the atlas.
    #[verifier::type_invariant]
    pub open spec fn inv(self) -> bool {
        self@.wf()
    }

    /// The atlas that the player owns.
    pub closed spec fn atlas(&self) -> T {
        self.atlas
    }

    /// A player for `atlas`, standing at its first frame.
    pub fn new(atlas: T, frame_count: u32) -> (anim: Self)
        requires
            0 < frame_count <= MAX_FRAME_COUNT,
        ensures
            anim@ == Player::fresh(frame_count as nat),
            anim.atlas() == atlas,
    {
        Animation { atlas, frame_count, current_frame_index: 0 }
    }

    /// Moves to the next frame; returns `true` when the cycle is complete
    /// and the player is back at the first frame.
    pub fn tick(&mut self) -> (completed: bool)
        ensures
            final(self)@ == old(self)@.tick(),
            final(self).atlas() == old(self).atlas(),
            completed == old(self)@.completes(),
    {
        proof {
            use_type_invariant(&*self);
        }
        let next: u32 = self.current_frame_index + 1;
        if next >= self.frame_count {
            self.current_frame_index = 0;
            true
        } else {
            self.current_frame_index = next;
            false
        }
    }

    /// The command that shows the current frame.
    pub fn draw(&self) -> (cmd: DrawCommand<'_, T>)
        ensures
            cmd == (DrawCommand::Frame { atlas: &self.atlas(), area: self@.area() }),
    {
        proof {
            use_type_invariant(self);
        }
        let y: u32 = self.current_frame_index * HEIGHT;
        DrawCommand::Frame {
            atlas: &self.atlas,
            area: FrameArea { x: 0, y: y as i32, width: WIDTH, height: HEIGHT },
        }
    }
}

} // verus!
