//! The player's health and the heart icons that show it.
use vstd::arithmetic::div_mod::lemma_add_mod_noop_right;
use vstd::prelude::*;

verus! {

/// The player's hit points.
#[derive(Clone, Copy, Debug, PartialEq, Eq, Structural)]
pub struct PlayerHP(pub i16);

/// Which heart icon a sprite is, counted from the left from zero.
#[derive(Clone, Copy, Debug, PartialEq, Eq, Structural)]
pub struct Index(pub i32);

/// A heart icon: its place and the frame of its sprite sheet on show.
#[derive(Clone, Copy, Debug, PartialEq, Eq, Structural)]
pub struct Heart {
    pub index: Index,
    pub frame: usize,
}

/// The player starts with three hit points.
pub const START_HP: i16 = 3;

impl Default for PlayerHP {
    fn default() -> (r: PlayerHP)
        ensures
            r == PlayerHP(START_HP),
    {
        PlayerHP(START_HP)
    }
}

/// The frame after `frame` in a sheet of `frames` frames, wrapping around.
pub fn next_frame(frame: usize, frames: usize) -> (r: usize)
    requires
        frames > 0,
    ensures
        r == (frame + 1) % (frames as int),
{
    proof {
        lemma_add_mod_noop_right(1, frame as int, frames as int);
    }
    ((frame % frames) + 1) % frames
}

/// The hit points after `n` hits taken from `h0`: hits are taken one at a
/// time, and taking them stops at the first that leaves the count below zero.
/// The count does not go below `i16::MIN`.
pub open spec fn hp_after_hits(h0: int, n: int) -> int {
    if h0 >= n {
        h0 - n
    } else if h0 >= 0 {
        -1
    } else if h0 > i16::MIN {
        h0 - 1
    } else {
        h0
    }
}

/// Whether the heart at `index` turns over when `n` hits are taken from `h0`:
/// each hit taken that leaves `h` points (`h >= 0`) turns the heart at `h`.
pub open spec fn heart_turns(h0: int, n: int, index: int) -> bool {
    let low = if h0 - n > 0 {
        h0 - n
    } else {
        0
    };
    low <= index < h0
}

/// Takes `events` hits: for each, one hit point goes and the heart at the new
/// count turns to its next frame (a sheet of `frames` frames). Stops at the
/// first hit that leaves the count below zero.
pub fn player_hit_handler(hp: &mut PlayerHP, events: usize, hearts: &mut Vec<Heart>, frames: usize)
    requires
        frames > 0,
    ensures
        events == 0 ==> final(hp).0 == old(hp).0,
        events > 0 ==> final(hp).0 == hp_after_hits(old(hp).0 as int, events as int),
        final(hearts)@.len() == old(hearts)@.len(),
        forall|j: int|
            0 <= j < old(hearts)@.len() ==> final(hearts)@[j].index == old(hearts)@[j].index,
        forall|j: int|
            0 <= j < old(hearts)@.len() ==> final(hearts)@[j].frame == if heart_turns(
                old(hp).0 as int,
                events as int,
                old(hearts)@[j].index.0 as int,
            ) {
                (old(hearts)@[j].frame + 1) % (frames as int)
            } else {
                old(hearts)@[j].frame as int
            },
{
    let ghost h0 = hp.0 as int;
    let ghost start = hearts@;
    let mut k: usize = 0;
    let mut stopped = false;
    while k < events && !stopped
        invariant
            k <= events,
            hearts@.len() == start.len(),
            !stopped ==> hp.0 == h0 - k,
            !stopped && k > 0 ==> hp.0 >= 0,
            stopped ==> k > 0 && hp.0 == hp_after_hits(h0, events as int) && h0 < k,
            frames > 0,
            forall|j: int| 0 <= j < start.len() ==> hearts@[j].index == start[j].index,
            forall|j: int|
                0 <= j < start.len() ==> hearts@[j].frame == if heart_turns(
                    h0,
                    k as int,
                    start[j].index.0 as int,
                ) {
                    (start[j].frame + 1) % (frames as int)
                } else {
                    start[j].frame as int
                },
        decreases events - k,
    {
        if hp.0 > i16::MIN {
            hp.0 = hp.0 - 1;
        }
        if hp.0 < 0 {
            stopped = true;
        } else {
            let mut j: usize = 0;
            while j < hearts.len()
                invariant
                    hp.0 >= 0,
                    hp.0 == h0 - k - 1,
                    frames > 0,
                    j <= hearts@.len(),
                    hearts@.len() == start.len(),
                    forall|m: int| 0 <= m < start.len() ==> hearts@[m].index == start[m].index,
                    forall|m: int|
                        0 <= m < j ==> hearts@[m].frame == if heart_turns(
                            h0,
                            k + 1,
                            start[m].index.0 as int,
                        ) {
                            (start[m].frame + 1) % (frames as int)
                        } else {
                            start[m].frame as int
                        },
                    forall|m: int|
                        j <= m < start.len() ==> hearts@[m].frame == if heart_turns(
                            h0,
                            k as int,
                            start[m].index.0 as int,
                        ) {
                            (start[m].frame + 1) % (frames as int)
                        } else {
                            start[m].frame as int
                        },
                decreases hearts@.len() - j,
            {
                let h = hearts[j];
                if h.index.0 == hp.0 as i32 {
                    hearts.set(j, Heart { index: h.index, frame: next_frame(h.frame, frames) });
                }
                j = j + 1;
            }
        }
        k = k + 1;
    }
}

} // verus!
