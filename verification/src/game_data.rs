//! The data for each game session: player scores, screen dimensions, the
//! zoom factor, and the animation frame counts of the loaded sprite sets.
//! Frame counts are injected configuration — the animation logic never
//! assumes a fixed sprite count.

use vstd::prelude::*;
use crate::player::{AnimationState, MAX_ANIM_FRAMES};

verus! {

/// Scores a match plays to.
pub const WIN_SCORE: u32 = 5;

/// Bound on stored scores; far above anything reachable, it only keeps the
/// increment within `u32`.
pub const SCORE_LIMIT: u32 = 1_000_000_000;

/// Bound on screen dimensions in pixels.
pub const SCREEN_LIMIT: i64 = 100_000;

/// Zoom factors are at milli scale (1000 is 1.0); this bounds them.
pub const ZOOM_LIMIT: i64 = 1_000_000;

/// Frame counts of one player's sprite sets, one per animation state.
#[derive(Clone, Copy, Debug)]
pub struct AnimFrameCounts {
    pub idle: usize,
    pub run: usize,
    pub jump: usize,
    pub shoot: usize,
    pub hurt: usize,
}

impl AnimFrameCounts {
    /// Every sprite set holds at least one frame and at most the engine
    /// bound.
    pub open spec fn wf(self) -> bool {
        &&& 1 <= self.idle <= MAX_ANIM_FRAMES
        &&& 1 <= self.run <= MAX_ANIM_FRAMES
        &&& 1 <= self.jump <= MAX_ANIM_FRAMES
        &&& 1 <= self.shoot <= MAX_ANIM_FRAMES
        &&& 1 <= self.hurt <= MAX_ANIM_FRAMES
    }

    /// The frame count of the sprite set for `state`.
    pub open spec fn spec_count(self, state: AnimationState) -> usize {
        match state {
            AnimationState::Idle => self.idle,
            AnimationState::Run => self.run,
            AnimationState::Jump => self.jump,
            AnimationState::Shoot => self.shoot,
            AnimationState::Hurt => self.hurt,
        }
    }

    pub fn count(&self, state: AnimationState) -> (n: usize)
        ensures
            n == self.spec_count(state),
    {
        match state {
            AnimationState::Idle => self.idle,
            AnimationState::Run => self.run,
            AnimationState::Jump => self.jump,
            AnimationState::Shoot => self.shoot,
            AnimationState::Hurt => self.hurt,
        }
    }
}

pub struct GameData {
    pub zoom_factor: i64,  // milli scale; keeps things proportional on different screens
    pub player_scores: Vec<u32>,  // [p1 score, p2 score]
    pub screen_width: i64,
    pub screen_height: i64,
    pub p1_frames: AnimFrameCounts,
    pub p2_frames: AnimFrameCounts,
}

impl GameData {
    pub open spec fn wf(self) -> bool {
        &&& self.player_scores@.len() == 2
        &&& self.player_scores@[0] <= SCORE_LIMIT
        &&& self.player_scores@[1] <= SCORE_LIMIT
        &&& 1 <= self.zoom_factor <= ZOOM_LIMIT
        &&& 1 <= self.screen_width <= SCREEN_LIMIT
        &&& 1 <= self.screen_height <= SCREEN_LIMIT
        &&& self.p1_frames.wf()
        &&& self.p2_frames.wf()
    }

    pub fn new(
        width: i64,
        height: i64,
        zoom: i64,
        p1_frames: AnimFrameCounts,
        p2_frames: AnimFrameCounts,
    ) -> (data: GameData)
        requires
            1 <= width <= SCREEN_LIMIT,
            1 <= height <= SCREEN_LIMIT,
            1 <= zoom <= ZOOM_LIMIT,
            p1_frames.wf(),
            p2_frames.wf(),
        ensures
            data.wf(),
            data.screen_width == width,
            data.screen_height == height,
            data.zoom_factor == zoom,
            data.player_scores@ =~= seq![0u32, 0u32],
            data.p1_frames == p1_frames,
            data.p2_frames == p2_frames,
    {
        let mut player_scores: Vec<u32> = Vec::new();
        player_scores.push(0);
        player_scores.push(0);
        GameData {
            zoom_factor: zoom,
            player_scores,
            screen_width: width,
            screen_height: height,
            p1_frames,
            p2_frames,
        }
    }

    /// The frame count of the sprite set for `player_id` in `state`.
    pub open spec fn spec_frame_count(self, player_id: usize, state: AnimationState) -> usize {
        if player_id == 0 {
            self.p1_frames.spec_count(state)
        } else {
            self.p2_frames.spec_count(state)
        }
    }

    pub fn frame_count(&self, player_id: usize, state: AnimationState) -> (n: usize)
        requires
            self.wf(),
        ensures
            n == self.spec_frame_count(player_id, state),
            1 <= n <= MAX_ANIM_FRAMES,
    {
        if player_id == 0 {
            self.p1_frames.count(state)
        } else {
            self.p2_frames.count(state)
        }
    }

    /// Just increments the score for whichever player won the round.
    pub fn score(&mut self, player_id: usize)
        requires
            old(self).wf(),
            player_id < 2 ==> old(self).player_scores@[player_id as int] < SCORE_LIMIT,
        ensures
            final(self).wf(),
            player_id < 2 ==> final(self).player_scores@ =~= old(self).player_scores@.update(
                player_id as int,
                (old(self).player_scores@[player_id as int] + 1) as u32,
            ),
            player_id >= 2 ==> *final(self) == *old(self),
            final(self).zoom_factor == old(self).zoom_factor,
            final(self).screen_width == old(self).screen_width,
            final(self).screen_height == old(self).screen_height,
            final(self).p1_frames == old(self).p1_frames,
            final(self).p2_frames == old(self).p2_frames,
    {
        if player_id < self.player_scores.len() {
            let current = self.player_scores[player_id];
            self.player_scores.set(player_id, current + 1);
        }
    }
}

} // verus!
