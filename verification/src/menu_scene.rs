//! The menu scene: waits for the start action, then resets the scores and
//! requests a fresh match.

use vstd::prelude::*;
use crate::game_data::GameData;
use crate::scenes::{FrameInput, SceneId, SceneSwitch};

verus! {

pub struct MenuScene;

impl MenuScene {
    /// Start the game on the start action: scores reset to zero for the
    /// fresh run and a match scene is requested; otherwise nothing changes.
    pub fn handle_input(&mut self, input: &FrameInput, data: &mut GameData) -> (switch:
        SceneSwitch)
        requires
            old(data).wf(),
        ensures
            final(data).wf(),
            input.start_pressed ==> switch == SceneSwitch::Push(SceneId::Game)
                && final(data).player_scores@ =~= seq![0u32, 0u32] && *final(data) == (GameData {
                player_scores: final(data).player_scores,
                ..*old(data)
            }),
            !input.start_pressed ==> switch == SceneSwitch::Stay && *final(data) == *old(data),
    {
        if input.start_pressed {
            // reset scores for the fresh run
            let mut scores: Vec<u32> = Vec::new();
            scores.push(0);
            scores.push(0);
            data.player_scores = scores;
            return SceneSwitch::Push(SceneId::Game);
        }
        SceneSwitch::Stay
    }

    /// The menu simulates nothing.
    pub fn update(&mut self, _dt: i64, data: &mut GameData) -> (switch: SceneSwitch)
        ensures
            switch == SceneSwitch::Stay,
            *final(data) == *old(data),
    {
        SceneSwitch::Stay
    }
}

} // verus!
