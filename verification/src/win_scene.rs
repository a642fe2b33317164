//! The win screen: shows the result until the confirm action sends play
//! back to the menu. It never touches the scores, so once a match has been
//! decided no further score can move until the menu starts a new one.

use vstd::prelude::*;
use crate::game_data::{GameData, WIN_SCORE};
use crate::scenes::{FrameInput, SceneId, SceneSwitch};

verus! {

pub struct WinScene;

impl WinScene {
    /// On the confirm action, head back to the menu; the game data is
    /// never touched here.
    pub fn handle_input(&mut self, input: &FrameInput, data: &mut GameData) -> (switch:
        SceneSwitch)
        ensures
            *final(data) == *old(data),
            input.confirm_pressed ==> switch == SceneSwitch::Push(SceneId::Menu),
            !input.confirm_pressed ==> switch == SceneSwitch::Stay,
    {
        if input.confirm_pressed {
            // go back to the menu - the director handles the push
            return SceneSwitch::Push(SceneId::Menu);
        }
        SceneSwitch::Stay
    }

    /// The win screen simulates nothing.
    pub fn update(&mut self, _dt: i64, data: &mut GameData) -> (switch: SceneSwitch)
        ensures
            switch == SceneSwitch::Stay,
            *final(data) == *old(data),
    {
        SceneSwitch::Stay
    }

    /// Which player the screen names as the winner: the first player if
    /// their score reached the threshold, else the second.
    pub fn winner(&self, data: &GameData) -> (id: usize)
        requires
            data.wf(),
        ensures
            id == (if data.player_scores@[0] >= WIN_SCORE {
                0usize
            } else {
                1usize
            }),
    {
        if data.player_scores[0] >= WIN_SCORE {
            0
        } else {
            1
        }
    }
}

} // verus!
