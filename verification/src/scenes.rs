//! Scene sequencing: the closed set of scenes (menu, match, win screen),
//! the switch requests they return, and the director that owns the scene
//! stack and the authoritative per-frame order (input, then update; drawing
//! is presentation and reads snapshots afterwards).

use vstd::prelude::*;
use crate::game_data::{GameData, WIN_SCORE};
use crate::game_scene::{GameScene, input_step_rel, is_fresh_match, lemma_fresh_frame_keeps_scores, match_frame_rel};
use crate::menu_scene::MenuScene;
use crate::player::PlayerIntent;
use crate::win_scene::WinScene;

verus! {

/// Which scene a switch request asks for. The set of scenes is closed, so
/// requests name the scene; the director constructs it.
#[derive(Clone, Copy, Debug, PartialEq, Eq, Structural)]
pub enum SceneId {
    Menu,
    Game,
    Win,
}

/// Signals for the director to swap or stack scenes.
#[derive(Clone, Copy, Debug, PartialEq, Eq, Structural)]
pub enum SceneSwitch {
    Stay,
    Push(SceneId),
    Replace(SceneId),
    Pop,
    Quit,
}

/// Everything gathered from the input devices for one frame.
#[derive(Clone, Copy, Debug)]
pub struct FrameInput {
    /// Begin a match from the menu.
    pub start_pressed: bool,
    /// Leave the win screen.
    pub confirm_pressed: bool,
    /// Per-player movement, jump, fire and aim.
    pub intents: [PlayerIntent; 2],
}

impl FrameInput {
    pub open spec fn wf(self) -> bool {
        self.intents@[0].wf() && self.intents@[1].wf()
    }
}

/// One live scene with its state.
pub enum ActiveScene {
    Menu(MenuScene),
    Game(GameScene),
    Win(WinScene),
}

impl ActiveScene {
    pub open spec fn wf(self) -> bool {
        match self {
            ActiveScene::Game(g) => g.wf(),
            _ => true,
        }
    }
}

/// Construct the scene a switch request names. A fresh match is built from
/// the session's screen dimensions and zoom.
pub fn make_scene(id: SceneId, data: &GameData) -> (scene: ActiveScene)
    requires
        data.wf(),
    ensures
        scene.wf(),
        id is Menu ==> scene is Menu,
        id is Game ==> scene is Game,
        id is Win ==> scene is Win,
        id is Game ==> (scene matches ActiveScene::Game(g) && is_fresh_match(
            g,
            data.zoom_factor,
        )),
{
    match id {
        SceneId::Menu => ActiveScene::Menu(MenuScene),
        SceneId::Game => ActiveScene::Game(
            GameScene::new(0, data.screen_width, data.screen_height, data.zoom_factor),
        ),
        SceneId::Win => ActiveScene::Win(WinScene),
    }
}

/// The driver owning the scene stack. Scenes are only ever stacked (the
/// menu starts matches, matches push the win screen, the win screen pushes
/// a fresh menu), and each frame runs input, then update, applying any
/// switch request between the stages and before the next frame.
pub struct Director {
    pub scenes: Vec<ActiveScene>,
}

impl Director {
    pub open spec fn wf(self) -> bool {
        &&& self.scenes@.len() >= 1
        &&& forall|i: int| 0 <= i < self.scenes@.len() ==> (#[trigger] self.scenes@[i]).wf()
    }

    /// The scene in control this frame.
    pub open spec fn top(self) -> ActiveScene
        recommends
            self.scenes@.len() >= 1,
    {
        self.scenes@.last()
    }

    /// While a match is in control, nobody has reached the winning score
    /// yet: the frame a score gets there, the win screen takes over.
    pub open spec fn match_ready(self, data: GameData) -> bool {
        self.top() is Game ==> data.player_scores@[0] < WIN_SCORE && data.player_scores@[1]
            < WIN_SCORE
    }

    /// A director starting at the menu.
    pub fn new() -> (d: Director)
        ensures
            d.wf(),
            d.top() is Menu,
            d.scenes@.len() == 1,
    {
        let mut scenes: Vec<ActiveScene> = Vec::new();
        scenes.push(ActiveScene::Menu(MenuScene));
        Director { scenes }
    }

    /// One frame under the authoritative order: the top scene gathers
    /// input, any switch request is applied, then the (possibly new) top
    /// scene updates and its request is applied before the next frame.
    ///
    /// The transitions of the scene machine are pinned: a start press on
    /// the menu resets the scores and begins a fresh match, which runs its
    /// first frame at once; a running match advances by exactly one
    /// simulation frame on the gathered intents, and the win screen takes
    /// over exactly when a score reaches the threshold; a confirm press on
    /// the win screen returns to the menu. Once a match has been decided
    /// the win screen is in control, and while it is, no score can move: a
    /// win fires exactly once per match, and only the menu ever resets the
    /// counters for a fresh run.
    pub fn frame(&mut self, input: &FrameInput, dt: i64, data: &mut GameData) -> (keep: bool)
        requires
            old(self).wf(),
            old(data).wf(),
            old(self).match_ready(*old(data)),
            input.wf(),
            0 <= dt <= crate::MAX_FRAME_MS,
        ensures
            final(self).wf(),
            final(data).wf(),
            final(self).match_ready(*final(data)),
            keep,
            old(self).top() is Win ==> final(data).player_scores@ =~= old(data).player_scores@,
            old(self).top() is Menu && !input.start_pressed ==> final(data).player_scores@ =~= old(
                data,
            ).player_scores@,
            *final(data) == (GameData { player_scores: final(data).player_scores, ..*old(data) }),
            // the menu waits for the start action
            old(self).top() is Menu && !input.start_pressed
                ==> final(self).scenes@ =~= old(self).scenes@,
            // a start press begins a fresh match, which runs its first
            // frame at once on reset scores
            old(self).top() is Menu && input.start_pressed ==> ({
                &&& final(self).scenes@.len() == old(self).scenes@.len() + 1
                &&& final(data).player_scores@ =~= seq![0u32, 0u32]
                &&& (final(self).top() matches ActiveScene::Game(g2) && exists|
                    g1: GameScene,
                    d1: GameData,
                |
                    {
                        &&& is_fresh_match(g1, old(data).zoom_factor)
                        &&& d1.player_scores@ =~= seq![0u32, 0u32]
                        &&& d1 == (GameData { player_scores: d1.player_scores, ..*old(data) })
                        &&& #[trigger] match_frame_rel(g1, d1, g2, *final(data), dt as int)
                    })
            }),
            // a running match advances by exactly one simulation frame on
            // the gathered intents; the win screen takes over exactly when
            // a score reaches the threshold
            old(self).top() matches ActiveScene::Game(g) ==> ({
                &&& final(self).scenes@.len() >= old(self).scenes@.len()
                &&& (final(self).scenes@[old(self).scenes@.len() - 1] matches ActiveScene::Game(g2)
                    && exists|g1: GameScene|
                    {
                        &&& #[trigger] input_step_rel(
                            g,
                            input.intents@[0],
                            input.intents@[1],
                            dt as int,
                            g1,
                        )
                        &&& match_frame_rel(g1, *old(data), g2, *final(data), dt as int)
                    })
                &&& (final(self).top() is Win <==> final(data).player_scores@[0] >= WIN_SCORE
                    || final(data).player_scores@[1] >= WIN_SCORE)
                &&& (final(self).top() is Win <==> final(self).scenes@.len()
                    == old(self).scenes@.len() + 1)
                &&& (!(final(self).top() is Win)
                    ==> final(self).top() == final(self).scenes@[old(self).scenes@.len() - 1])
            }),
            // the win screen waits for the confirm action, then heads back
            // to the menu
            old(self).top() is Win && !input.confirm_pressed
                ==> final(self).scenes@ =~= old(self).scenes@,
            old(self).top() is Win && input.confirm_pressed ==> final(self).top() is Menu
                && final(self).scenes@.len() == old(self).scenes@.len() + 1,
    {
        // input stage
        let mut top = self.scenes.pop().unwrap();
        let switch = match &mut top {
            ActiveScene::Menu(m) => m.handle_input(input, data),
            ActiveScene::Game(g) => g.handle_input(&input.intents, dt),
            ActiveScene::Win(w) => w.handle_input(input, data),
        };
        self.scenes.push(top);
        proof {
            assert forall|i: int| 0 <= i < self.scenes@.len() implies (
            #[trigger] self.scenes@[i]).wf() by {
                assert(old(self).scenes@[i].wf());
            }
        }
        let keep1 = self.apply_switch(switch, data);

        // update stage
        let ghost mid = *self;
        let ghost pre_update_data = *data;
        let mut top = self.scenes.pop().unwrap();
        let ghost pre_update_top = top;
        let switch = match &mut top {
            ActiveScene::Menu(m) => m.update(dt, data),
            ActiveScene::Game(g) => g.update(dt, data),
            ActiveScene::Win(w) => w.update(dt, data),
        };
        let ghost post_update_top = top;
        self.scenes.push(top);
        let ghost stack_after_update = self.scenes@;
        proof {
            assert forall|i: int| 0 <= i < self.scenes@.len() implies (
            #[trigger] self.scenes@[i]).wf() by {
                assert(mid.scenes@[i].wf());
            }
        }
        let keep2 = self.apply_switch(switch, data);
        proof {
            let n = old(self).scenes@.len() as int;
            let m = stack_after_update.len() as int;
            assert(stack_after_update[m - 1] == post_update_top);
            // the final stack extends the post-update stack by at most the
            // pushed scene
            if switch matches SceneSwitch::Push(_) {
                assert(self.scenes@.subrange(0, m) =~= stack_after_update);
                assert(self.scenes@[m - 1] == self.scenes@.subrange(0, m)[m - 1]);
            }
            assert(self.scenes@[m - 1] == post_update_top);

            if old(self).top() is Menu && input.start_pressed {
                // the fresh match sat on top at the update stage, ran its
                // first frame on reset scores, and cannot have won yet
                let g1v = pre_update_top->Game_0;
                let g2v = post_update_top->Game_0;
                assert(pre_update_top is Game && is_fresh_match(g1v, old(data).zoom_factor));
                assert(pre_update_data.player_scores@ =~= seq![0u32, 0u32]);
                assert(match_frame_rel(g1v, pre_update_data, g2v, *data, dt as int));
                lemma_fresh_frame_keeps_scores(
                    g1v,
                    old(data).zoom_factor,
                    pre_update_data,
                    g2v,
                    *data,
                    dt as int,
                );
                assert(data.player_scores@[0] < WIN_SCORE && data.player_scores@[1] < WIN_SCORE);
            }
            if old(self).top() is Game {
                let g = old(self).top()->Game_0;
                let g1v = pre_update_top->Game_0;
                let g2v = post_update_top->Game_0;
                assert(pre_update_top is Game && input_step_rel(
                    g,
                    input.intents@[0],
                    input.intents@[1],
                    dt as int,
                    g1v,
                ));
                assert(match_frame_rel(g1v, pre_update_data, g2v, *data, dt as int));
            }
        }
        keep1 && keep2
    }

    /// Route one stage's switch request: push the named scene, quit, or
    /// carry on (replace and pop requests are not in use).
    fn apply_switch(&mut self, switch: SceneSwitch, data: &GameData) -> (keep: bool)
        requires
            old(self).wf(),
            data.wf(),
        ensures
            final(self).wf(),
            keep == !(switch is Quit),
            switch matches SceneSwitch::Push(id) ==> final(self).scenes@.len() == old(
                self,
            ).scenes@.len() + 1 && final(self).scenes@.subrange(0, old(self).scenes@.len() as int)
                =~= old(self).scenes@ && final(self).top().wf(),
            switch matches SceneSwitch::Push(id) ==> (final(self).top() is Menu <==> id is Menu)
                && (final(self).top() is Game <==> id is Game) && (final(self).top() is Win <==> id
                is Win),
            switch matches SceneSwitch::Push(id) && id is Game ==> (final(self).top() matches
                ActiveScene::Game(g) && is_fresh_match(g, data.zoom_factor)),
            !(switch matches SceneSwitch::Push(_)) ==> *final(self) == *old(self),
    {
        match switch {
            SceneSwitch::Push(id) => {
                let scene = make_scene(id, data);
                self.scenes.push(scene);
                true
            },
            SceneSwitch::Quit => false,
            _ => true,
        }
    }
}

} // verus!
