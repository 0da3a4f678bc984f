use vstd::prelude::*;

use crate::entities::button::Button;
use crate::entities::my_enum::button_enum::{ButtonStatus, ButtonType};
use crate::game::{GameMod, GamePage};
use crate::threads::audio_thread::{events_view, push_sfx, sfx, Command, CommandView};

verus! {

/// The buttons of the menu (start, hard mode) and of the play page (pause,
/// run, restart, back), and the button pressed last.
#[derive(Clone, Copy, Debug)]
pub struct ButtonManager {
    pub game_start_button: Button,
    pub game_hard_mod_button: Button,
    pub game_pause_button: Button,
    pub game_run_button: Button,
    pub game_restart_button: Button,
    pub game_back_button: Button,
    /// The button pressed and not yet released.
    pub button_be_clicked: ButtonType,
}

/// Which buttons a click falls inside.
#[derive(Clone, Copy, Debug)]
pub struct ButtonHits {
    pub start: bool,
    pub hard_mod: bool,
    pub pause: bool,
    pub run: bool,
    pub restart: bool,
    pub back: bool,
}

/// The button held down.
pub open spec fn pressed(b: Button) -> Button {
    Button { button_status: ButtonStatus::ButtonDown, frame: 1, ..b }
}

/// The button released.
pub open spec fn released(b: Button) -> Button {
    Button { button_status: ButtonStatus::ButtonUp, frame: 0, ..b }
}

impl ButtonManager {
    /// The buttons at the start of the program, all up.
    pub open spec fn spec_new() -> ButtonManager {
        ButtonManager {
            game_start_button: Button::spec_new(ButtonType::GameStart),
            game_hard_mod_button: Button::spec_new(ButtonType::GameStart),
            game_pause_button: Button::spec_new(ButtonType::GamePause),
            game_run_button: Button::spec_new(ButtonType::GamePlaying),
            game_restart_button: Button::spec_new(ButtonType::GamePlaying),
            game_back_button: Button::spec_new(ButtonType::GameBack),
            button_be_clicked: ButtonType::NoButton,
        }
    }

    /// A click on the given page: the first button of the page (in the
    /// order start, hard mode; or pause, run, restart, back) that the click
    /// falls inside is pressed and remembered; the menu's buttons also
    /// choose the difficulty.
    pub open spec fn spec_check_click(self, hits: ButtonHits, page: GamePage, game_mod: GameMod) -> (ButtonManager, GameMod) {
        match page {
            GamePage::StartPage => if hits.start {
                (
                    ButtonManager {
                        game_start_button: pressed(self.game_start_button),
                        button_be_clicked: ButtonType::GameStart,
                        ..self
                    },
                    GameMod::Common,
                )
            } else if hits.hard_mod {
                (
                    ButtonManager {
                        game_hard_mod_button: pressed(self.game_hard_mod_button),
                        button_be_clicked: ButtonType::GameStart,
                        ..self
                    },
                    GameMod::Hard,
                )
            } else {
                (self, game_mod)
            },
            GamePage::PlayPage => if hits.pause {
                (
                    ButtonManager {
                        game_pause_button: pressed(self.game_pause_button),
                        button_be_clicked: ButtonType::GamePause,
                        ..self
                    },
                    game_mod,
                )
            } else if hits.run {
                (
                    ButtonManager {
                        game_run_button: pressed(self.game_run_button),
                        button_be_clicked: ButtonType::GamePlaying,
                        ..self
                    },
                    game_mod,
                )
            } else if hits.restart {
                (
                    ButtonManager {
                        game_restart_button: pressed(self.game_restart_button),
                        button_be_clicked: ButtonType::GameRestart,
                        ..self
                    },
                    game_mod,
                )
            } else if hits.back {
                (
                    ButtonManager {
                        game_back_button: pressed(self.game_back_button),
                        button_be_clicked: ButtonType::GameBack,
                        ..self
                    },
                    game_mod,
                )
            } else {
                (self, game_mod)
            },
        }
    }

    /// The release of the mouse button: the pressed button (both menu
    /// buttons for a start) comes up and nothing stays remembered.
    pub open spec fn spec_release(self) -> ButtonManager {
        let b = match self.button_be_clicked {
            ButtonType::GameStart => ButtonManager {
                game_start_button: released(self.game_start_button),
                game_hard_mod_button: released(self.game_hard_mod_button),
                ..self
            },
            ButtonType::GamePause => ButtonManager { game_pause_button: released(self.game_pause_button), ..self },
            ButtonType::GamePlaying => ButtonManager { game_run_button: released(self.game_run_button), ..self },
            ButtonType::GameRestart => ButtonManager {
                game_restart_button: released(self.game_restart_button),
                ..self
            },
            ButtonType::GameBack => ButtonManager { game_back_button: released(self.game_back_button), ..self },
            ButtonType::NoButton => self,
        };
        ButtonManager { button_be_clicked: ButtonType::NoButton, ..b }
    }

    pub fn new() -> (m: ButtonManager)
        ensures
            m == ButtonManager::spec_new(),
    {
        ButtonManager {
            game_start_button: Button::new(ButtonType::GameStart),
            game_hard_mod_button: Button::new(ButtonType::GameStart),
            game_pause_button: Button::new(ButtonType::GamePause),
            game_run_button: Button::new(ButtonType::GamePlaying),
            game_restart_button: Button::new(ButtonType::GamePlaying),
            game_back_button: Button::new(ButtonType::GameBack),
            button_be_clicked: ButtonType::NoButton,
        }
    }

    /// Brings the pause, run and restart buttons up for a new game.
    pub fn init(&mut self)
        ensures
            *final(self) == (ButtonManager {
                game_pause_button: released(old(self).game_pause_button),
                game_run_button: released(old(self).game_run_button),
                game_restart_button: released(old(self).game_restart_button),
                ..*old(self)
            }),
    {
        self.game_pause_button.set_up();
        self.game_run_button.set_up();
        self.game_restart_button.set_up();
    }

    /// A click on the given page (see `spec_check_click`).
    pub fn buttons_check_click(&mut self, hits: &ButtonHits, game_page: &GamePage, game_mod: &mut GameMod)
        ensures
            (*final(self), *final(game_mod)) == old(self).spec_check_click(*hits, *game_page, *old(game_mod)),
    {
        match game_page {
            GamePage::StartPage => {
                if self.game_start_button.check_click(hits.start) {
                    self.button_be_clicked = ButtonType::GameStart;
                    *game_mod = GameMod::Common;
                } else if self.game_hard_mod_button.check_click(hits.hard_mod) {
                    self.button_be_clicked = ButtonType::GameStart;
                    *game_mod = GameMod::Hard;
                }
            },
            GamePage::PlayPage => {
                if self.game_pause_button.check_click(hits.pause) {
                    self.button_be_clicked = ButtonType::GamePause;
                } else if self.game_run_button.check_click(hits.run) {
                    self.button_be_clicked = ButtonType::GamePlaying;
                } else if self.game_restart_button.check_click(hits.restart) {
                    self.button_be_clicked = ButtonType::GameRestart;
                } else if self.game_back_button.check_click(hits.back) {
                    self.button_be_clicked = ButtonType::GameBack;
                }
            },
        }
    }

    /// The release of the mouse button (see `spec_release`): returns the
    /// button that was pressed, with its click sound when there was one.
    pub fn check_set_button_up(&mut self, audio_outbox: &mut Vec<Command>) -> (clicked: ButtonType)
        ensures
            clicked == old(self).button_be_clicked,
            *final(self) == old(self).spec_release(),
            clicked != ButtonType::NoButton ==> events_view(final(audio_outbox)@) == events_view(
                old(audio_outbox)@,
            ).push(sfx("/audio/click_button.mp3"@)),
            clicked == ButtonType::NoButton ==> final(audio_outbox)@ == old(audio_outbox)@,
    {
        let mut be_clicked_button = ButtonType::NoButton;
        match self.button_be_clicked {
            ButtonType::GameStart => {
                self.game_start_button.set_up();
                self.game_hard_mod_button.set_up();
                be_clicked_button = ButtonType::GameStart;
            },
            ButtonType::GamePause => {
                self.game_pause_button.set_up();
                be_clicked_button = ButtonType::GamePause;
            },
            ButtonType::GamePlaying => {
                self.game_run_button.set_up();
                be_clicked_button = ButtonType::GamePlaying;
            },
            ButtonType::GameRestart => {
                self.game_restart_button.set_up();
                be_clicked_button = ButtonType::GameRestart;
            },
            ButtonType::GameBack => {
                self.game_back_button.set_up();
                be_clicked_button = ButtonType::GameBack;
            },
            ButtonType::NoButton => {},
        }
        if be_clicked_button != ButtonType::NoButton {
            push_sfx(audio_outbox, "/audio/click_button.mp3");
        }
        self.button_be_clicked = ButtonType::NoButton;
        be_clicked_button
    }
}

/// Every button of the manager is up, at its first frame.
pub open spec fn all_up(b: ButtonManager) -> bool {
    &&& b.game_start_button == released(b.game_start_button)
    &&& b.game_hard_mod_button == released(b.game_hard_mod_button)
    &&& b.game_pause_button == released(b.game_pause_button)
    &&& b.game_run_button == released(b.game_run_button)
    &&& b.game_restart_button == released(b.game_restart_button)
    &&& b.game_back_button == released(b.game_back_button)
}

/// A click takes effect once: after a release no button stays pressed, so
/// a second release reports no button (and plays no click) and changes
/// nothing.
pub proof fn lemma_release_once(b: ButtonManager)
    ensures
        b.spec_release().button_be_clicked == ButtonType::NoButton,
        b.spec_release().spec_release() == b.spec_release(),
{
}

/// A whole click, pressing a button and releasing the mouse, leaves buttons
/// that were all up as they were.
pub proof fn lemma_click_leaves_buttons_up(b: ButtonManager, hits: ButtonHits, page: GamePage, game_mod: GameMod)
    requires
        all_up(b),
        b.button_be_clicked == ButtonType::NoButton,
    ensures
        b.spec_check_click(hits, page, game_mod).0.spec_release() == b,
{
}

} // verus!
