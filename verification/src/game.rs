use vstd::prelude::*;

use crate::entities::my_enum::button_enum::ButtonType;
use crate::entities::my_enum::card_enum::CardType;
use crate::entities::zombie::ZombieMove;
use crate::entities_managers::buttons_manager::{ButtonHits, ButtonManager};
use crate::entities_managers::cards_manager::{card_order, card_slot, CardManager, CARD_NUM};
use crate::entities_managers::pool::{first_index, lemma_first_index_is, lemma_first_index_none};
use crate::entities::grass::Grass;
use crate::entities::plant::Plant;
use crate::entities::car::Car;
use crate::entities::sunshine::Sunshine;
use crate::entities::zombie::Zombie;
use crate::entities_managers::map_manager::{MapManager, Spawn, BULLETS_POOL_SIZE, COLUMN_NUM, ROW_NUM, SUNSHINES_POOL_SIZE};
use crate::entities_managers::sunshines_manager::{SunshineManager, FIRST_SUNSHINE_TIME, SUNSHINE_POOL_SIZE};
use crate::entities_managers::zombie_manager::{ZombieManager, INTERVAL_CREATE_TIME, INTERVAL_ZM_EAT_AUDIO, ZOMBIEPOOLSIZE};
use crate::entities_managers::map_manager::{bullets_fold, cars_fold, fill_bullets, fill_sunshines, flags_view, lawn_requests};
use crate::entities_managers::sunshines_manager::drop_sunshine;
use crate::entities_managers::zombie_manager::{past_line, threat_matrix, valid_rolls, wave_size, wave_sound, zombies_fold, ZM_WAVES};
use crate::my_trait::{pool_clicked, pool_ticked, sunshine_gain, SUNSHINE_VALUE};
use crate::threads::audio_thread::{
    bgm, events_view, push_bgm, push_sleep, push_sfx, push_stop_bgm, sfx, stop_bgm, Command, CommandView,
};

verus! {

/// Total number of zombie levels; passing the last one wins the game.
pub const ZM_WAVES_TOTAL: u32 = 3;

#[derive(Clone, Copy, Debug, PartialEq, Eq, Structural)]
pub enum GameStatus {
    Menu,
    Playing,
    Paused,
    GameOver,
    Victory,
}

impl GameStatus {
    pub open spec fn spec_status_to_index(&self) -> Option<usize> {
        match *self {
            GameStatus::GameOver => Some(0),
            GameStatus::Victory => Some(1),
            _ => None,
        }
    }

    /// Index of the picture shown at the end of a game (defeat, victory).
    #[verifier::when_used_as_spec(spec_status_to_index)]
    pub fn status_to_index(&self) -> (r: Option<usize>)
        ensures
            r == self.spec_status_to_index(),
    {
        match self {
            GameStatus::GameOver => Some(0),
            GameStatus::Victory => Some(1),
            _ => None,
        }
    }
}

#[derive(Clone, Copy, Debug, PartialEq, Eq, Structural)]
pub enum GamePage {
    StartPage,
    PlayPage,
}

/// The game's difficulty.
#[derive(Clone, Copy, Debug, PartialEq, Eq, Structural)]
pub enum GameMod {
    Common,
    Hard,
}

impl GameMod {
    pub open spec fn spec_mod_to_num(&self) -> u32 {
        match *self {
            GameMod::Common => 1,
            GameMod::Hard => 2,
        }
    }

    /// Multiplier of the number of zombies per wave.
    #[verifier::when_used_as_spec(spec_mod_to_num)]
    pub fn mod_to_num(&self) -> (r: u32)
        ensures
            r == self.spec_mod_to_num(),
    {
        match self {
            GameMod::Common => 1,
            GameMod::Hard => 2,
        }
    }
}

/// Sunshine at the start of a game.
pub const START_SUNSHINE: u32 = 50;

/// Where a click landed: which buttons, which falling sunshines, which
/// sunshines made by sunflowers and which cards it falls inside.
pub struct Clicks {
    pub buttons: ButtonHits,
    pub sky_sunshines: Vec<bool>,
    pub map_sunshines: Vec<bool>,
    pub cards: Vec<bool>,
}

/// The game: its page and status, the player's sunshine and level, the
/// card in hand, and the managers of the buttons, cards, sunshines, lawn
/// and zombies.
pub struct Game {
    pub status: GameStatus,
    pub page: GamePage,
    pub game_mod: GameMod,
    pub sunshines_value: u32,
    pub cur_level: u32,
    pub card_be_selected: CardType,
    /// Whether background music should play.
    pub whether_play_bg_audio: bool,
    /// The page whose background music plays.
    pub cur_bg_audio_page: GamePage,
    pub buttons_manager: ButtonManager,
    pub cards_manager: CardManager,
    pub sunshines_manager: SunshineManager,
    pub map_manager: MapManager,
    pub zombies_manager: ZombieManager,
}

/// The commands `change_game_status` issues when entering `status`.
pub open spec fn status_sounds(status: GameStatus) -> Seq<CommandView> {
    match status {
        GameStatus::Paused => seq![sfx("/audio/pause.mp3"@), stop_bgm()],
        GameStatus::Playing => seq![bgm("/audio/play_bg.mp3"@, true)],
        GameStatus::Victory => seq![stop_bgm(), sfx("/audio/win.mp3"@)],
        GameStatus::GameOver => seq![
            stop_bgm(),
            CommandView::Sleep(3000),
            sfx("/audio/scream.mp3"@),
            sfx("/audio/lose.mp3"@),
        ],
        GameStatus::Menu => seq![],
    }
}

impl Game {
    /// The managers are well formed; the card in hand never costs more
    /// than the sunshine the player has; the zombies' level stops at 4,
    /// where no wave is left; the zombies play in the game's mode.
    pub open spec fn wf(&self) -> bool {
        &&& self.cards_manager.wf()
        &&& self.sunshines_manager.wf()
        &&& self.map_manager.wf()
        &&& self.zombies_manager.wf()
        &&& self.sunshines_value >= self.card_be_selected.spec_type_to_price()
        &&& self.zombies_manager.cur_level <= 4
        &&& self.zombies_manager.cur_level == 4 ==> self.zombies_manager.zm_waves == 0
        &&& self.zombies_manager.game_mod == self.game_mod
    }

    /// `self` is `old` after `change_game_status(status)`.
    pub open spec fn status_changed(&self, old: Game, status: GameStatus) -> bool {
        &&& self.status == status
        &&& self.whether_play_bg_audio == (match status {
            GameStatus::Paused => false,
            GameStatus::Playing => true,
            _ => old.whether_play_bg_audio,
        })
        &&& self.page == old.page
        &&& self.game_mod == old.game_mod
        &&& self.sunshines_value == old.sunshines_value
        &&& self.cur_level == old.cur_level
        &&& self.card_be_selected == old.card_be_selected
        &&& self.cur_bg_audio_page == old.cur_bg_audio_page
        &&& self.buttons_manager == old.buttons_manager
        &&& self.cards_manager == old.cards_manager
        &&& self.sunshines_manager == old.sunshines_manager
        &&& self.map_manager == old.map_manager
        &&& self.zombies_manager == old.zombies_manager
    }

    /// `self` is `old` restarted on `page` with `status`: 50 sunshine,
    /// level 1, no card in hand, music on, every manager cleared.
    pub open spec fn restarted(&self, old: Game, page: GamePage, status: GameStatus) -> bool {
        &&& self.page == page
        &&& self.status == status
        &&& self.sunshines_value == START_SUNSHINE
        &&& self.cur_level == 1
        &&& self.card_be_selected == CardType::NoneCard
        &&& self.whether_play_bg_audio
        &&& self.game_mod == old.game_mod
        &&& self.cur_bg_audio_page == old.cur_bg_audio_page
        &&& self.buttons_manager == (ButtonManager {
            game_pause_button: crate::entities_managers::buttons_manager::released(old.buttons_manager.game_pause_button),
            game_run_button: crate::entities_managers::buttons_manager::released(old.buttons_manager.game_run_button),
            game_restart_button: crate::entities_managers::buttons_manager::released(old.buttons_manager.game_restart_button),
            ..old.buttons_manager
        })
        &&& self.cards_manager.cool_times@ == seq![0i32, 0i32, 0i32, 0i32]
        &&& self.cards_manager.card_be_select == old.cards_manager.card_be_select
        &&& self.sunshines_manager.cleared_from(old.sunshines_manager)
        &&& self.map_manager.cleared_from(old.map_manager)
        &&& self.zombies_manager.cleared_from(old.zombies_manager)
    }

    /// A new game on the menu, with the menu's music.
    pub fn new(audio_outbox: &mut Vec<Command>) -> (game: Game)
        ensures
            game.wf(),
            game.status == GameStatus::Menu,
            game.page == GamePage::StartPage,
            game.game_mod == GameMod::Common,
            game.sunshines_value == START_SUNSHINE,
            game.cur_level == 1,
            game.card_be_selected == CardType::NoneCard,
            game.whether_play_bg_audio,
            game.cur_bg_audio_page == GamePage::StartPage,
            game.buttons_manager == ButtonManager::spec_new(),
            game.cards_manager.cool_times@ == seq![0i32, 0i32, 0i32, 0i32],
            game.cards_manager.card_be_select == CardType::NoneCard,
            game.sunshines_manager.sunshine_timer == FIRST_SUNSHINE_TIME,
            game.sunshines_manager.sunshines_pool@ == Seq::new(SUNSHINE_POOL_SIZE as nat, |i: int| Sunshine::spec_new()),
            game.map_manager.fresh(),
            game.zombies_manager.game_mod == GameMod::Common,
            game.zombies_manager.cur_level == 1,
            game.zombies_manager.zm_waves == 0,
            game.zombies_manager.zm_timer == INTERVAL_CREATE_TIME,
            game.zombies_manager.zm_eat_audio_timer == INTERVAL_ZM_EAT_AUDIO,
            game.zombies_manager.zm_pool@ == Seq::new(ZOMBIEPOOLSIZE as nat, |i: int| Zombie::spec_new()),
            events_view(final(audio_outbox)@) == events_view(old(audio_outbox)@).push(
                bgm("/audio/start_bg.MP3"@, true),
            ),
    {
        push_bgm(audio_outbox, "/audio/start_bg.MP3", true);
        Game {
            status: GameStatus::Menu,
            page: GamePage::StartPage,
            game_mod: GameMod::Common,
            sunshines_value: START_SUNSHINE,
            cur_level: 1,
            card_be_selected: CardType::NoneCard,
            whether_play_bg_audio: true,
            cur_bg_audio_page: GamePage::StartPage,
            buttons_manager: ButtonManager::new(),
            cards_manager: CardManager::new(),
            sunshines_manager: SunshineManager::new(),
            map_manager: MapManager::new(),
            zombies_manager: ZombieManager::new(),
        }
    }

    /// Starts a new game on `page` with `status` (see `restarted`); on the
    /// play page the play music starts over.
    pub fn game_restart(&mut self, page: GamePage, status: GameStatus, audio_outbox: &mut Vec<Command>)
        requires
            old(self).wf(),
        ensures
            final(self).wf(),
            final(self).restarted(*old(self), page, status),
            page == GamePage::PlayPage ==> events_view(final(audio_outbox)@) == events_view(old(audio_outbox)@)
                + seq![stop_bgm(), bgm("/audio/play_bg.mp3"@, true)],
            page != GamePage::PlayPage ==> final(audio_outbox)@ == old(audio_outbox)@,
    {
        self.page = page;
        self.status = status;
        self.sunshines_value = START_SUNSHINE;
        self.cur_level = 1;
        self.card_be_selected = CardType::NoneCard;
        self.whether_play_bg_audio = true;
        self.buttons_manager.init();
        self.cards_manager.init();
        self.sunshines_manager.init();
        self.map_manager.init();
        self.zombies_manager.init();
        match self.page {
            GamePage::PlayPage => {
                push_stop_bgm(audio_outbox);
                push_bgm(audio_outbox, "/audio/play_bg.mp3", true);
            },
            _ => {},
        }
    }

    /// Enters `game_status` with its sounds (see `status_sounds`): a pause
    /// stops the music, playing restarts it.
    pub fn change_game_status(&mut self, game_status: GameStatus, audio_outbox: &mut Vec<Command>)
        ensures
            final(self).status_changed(*old(self), game_status),
            events_view(final(audio_outbox)@) == events_view(old(audio_outbox)@) + status_sounds(game_status),
    {
        match game_status {
            GameStatus::Paused => {
                push_sfx(audio_outbox, "/audio/pause.mp3");
                push_stop_bgm(audio_outbox);
                self.whether_play_bg_audio = false;
            },
            GameStatus::Playing => {
                push_bgm(audio_outbox, "/audio/play_bg.mp3", true);
                self.whether_play_bg_audio = true;
            },
            GameStatus::Victory => {
                push_stop_bgm(audio_outbox);
                push_sfx(audio_outbox, "/audio/win.mp3");
            },
            GameStatus::GameOver => {
                push_stop_bgm(audio_outbox);
                push_sleep(audio_outbox, 3000);
                push_sfx(audio_outbox, "/audio/scream.mp3");
                push_sfx(audio_outbox, "/audio/lose.mp3");
            },
            _ => {},
        }
        self.status = game_status;
        assert(events_view(audio_outbox@) =~= events_view(old(audio_outbox)@) + status_sounds(game_status));
    }

    pub fn set_game_status(&mut self, stauts: GameStatus)
        ensures
            *final(self) == (Game { status: stauts, ..*old(self) }),
    {
        self.status = stauts;
    }

    pub fn set_game_page(&mut self, page: GamePage)
        ensures
            *final(self) == (Game { page, ..*old(self) }),
    {
        self.page = page;
    }

    /// Adds collected sunshine to the player's.
    pub fn add_sunshine_value(&mut self, sunshine_value: u32)
        requires
            old(self).sunshines_value + sunshine_value <= u32::MAX,
        ensures
            *final(self) == (Game { sunshines_value: (old(self).sunshines_value + sunshine_value) as u32, ..*old(self) }),
    {
        self.sunshines_value = self.sunshines_value + sunshine_value;
    }
}

impl Game {
    pub open spec fn music_started(g0: Game, g1: Game, e0: Seq<CommandView>, e1: Seq<CommandView>) -> bool {
        &&& g0.whether_play_bg_audio && g0.cur_bg_audio_page != g0.page ==> {
                    &&& g1 == (Game { cur_bg_audio_page: g0.page, ..g0 })
                    &&& e1 == e0.push(
                        bgm(page_music(g0.page), true),
                    )
                }
        &&& !(g0.whether_play_bg_audio && g0.cur_bg_audio_page != g0.page) ==> {
                    &&& g1 == g0
                    &&& e1 == e0
                }
    }

    pub open spec fn sky_sunshine_created(g0: Game, g1: Game) -> bool {
        &&& g1 == (Game { sunshines_manager: g1.sunshines_manager, ..g0 })
        &&& g0.sunshines_manager.sunshine_timer - 1 > 0 ==> g1.sunshines_manager == (
                SunshineManager {
                    sunshine_timer: (g0.sunshines_manager.sunshine_timer - 1) as i32,
                    ..g0.sunshines_manager
                })
        &&& g0.sunshines_manager.sunshine_timer - 1 <= 0 ==> 1000
                    <= g1.sunshines_manager.sunshine_timer <= 1199
        &&& g0.sunshines_manager.sunshine_timer - 1 <= 0 ==> exists|frame: usize|
                    frame < 29 && g1.sunshines_manager.sunshines_pool@ == #[trigger] drop_sunshine(
                        g0.sunshines_manager.sunshines_pool@,
                        frame,
                    )
    }

    pub open spec fn sky_sunshines_updated(g0: Game, g1: Game, collected: Seq<bool>, reached: Seq<bool>, value: u32) -> bool {
        &&& value == sunshine_gain(
                    g0.sunshines_manager.sunshines_pool@,
                    collected,
                    reached,
                    SUNSHINE_POOL_SIZE as int,
                )
        &&& g1.sunshines_manager.sunshines_pool@ == pool_ticked(
                    g0.sunshines_manager.sunshines_pool@,
                    collected,
                    reached,
                )
        &&& g1.sunshines_manager.sunshine_timer == g0.sunshines_manager.sunshine_timer
        &&& g1 == (Game {
                    sunshines_manager: g1.sunshines_manager,
                    sunshines_value: (g0.sunshines_value + value) as u32,
                    ..g0
                })
    }

    pub open spec fn plants_updated(g0: Game, g1: Game, ahead: Seq<Seq<bool>>, bullets: Seq<Spawn>, sunshines: Seq<Spawn>) -> bool {
        &&& g1 == (Game { map_manager: g1.map_manager, ..g0 })
        &&& g1.map_manager.lawn() == g0.map_manager.lawn_after(threat_matrix(g0.zombies_manager.zm_pool@, ahead))
        &&& (g1.map_manager.bullets_pool@, bullets) == fill_bullets(
                    g0.map_manager.bullets_pool@,
                    lawn_requests(g0.map_manager.lawn(), threat_matrix(g0.zombies_manager.zm_pool@, ahead), ROW_NUM as int, true),
                )
        &&& exists|frames: Seq<usize>|
                    (forall|k: int| 0 <= k < frames.len() ==> #[trigger] frames[k] < 29)
                        && (g1.map_manager.sunshines_pool@, sunshines) == fill_sunshines(
                        g0.map_manager.sunshines_pool@,
                        lawn_requests(g0.map_manager.lawn(), threat_matrix(g0.zombies_manager.zm_pool@, ahead), ROW_NUM as int, false),
                        frames,
                    )
        &&& g1.map_manager.cars_pool == g0.map_manager.cars_pool
    }

    pub open spec fn bullets_updated(g0: Game, g1: Game, hits: Seq<Seq<bool>>, e0: Seq<CommandView>, e1: Seq<CommandView>) -> bool {
        &&& ({
                    let (bs, zs, sounds) = bullets_fold(
                        g0.map_manager.bullets_pool@,
                        g0.zombies_manager.zm_pool@,
                        hits,
                        BULLETS_POOL_SIZE as int,
                    );
                    &&& g1.map_manager.bullets_pool@ == bs
                    &&& g1.zombies_manager.zm_pool@ == zs
                    &&& e1 == e0 + sounds
                })
        &&& g1.map_manager == (MapManager {
                    bullets_pool: g1.map_manager.bullets_pool,
                    ..g0.map_manager
                })
        &&& g1.zombies_manager == (ZombieManager {
                    zm_pool: g1.zombies_manager.zm_pool,
                    ..g0.zombies_manager
                })
        &&& g1 == (Game {
                    map_manager: g1.map_manager,
                    zombies_manager: g1.zombies_manager,
                    ..g0
                })
    }

    pub open spec fn cars_updated(g0: Game, g1: Game, hits: Seq<Seq<bool>>, past_edge: Seq<bool>) -> bool {
        &&& (g1.map_manager.cars_pool@, g1.zombies_manager.zm_pool@) == cars_fold(
                    g0.map_manager.cars_pool@,
                    g0.zombies_manager.zm_pool@,
                    hits,
                    past_edge,
                    ROW_NUM as int,
                )
        &&& g1.map_manager == (MapManager { cars_pool: g1.map_manager.cars_pool, ..g0.map_manager })
        &&& g1.zombies_manager == (ZombieManager {
                    zm_pool: g1.zombies_manager.zm_pool,
                    ..g0.zombies_manager
                })
        &&& g1 == (Game {
                    map_manager: g1.map_manager,
                    zombies_manager: g1.zombies_manager,
                    ..g0
                })
    }

    pub open spec fn map_sunshines_updated(g0: Game, g1: Game, collected: Seq<bool>, reached: Seq<bool>, value: u32) -> bool {
        &&& value == sunshine_gain(
                    g0.map_manager.sunshines_pool@,
                    collected,
                    reached,
                    SUNSHINES_POOL_SIZE as int,
                )
        &&& g1.map_manager.sunshines_pool@ == pool_ticked(
                    g0.map_manager.sunshines_pool@,
                    collected,
                    reached,
                )
        &&& g1.map_manager == (MapManager {
                    sunshines_pool: g1.map_manager.sunshines_pool,
                    ..g0.map_manager
                })
        &&& g1 == (Game {
                    map_manager: g1.map_manager,
                    sunshines_value: (g0.sunshines_value + value) as u32,
                    ..g0
                })
    }

    pub open spec fn zombies_created(g0: Game, g1: Game, level: u32, e0: Seq<CommandView>, e1: Seq<CommandView>) -> bool {
        &&& level == g1.zombies_manager.cur_level
        &&& g1 == (Game { zombies_manager: g1.zombies_manager, ..g0 })
        &&& ({
                    let o = g0.zombies_manager;
                    let f = g1.zombies_manager;
                    if o.cur_level < 4 && o.zm_waves < ZM_WAVES + o.cur_level {
                        if o.zm_timer - 1 > 0 {
                            &&& f == ZombieManager { zm_timer: (o.zm_timer - 1) as i32, ..o }
                            &&& e1 == e0
                        } else {
                            &&& exists|rolls: Seq<(u32, u32)>, next_timer: i32| {
                                let (low, high) = wave_size(o.cur_level, o.zm_waves, o.game_mod.spec_mod_to_num());
                                &&& low <= rolls.len() <= high
                                &&& valid_rolls(rolls)
                                &&& 1000 <= next_timer <= 1199
                                &&& #[trigger] o.started_wave(f, rolls, next_timer)
                            }
                            &&& e1 == e0 + wave_sound(
                                o.cur_level,
                                (o.zm_waves + 1) as u32,
                            )
                        }
                    } else if o.zm_waves >= ZM_WAVES && !o.any_in_play() {
                        &&& f == ZombieManager { cur_level: (o.cur_level + 1) as u32, zm_waves: 0, ..o }
                        &&& e1 == e0
                    } else {
                        &&& f == o
                        &&& e1 == e0
                    }
                })
    }

    pub open spec fn zombies_updated(g0: Game, g1: Game, touching: Seq<Seq<bool>>, moves: Seq<ZombieMove>, e0: Seq<CommandView>, e1: Seq<CommandView>) -> bool {
        &&& ({
                    let (pool, lawn, eating, mv) = zombies_fold(
                        g0.zombies_manager.zm_pool@,
                        g0.map_manager.lawn(),
                        touching,
                        ZOMBIEPOOLSIZE as int,
                    );
                    let timer = g0.zombies_manager.zm_eat_audio_timer;
                    &&& g1.zombies_manager.zm_pool@ == pool
                    &&& g1.map_manager.lawn() == lawn
                    &&& moves == mv
                    &&& if eating && timer - 1 <= 0 {
                        &&& g1.zombies_manager.zm_eat_audio_timer == INTERVAL_ZM_EAT_AUDIO
                        &&& e1 == e0.push(
                            sfx("/audio/zombie_eat.mp3"@),
                        )
                    } else {
                        &&& g1.zombies_manager.zm_eat_audio_timer == (if eating {
                            timer - 1
                        } else {
                            timer as int
                        })
                        &&& e1 == e0
                    }
                })
        &&& g1.zombies_manager == (ZombieManager {
                    zm_pool: g1.zombies_manager.zm_pool,
                    zm_eat_audio_timer: g1.zombies_manager.zm_eat_audio_timer,
                    ..g0.zombies_manager
                })
        &&& g1.map_manager == (MapManager {
                    grasses: g1.map_manager.grasses,
                    ..g0.map_manager
                })
        &&& g1 == (Game {
                    map_manager: g1.map_manager,
                    zombies_manager: g1.zombies_manager,
                    ..g0
                })
    }

    pub open spec fn frame_finished(g0: Game, g1: Game, past: Seq<bool>, e0: Seq<CommandView>, e1: Seq<CommandView>) -> bool {
        &&& past_line(g0.zombies_manager.zm_pool@, past) ==> {
                    &&& g1.status_changed(g0, GameStatus::GameOver)
                    &&& e1 == e0 + status_sounds(
                        GameStatus::GameOver,
                    )
                }
        &&& !past_line(g0.zombies_manager.zm_pool@, past) && g0.zombies_manager.cur_level != g0.cur_level ==> {
                    let g = Game { cur_level: g0.zombies_manager.cur_level, ..g0 };
                    if g.cur_level > ZM_WAVES_TOTAL {
                        &&& g1.status_changed(g, GameStatus::Victory)
                        &&& e1 == e0 + status_sounds(
                            GameStatus::Victory,
                        )
                    } else {
                        &&& g1 == g
                        &&& e1 == e0
                    }
                }
        &&& !past_line(g0.zombies_manager.zm_pool@, past) && g0.zombies_manager.cur_level == g0.cur_level ==> {
                    &&& g1 == g0
                    &&& e1 == e0
                }
    }
}

/// The background music of a page.
pub open spec fn page_music(page: GamePage) -> Seq<char> {
    match page {
        GamePage::StartPage => "/audio/start_bg.MP3"@,
        GamePage::PlayPage => "/audio/play_bg.mp3"@,
    }
}

impl Game {
    /// The start of a frame: when music is on and the music playing is not
    /// the page's, the page's music starts.  Returns whether the game is
    /// being played, in which case the frame goes on with the play steps
    /// (see `Game::update`).
    pub fn update_background_music(&mut self, audio_outbox: &mut Vec<Command>) -> (playing: bool)
        ensures
            playing == (old(self).status == GameStatus::Playing),
            Game::music_started(*old(self), *final(self), events_view(old(audio_outbox)@), events_view(final(audio_outbox)@)),

    {
        match self.page {
            GamePage::StartPage => {
                if self.whether_play_bg_audio && self.cur_bg_audio_page != GamePage::StartPage {
                    push_bgm(audio_outbox, "/audio/start_bg.MP3", true);
                    self.cur_bg_audio_page = GamePage::StartPage;
                }
            },
            GamePage::PlayPage => {
                if self.whether_play_bg_audio && self.cur_bg_audio_page != GamePage::PlayPage {
                    push_bgm(audio_outbox, "/audio/play_bg.mp3", true);
                    self.cur_bg_audio_page = GamePage::PlayPage;
                }
            },
        }
        self.status == GameStatus::Playing
    }

    /// The sky's timer counts down; at 0 a sunshine falls (see
    /// `SunshineManager::create_sunshine`).
    pub fn create_sky_sunshine(&mut self)
        requires
            old(self).wf(),
        ensures
            final(self).wf(),
            Game::sky_sunshine_created(*old(self), *final(self)),

    {
        self.sunshines_manager.create_sunshine();
    }

    /// One frame of the sky's sunshines (`collected[i]`: sunshine `i`, once
    /// moved, reached the counter; `reached[i]`: it came down to its resting
    /// height); the sunshine gained is added to the player's and returned.
    pub fn update_sky_sunshines(&mut self, collected: &Vec<bool>, reached: &Vec<bool>) -> (value: u32)
        requires
            old(self).wf(),
            collected@.len() == SUNSHINE_POOL_SIZE,
            reached@.len() == SUNSHINE_POOL_SIZE,
            old(self).sunshines_value + sunshine_gain(
                old(self).sunshines_manager.sunshines_pool@,
                collected@,
                reached@,
                SUNSHINE_POOL_SIZE as int,
            ) <= u32::MAX,
        ensures
            final(self).wf(),
            Game::sky_sunshines_updated(*old(self), *final(self), collected@, reached@, value),

    {
        let value = self.sunshines_manager.update_sunshines_status(collected, reached);
        self.sunshines_value = self.sunshines_value + value;
        value
    }

    /// One frame of the plants (see `MapManager::update_plants_status`),
    /// the threats coming from the zombies (see `threat_matrix`;
    /// `ahead[z][c]`: zombie `z` is right of the plants of column `c`, on
    /// screen); returns the peas shot and the sunshines made.
    pub fn update_plants(&mut self, ahead: &Vec<Vec<bool>>) -> (spawns: (Vec<Spawn>, Vec<Spawn>))
        requires
            old(self).wf(),
            ahead@.len() == ZOMBIEPOOLSIZE,
            forall|z: int| 0 <= z < ZOMBIEPOOLSIZE ==> #[trigger] ahead@[z]@.len() == COLUMN_NUM,
        ensures
            final(self).wf(),
            Game::plants_updated(*old(self), *final(self), flags_view(ahead@), spawns.0@, spawns.1@),

    {
        let threatened = self.zombies_manager.threats(ahead);
        self.map_manager.update_plants_status(&threatened)
    }

    /// One frame of the peas (see `MapManager::undate_bullets_status`).
    pub fn update_bullets(&mut self, hits: &Vec<Vec<bool>>, audio_outbox: &mut Vec<Command>)
        requires
            old(self).wf(),
            hits@.len() == BULLETS_POOL_SIZE,
            forall|b: int|
                0 <= b < BULLETS_POOL_SIZE && old(self).map_manager.bullets_pool@[b].used
                    ==> #[trigger] hits@[b]@.len() == ZOMBIEPOOLSIZE,
        ensures
            final(self).wf(),
            Game::bullets_updated(*old(self), *final(self), flags_view(hits@), events_view(old(audio_outbox)@), events_view(final(audio_outbox)@)),

    {
        self.map_manager.undate_bullets_status(&mut self.zombies_manager, hits, audio_outbox);
    }

    /// One frame of the lawn mowers (see `MapManager::update_cars_status`).
    pub fn update_cars(&mut self, hits: &Vec<Vec<bool>>, past_edge: &Vec<bool>)
        requires
            old(self).wf(),
            hits@.len() == ROW_NUM,
            forall|i: int| 0 <= i < ROW_NUM ==> #[trigger] hits@[i]@.len() == ZOMBIEPOOLSIZE,
            past_edge@.len() == ROW_NUM,
        ensures
            final(self).wf(),
            Game::cars_updated(*old(self), *final(self), flags_view(hits@), past_edge@),

    {
        self.map_manager.update_cars_status(&mut self.zombies_manager, hits, past_edge);
    }

    /// One frame of the sunshines made by sunflowers; the sunshine gained
    /// is added to the player's and returned.
    pub fn update_map_sunshines(&mut self, collected: &Vec<bool>, reached: &Vec<bool>) -> (value: u32)
        requires
            old(self).wf(),
            collected@.len() == SUNSHINES_POOL_SIZE,
            reached@.len() == SUNSHINES_POOL_SIZE,
            old(self).sunshines_value + sunshine_gain(
                old(self).map_manager.sunshines_pool@,
                collected@,
                reached@,
                SUNSHINES_POOL_SIZE as int,
            ) <= u32::MAX,
        ensures
            final(self).wf(),
            Game::map_sunshines_updated(*old(self), *final(self), collected@, reached@, value),

    {
        let value = self.map_manager.update_sunshines_status(collected, reached);
        self.sunshines_value = self.sunshines_value + value;
        value
    }
}

impl Game {
    /// One frame of the zombies' levels (see `ZombieManager::create_zombie`);
    /// returns the zombies' level.
    pub fn create_zombies(&mut self, audio_outbox: &mut Vec<Command>) -> (level: u32)
        requires
            old(self).wf(),
        ensures
            final(self).wf(),
            Game::zombies_created(*old(self), *final(self), level, events_view(old(audio_outbox)@), events_view(final(audio_outbox)@)),

    {
        self.zombies_manager.create_zombie(audio_outbox)
    }

    /// One frame of the zombies on the lawn (see
    /// `ZombieManager::update_zombies_status`); returns how each moved.
    pub fn update_zombies(&mut self, touching: &Vec<Vec<bool>>, audio_outbox: &mut Vec<Command>) -> (moves: Vec<ZombieMove>)
        requires
            old(self).wf(),
            touching@.len() == ZOMBIEPOOLSIZE,
            forall|z: int| 0 <= z < ZOMBIEPOOLSIZE ==> #[trigger] touching@[z]@.len() == COLUMN_NUM,
        ensures
            final(self).wf(),
            Game::zombies_updated(*old(self), *final(self), flags_view(touching@), moves@, events_view(old(audio_outbox)@), events_view(final(audio_outbox)@)),

    {
        self.zombies_manager.update_zombies_status(&mut self.map_manager, touching, audio_outbox)
    }

    /// The end of a played frame: a living zombie past the losing line
    /// (`past[z]`: zombie `z` is past it; see `past_line`) ends the game;
    /// otherwise a new zombie level is taken over, and passing the last one
    /// wins the game.
    pub fn finish_update(&mut self, past: &Vec<bool>, audio_outbox: &mut Vec<Command>)
        requires
            old(self).wf(),
            past@.len() == ZOMBIEPOOLSIZE,
        ensures
            final(self).wf(),
            Game::frame_finished(*old(self), *final(self), past@, events_view(old(audio_outbox)@), events_view(final(audio_outbox)@)),

    {
        let crossed = self.zombies_manager.any_past(past);
        if crossed {
            self.change_game_status(GameStatus::GameOver, audio_outbox);
        } else if self.zombies_manager.cur_level != self.cur_level {
            self.cur_level = self.zombies_manager.cur_level;
            if self.cur_level > ZM_WAVES_TOTAL {
                self.change_game_status(GameStatus::Victory, audio_outbox);
            }
        }
    }

    /// A key pressed: Escape pauses a game being played and resumes a
    /// paused one (see `change_game_status`); other keys do nothing.
    pub fn key_down_event(&mut self, escape: bool, audio_outbox: &mut Vec<Command>)
        requires
            old(self).wf(),
        ensures
            final(self).wf(),
            escape && old(self).status == GameStatus::Playing ==> {
                &&& final(self).status_changed(*old(self), GameStatus::Paused)
                &&& events_view(final(audio_outbox)@) == events_view(old(audio_outbox)@) + status_sounds(
                    GameStatus::Paused,
                )
            },
            escape && old(self).status == GameStatus::Paused ==> {
                &&& final(self).status_changed(*old(self), GameStatus::Playing)
                &&& events_view(final(audio_outbox)@) == events_view(old(audio_outbox)@) + status_sounds(
                    GameStatus::Playing,
                )
            },
            !(escape && (old(self).status == GameStatus::Playing || old(self).status == GameStatus::Paused)) ==> {
                &&& *final(self) == *old(self)
                &&& final(audio_outbox)@ == old(audio_outbox)@
            },
    {
        if escape {
            match self.status {
                GameStatus::Playing => {
                    self.change_game_status(GameStatus::Paused, audio_outbox);
                },
                GameStatus::Paused => {
                    self.change_game_status(GameStatus::Playing, audio_outbox);
                },
                _ => {},
            }
        }
    }
}

/// The click of a released button, when one was pressed.
pub open spec fn click_sound(clicked: ButtonType) -> Seq<CommandView> {
    if clicked != ButtonType::NoButton {
        seq![sfx("/audio/click_button.mp3"@)]
    } else {
        seq![]
    }
}

/// The commands `game_restart` issues on `page`.
pub open spec fn restart_sounds(page: GamePage) -> Seq<CommandView> {
    if page == GamePage::PlayPage {
        seq![stop_bgm(), bgm("/audio/play_bg.mp3"@, true)]
    } else {
        seq![]
    }
}

/// The commands issued when the released button `clicked` takes effect on
/// `page`, the game being played or not (see `Game::button_took_effect`).
pub open spec fn button_sounds(page: GamePage, playing: bool, clicked: ButtonType) -> Seq<CommandView> {
    match page {
        GamePage::StartPage => if clicked == ButtonType::GameStart {
            seq![CommandView::Sleep(500)]
        } else {
            seq![]
        },
        GamePage::PlayPage => match clicked {
            ButtonType::GamePause => if playing {
                status_sounds(GameStatus::Paused)
            } else {
                seq![]
            },
            ButtonType::GamePlaying => if playing {
                seq![]
            } else {
                status_sounds(GameStatus::Playing)
            },
            ButtonType::GameRestart => restart_sounds(GamePage::PlayPage),
            ButtonType::GameBack => restart_sounds(GamePage::StartPage),
            _ => seq![],
        },
    }
}

/// The card picked by a click on the card bar (`hits[k]`: the click falls
/// inside card `k`): the first card clicked that is not cooling down.
pub open spec fn picked_card(cards: CardManager, hits: Seq<bool>) -> CardType {
    match first_index(CARD_NUM as int, cards.selectable(hits)) {
        Some(k) => card_order()[k],
        None => CardType::NoneCard,
    }
}

impl Game {
    /// `self` is `old` after the released button `clicked` took effect: on
    /// the menu, start plays; on the play page, pause (while playing), run
    /// (while not), restart and back (to the menu) do.
    pub open spec fn button_took_effect(&self, old: Game, clicked: ButtonType) -> bool {
        let playing = old.status == GameStatus::Playing;
        match old.page {
            GamePage::StartPage => if clicked == ButtonType::GameStart {
                *self == Game { status: GameStatus::Playing, page: GamePage::PlayPage, ..old }
            } else {
                *self == old
            },
            GamePage::PlayPage => match clicked {
                ButtonType::GamePause => if playing {
                    self.status_changed(old, GameStatus::Paused)
                } else {
                    *self == old
                },
                ButtonType::GamePlaying => if playing {
                    *self == old
                } else {
                    self.status_changed(old, GameStatus::Playing)
                },
                ButtonType::GameRestart => self.restarted(old, GamePage::PlayPage, GameStatus::Playing),
                ButtonType::GameBack => self.restarted(old, GamePage::StartPage, GameStatus::Menu),
                _ => *self == old,
            },
        }
    }

    /// `self` is `mid` after the card in hand was used on the tile at
    /// `coords`, the commands going from `e0` to `e1`: the spade removes
    /// the plant there, a plant card grows its plant on a free tile for its
    /// price and starts its cool-down, and is put down either way; the card
    /// bar forgets its pick.
    pub open spec fn card_took_effect(
        &self,
        mid: Game,
        coords: Option<(usize, usize)>,
        e0: Seq<CommandView>,
        e1: Seq<CommandView>,
    ) -> bool {
        let cards = CardManager { card_be_select: CardType::NoneCard, ..mid.cards_manager };
        let m = mid.map_manager;
        let card = mid.card_be_selected;
        match card {
            CardType::NoneCard => *self == Game { cards_manager: cards, ..mid } && e1 == e0,
            CardType::SpadeCard => {
                let hit = m.spec_select_grass(coords) matches Some((r, c)) && m.grasses@[r as int]@[c as int].used;
                &&& *self == Game { cards_manager: cards, map_manager: self.map_manager, ..mid }
                &&& self.map_manager == MapManager { grasses: self.map_manager.grasses, ..m }
                &&& hit ==> {
                    let (r, c) = coords.unwrap();
                    let g = m.grasses@[r as int]@[c as int];
                    &&& self.map_manager.lawn() == m.lawn_with(
                        r as int,
                        c as int,
                        Grass { used: false, plant: Plant { used: false, ..g.plant }, ..g },
                    )
                    &&& e1 == e0.push(sfx("/audio/remove_plant.mp3"@))
                }
                &&& !hit ==> self.map_manager == m && e1 == e0
            },
            _ => {
                let grown = m.spec_select_grass(coords) matches Some((r, c)) && !m.grasses@[r as int]@[c as int].used;
                &&& self.map_manager == MapManager { grasses: self.map_manager.grasses, ..m }
                &&& grown ==> {
                    let (r, c) = coords.unwrap();
                    let g = m.grasses@[r as int]@[c as int];
                    &&& self.map_manager.lawn() == m.lawn_with(
                        r as int,
                        c as int,
                        Grass { used: true, plant: g.plant.spec_init(card.spec_type_to_plant().unwrap()), ..g },
                    )
                    &&& e1 == e0.push(sfx("/audio/grow_plant.mp3"@))
                    &&& self.cards_manager.cool_times@ == mid.cards_manager.cool_times@.update(
                        card_slot(card),
                        card.spec_type_to_cool_time(),
                    )
                    &&& *self == Game {
                        card_be_selected: CardType::NoneCard,
                        map_manager: self.map_manager,
                        sunshines_value: (mid.sunshines_value - card.spec_type_to_price()) as u32,
                        cards_manager: CardManager { cool_times: self.cards_manager.cool_times, ..cards },
                        ..mid
                    }
                }
                &&& !grown ==> *self == Game { card_be_selected: CardType::NoneCard, cards_manager: cards, ..mid }
                    && e1 == e0
            },
        }
    }

    /// A mouse button pressed, where `clicks` tells what the click falls
    /// inside.  Only the left button acts: on the menu it presses a button
    /// (the start and hard-mode buttons choose the mode of the game and of
    /// its zombies); on the play page it
    /// presses a button and, while playing, catches the sunshines under it
    /// and picks a card, which goes in hand when the player has the
    /// sunshine to pay for it.
    pub fn mouse_button_down_event(&mut self, left: bool, clicks: &Clicks, audio_outbox: &mut Vec<Command>)
        requires
            old(self).wf(),
            clicks.sky_sunshines@.len() == SUNSHINE_POOL_SIZE,
            clicks.map_sunshines@.len() == SUNSHINES_POOL_SIZE,
            clicks.cards@.len() == CARD_NUM,
        ensures
            final(self).wf(),
            !left ==> *final(self) == *old(self) && final(audio_outbox)@ == old(audio_outbox)@,
            left ==> {
                let (bm, gm) = old(self).buttons_manager.spec_check_click(clicks.buttons, old(self).page, old(self).game_mod);
                let card = picked_card(old(self).cards_manager, clicks.cards@);
                if old(self).page == GamePage::StartPage {
                    &&& *final(self) == (Game {
                        buttons_manager: bm,
                        game_mod: gm,
                        zombies_manager: ZombieManager { game_mod: gm, ..old(self).zombies_manager },
                        ..*old(self)
                    })
                    &&& final(audio_outbox)@ == old(audio_outbox)@
                } else if old(self).status != GameStatus::Playing {
                    &&& *final(self) == (Game { buttons_manager: bm, game_mod: gm, ..*old(self) })
                    &&& final(audio_outbox)@ == old(audio_outbox)@
                } else {
                    &&& final(self).sunshines_manager.sunshines_pool@ == pool_clicked(
                        old(self).sunshines_manager.sunshines_pool@,
                        clicks.sky_sunshines@,
                    )
                    &&& final(self).sunshines_manager.sunshine_timer == old(self).sunshines_manager.sunshine_timer
                    &&& final(self).map_manager.sunshines_pool@ == pool_clicked(
                        old(self).map_manager.sunshines_pool@,
                        clicks.map_sunshines@,
                    )
                    &&& final(self).map_manager == (MapManager {
                        sunshines_pool: final(self).map_manager.sunshines_pool,
                        ..old(self).map_manager
                    })
                    &&& final(self).cards_manager.card_be_select == card
                    &&& final(self).cards_manager.cool_times == old(self).cards_manager.cool_times
                    &&& final(self).cards_manager.cards@ == old(self).cards_manager.cards@
                    &&& *final(self) == (Game {
                        buttons_manager: bm,
                        game_mod: gm,
                        sunshines_manager: final(self).sunshines_manager,
                        map_manager: final(self).map_manager,
                        cards_manager: final(self).cards_manager,
                        card_be_selected: if old(self).sunshines_value >= card.spec_type_to_price() {
                            card
                        } else {
                            old(self).card_be_selected
                        },
                        ..*old(self)
                    })
                    &&& card == CardType::SpadeCard ==> events_view(final(audio_outbox)@) == events_view(
                        old(audio_outbox)@,
                    ).push(sfx("/audio/click_shovel.mp3"@))
                    &&& card != CardType::SpadeCard ==> final(audio_outbox)@ == old(audio_outbox)@
                }
            },
    {
        if left {
            let page = self.page;
            match page {
                GamePage::StartPage => {
                    self.buttons_manager.buttons_check_click(&clicks.buttons, &page, &mut self.game_mod);
                    self.zombies_manager.set_game_mod(self.game_mod);
                },
                GamePage::PlayPage => {
                    match self.status {
                        GameStatus::Playing => {
                            self.buttons_manager.buttons_check_click(&clicks.buttons, &page, &mut self.game_mod);
                            self.sunshines_manager.sunshines_check_click(&clicks.sky_sunshines);
                            self.map_manager.sunshines_check_click(&clicks.map_sunshines);
                            let select_card = self.cards_manager.check_select_plant(&clicks.cards, audio_outbox);
                            if self.sunshines_value >= select_card.type_to_price() {
                                self.card_be_selected = select_card;
                            }
                        },
                        _ => {
                            self.buttons_manager.buttons_check_click(&clicks.buttons, &page, &mut self.game_mod);
                        },
                    }
                },
            }
        }
    }
}

impl Game {
    /// The card in hand used on the tile at `coords` (see
    /// `card_took_effect`).
    fn use_card(&mut self, coords: Option<(usize, usize)>, audio_outbox: &mut Vec<Command>)
        requires
            old(self).wf(),
        ensures
            final(self).wf(),
            final(self).card_took_effect(*old(self), coords, events_view(old(audio_outbox)@), events_view(final(audio_outbox)@)),
    {
        match self.card_be_selected {
            CardType::NoneCard => {},
            CardType::SpadeCard => {
                self.map_manager.remove_plant(coords, audio_outbox);
            },
            _ => {
                if let Some(plant) = self.card_be_selected.type_to_plant() {
                    if self.map_manager.grow_plant(coords, &plant, audio_outbox) {
                        self.sunshines_value = self.sunshines_value - self.card_be_selected.type_to_price();
                        self.cards_manager.set_card_in_cool_time(&self.card_be_selected);
                    }
                }
                self.card_be_selected = CardType::NoneCard;
            },
        }
        self.cards_manager.reset_plant_selected();
    }

    /// A mouse button released, over the tile at grid coordinates `coords`
    /// (when over the lawn).  Only the left button acts: the pressed button
    /// comes up with its click (see `ButtonManager::check_set_button_up`)
    /// and takes effect (see `button_took_effect`; starting waits 500
    /// microseconds); while playing, the card in hand is then used (see
    /// `card_took_effect`).
    pub fn mouse_button_up_event(&mut self, left: bool, coords: Option<(usize, usize)>, audio_outbox: &mut Vec<Command>)
        requires
            old(self).wf(),
        ensures
            final(self).wf(),
            !left ==> *final(self) == *old(self) && final(audio_outbox)@ == old(audio_outbox)@,
            left ==> {
                let clicked = old(self).buttons_manager.button_be_clicked;
                let g1 = Game { buttons_manager: old(self).buttons_manager.spec_release(), ..*old(self) };
                let e1 = events_view(old(audio_outbox)@) + click_sound(clicked) + button_sounds(
                    old(self).page,
                    old(self).status == GameStatus::Playing,
                    clicked,
                );
                if old(self).page == GamePage::PlayPage && old(self).status == GameStatus::Playing {
                    exists|mid: Game|
                        #[trigger] mid.button_took_effect(g1, clicked) && final(self).card_took_effect(
                            mid,
                            coords,
                            e1,
                            events_view(final(audio_outbox)@),
                        )
                } else {
                    &&& final(self).button_took_effect(g1, clicked)
                    &&& events_view(final(audio_outbox)@) == e1
                }
            },
    {
        if left {
            let ghost e0 = events_view(audio_outbox@);
            let be_clicked_button = self.buttons_manager.check_set_button_up(audio_outbox);
            let ghost g1 = *self;
            let ghost e_click = events_view(audio_outbox@);
            assert(e_click =~= e0 + click_sound(be_clicked_button));
            match self.page {
                GamePage::StartPage => {
                    match be_clicked_button {
                        ButtonType::GameStart => {
                            push_sleep(audio_outbox, 500);
                            self.set_game_status(GameStatus::Playing);
                            self.set_game_page(GamePage::PlayPage);
                        },
                        _ => {},
                    }
                    assert(events_view(audio_outbox@) =~= e_click + button_sounds(g1.page, g1.status == GameStatus::Playing, be_clicked_button));
                },
                GamePage::PlayPage => {
                    match self.status {
                        GameStatus::Playing => {
                            match be_clicked_button {
                                ButtonType::GamePause => {
                                    self.change_game_status(GameStatus::Paused, audio_outbox);
                                },
                                ButtonType::GameRestart => {
                                    self.game_restart(GamePage::PlayPage, GameStatus::Playing, audio_outbox);
                                },
                                ButtonType::GameBack => {
                                    self.game_restart(GamePage::StartPage, GameStatus::Menu, audio_outbox);
                                    self.set_game_page(GamePage::StartPage);
                                },
                                _ => {},
                            }
                            let ghost mid = *self;
                            assert(events_view(audio_outbox@) =~= e_click + button_sounds(g1.page, true, be_clicked_button));
                            assert(mid.button_took_effect(g1, be_clicked_button));
                            self.use_card(coords, audio_outbox);
                        },
                        _ => {
                            match be_clicked_button {
                                ButtonType::GamePlaying => {
                                    self.change_game_status(GameStatus::Playing, audio_outbox);
                                },
                                ButtonType::GameRestart => {
                                    self.game_restart(GamePage::PlayPage, GameStatus::Playing, audio_outbox);
                                },
                                ButtonType::GameBack => {
                                    self.game_restart(GamePage::StartPage, GameStatus::Menu, audio_outbox);
                                    self.set_game_page(GamePage::StartPage);
                                },
                                _ => {},
                            }
                            assert(events_view(audio_outbox@) =~= e_click + button_sounds(g1.page, false, be_clicked_button));
                        },
                    }
                },
            }
        }
    }
}

/// Pausing a game being played, then resuming it (Escape twice, or the
/// pause then the run button), gives the game back as it was, music on,
/// after the pause sound, a stop of the music and the play music.
pub proof fn lemma_pause_resume(g0: Game, g1: Game, g2: Game)
    requires
        g0.status == GameStatus::Playing,
        g1.status_changed(g0, GameStatus::Paused),
        g2.status_changed(g1, GameStatus::Playing),
    ensures
        g1.status == GameStatus::Paused,
        !g1.whether_play_bg_audio,
        g2 == (Game { whether_play_bg_audio: true, ..g0 }),
        status_sounds(GameStatus::Paused) + status_sounds(GameStatus::Playing) == seq![
            sfx("/audio/pause.mp3"@),
            stop_bgm(),
            bgm("/audio/play_bg.mp3"@, true),
        ],
{
    assert(status_sounds(GameStatus::Paused) + status_sounds(GameStatus::Playing) =~= seq![
        sfx("/audio/pause.mp3"@),
        stop_bgm(),
        bgm("/audio/play_bg.mp3"@, true),
    ]);
}

/// A restart clears the game: no plant on the lawn, no zombie, pea or
/// sunshine in play, five mowers waiting, every card ready, 50 sunshine,
/// no card in hand, and the first level with no wave sent.
pub proof fn lemma_restart_clears(old: Game, g: Game, page: GamePage, status: GameStatus)
    requires
        old.wf(),
        g.restarted(old, page, status),
    ensures
        forall|r: int, c: int|
            0 <= r < ROW_NUM && 0 <= c < COLUMN_NUM ==> !(#[trigger] g.map_manager.grasses@[r]@[c]).used
                && !g.map_manager.grasses@[r]@[c].plant.used,
        forall|i: int| 0 <= i < ZOMBIEPOOLSIZE ==> !(#[trigger] g.zombies_manager.zm_pool@[i]).used,
        forall|i: int| 0 <= i < BULLETS_POOL_SIZE ==> !(#[trigger] g.map_manager.bullets_pool@[i]).used,
        forall|i: int| 0 <= i < SUNSHINES_POOL_SIZE ==> !(#[trigger] g.map_manager.sunshines_pool@[i]).used,
        forall|i: int| 0 <= i < SUNSHINE_POOL_SIZE ==> !(#[trigger] g.sunshines_manager.sunshines_pool@[i]).used,
        forall|i: int| 0 <= i < ROW_NUM ==> (#[trigger] g.map_manager.cars_pool@[i]) == Car::spec_new(i as u32),
        forall|k: int| 0 <= k < CARD_NUM ==> #[trigger] g.cards_manager.cool_times@[k] == 0,
        g.sunshines_value == START_SUNSHINE,
        g.card_be_selected == CardType::NoneCard,
        g.cur_level == 1,
        g.zombies_manager.cur_level == 1,
        g.zombies_manager.zm_waves == 0,
{
}

/// Using a plant card on the lawn: when the tile lies on the lawn and is
/// free, the plant grows there, the price of the card (100 sunshine for a
/// peashooter, 50 for a sunflower or a wall-nut) is paid, the card cools
/// down for its full time (400, 800 and 400 frames) while the other cards'
/// cool-downs are untouched, and the hand empties; otherwise nothing is
/// paid, no card cools down and the lawn is unchanged, but the hand empties
/// all the same.  The sunshine left is never negative.
pub proof fn lemma_planting_costs(g: Game, mid: Game, coords: Option<(usize, usize)>, e0: Seq<CommandView>, e1: Seq<CommandView>)
    requires
        mid.wf(),
        mid.card_be_selected == CardType::PeashooterCard || mid.card_be_selected == CardType::SunFlowerCard
            || mid.card_be_selected == CardType::WallnutCard,
        g.card_took_effect(mid, coords, e0, e1),
    ensures
        g.card_be_selected == CardType::NoneCard,
        ({
            let card = mid.card_be_selected;
            let price: int = if card == CardType::PeashooterCard { 100 } else { 50 };
            let cool: i32 = if card == CardType::SunFlowerCard { 800 } else { 400 };
            let slot: int = if card == CardType::PeashooterCard {
                1
            } else if card == CardType::SunFlowerCard {
                2
            } else {
                3
            };
            let grown = mid.map_manager.spec_select_grass(coords) matches Some((r, c))
                && !mid.map_manager.grasses@[r as int]@[c as int].used;
            &&& grown ==> {
                &&& g.sunshines_value == mid.sunshines_value - price
                &&& g.cards_manager.cool_times@[slot] == cool
                &&& forall|k: int| 0 <= k < CARD_NUM && k != slot ==> #[trigger] g.cards_manager.cool_times@[k]
                    == mid.cards_manager.cool_times@[k]
                &&& g.map_manager.grasses@[coords.unwrap().0 as int]@[coords.unwrap().1 as int].used
            }
            &&& !grown ==> {
                &&& g.sunshines_value == mid.sunshines_value
                &&& g.cards_manager.cool_times == mid.cards_manager.cool_times
                &&& g.map_manager == mid.map_manager
            }
        }),
{
    let card = mid.card_be_selected;
    let grown = mid.map_manager.spec_select_grass(coords) matches Some((r, c))
        && !mid.map_manager.grasses@[r as int]@[c as int].used;
    if grown {
        let (r, c) = coords.unwrap();
        let m = mid.map_manager;
        let gm = g.map_manager;
        assert(m.lawn()[r as int] == m.grasses@[r as int]@);
        assert(gm.lawn().len() == m.lawn().len());
        assert(gm.grasses@.len() == gm.lawn().len());
        assert(gm.lawn()[r as int] == gm.grasses@[r as int]@);
        assert(gm.lawn()[r as int][c as int].used);
    }
}

/// A click on the card bar picks the first card, in bar order (spade,
/// peashooter, sunflower, wall-nut), that the click falls inside and that
/// is not cooling down; a card still cooling down is never picked, and a
/// click on no available card picks none.
pub proof fn lemma_card_pick(cards: CardManager, hits: Seq<bool>)
    requires
        cards.wf(),
        hits.len() == CARD_NUM,
    ensures
        picked_card(cards, hits) == CardType::NoneCard <==> (forall|k: int|
            0 <= k < CARD_NUM ==> !(#[trigger] hits[k] && cards.cool_times@[k] <= 0)),
        forall|k: int|
            0 <= k < CARD_NUM && hits[k] && cards.cool_times@[k] <= 0 && (forall|j: int|
                0 <= j < k ==> !(#[trigger] hits[j] && cards.cool_times@[j] <= 0)) ==> picked_card(cards, hits)
                == #[trigger] card_order()[k],
        forall|k: int|
            0 <= k < CARD_NUM && cards.cool_times@[k] > 0 ==> picked_card(cards, hits) != #[trigger] card_order()[k],
{
    let p = cards.selectable(hits);
    if forall|k: int| 0 <= k < CARD_NUM ==> !(#[trigger] hits[k] && cards.cool_times@[k] <= 0) {
        assert forall|j: int| 0 <= j < CARD_NUM implies !#[trigger] p(j) by {}
        lemma_first_index_none(CARD_NUM as int, p);
    } else {
        let w = choose|k: int| 0 <= k < CARD_NUM && #[trigger] hits[k] && cards.cool_times@[k] <= 0;
        assert(p(w));
        let i = choose|i: int| 0 <= i < CARD_NUM && #[trigger] p(i) && forall|j: int| 0 <= j < i ==> !#[trigger] p(j);
        assert(first_index(CARD_NUM as int, p) == Some(i));
        assert(card_order()[0] != CardType::NoneCard && card_order()[1] != CardType::NoneCard
            && card_order()[2] != CardType::NoneCard && card_order()[3] != CardType::NoneCard);
    }
    assert forall|k: int|
        0 <= k < CARD_NUM && hits[k] && cards.cool_times@[k] <= 0 && (forall|j: int|
            0 <= j < k ==> !(#[trigger] hits[j] && cards.cool_times@[j] <= 0)) implies picked_card(cards, hits)
            == #[trigger] card_order()[k] by {
        assert forall|j: int| 0 <= j < k implies !#[trigger] p(j) by {}
        lemma_first_index_is(CARD_NUM as int, p, k);
    }
    assert forall|k: int| 0 <= k < CARD_NUM && cards.cool_times@[k] > 0 implies picked_card(cards, hits)
        != #[trigger] card_order()[k] by {
        if first_index(CARD_NUM as int, p) is Some {
            let i = first_index(CARD_NUM as int, p)->0;
            assert(p(i));
            assert(card_order() =~= seq![CardType::SpadeCard, CardType::PeashooterCard, CardType::SunFlowerCard, CardType::WallnutCard]);
        }
    }
}

} // verus!
