use plants_vs_zombies::entities::my_enum::button_enum::ButtonType;
use plants_vs_zombies::entities::my_enum::card_enum::CardType;
use plants_vs_zombies::entities::my_enum::plant_enum::PlantType;
use plants_vs_zombies::entities_managers::buttons_manager::ButtonHits;
use plants_vs_zombies::game::{Clicks, Game, GameMod, GamePage, GameStatus};
use plants_vs_zombies::entities::bullet::Bullet;
use plants_vs_zombies::entities::car::Car;
use plants_vs_zombies::entities::sunshine::Sunshine;
use plants_vs_zombies::entities::zombie::{Zombie, ZombieMove};
use plants_vs_zombies::entities_managers::map_manager::Spawn;
use plants_vs_zombies::frame::Screen;
use plants_vs_zombies::threads::audio_thread::{AudioEvent, Command};

/// A screen on which nothing touches anything.
struct Quiet;

impl Screen for Quiet {
    fn sky_flags(&mut self, _pool: &Vec<Sunshine>, _was_used: &Vec<bool>) -> (Vec<bool>, Vec<bool>) {
        (vec![false; 30], vec![false; 30])
    }
    fn move_sky(&mut self, _pool: &Vec<Sunshine>) {}
    fn zombies_ahead(&mut self) -> Vec<Vec<bool>> {
        vec![vec![false; 9]; 200]
    }
    fn bullet_hits(&mut self, _bullets: &Vec<Bullet>, _shot: &Vec<Spawn>, _made: &Vec<Spawn>) -> Vec<Vec<bool>> {
        vec![vec![false; 200]; 400]
    }
    fn car_contacts(&mut self, _cars: &Vec<Car>) -> (Vec<Vec<bool>>, Vec<bool>) {
        (vec![vec![false; 200]; 5], vec![false; 5])
    }
    fn move_cars(&mut self, _cars: &Vec<Car>) {}
    fn lawn_sunshine_flags(&mut self) -> (Vec<bool>, Vec<bool>) {
        (vec![false; 100], vec![false; 100])
    }
    fn move_lawn_sunshines(&mut self, _pool: &Vec<Sunshine>) {}
    fn zombie_contacts(&mut self, _pool: &Vec<Zombie>, _was_used: &Vec<bool>) -> (Vec<Vec<bool>>, Vec<bool>) {
        (vec![vec![false; 9]; 200], vec![false; 200])
    }
    fn move_zombies(&mut self, _moves: &Vec<ZombieMove>) {}
}

fn no_buttons() -> ButtonHits {
    ButtonHits { start: false, hard_mod: false, pause: false, run: false, restart: false, back: false }
}

fn click(buttons: ButtonHits, cards: [bool; 4]) -> Clicks {
    Clicks {
        buttons,
        sky_sunshines: vec![false; 30],
        map_sunshines: vec![false; 100],
        cards: cards.to_vec(),
    }
}

fn is_sfx(c: &Command, name: &str) -> bool {
    matches!(c, Command::Send(AudioEvent::PlaySFX(f)) if f == name)
}

fn is_bgm(c: &Command, name: &str) -> bool {
    matches!(c, Command::Send(AudioEvent::PlayBGM(f, true)) if f == name)
}

fn is_stop(c: &Command) -> bool {
    matches!(c, Command::Send(AudioEvent::StopBGM))
}

fn is_sleep(c: &Command, micros: u64) -> bool {
    matches!(c, Command::Sleep(m) if *m == micros)
}

/// A game started from the menu with the start button.
fn started_game(out: &mut Vec<Command>) -> Game {
    let mut game = Game::new(out);
    game.mouse_button_down_event(true, &click(ButtonHits { start: true, ..no_buttons() }, [false; 4]), out);
    game.mouse_button_up_event(true, None, out);
    game
}

#[test]
fn new_game_plays_menu_music() {
    let mut out = Vec::new();
    let game = Game::new(&mut out);
    assert_eq!(game.status, GameStatus::Menu);
    assert_eq!(game.page, GamePage::StartPage);
    assert_eq!(game.sunshines_value, 50);
    assert_eq!(game.cur_level, 1);
    assert_eq!(game.card_be_selected, CardType::NoneCard);
    assert_eq!(out.len(), 1);
    assert!(is_bgm(&out[0], "/audio/start_bg.MP3"));
}

#[test]
fn start_button_starts_the_game() {
    let mut out = Vec::new();
    let mut game = Game::new(&mut out);
    game.mouse_button_down_event(true, &click(ButtonHits { start: true, ..no_buttons() }, [false; 4]), &mut out);
    assert_eq!(game.buttons_manager.button_be_clicked, ButtonType::GameStart);
    assert_eq!(game.status, GameStatus::Menu);
    game.mouse_button_up_event(true, None, &mut out);
    assert_eq!(game.status, GameStatus::Playing);
    assert_eq!(game.page, GamePage::PlayPage);
    assert_eq!(out.len(), 3);
    assert!(is_sfx(&out[1], "/audio/click_button.mp3"));
    assert!(is_sleep(&out[2], 500));
    assert!(game.update(&mut Quiet, &mut out).playing);
    assert_eq!(game.cur_bg_audio_page, GamePage::PlayPage);
    assert!(is_bgm(&out[3], "/audio/play_bg.mp3"));
    assert!(game.update(&mut Quiet, &mut out).playing);
    assert_eq!(out.len(), 4);
}

#[test]
fn right_button_does_nothing() {
    let mut out = Vec::new();
    let mut game = Game::new(&mut out);
    game.mouse_button_down_event(false, &click(ButtonHits { start: true, ..no_buttons() }, [false; 4]), &mut out);
    assert_eq!(game.buttons_manager.button_be_clicked, ButtonType::NoButton);
    game.mouse_button_up_event(false, None, &mut out);
    assert_eq!(game.status, GameStatus::Menu);
    assert_eq!(out.len(), 1);
}

#[test]
fn hard_mode_button() {
    let mut out = Vec::new();
    let mut game = Game::new(&mut out);
    game.mouse_button_down_event(true, &click(ButtonHits { hard_mod: true, ..no_buttons() }, [false; 4]), &mut out);
    assert_eq!(game.game_mod, GameMod::Hard);
    assert_eq!(game.zombies_manager.game_mod, GameMod::Hard);
    game.mouse_button_up_event(true, None, &mut out);
    assert_eq!(game.status, GameStatus::Playing);
}

#[test]
fn escape_pauses_and_resumes() {
    let mut out = Vec::new();
    let mut game = started_game(&mut out);
    let before = out.len();
    game.key_down_event(true, &mut out);
    assert_eq!(game.status, GameStatus::Paused);
    assert!(!game.whether_play_bg_audio);
    assert!(!game.update(&mut Quiet, &mut out).playing);
    game.key_down_event(true, &mut out);
    assert_eq!(game.status, GameStatus::Playing);
    assert!(game.whether_play_bg_audio);
    assert_eq!(out.len(), before + 3);
    assert!(is_sfx(&out[before], "/audio/pause.mp3"));
    assert!(is_stop(&out[before + 1]));
    assert!(is_bgm(&out[before + 2], "/audio/play_bg.mp3"));
    game.key_down_event(false, &mut out);
    assert_eq!(game.status, GameStatus::Playing);
    assert_eq!(out.len(), before + 3);
}

#[test]
fn escape_on_menu_does_nothing() {
    let mut out = Vec::new();
    let mut game = Game::new(&mut out);
    game.key_down_event(true, &mut out);
    assert_eq!(game.status, GameStatus::Menu);
    assert_eq!(out.len(), 1);
}

#[test]
fn planting_costs_the_price() {
    let mut out = Vec::new();
    let mut game = started_game(&mut out);
    // 50 sunshine: the peashooter (100) cannot be taken in hand.
    game.mouse_button_down_event(true, &click(no_buttons(), [false, true, false, false]), &mut out);
    assert_eq!(game.cards_manager.card_be_select, CardType::PeashooterCard);
    assert_eq!(game.card_be_selected, CardType::NoneCard);
    game.mouse_button_up_event(true, Some((1, 2)), &mut out);
    assert_eq!(game.cards_manager.card_be_select, CardType::NoneCard);
    assert!(!game.map_manager.grasses[1][2].is_used());
    // The sunflower (50) can.
    game.mouse_button_down_event(true, &click(no_buttons(), [false, false, true, false]), &mut out);
    assert_eq!(game.card_be_selected, CardType::SunFlowerCard);
    let before = out.len();
    game.mouse_button_up_event(true, Some((1, 2)), &mut out);
    assert_eq!(game.sunshines_value, 0);
    assert!(game.map_manager.grasses[1][2].is_used());
    assert_eq!(*game.map_manager.grasses[1][2].get_plant_type(), PlantType::SunFlower);
    assert_eq!(game.cards_manager.cool_times[2], 800);
    assert_eq!(game.card_be_selected, CardType::NoneCard);
    assert!(is_sfx(&out[before], "/audio/grow_plant.mp3"));
    // A card cooling down cannot be picked.
    game.add_sunshine_value(100);
    game.mouse_button_down_event(true, &click(no_buttons(), [false, false, true, false]), &mut out);
    assert_eq!(game.cards_manager.card_be_select, CardType::NoneCard);
    assert_eq!(game.card_be_selected, CardType::NoneCard);
    game.mouse_button_up_event(true, Some((0, 0)), &mut out);
    assert!(!game.map_manager.grasses[0][0].is_used());
}

#[test]
fn planting_on_a_taken_tile_or_off_the_lawn_fails() {
    let mut out = Vec::new();
    let mut game = started_game(&mut out);
    game.add_sunshine_value(100);
    game.mouse_button_down_event(true, &click(no_buttons(), [false, false, false, true]), &mut out);
    game.mouse_button_up_event(true, Some((4, 8)), &mut out);
    assert_eq!(game.sunshines_value, 100);
    game.mouse_button_down_event(true, &click(no_buttons(), [false, false, false, true]), &mut out);
    assert_eq!(game.cards_manager.card_be_select, CardType::NoneCard);
    game.cards_manager.cool_times[3] = 0;
    game.mouse_button_down_event(true, &click(no_buttons(), [false, false, false, true]), &mut out);
    assert_eq!(game.card_be_selected, CardType::WallnutCard);
    let before = out.len();
    game.mouse_button_up_event(true, Some((4, 8)), &mut out);
    assert_eq!(game.sunshines_value, 100);
    assert_eq!(game.card_be_selected, CardType::NoneCard);
    assert_eq!(out.len(), before);
    game.mouse_button_down_event(true, &click(no_buttons(), [false, false, false, true]), &mut out);
    game.mouse_button_up_event(true, Some((5, 0)), &mut out);
    game.mouse_button_down_event(true, &click(no_buttons(), [false, false, false, true]), &mut out);
    game.mouse_button_up_event(true, None, &mut out);
    assert_eq!(game.sunshines_value, 100);
}

#[test]
fn spade_removes_a_plant() {
    let mut out = Vec::new();
    let mut game = started_game(&mut out);
    game.mouse_button_down_event(true, &click(no_buttons(), [false, false, true, false]), &mut out);
    game.mouse_button_up_event(true, Some((3, 3)), &mut out);
    assert!(game.map_manager.grasses[3][3].is_used());
    let before = out.len();
    game.mouse_button_down_event(true, &click(no_buttons(), [true, false, false, false]), &mut out);
    assert_eq!(game.card_be_selected, CardType::SpadeCard);
    assert!(is_sfx(&out[before], "/audio/click_shovel.mp3"));
    game.mouse_button_up_event(true, Some((3, 3)), &mut out);
    assert!(!game.map_manager.grasses[3][3].is_used());
    assert!(is_sfx(&out[before + 1], "/audio/remove_plant.mp3"));
    assert_eq!(game.card_be_selected, CardType::SpadeCard);
    assert_eq!(game.cards_manager.card_be_select, CardType::NoneCard);
    let before = out.len();
    game.mouse_button_up_event(true, Some((3, 3)), &mut out);
    assert_eq!(out.len(), before);
}

#[test]
fn pause_button_then_run_button() {
    let mut out = Vec::new();
    let mut game = started_game(&mut out);
    game.mouse_button_down_event(true, &click(ButtonHits { pause: true, ..no_buttons() }, [false; 4]), &mut out);
    game.mouse_button_up_event(true, None, &mut out);
    assert_eq!(game.status, GameStatus::Paused);
    // While paused, the pause button does nothing and the run button resumes.
    game.mouse_button_down_event(true, &click(ButtonHits { pause: true, ..no_buttons() }, [false; 4]), &mut out);
    game.mouse_button_up_event(true, None, &mut out);
    assert_eq!(game.status, GameStatus::Paused);
    game.mouse_button_down_event(true, &click(ButtonHits { run: true, ..no_buttons() }, [false; 4]), &mut out);
    game.mouse_button_up_event(true, None, &mut out);
    assert_eq!(game.status, GameStatus::Playing);
}

#[test]
fn restart_clears_the_game() {
    let mut out = Vec::new();
    let mut game = started_game(&mut out);
    game.mouse_button_down_event(true, &click(no_buttons(), [false, false, true, false]), &mut out);
    game.mouse_button_up_event(true, Some((0, 0)), &mut out);
    assert!(game.map_manager.grasses[0][0].is_used());
    game.mouse_button_down_event(true, &click(ButtonHits { restart: true, ..no_buttons() }, [false; 4]), &mut out);
    let before = out.len();
    game.mouse_button_up_event(true, None, &mut out);
    assert_eq!(game.status, GameStatus::Playing);
    assert_eq!(game.page, GamePage::PlayPage);
    assert_eq!(game.sunshines_value, 50);
    assert!(!game.map_manager.grasses[0][0].is_used());
    assert_eq!(game.cards_manager.cool_times, vec![0, 0, 0, 0]);
    assert_eq!(game.zombies_manager.cur_level, 1);
    assert!(is_sfx(&out[before], "/audio/click_button.mp3"));
    assert!(is_stop(&out[before + 1]));
    assert!(is_bgm(&out[before + 2], "/audio/play_bg.mp3"));
}

#[test]
fn back_button_returns_to_menu() {
    let mut out = Vec::new();
    let mut game = started_game(&mut out);
    assert!(game.update(&mut Quiet, &mut out).playing);
    game.mouse_button_down_event(true, &click(ButtonHits { back: true, ..no_buttons() }, [false; 4]), &mut out);
    game.mouse_button_up_event(true, None, &mut out);
    assert_eq!(game.status, GameStatus::Menu);
    assert_eq!(game.page, GamePage::StartPage);
    assert!(game.update(&mut Quiet, &mut out).playing == false);
    assert!(is_bgm(out.last().unwrap(), "/audio/start_bg.MP3"));
}

#[test]
fn zombie_past_the_line_loses() {
    let mut out = Vec::new();
    let mut game = started_game(&mut out);
    let mut past = vec![false; 200];
    past[7] = true;
    // Past the line but not in play: nothing happens.
    game.finish_update(&past, &mut out);
    assert_eq!(game.status, GameStatus::Playing);
    // A dead zombie past the line does not count either.
    game.zombies_manager.zm_pool[7].init_with(0, 1, 3);
    game.zombies_manager.zm_pool[7].be_attacked(1000);
    game.finish_update(&past, &mut out);
    assert_eq!(game.status, GameStatus::Playing);
    game.zombies_manager.zm_pool[7].init_with(0, 1, 3);
    let before = out.len();
    game.finish_update(&past, &mut out);
    assert_eq!(game.status, GameStatus::GameOver);
    assert_eq!(out.len(), before + 4);
    assert!(is_stop(&out[before]));
    assert!(is_sleep(&out[before + 1], 3000));
    assert!(is_sfx(&out[before + 2], "/audio/scream.mp3"));
    assert!(is_sfx(&out[before + 3], "/audio/lose.mp3"));
    assert!(!game.update(&mut Quiet, &mut out).playing);
}

#[test]
fn passing_the_third_level_wins() {
    let mut out = Vec::new();
    let mut game = started_game(&mut out);
    game.zombies_manager.cur_level = 2;
    game.finish_update(&vec![false; 200], &mut out);
    assert_eq!(game.cur_level, 2);
    assert_eq!(game.status, GameStatus::Playing);
    game.zombies_manager.cur_level = 4;
    game.cur_level = 3;
    let before = out.len();
    game.finish_update(&vec![false; 200], &mut out);
    assert_eq!(game.cur_level, 4);
    assert_eq!(game.status, GameStatus::Victory);
    assert!(is_stop(&out[before]));
    assert!(is_sfx(&out[before + 1], "/audio/win.mp3"));
    let before = out.len();
    game.finish_update(&vec![false; 200], &mut out);
    assert_eq!(out.len(), before);
}

#[test]
fn set_status_and_page() {
    let mut out = Vec::new();
    let mut game = Game::new(&mut out);
    game.set_game_status(GameStatus::Paused);
    game.set_game_page(GamePage::PlayPage);
    assert_eq!(game.status, GameStatus::Paused);
    assert_eq!(game.page, GamePage::PlayPage);
    game.change_game_status(GameStatus::Menu, &mut out);
    assert_eq!(game.status, GameStatus::Menu);
    assert_eq!(out.len(), 1);
    game.game_restart(GamePage::StartPage, GameStatus::Menu, &mut out);
    assert_eq!(out.len(), 1);
}

#[test]
fn adventure_after_hard_sends_common_waves() {
    let mut out = Vec::new();
    let mut game = Game::new(&mut out);
    game.mouse_button_down_event(true, &click(ButtonHits { hard_mod: true, ..no_buttons() }, [false; 4]), &mut out);
    game.mouse_button_up_event(true, None, &mut out);
    assert_eq!(game.zombies_manager.game_mod, GameMod::Hard);
    game.mouse_button_down_event(true, &click(ButtonHits { back: true, ..no_buttons() }, [false; 4]), &mut out);
    game.mouse_button_up_event(true, None, &mut out);
    assert_eq!(game.page, GamePage::StartPage);
    game.mouse_button_down_event(true, &click(ButtonHits { start: true, ..no_buttons() }, [false; 4]), &mut out);
    assert_eq!(game.game_mod, GameMod::Common);
    assert_eq!(game.zombies_manager.game_mod, GameMod::Common);
}
