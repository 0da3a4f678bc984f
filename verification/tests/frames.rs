use plants_vs_zombies::entities::bullet::Bullet;
use plants_vs_zombies::entities::car::Car;
use plants_vs_zombies::entities::sunshine::Sunshine;
use plants_vs_zombies::entities::zombie::{Zombie, ZombieMove};
use plants_vs_zombies::entities_managers::map_manager::Spawn;
use plants_vs_zombies::frame::Screen;
use plants_vs_zombies::game::{Game, GamePage, GameStatus};
use plants_vs_zombies::threads::audio_thread::{AudioEvent, Command};

/// A screen that answers with fixed flags: the sky's sunshines that
/// reached the counter, the zombies past the losing line, and whether its
/// answers have the right size.
struct Fixed {
    sky_collected: Vec<bool>,
    past: Vec<bool>,
    well_sized: bool,
    asked: Vec<&'static str>,
}

impl Fixed {
    fn new() -> Fixed {
        Fixed { sky_collected: vec![false; 30], past: vec![false; 200], well_sized: true, asked: Vec::new() }
    }
}

impl Screen for Fixed {
    fn sky_flags(&mut self, _pool: &Vec<Sunshine>, _was_used: &Vec<bool>) -> (Vec<bool>, Vec<bool>) {
        self.asked.push("sky");
        (self.sky_collected.clone(), vec![false; 30])
    }
    fn move_sky(&mut self, _pool: &Vec<Sunshine>) {
        self.asked.push("move sky");
    }
    fn zombies_ahead(&mut self) -> Vec<Vec<bool>> {
        self.asked.push("ahead");
        vec![vec![false; 9]; 200]
    }
    fn bullet_hits(&mut self, _bullets: &Vec<Bullet>, _shot: &Vec<Spawn>, _made: &Vec<Spawn>) -> Vec<Vec<bool>> {
        self.asked.push("peas");
        vec![vec![false; 200]; 400]
    }
    fn car_contacts(&mut self, _cars: &Vec<Car>) -> (Vec<Vec<bool>>, Vec<bool>) {
        self.asked.push("mowers");
        (vec![vec![false; 200]; 5], vec![false; 5])
    }
    fn move_cars(&mut self, _cars: &Vec<Car>) {
        self.asked.push("move mowers");
    }
    fn lawn_sunshine_flags(&mut self) -> (Vec<bool>, Vec<bool>) {
        self.asked.push("lawn sunshines");
        (vec![false; 100], vec![false; 100])
    }
    fn move_lawn_sunshines(&mut self, _pool: &Vec<Sunshine>) {
        self.asked.push("move lawn sunshines");
    }
    fn zombie_contacts(&mut self, _pool: &Vec<Zombie>, _was_used: &Vec<bool>) -> (Vec<Vec<bool>>, Vec<bool>) {
        self.asked.push("zombies");
        let past = if self.well_sized { self.past.clone() } else { vec![true; 3] };
        (vec![vec![false; 9]; 200], past)
    }
    fn move_zombies(&mut self, _moves: &Vec<ZombieMove>) {
        self.asked.push("move zombies");
    }
}

fn playing_game(out: &mut Vec<Command>) -> Game {
    let mut game = Game::new(out);
    game.set_game_status(GameStatus::Playing);
    game.set_game_page(GamePage::PlayPage);
    game
}

#[test]
fn a_frame_asks_the_screen_in_order() {
    let mut out = Vec::new();
    let mut game = playing_game(&mut out);
    let mut screen = Fixed::new();
    let report = game.update(&mut screen, &mut out);
    assert!(report.playing);
    assert_eq!(
        screen.asked,
        vec![
            "sky", "move sky", "ahead", "peas", "mowers", "move mowers", "lawn sunshines",
            "move lawn sunshines", "zombies", "move zombies",
        ]
    );
    assert_eq!(game.sunshines_manager.sunshine_timer, 599);
    assert_eq!(game.zombies_manager.zm_timer, 1499);
}

#[test]
fn a_frame_off_play_only_plays_music() {
    let mut out = Vec::new();
    let mut game = Game::new(&mut out);
    let mut screen = Fixed::new();
    let report = game.update(&mut screen, &mut out);
    assert!(!report.playing);
    assert!(screen.asked.is_empty());
    assert_eq!(game.sunshines_manager.sunshine_timer, 600);
}

#[test]
fn a_frame_adds_the_collected_sunshine() {
    let mut out = Vec::new();
    let mut game = playing_game(&mut out);
    game.sunshines_manager.sunshines_pool[4].init(plants_vs_zombies::entities::my_enum::sunshine_enum::SunshineType::CommonSunShine);
    game.sunshines_manager.sunshines_pool[4].check_clicked(true);
    let mut screen = Fixed::new();
    screen.sky_collected[4] = true;
    let report = game.update(&mut screen, &mut out);
    assert_eq!(report.sky_gain, 50);
    assert_eq!(report.map_gain, 0);
    assert_eq!(game.sunshines_value, 100);
}

#[test]
fn a_zombie_past_the_line_ends_the_game_in_that_frame() {
    let mut out = Vec::new();
    let mut game = playing_game(&mut out);
    game.zombies_manager.zm_pool[9].init_with(3, 2, 3);
    let mut screen = Fixed::new();
    screen.past[9] = true;
    let report = game.update(&mut screen, &mut out);
    assert!(report.crossed);
    assert_eq!(game.status, GameStatus::GameOver);
    assert!(matches!(out.last(), Some(Command::Send(AudioEvent::PlaySFX(f))) if f == "/audio/lose.mp3"));
}

#[test]
fn a_wrongly_sized_answer_counts_as_nothing() {
    let mut out = Vec::new();
    let mut game = playing_game(&mut out);
    game.zombies_manager.zm_pool[9].init_with(3, 2, 3);
    let mut screen = Fixed::new();
    screen.well_sized = false;
    let report = game.update(&mut screen, &mut out);
    assert!(!report.crossed);
    assert_eq!(game.status, GameStatus::Playing);
}

#[test]
fn passing_the_last_level_wins_in_the_frame() {
    let mut out = Vec::new();
    let mut game = playing_game(&mut out);
    game.zombies_manager.cur_level = 3;
    game.zombies_manager.zm_waves = 8;
    game.cur_level = 3;
    let report = game.update(&mut Fixed::new(), &mut out);
    assert_eq!(report.level, 4);
    assert_eq!(game.cur_level, 4);
    assert_eq!(game.status, GameStatus::Victory);
}
