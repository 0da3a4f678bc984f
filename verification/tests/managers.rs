use plants_vs_zombies::entities::my_enum::button_enum::ButtonType;
use plants_vs_zombies::entities::my_enum::card_enum::CardType;
use plants_vs_zombies::entities::my_enum::plant_enum::PlantType;
use plants_vs_zombies::entities::sunshine::Sunshine;
use plants_vs_zombies::entities_managers::buttons_manager::{ButtonHits, ButtonManager};
use plants_vs_zombies::entities_managers::cards_manager::CardManager;
use plants_vs_zombies::entities_managers::map_manager::MapManager;
use plants_vs_zombies::entities_managers::sunshines_manager::SunshineManager;
use plants_vs_zombies::entities_managers::zombie_manager::ZombieManager;
use plants_vs_zombies::entities::my_enum::zombie_enum::ZombieType;
use plants_vs_zombies::game::{Clicks, Game, GameMod, GamePage, GameStatus};
use plants_vs_zombies::resources::{new_entities_pool, EntityType};
use plants_vs_zombies::spawner::Spawner;
use plants_vs_zombies::threads::audio_thread::{AudioEvent, Command};

fn is_sfx(c: &Command, name: &str) -> bool {
    matches!(c, Command::Send(AudioEvent::PlaySFX(f)) if f == name)
}

fn grid(rows: usize, cols: usize) -> Vec<Vec<bool>> {
    vec![vec![false; cols]; rows]
}

#[test]
fn release_reports_a_button_once() {
    let mut out = Vec::new();
    let mut buttons = ButtonManager::new();
    let hits = ButtonHits { start: false, hard_mod: false, pause: false, run: false, restart: true, back: true };
    let mut game_mod = GameMod::Common;
    buttons.buttons_check_click(&hits, &GamePage::PlayPage, &mut game_mod);
    assert_eq!(buttons.button_be_clicked, ButtonType::GameRestart);
    assert!(buttons.game_restart_button.be_clicked());
    assert!(!buttons.game_back_button.be_clicked());
    assert_eq!(buttons.check_set_button_up(&mut out), ButtonType::GameRestart);
    assert!(!buttons.game_restart_button.be_clicked());
    assert_eq!(out.len(), 1);
    assert!(is_sfx(&out[0], "/audio/click_button.mp3"));
    assert_eq!(buttons.check_set_button_up(&mut out), ButtonType::NoButton);
    assert_eq!(out.len(), 1);
}

#[test]
fn menu_buttons_choose_the_mode() {
    let mut buttons = ButtonManager::new();
    let mut game_mod = GameMod::Hard;
    let hits = ButtonHits { start: true, hard_mod: true, pause: true, run: false, restart: false, back: false };
    buttons.buttons_check_click(&hits, &GamePage::StartPage, &mut game_mod);
    assert_eq!(game_mod, GameMod::Common);
    assert_eq!(buttons.button_be_clicked, ButtonType::GameStart);
    assert!(!buttons.game_pause_button.be_clicked());
    buttons.init();
    assert!(buttons.game_start_button.be_clicked());
}

#[test]
fn card_bar_picks_first_ready_card() {
    let mut out = Vec::new();
    let mut cards = CardManager::new();
    assert_eq!(cards.check_select_plant(&vec![false, true, true, false], &mut out), CardType::PeashooterCard);
    cards.set_card_in_cool_time(&CardType::PeashooterCard);
    assert_eq!(cards.cool_times, vec![0, 400, 0, 0]);
    assert_eq!(cards.check_select_plant(&vec![false, true, true, false], &mut out), CardType::SunFlowerCard);
    assert_eq!(cards.check_select_plant(&vec![false, true, false, false], &mut out), CardType::NoneCard);
    assert!(out.is_empty());
    cards.reset_plant_selected();
    assert_eq!(cards.card_be_select, CardType::NoneCard);
    cards.update_cool_times();
    assert_eq!(cards.cool_times, vec![-1, 399, -1, -1]);
    cards.init();
    assert_eq!(cards.cool_times, vec![0, 0, 0, 0]);
}

#[test]
fn spade_does_not_cool_while_in_hand() {
    let mut out = Vec::new();
    let mut cards = CardManager::new();
    assert_eq!(cards.check_select_plant(&vec![true, false, false, false], &mut out), CardType::SpadeCard);
    assert_eq!(out.len(), 1);
    cards.update_cool_times();
    assert_eq!(cards.cool_times, vec![0, -1, -1, -1]);
}

#[test]
fn no_plant_grows_and_is_removed() {
    let mut out = Vec::new();
    let mut map = MapManager::new();
    assert!(map.grow_plant(Some((1, 5)), &PlantType::NonePlant, &mut out));
    assert!(map.grasses[1][5].is_used());
    assert!(is_sfx(&out[0], "/audio/grow_plant.mp3"));
    map.remove_plant(Some((1, 5)), &mut out);
    assert!(is_sfx(&out[1], "/audio/remove_plant.mp3"));
    assert_eq!(out.len(), 2);
    for r in 0..5 {
        for c in 0..9 {
            assert!(!map.grasses[r][c].is_used());
            assert!(!map.grasses[r][c].plant.is_used());
        }
    }
}

#[test]
fn lawn_grows_and_removes() {
    let mut out = Vec::new();
    let mut map = MapManager::new();
    assert_eq!(map.grasses.len(), 5);
    assert_eq!(map.grasses[4].len(), 9);
    assert_eq!(map.bullets_pool.len(), 400);
    assert_eq!(map.get_sunshines_pool().len(), 100);
    assert_eq!(map.cars_pool.len(), 5);
    assert_eq!(map.select_grass(Some((2, 8))), (Some(2), Some(8)));
    assert_eq!(map.select_grass(Some((2, 9))), (None, None));
    assert_eq!(map.select_grass(None), (None, None));
    assert!(map.grow_plant(Some((2, 3)), &PlantType::Peashooter, &mut out));
    assert!(!map.grow_plant(Some((2, 3)), &PlantType::WallNut, &mut out));
    assert_eq!(out.len(), 1);
    map.remove_plant(Some((2, 3)), &mut out);
    assert!(!map.grasses[2][3].is_used());
    map.remove_plant(Some((2, 3)), &mut out);
    assert_eq!(out.len(), 2);
    assert!(map.grow_plant(Some((2, 3)), &PlantType::WallNut, &mut out));
    map.init();
    assert!(!map.grasses[2][3].is_used());
    map.get_sunshines_pool_mut()[0].init(plants_vs_zombies::entities::my_enum::sunshine_enum::SunshineType::CommonSunShine);
    assert!(map.sunshines_pool[0].is_used());
}

#[test]
fn peashooter_fires_at_threat() {
    let mut out = Vec::new();
    let mut map = MapManager::new();
    assert!(map.grow_plant(Some((0, 0)), &PlantType::Peashooter, &mut out));
    let mut threatened = grid(5, 9);
    threatened[0][0] = true;
    let mut shots = 0;
    for _ in 0..300 {
        let (bullets, sunshines) = map.update_plants_status(&threatened);
        shots += bullets.len();
        assert!(sunshines.is_empty());
    }
    assert_eq!(shots, 1);
    assert_eq!(map.bullets_pool.iter().filter(|b| b.is_used()).count(), 1);
    assert_eq!(map.bullets_pool[0].get_row(), 0);
}

#[test]
fn peashooter_waits_without_threat() {
    let mut out = Vec::new();
    let mut map = MapManager::new();
    assert!(map.grow_plant(Some((1, 1)), &PlantType::Peashooter, &mut out));
    let threatened = grid(5, 9);
    for _ in 0..400 {
        let (bullets, _) = map.update_plants_status(&threatened);
        assert!(bullets.is_empty());
    }
}

#[test]
fn sunflower_makes_sunshine() {
    let mut out = Vec::new();
    let mut map = MapManager::new();
    assert!(map.grow_plant(Some((4, 4)), &PlantType::SunFlower, &mut out));
    let threatened = grid(5, 9);
    let mut made = Vec::new();
    for _ in 0..1500 {
        let (_, sunshines) = map.update_plants_status(&threatened);
        made.extend(sunshines);
    }
    assert_eq!(made.len(), 1);
    assert_eq!((made[0].pool_index, made[0].row, made[0].column), (0, 4, 4));
    assert!(map.sunshines_pool[0].is_used());
    let mut inside = vec![false; 100];
    inside[0] = true;
    map.sunshines_check_click(&inside);
    let mut collected = vec![false; 100];
    collected[0] = true;
    assert_eq!(map.update_sunshines_status(&collected, &vec![false; 100]), 50);
    assert!(!map.sunshines_pool[0].is_used());
}

#[test]
fn pea_hits_zombie() {
    let mut out = Vec::new();
    let mut map = MapManager::new();
    let mut zombies = ZombieManager::new();
    zombies.zm_pool[0].init_with(2, 1, 3);
    map.bullets_pool[0].init(2);
    let mut hits = grid(400, 200);
    hits[0][0] = true;
    map.undate_bullets_status(&mut zombies, &hits, &mut out);
    assert_eq!(zombies.zm_pool[0].cur_blood, 250);
    assert!(map.bullets_pool[0].is_dead());
    assert_eq!(out.len(), 1);
    assert!(is_sfx(&out[0], "/audio/bullet_zombie.mp3"));
}

#[test]
fn mower_runs_over_zombie() {
    let mut map = MapManager::new();
    let mut zombies = ZombieManager::new();
    zombies.zm_pool[5].init_with(3, 6, 3);
    let mut hits = grid(5, 200);
    hits[3][5] = true;
    map.update_cars_status(&mut zombies, &hits, &vec![false; 5]);
    assert!(zombies.zm_pool[5].is_dead());
    assert!(map.cars_pool[3].is_used());
    let mut past = vec![false; 5];
    past[3] = true;
    map.update_cars_status(&mut zombies, &grid(5, 200), &past);
    assert!(!map.cars_pool[3].is_used());
    assert!(map.cars_pool[2].is_used());
}

#[test]
fn zombie_eats_plant() {
    let mut out = Vec::new();
    let mut map = MapManager::new();
    let mut zombies = ZombieManager::new();
    assert!(map.grow_plant(Some((1, 0)), &PlantType::SunFlower, &mut out));
    zombies.zm_pool[0].init_with(1, 1, 3);
    zombies.zm_pool[0].can_attack = true;
    let mut touching = grid(200, 9);
    touching[0][0] = true;
    let moves = zombies.update_zombies_status(&mut map, &touching, &mut out);
    assert_eq!(moves.len(), 200);
    assert_eq!(
        *zombies.zm_pool[0].get_status(),
        plants_vs_zombies::entities::my_enum::zombie_enum::ZombieStatus::Eat
    );
    assert_eq!(map.grasses[1][0].plant.cur_blood, 98);
    assert!(!zombies.zm_pool[0].can_attack());
    assert!(!moves[0].walked);
}

#[test]
fn waves_arrive_on_time() {
    let mut out = Vec::new();
    let mut zombies = ZombieManager::new();
    for _ in 0..1499 {
        assert_eq!(zombies.create_zombie(&mut out), 1);
    }
    assert_eq!(zombies.zm_pool.iter().filter(|z| z.is_used()).count(), 0);
    assert_eq!(zombies.create_zombie(&mut out), 1);
    let sent = zombies.zm_pool.iter().filter(|z| z.is_used()).count();
    assert!(sent >= 1 && sent <= 2);
    for i in 0..sent {
        assert!(zombies.zm_pool[i].is_used());
        assert_eq!(*zombies.zm_pool[i].get_type(), ZombieType::CommonZM);
    }
    assert_eq!(zombies.zm_waves, 1);
    assert!(zombies.zm_timer >= 1000 && zombies.zm_timer <= 1199);
    assert_eq!(out.len(), 1);
    assert!(is_sfx(&out[0], "/audio/first_wave.mp3"));
}

#[test]
fn hard_mode_waves_are_bigger() {
    let mut out = Vec::new();
    let mut zombies = ZombieManager::new();
    zombies.set_game_mod(GameMod::Hard);
    zombies.zm_timer = 1;
    zombies.create_zombie(&mut out);
    let sent = zombies.zm_pool.iter().filter(|z| z.is_used()).count();
    assert!(sent >= 2 && sent <= 3);
}

#[test]
fn next_level_after_the_waves() {
    let mut out = Vec::new();
    let mut zombies = ZombieManager::new();
    zombies.zm_waves = 6;
    assert_eq!(zombies.create_zombie(&mut out), 2);
    assert_eq!(zombies.zm_waves, 0);
    zombies.zm_waves = 5;
    zombies.zm_pool[0].init_with(0, 1, 3);
    zombies.zm_timer = 3;
    assert_eq!(zombies.create_zombie(&mut out), 2);
    assert_eq!(zombies.zm_timer, 2);
    zombies.zm_waves = 8;
    assert_eq!(zombies.create_zombie(&mut out), 2);
    zombies.init();
    assert_eq!(zombies.cur_level, 1);
    assert!(!zombies.zm_pool[0].is_used());
}

#[test]
fn sky_drops_and_collects_sunshine() {
    let mut sky = SunshineManager::new();
    assert_eq!(sky.sunshine_timer, 600);
    for _ in 0..599 {
        sky.create_sunshine();
    }
    assert_eq!(sky.sunshine_timer, 1);
    assert!(!sky.get_sunshines_pool()[0].is_used());
    sky.create_sunshine();
    assert!(sky.sunshine_timer >= 1000 && sky.sunshine_timer <= 1199);
    assert!(sky.sunshines_pool[0].is_used());
    let mut inside = vec![false; 30];
    inside[0] = true;
    sky.sunshines_check_click(&inside);
    assert!(sky.sunshines_pool[0].be_clikced());
    let mut collected = vec![false; 30];
    assert_eq!(sky.update_sunshines_status(&collected, &vec![false; 30]), 0);
    collected[0] = true;
    assert_eq!(sky.update_sunshines_status(&collected, &vec![false; 30]), 50);
    sky.create_sunshine_with(1100, 5);
    sky.init();
    assert_eq!(sky.sunshine_timer, 600);
}

#[test]
fn spawner_drops_into_shared_pool() {
    let mut spawner = Spawner::new();
    assert_eq!(spawner.sunshine_timer, 600);
    let mut pool = vec![Sunshine::new(); 3];
    spawner.create_sunshine_with(&mut pool, 700, 2);
    assert_eq!(spawner.sunshine_timer, 599);
    spawner.sunshine_timer = 1;
    spawner.create_sunshine_with(&mut pool, 700, 2);
    assert_eq!(spawner.sunshine_timer, 700);
    assert!(pool[0].is_used());
    assert_eq!(pool[0].frame_index, 2);
    spawner.sunshine_timer = 1;
    spawner.create_sunshine(&mut pool);
    assert!(spawner.sunshine_timer >= 600 && spawner.sunshine_timer <= 1199);
    assert!(pool[1].is_used());
}

#[test]
fn entities_pool_is_fresh() {
    let pool = new_entities_pool(&EntityType::SunShine, 3);
    assert_eq!(pool.len(), 3);
    assert!(pool.iter().all(|s| !s.is_used()));
}

#[test]
fn frame_steps_of_the_game() {
    let mut out = Vec::new();
    let mut game = Game::new(&mut out);
    game.set_game_status(GameStatus::Playing);
    game.set_game_page(GamePage::PlayPage);
    game.sunshines_manager.sunshine_timer = 1;
    game.create_sky_sunshine();
    assert!(game.sunshines_manager.sunshines_pool[0].is_used());
    let mut clicks = Clicks {
        buttons: ButtonHits { start: false, hard_mod: false, pause: false, run: false, restart: false, back: false },
        sky_sunshines: vec![false; 30],
        map_sunshines: vec![false; 100],
        cards: vec![false; 4],
    };
    clicks.sky_sunshines[0] = true;
    game.mouse_button_down_event(true, &clicks, &mut out);
    let mut collected = vec![false; 30];
    collected[0] = true;
    assert_eq!(game.update_sky_sunshines(&collected, &vec![false; 30]), 50);
    assert_eq!(game.sunshines_value, 100);
    assert_eq!(game.update_map_sunshines(&vec![false; 100], &vec![false; 100]), 0);
    let (bullets, sunshines) = game.update_plants(&grid(200, 9));
    assert!(bullets.is_empty() && sunshines.is_empty());
    game.update_bullets(&grid(400, 200), &mut out);
    game.update_cars(&grid(5, 200), &vec![false; 5]);
    game.zombies_manager.zm_timer = 1;
    assert_eq!(game.create_zombies(&mut out), 1);
    let moves = game.update_zombies(&grid(200, 9), &mut out);
    assert!(moves.iter().filter(|m| m.walked).count() >= 1);
    game.finish_update(&vec![false; 200], &mut out);
    assert_eq!(game.status, GameStatus::Playing);
}

#[test]
fn threats_come_from_living_zombies_in_the_row() {
    let mut zombies = ZombieManager::new();
    let mut ahead = grid(200, 9);
    ahead[3] = vec![true; 9];
    assert!(zombies.threats(&ahead).iter().all(|row| row.iter().all(|t| !t)));
    zombies.zm_pool[3].init_with(2, 1, 3);
    let t = zombies.threats(&ahead);
    assert_eq!(t.len(), 5);
    assert!(t[2].iter().all(|x| *x));
    assert!(!t[1][0]);
    zombies.zm_pool[3].be_attacked(1000);
    assert!(!zombies.threats(&ahead)[2][0]);
    let mut past = vec![false; 200];
    past[3] = true;
    assert!(!zombies.any_past(&past));
    zombies.zm_pool[3].init_with(2, 1, 3);
    assert!(zombies.any_past(&past));
}

#[test]
fn game_plants_shoot_at_threats() {
    let mut out = Vec::new();
    let mut game = Game::new(&mut out);
    game.add_sunshine_value(100);
    assert!(game.map_manager.grow_plant(Some((2, 0)), &PlantType::Peashooter, &mut out));
    game.zombies_manager.zm_pool[0].init_with(2, 1, 3);
    let mut ahead = grid(200, 9);
    ahead[0][0] = true;
    let mut shots = 0;
    for _ in 0..300 {
        shots += game.update_plants(&ahead).0.len();
    }
    assert_eq!(shots, 1);
}

#[test]
fn a_whole_click_leaves_the_buttons_up() {
    let mut out = Vec::new();
    let fresh = ButtonManager::new();
    let mut buttons = ButtonManager::new();
    let hits = ButtonHits { start: false, hard_mod: false, pause: true, run: false, restart: false, back: false };
    let mut game_mod = GameMod::Common;
    buttons.buttons_check_click(&hits, &GamePage::PlayPage, &mut game_mod);
    assert!(buttons.game_pause_button.be_clicked());
    assert_eq!(buttons.check_set_button_up(&mut out), ButtonType::GamePause);
    assert_eq!(buttons.game_pause_button.button_status, fresh.game_pause_button.button_status);
    assert_eq!(buttons.game_pause_button.frame, fresh.game_pause_button.frame);
    assert_eq!(buttons.button_be_clicked, ButtonType::NoButton);
}

#[test]
fn random_timers_vary() {
    let mut sky = SunshineManager::new();
    let mut timers = Vec::new();
    for _ in 0..50 {
        sky.sunshine_timer = 1;
        sky.create_sunshine();
        assert!(sky.sunshine_timer >= 1000 && sky.sunshine_timer <= 1199);
        timers.push(sky.sunshine_timer);
    }
    assert!(timers.iter().any(|t| *t != timers[0]));
}

#[test]
fn first_sky_sunshine_falls_at_frame_600() {
    let mut spawner = Spawner::new();
    let mut pool = vec![Sunshine::new(); 4];
    for _ in 0..599 {
        spawner.create_sunshine(&mut pool);
        assert!(pool.iter().all(|s| !s.is_used()));
    }
    assert_eq!(spawner.sunshine_timer, 1);
    spawner.create_sunshine(&mut pool);
    assert!(pool[0].is_used());
    assert!(!pool[1].is_used());
    assert!(spawner.sunshine_timer >= 600 && spawner.sunshine_timer <= 1199);
}

#[test]
fn wave_fills_the_first_free_slots() {
    let mut out = Vec::new();
    let mut zombies = ZombieManager::new();
    zombies.cur_level = 3;
    zombies.zm_pool[1].init_with(4, 1, 3);
    let before = zombies.zm_pool[1];
    zombies.start_wave(&vec![(0, 5), (2, 7), (3, 2)], 1100, &mut out);
    assert_eq!(*zombies.zm_pool[0].get_type(), ZombieType::ConeHeadZM);
    assert_eq!(zombies.zm_pool[0].get_row(), 0);
    assert_eq!(zombies.zm_pool[1].get_row(), before.get_row());
    assert_eq!(*zombies.zm_pool[2].get_type(), ZombieType::PoleVaultingZM);
    assert_eq!(zombies.zm_pool[2].get_row(), 2);
    assert_eq!(*zombies.zm_pool[3].get_type(), ZombieType::CommonZM);
    assert_eq!(zombies.zm_pool[3].get_row(), 3);
    assert!(!zombies.zm_pool[4].is_used());
    assert_eq!(zombies.zm_pool.iter().filter(|z| z.is_used()).count(), 4);
    assert_eq!(zombies.zm_timer, 1100);
    assert_eq!(out.len(), 1);
    assert!(is_sfx(&out[0], "/audio/final_wave.mp3"));
}
