use plants_vs_zombies::entities::bullet::Bullet;
use plants_vs_zombies::entities::button::Button;
use plants_vs_zombies::entities::car::Car;
use plants_vs_zombies::entities::grass::Grass;
use plants_vs_zombies::entities::my_enum::button_enum::{ButtonStatus, ButtonType};
use plants_vs_zombies::entities::my_enum::car_enum::CarStatus;
use plants_vs_zombies::entities::my_enum::plant_enum::PlantType;
use plants_vs_zombies::entities::my_enum::sunshine_enum::SunshineType;
use plants_vs_zombies::entities::my_enum::zombie_enum::{ZombieStatus, ZombieType};
use plants_vs_zombies::entities::plant::Plant;
use plants_vs_zombies::entities::sunshine::Sunshine;
use plants_vs_zombies::entities::zombie::Zombie;

#[test]
fn plant_skill_ready_when_timer_runs_out() {
    let mut plant = Plant::new(2);
    assert!(!plant.is_used());
    plant.init(PlantType::Peashooter);
    assert!(plant.is_used());
    assert_eq!(plant.get_row(), 2);
    assert_eq!(plant.skill_time, 300);
    assert_eq!(plant.cur_blood, 200);
    for _ in 0..299 {
        plant.update_status();
        assert!(!plant.can_activate_skill());
    }
    plant.update_status();
    assert!(plant.can_activate_skill());
    assert_eq!(plant.skill_time, 0);
    plant.skill_cooldown();
    assert!(!plant.can_activate_skill());
    assert_eq!(plant.skill_time, 300);
}

#[test]
fn plant_dies_when_health_runs_out() {
    let mut plant = Plant::new(0);
    plant.init(PlantType::SunFlower);
    plant.be_attacked(60);
    assert!(plant.is_used() && !plant.is_dead());
    assert_eq!(plant.cur_blood, 40);
    plant.be_attacked(40);
    assert!(plant.is_dead());
    assert!(!plant.is_used());
}

#[test]
fn peashooter_and_sunflower_skills() {
    let mut plant = Plant::new(3);
    plant.init(PlantType::Peashooter);
    let mut bullet = Bullet::new();
    plant.peashooter_shoot_bullet(&mut bullet);
    assert!(bullet.is_used());
    assert_eq!(bullet.get_row(), 3);
    assert_eq!(bullet.get_damage(), 50);
    let mut flower = Plant::new(1);
    flower.init(PlantType::SunFlower);
    let mut sunshine = Sunshine::new();
    flower.sunflower_create_sunshine(&mut sunshine);
    assert!(sunshine.is_used());
    assert!(!sunshine.be_clikced());
}

#[test]
fn bullet_fades_after_hit() {
    let mut bullet = Bullet::new();
    bullet.init(4);
    bullet.become_dead_status();
    assert!(bullet.is_dead());
    for _ in 0..9 {
        bullet.update_status();
        assert!(bullet.is_used());
    }
    bullet.update_status();
    assert!(!bullet.is_used());
}

#[test]
fn grass_grows_one_plant() {
    let mut grass = Grass::new(Plant::new(1), 1);
    assert!(!grass.is_used());
    grass.set_used();
    assert!(grass.grow_plant(PlantType::WallNut));
    assert!(grass.is_used());
    assert_eq!(*grass.get_plant_type(), PlantType::WallNut);
    grass.set_unused();
    assert!(!grass.is_used());
}

#[test]
fn common_zombie_walks_and_eats() {
    let mut zombie = Zombie::new();
    zombie.init_with(2, 1, 3);
    assert_eq!(*zombie.get_type(), ZombieType::CommonZM);
    assert_eq!(zombie.get_row(), 2);
    assert_eq!(zombie.cur_blood, 300);
    assert_eq!(*zombie.get_status(), ZombieStatus::Walk0);
    zombie.change_status();
    assert_eq!(*zombie.get_status(), ZombieStatus::Eat);
    assert!(!zombie.moving);
    zombie.change_status();
    assert_eq!(*zombie.get_status(), ZombieStatus::Walk0);
    assert!(zombie.moving);
}

#[test]
fn pole_vaulter_jumps_once() {
    let mut zombie = Zombie::new();
    zombie.init_with(0, 7, 3);
    assert_eq!(*zombie.get_type(), ZombieType::PoleVaultingZM);
    zombie.change_status();
    assert_eq!(*zombie.get_status(), ZombieStatus::Jump);
    zombie.change_status();
    assert_eq!(*zombie.get_status(), ZombieStatus::Walk1);
    zombie.change_status();
    assert_eq!(*zombie.get_status(), ZombieStatus::Eat);
    zombie.change_status();
    assert_eq!(*zombie.get_status(), ZombieStatus::Walk1);
}

#[test]
fn zombie_type_rolls() {
    let mut zombie = Zombie::new();
    zombie.init_with(4, 5, 3);
    assert_eq!(*zombie.get_type(), ZombieType::ConeHeadZM);
    assert_eq!(zombie.cur_blood, 700);
    zombie.init_with(4, 4, 3);
    assert_eq!(*zombie.get_type(), ZombieType::CommonZM);
}

#[test]
fn dead_zombie_stays_dead() {
    let mut zombie = Zombie::new();
    zombie.init_with(1, 2, 3);
    zombie.be_attacked(1000);
    assert!(zombie.is_dead());
    assert_eq!(*zombie.get_status(), ZombieStatus::Dead);
    zombie.change_status();
    assert!(zombie.is_dead());
    zombie.be_attacked(-5);
    assert!(zombie.is_dead());
    zombie.update_status();
    assert!(zombie.is_dead());
}

#[test]
fn random_zombie_is_well_placed() {
    let mut zombie = Zombie::new();
    zombie.init(3);
    assert!(zombie.is_used());
    assert!(zombie.get_row() < 5);
    assert_eq!(*zombie.get_status(), ZombieStatus::Walk0);
}

#[test]
fn zombie_walk_and_bite() {
    let mut zombie = Zombie::new();
    zombie.init_with(0, 1, 3);
    let motion = zombie.update_status();
    assert!(motion.walked);
    assert!(!motion.jumped);
    assert_eq!(zombie.get_damage(), 2);
    zombie.attack_cooldown();
    assert!(!zombie.can_attack());
}

#[test]
fn mower_runs_then_leaves() {
    let mut car = Car::new(3);
    assert!(car.is_used());
    assert_eq!(*car.get_status(), CarStatus::Stopping);
    car.update(true);
    assert!(car.is_used());
    car.become_running();
    car.update(false);
    assert!(car.is_used());
    assert_eq!(*car.get_status(), CarStatus::Running);
    car.update(true);
    assert!(!car.is_used());
    assert_eq!(car.get_row(), 3);
}

#[test]
fn sunshine_collected_or_fades() {
    let mut sunshine = Sunshine::new();
    sunshine.init_with(SunshineType::CommonSunShine, 3);
    assert_eq!(sunshine.frame_index, 3);
    sunshine.check_clicked(false);
    assert!(!sunshine.be_clikced());
    sunshine.update_status(false, true);
    assert_eq!(sunshine.timer, 499);
    sunshine.check_clicked(true);
    assert!(sunshine.be_clikced());
    sunshine.update_status(false, false);
    assert!(sunshine.is_used());
    sunshine.update_status(true, false);
    assert!(!sunshine.is_used());
    let mut other = Sunshine::new();
    other.init(SunshineType::CommonSunShine);
    assert!(other.is_used());
    assert!(other.frame_index < 29);
    other.set_unused();
    assert!(!other.is_used());
}

#[test]
fn button_press_and_release() {
    let mut button = Button::new(ButtonType::GamePause);
    assert!(!button.check_click(false));
    assert!(!button.be_clicked());
    assert!(button.check_click(true));
    assert!(button.be_clicked());
    assert_eq!(button.button_status, ButtonStatus::ButtonDown);
    button.set_up();
    assert_eq!(button.button_status, ButtonStatus::ButtonUp);
    assert_eq!(button.frame, 0);
}

#[test]
fn kinds_of_zombies_grow_with_the_level() {
    let mut zombie = Zombie::new();
    zombie.init_with(0, 7, 1);
    assert_eq!(*zombie.get_type(), ZombieType::CommonZM);
    zombie.init_with(0, 5, 1);
    assert_eq!(*zombie.get_type(), ZombieType::CommonZM);
    zombie.init_with(0, 7, 2);
    assert_eq!(*zombie.get_type(), ZombieType::ConeHeadZM);
    assert_eq!(zombie.cur_blood, 700);
    zombie.init_with(0, 2, 2);
    assert_eq!(*zombie.get_type(), ZombieType::CommonZM);
    zombie.init_with(0, 7, 3);
    assert_eq!(*zombie.get_type(), ZombieType::PoleVaultingZM);
}

#[test]
fn first_level_sends_only_common_zombies() {
    for _ in 0..50 {
        let mut zombie = Zombie::new();
        zombie.init(1);
        assert_eq!(*zombie.get_type(), ZombieType::CommonZM);
    }
}

#[test]
fn death_animation_ends_the_zombie() {
    let mut zombie = Zombie::new();
    zombie.init_with(2, 1, 3);
    zombie.be_attacked(1000);
    for _ in 0..149 {
        let motion = zombie.update_status();
        assert!(!motion.walked && !motion.jumped);
        assert!(zombie.is_used());
        assert!(zombie.is_dead());
    }
    zombie.update_status();
    assert!(!zombie.is_used());
    assert!(zombie.is_dead());
}

#[test]
fn reused_zombie_walks_again() {
    let mut zombie = Zombie::new();
    zombie.init_with(2, 1, 3);
    zombie.become_eat_status();
    zombie.be_attacked(1000);
    for _ in 0..150 {
        zombie.update_status();
    }
    assert!(!zombie.is_used());
    zombie.init_with(4, 1, 1);
    assert!(zombie.is_used());
    assert!(!zombie.is_dead());
    assert!(!zombie.can_attack());
    assert_eq!(*zombie.get_status(), ZombieStatus::Walk0);
    let motion = zombie.update_status();
    assert!(motion.walked);
    assert!(!motion.jumped);
}

#[test]
fn sunflower_skill_ready_after_1500_frames() {
    let mut plant = Plant::new(0);
    plant.init(PlantType::SunFlower);
    assert_eq!(plant.skill_time, 1500);
    for _ in 0..1499 {
        plant.update_status();
        assert!(!plant.can_activate_skill());
    }
    plant.update_status();
    assert!(plant.can_activate_skill());
    assert_eq!(plant.skill_time, 0);
}
