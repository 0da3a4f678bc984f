use plants_vs_zombies::entities::my_enum::card_enum::CardType;
use plants_vs_zombies::entities::my_enum::plant_enum::PlantType;
use plants_vs_zombies::entities::my_enum::zombie_enum::{ZombieStatus, ZombieType};
use plants_vs_zombies::game::GameStatus;

#[test]
fn card_table() {
    assert_eq!(CardType::SpadeCard.type_to_index(), Some(0));
    assert_eq!(CardType::PeashooterCard.type_to_index(), Some(1));
    assert_eq!(CardType::SunFlowerCard.type_to_index(), Some(2));
    assert_eq!(CardType::WallnutCard.type_to_index(), Some(3));
    assert_eq!(CardType::NoneCard.type_to_index(), None);
    assert_eq!(CardType::PeashooterCard.type_to_price(), 100);
    assert_eq!(CardType::SunFlowerCard.type_to_price(), 50);
    assert_eq!(CardType::WallnutCard.type_to_price(), 50);
    assert_eq!(CardType::SpadeCard.type_to_price(), 0);
    assert_eq!(CardType::NoneCard.type_to_price(), 0);
    assert_eq!(CardType::PeashooterCard.type_to_plant(), Some(PlantType::Peashooter));
    assert_eq!(CardType::SunFlowerCard.type_to_plant(), Some(PlantType::SunFlower));
    assert_eq!(CardType::WallnutCard.type_to_plant(), Some(PlantType::WallNut));
    assert_eq!(CardType::SpadeCard.type_to_plant(), None);
    assert_eq!(CardType::NoneCard.type_to_plant(), None);
    assert_eq!(CardType::PeashooterCard.type_to_cool_time(), 400);
    assert_eq!(CardType::SunFlowerCard.type_to_cool_time(), 800);
    assert_eq!(CardType::WallnutCard.type_to_cool_time(), 400);
    assert_eq!(CardType::SpadeCard.type_to_cool_time(), 0);
}

#[test]
fn plant_table() {
    assert_eq!(PlantType::Peashooter.type_to_index(), Some(0));
    assert_eq!(PlantType::SunFlower.type_to_index(), Some(1));
    assert_eq!(PlantType::WallNut.type_to_index(), Some(2));
    assert_eq!(PlantType::NonePlant.type_to_index(), None);
    assert_eq!(PlantType::Peashooter.type_to_frame_num(), 13);
    assert_eq!(PlantType::SunFlower.type_to_frame_num(), 18);
    assert_eq!(PlantType::WallNut.type_to_frame_num(), 15);
    assert_eq!(PlantType::NonePlant.type_to_frame_num(), 0);
    assert_eq!(PlantType::Peashooter.type_to_blood(), 200);
    assert_eq!(PlantType::SunFlower.type_to_blood(), 100);
    assert_eq!(PlantType::WallNut.type_to_blood(), 400);
    assert_eq!(PlantType::Peashooter.type_to_skill_time(), 300);
    assert_eq!(PlantType::SunFlower.type_to_skill_time(), 1500);
    assert_eq!(PlantType::WallNut.type_to_skill_time(), 0);
    assert_eq!(PlantType::Peashooter.type_to_damage(), 50);
    assert_eq!(PlantType::WallNut.type_to_damage(), 0);
}

#[test]
fn zombie_table() {
    assert_eq!(ZombieType::CommonZM.type_to_index(), 0);
    assert_eq!(ZombieType::ConeHeadZM.type_to_index(), 1);
    assert_eq!(ZombieType::PoleVaultingZM.type_to_index(), 2);
    assert_eq!(ZombieType::CommonZM.type_to_blood(), 300);
    assert_eq!(ZombieType::ConeHeadZM.type_to_blood(), 700);
    assert_eq!(ZombieType::PoleVaultingZM.type_to_blood(), 800);
    assert_eq!(ZombieType::try_from(1), Ok(ZombieType::ConeHeadZM));
    assert_eq!(ZombieType::try_from(3), Err("Invalid number for ZombieType"));
    assert_eq!(ZombieStatus::Walk0.status_to_index(), 0);
    assert_eq!(ZombieStatus::Eat.status_to_index(), 1);
    assert_eq!(ZombieStatus::Dead.status_to_index(), 2);
    assert_eq!(ZombieStatus::Walk1.status_to_index(), 3);
    assert_eq!(ZombieStatus::Jump.status_to_index(), 4);
    assert_eq!(ZombieStatus::Walk0.status_to_frame_num(&ZombieType::CommonZM), 22);
    assert_eq!(ZombieStatus::Eat.status_to_frame_num(&ZombieType::CommonZM), 21);
    assert_eq!(ZombieStatus::Dead.status_to_frame_num(&ZombieType::ConeHeadZM), 10);
    assert_eq!(ZombieStatus::Walk1.status_to_frame_num(&ZombieType::PoleVaultingZM), 25);
    assert_eq!(ZombieStatus::Jump.status_to_frame_num(&ZombieType::PoleVaultingZM), 16);
    assert_eq!(ZombieStatus::Jump.status_to_frame_num(&ZombieType::CommonZM), 0);
}

#[test]
fn end_pictures() {
    assert_eq!(GameStatus::GameOver.status_to_index(), Some(0));
    assert_eq!(GameStatus::Victory.status_to_index(), Some(1));
    assert_eq!(GameStatus::Playing.status_to_index(), None);
    assert_eq!(GameStatus::Menu.status_to_index(), None);
}
