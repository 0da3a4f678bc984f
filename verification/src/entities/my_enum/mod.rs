pub mod button_enum;
pub mod car_enum;
pub mod card_enum;
pub mod plant_enum;
pub mod sunshine_enum;
pub mod zombie_enum;
