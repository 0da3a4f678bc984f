pub mod bullet;
pub mod button;
pub mod car;
pub mod grass;
pub mod my_enum;
pub mod plant;
pub mod sunshine;
pub mod zombie;
