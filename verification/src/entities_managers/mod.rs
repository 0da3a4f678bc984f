pub mod buttons_manager;
pub mod cards_manager;
pub mod map_manager;
pub mod zombie_manager;
pub mod pool;
pub mod sunshines_manager;
