pub mod housing;
pub mod items;
pub mod life_stats;
pub mod rebirth_stats;
pub mod skill;
pub mod state_container;
pub mod stats;
pub mod tomb;
pub mod work;
