pub mod boost_item;
pub mod housing;
pub mod rebirth_upgrade;
pub mod skill;
pub mod tomb;
pub mod work;
pub mod world;
