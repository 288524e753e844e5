//! The simulation core of an incremental game in which a character works,
//! learns, buys, dies, and is born again.
//!
//! Each tick, every active entity (the job, the housing, the items, the
//! skills, the tombs, the permanent upgrades) hands additive bases and
//! multiplicative factors to an accumulator. The accumulator resolves each
//! key to the sum of its bases times the product of its factors, and the tick
//! folds the resolved values into the state. A rebirth starts the state
//! afresh and carries over what outlasts a life.
//!
//! Amounts are whole numbers of thousandths of a unit, and factors are
//! ratios of whole numbers, so that every value is exact and the order in
//! which contributions arrive cannot change a result. The contracts are
//! stated over views of the state in which each table is a sequence.

pub mod engine;
pub mod fixed;
pub mod game;
pub mod input;
pub mod input_recording;
pub mod meta;
pub mod presets;
pub mod state;
pub mod table;
pub mod util;
pub mod world_content;
