//! Verified rules of Fortress, a tower defense game: the population of the
//! fortress, its buildings, research, expeditions, the weapons' targeting
//! choices and the flow between day and night.

pub mod population;
pub mod constants;
pub mod technology;
pub mod buildings;
pub mod weapon;
pub mod targeting;
pub mod tally;
pub mod expedition;
pub mod flow;
pub mod names;
pub mod warnings;
