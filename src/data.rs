//! Game-data records that the engine carries: entity metadata, statistics and
//! lore, and the faction vocabulary.

pub mod types;
pub mod faction_types;
