//! Data of the game's JSON data files, with the text forms of its values.
pub mod field_data;
pub mod field_life;
pub mod item_data;
pub mod mapping;
pub mod mob_data;
pub mod order;
pub mod pattern;
pub mod quest_act;
pub mod quest_req;
pub mod records;
pub mod scalar;
pub mod skill_data;
pub mod text;
