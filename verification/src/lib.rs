//! Verified core of the Blood and Bilgewater lab: crew roles and loadout
//! rules, eight-way facing, sprite-animation state machines, the dual-grid
//! shore autotiler and the discrete stages of staged island generation.

pub mod text;
pub mod roles;
pub mod class_profiles;
pub mod direction;
pub mod sheets;
pub mod crew;
pub mod animation;
pub mod patrol;
pub mod shore;
pub mod roster;
pub mod control;
pub mod starter;
pub mod trees;
pub mod aseprite;
pub mod sheet_paths;
pub mod lab_scene;
pub mod menus;
pub mod island;
pub mod shore_distance;
pub mod ocean_tiles;
