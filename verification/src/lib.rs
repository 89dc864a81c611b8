pub mod config;
pub mod geometry;
pub mod tile;
pub mod entity;
pub mod laser;
pub mod player;
pub mod enemies;
pub mod arena;
pub mod lseg;
pub mod tri;
pub mod maps;
