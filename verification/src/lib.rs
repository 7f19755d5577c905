pub mod config;
pub mod download;
pub mod extract;
pub mod filesystem;
pub mod game_files;
pub mod heuristics;
pub mod itch_api;
pub mod launch;
pub mod text;
pub mod wharf;
