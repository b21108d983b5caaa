//! A terminal rendering and entity-composition engine for a small arcade
//! shooter: a centred play area drawn into a full-screen cell buffer, and
//! entities that expose their drawable state to the renderer.

pub mod point;
pub mod element;
pub mod cell_map;
pub mod display_controller;
pub mod layout;
pub mod drawable;
pub mod bullet;
pub mod asteroid;
pub mod player;
pub mod game_state;
pub mod borders;
pub mod app;
