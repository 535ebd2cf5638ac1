use vstd::prelude::*;

pub mod camera;
pub mod components;
pub mod game_objects;
pub mod keyboard;
pub mod mesh;
pub mod model;
pub mod mouse;
pub mod scene;
pub mod shader;
pub mod texture;
pub mod vertex;
