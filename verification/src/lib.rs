//! Core logic of a game-client companion: camera control state, text layout helpers,
//! translation-repository update planning and GUI request queues.

pub mod audio;
pub mod fnv_maps;
pub mod free_camera;
pub mod gui;
pub mod hachimi;
pub mod live;
pub mod markup;
pub mod race;
pub mod sugoi;
pub mod text;
pub mod tl_repo;
pub mod ui;

