//! A Game of Life engine: a double-buffered cell grid with a step rule and
//! single-cell toggles, the mapping from pointer positions to cells, the
//! validation of grid dimensions, and the decisions of the two-screen
//! interface that drives it.
mod callbacks;
mod error;
pub mod game;
pub mod grid;
pub mod mapper;
pub mod rule;
pub mod scene;
pub mod setup;

pub use callbacks::ResumeCallback;
pub use error::{surface_fault_error, EngineError, SurfaceFault};
pub use game::{GameOfLife, GameSetupCallback};
pub use grid::{Grid, MAX_DIMENSION};
pub use mapper::{map_to_cell, Placement, Point, FIXED_ONE};
pub use scene::{game_left_up, setup_left_up, SceneChange, SetupLeftUp};
pub use setup::{parse_dimensions, parse_whole_number, DimensionError};
