pub mod geometry;
pub mod snake;

pub use geometry::{direction_for_key, Direction, Error, Grid, Point};
pub use snake::{Outcome, Snake, Status};
