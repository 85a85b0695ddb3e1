//! An alumni directory on a world map.
//!
//! The library holds the rules of the application in integer arithmetic:
//! where a university lies on the map image, which marker a pointer is
//! on, which profile lists are open, what a one-shot fetch holds, and
//! what the server answers. Painting, the network and the database are
//! left to the program around it.
//!
//! Angles are counted in millionths of a degree. The unit square of the map
//! is counted in `NORM_ONE` steps per side, and positions on the screen in
//! the same steps per pixel, so that projecting a place onto a whole-pixel
//! rectangle loses nothing.

pub mod card;
pub mod cli;
pub mod colour;
pub mod fetch;
pub mod geo;
pub mod hit;
pub mod list;
pub mod map;
pub mod model;
pub mod profile;
pub mod search;
pub mod server;
pub mod settings;
pub mod text;
