//! Verified core of the mandala drawing library: path commands and command
//! paths, path segments and continuous paths, fill values and the mirroring
//! of generated drawings, the numbering and angles of epoch segments, the
//! layers of an artboard, shader type naming and raster styles.

pub mod style;
pub mod generator;
pub mod command;
pub mod path;
pub mod shader;
pub mod epoch;
pub mod segment;
pub mod artboard;
