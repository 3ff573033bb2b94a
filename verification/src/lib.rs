//! A steam locomotive runs across the terminal: the frames it is drawn in,
//! the smoke it leaves behind, and the clipping of each row to the screen.

pub mod art;
pub mod num;
pub mod text;
pub mod smoke;
pub mod trains;
pub mod animation;
