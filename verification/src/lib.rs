//! Turns an ordered sequence of decoded raster images into one animated GIF
//! stream: a canonical geometry is fixed once, every raster is resampled to it
//! and run through an alpha-collapse policy, and the resulting frames are
//! written one at a time into the container with a shared delay, a fixed
//! disposal method, and an infinite-loop trailer.

pub mod encode;
pub mod frame;
pub mod geometry;
