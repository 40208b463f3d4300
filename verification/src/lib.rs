//! Verified core of a handheld falling-block console: an entropy extractor
//! that turns noisy bits into uniform piece indices, and a display driver
//! that turns draw requests into the exact traffic of a serial LCD bus.

pub mod bus;
pub mod controls;
pub mod glyphs;
pub mod lcd;
pub mod lcd_backend;
pub mod randy;
