//! Decision logic of mmd, a native daemon that manages zram.

pub mod os;
pub mod service;
pub mod setup_zram;
pub mod startup;
pub mod step;
pub mod text;
pub mod zram;
