pub mod controller;
pub mod dialog;
pub mod engine;
pub mod font_installer;
pub mod number;
pub mod probe;
pub mod progress;
pub mod remixicon;
pub mod runner;
pub mod text;
