pub mod autostart;
pub mod export;
pub mod heatmap;
pub mod hooks;
pub mod keys;
pub mod layout;
pub mod model;
pub mod query;
pub mod server;
pub mod settings;
pub mod text;
pub mod trend;
pub mod ui;
pub mod writer;
