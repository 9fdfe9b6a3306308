pub mod settings;
pub mod state;
pub mod tomata;
