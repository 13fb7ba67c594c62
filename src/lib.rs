pub mod entities;
pub mod player;
pub mod platform;
pub mod mainstate;
pub mod model;
pub mod lemmas;
