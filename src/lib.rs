//! Client-side access to MPRIS2 media players: discovery and selection of
//! player services, typed projections of their property maps, and the
//! decisions behind the transport commands sent to the selected player.
pub mod error;
pub mod position;
pub mod properties;
pub mod root;
pub mod status;
pub mod text;
pub mod value;

pub use error::{Error, Result};
