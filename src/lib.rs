//! Resume from hibernation: the decisions that bring a hibernated system back
//! (`resume`, `cookie`, `preloader`), the helpers they rely on (`hiberutil`),
//! and small pieces of neighbouring system tools: reading cr50's RMA bits
//! (`cr50`), power-supply status (`power`) and memory statistics (`memd`).

pub mod cookie;
pub mod cr50;
pub mod hiberutil;
pub mod memd;
pub mod power;
pub mod preloader;
pub mod restore_time;
pub mod resume;
