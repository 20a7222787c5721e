pub mod appargs;
pub mod delivery;
pub mod exme;
pub mod jsonio;
pub mod numparse;
pub mod packets;
