pub mod filesystem;
pub mod reboot;
pub mod pressure;
pub mod smart;
