pub mod device;
pub mod hid;
pub mod kraken;
pub mod smart_device;
pub mod status;
