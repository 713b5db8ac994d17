//! Remit: peer-to-peer file transfer over a local network.
//!
//! The library holds the decisions of the application: how a device announces
//! itself over mDNS and which discovery events it reports, how the user name is
//! chosen and stored, how a file transfer advances, and how received files are
//! moved. Network, disk and database access stay with the caller.
pub mod text;

pub mod system;
pub mod discovery;
pub mod profile;
pub mod transfer;
pub mod reception;
pub mod platform;
