//! Data model and configuration-building logic of an IP address and
//! DNS/DHCP registration service.

pub mod dhcp;
pub mod models;
pub mod netmask;
pub mod reply;
pub mod text;
pub mod token;
pub mod zone;
