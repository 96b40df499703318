//! Pledge-side bootstrap core: registrar candidates, the discovery queue,
//! the failover session engine and the voucher-request record.

pub mod candidate;
pub mod registrar_url;
pub mod queue;
pub mod voucher;
pub mod session;
pub mod bootstrap;
pub mod transport;
