//! An escrow ledger for attested data records: a depositor locks value beside a
//! content hash and a geolocation, and may take it back, whole, once a fixed
//! delay has passed.

pub mod addressing;
pub mod ledger;
