//! A one-way, fixed-rate asset migration escrow.
//!
//! Holders of an "old" fungible asset exchange it, unit for unit, for a "new"
//! fungible asset out of a custodial reserve. The escrow enforces, at
//! construction, that the two asset identities differ and (optionally) that
//! the seeded reserve equals the old asset's total issued supply; afterwards
//! every disbursement from the new pool is matched one-for-one by a deposit
//! into the old pool.

pub mod escrow;
