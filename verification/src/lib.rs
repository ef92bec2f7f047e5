//! An escrow-backed request/response protocol for an on-chain job platform.
//!
//! One party (the opener) proposes a paid interaction to another party and
//! funds an escrow record stored at an address derived deterministically from
//! the two parties' identities.  The counterparty accepts or rejects the offer
//! within a time window; the custodied funds move to exactly one recipient in
//! the same indivisible step as the state transition.  Expired offers can be
//! reclaimed by the opener.
//!
//! The same pattern is instantiated twice: scout offers (a recruiter courting
//! a profile owner) and contact requests (a requester paying to contact a
//! profile owner).  Plain profile, job and application bookkeeping sits beside
//! the escrow core.

pub mod addressing;
pub mod bytes_util;
pub mod contact;
pub mod errors;
pub mod jobs;
pub mod ledger;
pub mod manager;
pub mod offer;
pub mod profile;
pub mod scout;
pub mod table;
