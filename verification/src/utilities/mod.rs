//! Helpers that verify the sender of a message against DNS records.

pub mod dmarc;
pub mod spf;
