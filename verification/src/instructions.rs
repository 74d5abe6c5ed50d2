//! The instructions that settle an escrow: `take` completes the swap, `cancel` returns the
//! deposit to the maker.
pub mod cancel;
pub mod take;
