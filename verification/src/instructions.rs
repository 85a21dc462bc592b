//! The three operations of the gateway.
//!
//! Each request passes through the same stages. It is admitted: the
//! collection's state is checked, then the caller, then the signer. A request
//! that is not admitted fails there and nothing is issued. An admitted request
//! yields exactly one delegated call, which the host issues once; the outcome
//! of that call, settled by [`crate::call::settle`], is the outcome of the
//! operation.

pub mod freeze_nft;
pub mod thaw_nft;
pub mod update_nft;
