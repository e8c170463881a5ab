//! A payment-instruction service: request and response messages for the
//! `Bitcoin.SendPayment` call, and the handler that answers it.
//!
//! The handler is stateless and total: every well-formed request is
//! acknowledged, and the acknowledgement echoes the request's three fields.
//! Serving the call over the network is left to the binary around the library.

pub mod decimal;
pub mod payments;
pub mod server;

pub use payments::{BtcPaymentRequest, BtcPaymentResponse};
pub use server::BitcoinService;
