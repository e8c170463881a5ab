//! The messages of the `Bitcoin` service.

use vstd::prelude::*;

verus! {

/// A payment instruction: sender address, receiver address and an amount in
/// satoshis. No field is constrained.
pub struct BtcPaymentRequest {
    pub from_addr: String,
    pub to_addr: String,
    pub amount: u64,
}

/// The acknowledgement of a payment instruction.
pub struct BtcPaymentResponse {
    pub successful: bool,
    pub message: String,
}

/// The mathematical content of a request.
pub struct PaymentRequestView {
    pub from_addr: Seq<char>,
    pub to_addr: Seq<char>,
    pub amount: nat,
}

/// The mathematical content of a response.
pub struct PaymentResponseView {
    pub successful: bool,
    pub message: Seq<char>,
}

impl View for BtcPaymentRequest {
    type V = PaymentRequestView;

    open spec fn view(&self) -> PaymentRequestView {
        PaymentRequestView {
            from_addr: self.from_addr@,
            to_addr: self.to_addr@,
            amount: self.amount as nat,
        }
    }
}

impl View for BtcPaymentResponse {
    type V = PaymentResponseView;

    open spec fn view(&self) -> PaymentResponseView {
        PaymentResponseView { successful: self.successful, message: self.message@ }
    }
}

impl BtcPaymentRequest {
    /// A request with the given fields.
    pub fn new(from_addr: String, to_addr: String, amount: u64) -> (r: Self)
        ensures
            r.from_addr@ == from_addr@,
            r.to_addr@ == to_addr@,
            r.amount == amount,
    {
        BtcPaymentRequest { from_addr, to_addr, amount }
    }
}

} // verus!
