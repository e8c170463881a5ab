//! The `SendPayment` handler of the `Bitcoin` service.

use vstd::prelude::*;

use crate::decimal::{decimal_digits, digits_value, lemma_decimal_digits_round_trip, push_decimal};
use crate::payments::{BtcPaymentRequest, BtcPaymentResponse, PaymentRequestView, PaymentResponseView};

verus! {

/// The acknowledgement text for a payment of `amount` satoshis from
/// `from_addr` to `to_addr`.
pub open spec fn payment_message(from_addr: Seq<char>, to_addr: Seq<char>, amount: nat) -> Seq<char> {
    "Payment from "@ + from_addr + " to "@ + to_addr + " for "@ + decimal_digits(amount)
        + " satoshis"@
}

/// The response owed to a request: it is always accepted, and the message
/// echoes the request's fields.
pub open spec fn payment_response(request: PaymentRequestView) -> PaymentResponseView {
    PaymentResponseView {
        successful: true,
        message: payment_message(request.from_addr, request.to_addr, request.amount),
    }
}

/// The implementation of the `Bitcoin` service. It holds no state: each call
/// is answered from its request alone.
pub struct BitcoinService {}

impl Default for BitcoinService {
    fn default() -> (r: Self)
        ensures
            r == (BitcoinService {}),
    {
        BitcoinService {}
    }
}

impl BitcoinService {
    /// Answers a `SendPayment` call. Every request is accepted, whatever its
    /// addresses and amount; the message is
    /// `Payment from <from_addr> to <to_addr> for <amount> satoshis`.
    pub fn send_payment(&self, request: BtcPaymentRequest) -> (r: BtcPaymentResponse)
        ensures
            r@ == payment_response(request@),
            r.successful,
            r.message@ == payment_message(request.from_addr@, request.to_addr@, request.amount as nat),
    {
        let mut message = String::from_str("Payment from ");
        message.append(request.from_addr.as_str());
        message.append(" to ");
        message.append(request.to_addr.as_str());
        message.append(" for ");
        push_decimal(&mut message, request.amount);
        message.append(" satoshis");
        BtcPaymentResponse { successful: true, message }
    }
}

/// Two calls with identical requests give identical responses: the handler
/// keeps nothing from one call to the next.
pub proof fn lemma_send_payment_idempotent(
    q1: BtcPaymentRequest,
    q2: BtcPaymentRequest,
    r1: BtcPaymentResponse,
    r2: BtcPaymentResponse,
)
    requires
        q1@ == q2@,
        r1@ == payment_response(q1@),
        r2@ == payment_response(q2@),
    ensures
        r1@ == r2@,
        r1.successful == r2.successful,
        r1.message@ == r2.message@,
{
}

/// The message holds the three fields of the request, each at its place and
/// verbatim: the sender address after `Payment from `, the receiver address
/// after ` to `, and after ` for ` the decimal digits of the amount, which
/// read back as the amount, followed by ` satoshis`.
pub proof fn lemma_message_echoes_fields(from_addr: Seq<char>, to_addr: Seq<char>, amount: nat)
    ensures
        ({
            let m = payment_message(from_addr, to_addr, amount);
            let a: int = "Payment from "@.len() as int;
            let b = a + from_addr.len();
            let c = b + " to "@.len();
            let d = c + to_addr.len();
            let e = d + " for "@.len();
            let f = e + decimal_digits(amount).len();
            &&& m.subrange(0, a) == "Payment from "@
            &&& m.subrange(a, b) == from_addr
            &&& m.subrange(b, c) == " to "@
            &&& m.subrange(c, d) == to_addr
            &&& m.subrange(d, e) == " for "@
            &&& digits_value(m.subrange(e, f)) == amount
            &&& m.subrange(f, m.len() as int) == " satoshis"@
        }),
{
    lemma_decimal_digits_round_trip(amount);
    let m = payment_message(from_addr, to_addr, amount);
    let p = "Payment from "@;
    let t = " to "@;
    let o = " for "@;
    let s = " satoshis"@;
    let digits = decimal_digits(amount);
    let a: int = p.len() as int;
    let b = a + from_addr.len();
    let c = b + t.len();
    let d = c + to_addr.len();
    let e = d + o.len();
    let f = e + digits.len();
    assert(m.subrange(0, a) =~= p);
    assert(m.subrange(a, b) =~= from_addr);
    assert(m.subrange(b, c) =~= t);
    assert(m.subrange(c, d) =~= to_addr);
    assert(m.subrange(d, e) =~= o);
    assert(m.subrange(e, f) =~= digits);
    assert(m.subrange(f, m.len() as int) =~= s);
}

/// Requests at the edges are accepted like any other and echoed verbatim: a
/// zero amount is written `0`, and empty or identical addresses appear as
/// they are.
pub proof fn lemma_boundary_requests_accepted(from_addr: Seq<char>, to_addr: Seq<char>)
    ensures
        payment_response(PaymentRequestView { from_addr, to_addr, amount: 0 }).successful,
        payment_message(from_addr, to_addr, 0) == "Payment from "@ + from_addr + " to "@ + to_addr
            + " for "@ + seq!['0'] + " satoshis"@,
        payment_message(from_addr, from_addr, 0) == "Payment from "@ + from_addr + " to "@
            + from_addr + " for "@ + seq!['0'] + " satoshis"@,
        payment_message(Seq::empty(), Seq::empty(), 0) == "Payment from "@ + " to "@ + " for "@
            + seq!['0'] + " satoshis"@,
{
    assert(decimal_digits(0) =~= seq!['0']);
    assert("Payment from "@ + Seq::<char>::empty() =~= "Payment from "@);
    assert(("Payment from "@ + " to "@) + Seq::<char>::empty() =~= "Payment from "@ + " to "@);
}

} // verus!
