use btc_payments::decimal::to_decimal;
use btc_payments::{BitcoinService, BtcPaymentRequest};

fn request(from_addr: &str, to_addr: &str, amount: u64) -> BtcPaymentRequest {
    BtcPaymentRequest::new(from_addr.to_string(), to_addr.to_string(), amount)
}

#[test]
fn payment_between_two_addresses() {
    let service = BitcoinService::default();
    let r = service.send_payment(request("addr1", "addr2", 1000));
    assert!(r.successful);
    assert_eq!(r.message, "Payment from addr1 to addr2 for 1000 satoshis");
}

#[test]
fn payment_with_empty_fields() {
    let service = BitcoinService::default();
    let r = service.send_payment(request("", "", 0));
    assert!(r.successful);
    assert_eq!(r.message, "Payment from  to  for 0 satoshis");
}

#[test]
fn zero_amount_is_accepted() {
    let service = BitcoinService::default();
    let r = service.send_payment(request("alice", "bob", 0));
    assert!(r.successful);
    assert_eq!(r.message, "Payment from alice to bob for 0 satoshis");
}

#[test]
fn self_payment_is_accepted() {
    let service = BitcoinService::default();
    let r = service.send_payment(request("same", "same", 42));
    assert!(r.successful);
    assert_eq!(r.message, "Payment from same to same for 42 satoshis");
}

#[test]
fn largest_amount_is_echoed() {
    let service = BitcoinService::default();
    let r = service.send_payment(request("a", "b", u64::MAX));
    assert!(r.successful);
    assert_eq!(r.message, "Payment from a to b for 18446744073709551615 satoshis");
}

#[test]
fn identical_requests_give_identical_responses() {
    let service = BitcoinService::default();
    let r1 = service.send_payment(request("bc1qsender", "bc1qreceiver", 250));
    let r2 = service.send_payment(request("bc1qsender", "bc1qreceiver", 250));
    assert_eq!(r1.successful, r2.successful);
    assert_eq!(r1.message, r2.message);
}

#[test]
fn addresses_are_not_sanitised() {
    let service = BitcoinService::default();
    let r = service.send_payment(request("a to b", "ünïcode €", 7));
    assert!(r.successful);
    assert_eq!(r.message, "Payment from a to b to ünïcode € for 7 satoshis");
}

#[test]
fn request_fields_are_kept() {
    let q = request("x", "y", 9);
    assert_eq!(q.from_addr, "x");
    assert_eq!(q.to_addr, "y");
    assert_eq!(q.amount, 9);
}

#[test]
fn decimal_text_of_amounts() {
    assert_eq!(to_decimal(0), "0");
    assert_eq!(to_decimal(9), "9");
    assert_eq!(to_decimal(10), "10");
    assert_eq!(to_decimal(1000), "1000");
    assert_eq!(to_decimal(1234567890), "1234567890");
    assert_eq!(to_decimal(u64::MAX), u64::MAX.to_string());
}
