use carbon_ledger::carbon_marketplace::{BulkCheck, CarbonError, CarbonMarketplace, Settlement};

fn s(x: &str) -> String {
    x.to_string()
}

fn setup() -> CarbonMarketplace {
    let mut m = CarbonMarketplace::new();
    m.initialize(s("admin"), s("fee_rec"));
    m
}

fn list_one(m: &mut CarbonMarketplace, id: &str, amount: u64) -> Result<(), CarbonError> {
    m.list_credits(s("seller"), s(id), s("B1"), s("P1"), amount, 15, 2023, s("VCS"), s("US"), 0)
}

#[test]
fn list() {
    let mut m = setup();
    m.list_credits(s("seller"), s("L1"), s("B1"), s("P1"), 100, 15, 2023, s("VCS"), s("US"), 0).unwrap();
}

#[test]
fn delist() {
    let mut m = setup();
    m.list_credits(s("seller"), s("L1"), s("B1"), s("P1"), 100, 15, 2023, s("VCS"), s("US"), 0).unwrap();
    m.delist_credits(&s("seller"), &s("L1")).unwrap();
}

#[test]
#[should_panic]
fn unauthorized_delist_fails() {
    let mut m = setup();
    m.list_credits(s("seller"), s("L1"), s("B1"), s("P1"), 100, 15, 2023, s("VCS"), s("US"), 0).unwrap();
    m.delist_credits(&s("other"), &s("L1")).unwrap();
}

#[test]
fn purchase_transfers_usdc() {
    let mut m = setup();
    m.list_credits(s("seller"), s("L1"), s("B1"), s("P1"), 100, 15, 2023, s("VCS"), s("US"), 0).unwrap();
    m.purchase_credits(&s("buyer"), &s("L1"), 50).unwrap();
}

#[test]
fn protocol_fee_deducted() {
    let mut m = setup();
    m.list_credits(s("seller"), s("L1"), s("B1"), s("P1"), 100, 15, 2023, s("VCS"), s("US"), 0).unwrap();
    m.purchase_credits(&s("buyer"), &s("L1"), 50).unwrap();
}

#[test]
fn bulk_purchase_atomic() {
    let mut m = setup();
    list_one(&mut m, "L1", 100).unwrap();
    list_one(&mut m, "L2", 10).unwrap();
    // The second purchase is refused, so the first is not kept either.
    let r = m.bulk_purchase(&s("buyer"), &vec![s("L1"), s("L2")], &vec![40, 11]);
    assert_eq!(r, Err(CarbonError::InsufficientLiquidity));
    assert_eq!(m.get_listing(&s("L1")).unwrap().available, 100);
    assert_eq!(m.get_listing(&s("L2")).unwrap().available, 10);
    // When all purchases go through, all are kept.
    m.bulk_purchase(&s("buyer"), &vec![s("L1"), s("L2"), s("L1")], &vec![40, 10, 5]).unwrap();
    assert_eq!(m.get_listing(&s("L1")).unwrap().available, 55);
    let l2 = m.get_listing(&s("L2")).unwrap();
    assert_eq!(l2.available, 0);
    assert!(!l2.active);
}

#[test]
#[should_panic]
fn exceeds_available_fails() {
    let mut m = setup();
    m.list_credits(s("seller"), s("L1"), s("B1"), s("P1"), 100, 15, 2023, s("VCS"), s("US"), 0).unwrap();
    m.purchase_credits(&s("buyer"), &s("L1"), 150).unwrap();
}

// Exact values and error cases.

#[test]
fn listing_fields_and_errors() {
    let mut m = setup();
    assert_eq!(list_one(&mut m, "L1", 0), Err(CarbonError::ZeroAmountNotAllowed));
    assert_eq!(m.get_listing(&s("L1")), Err(CarbonError::ListingNotFound));
    m.list_credits(s("seller"), s("L1"), s("B1"), s("P1"), 100, 15, 2023, s("VCS"), s("US"), 42).unwrap();
    let l = m.get_listing(&s("L1")).unwrap();
    assert_eq!(l.amount, 100);
    assert_eq!(l.available, 100);
    assert_eq!(l.listed_at, 42);
    assert!(l.active);
    assert_eq!(m.delist_credits(&s("seller"), &s("L9")), Err(CarbonError::ListingNotFound));
    assert_eq!(m.delist_credits(&s("other"), &s("L1")), Err(CarbonError::UnauthorizedVerifier));
    assert!(m.get_listing(&s("L1")).unwrap().active);
}

#[test]
fn purchase_errors_and_sell_out() {
    let mut m = setup();
    list_one(&mut m, "L1", 100).unwrap();
    assert_eq!(m.purchase_credits(&s("buyer"), &s("L1"), 0), Err(CarbonError::ZeroAmountNotAllowed));
    assert_eq!(m.purchase_credits(&s("buyer"), &s("L9"), 1), Err(CarbonError::ListingNotFound));
    assert_eq!(m.purchase_credits(&s("buyer"), &s("L1"), 101), Err(CarbonError::InsufficientLiquidity));
    m.purchase_credits(&s("buyer"), &s("L1"), 60).unwrap();
    assert_eq!(m.get_listing(&s("L1")).unwrap().available, 40);
    m.purchase_credits(&s("buyer"), &s("L1"), 40).unwrap();
    let l = m.get_listing(&s("L1")).unwrap();
    assert_eq!(l.available, 0);
    assert!(!l.active);
    assert_eq!(m.purchase_credits(&s("buyer"), &s("L1"), 1), Err(CarbonError::InsufficientLiquidity));
}

#[test]
fn delisted_listing_refuses_purchase() {
    let mut m = setup();
    list_one(&mut m, "L1", 100).unwrap();
    m.delist_credits(&s("seller"), &s("L1")).unwrap();
    assert_eq!(m.purchase_credits(&s("buyer"), &s("L1"), 1), Err(CarbonError::InsufficientLiquidity));
    assert_eq!(m.get_listing(&s("L1")).unwrap().available, 100);
}

#[test]
fn bulk_outcome_reports_without_buying() {
    let mut m = setup();
    list_one(&mut m, "L1", 100).unwrap();
    assert_eq!(m.bulk_outcome(&vec![s("L1")], &vec![10]), BulkCheck::Completes);
    assert_eq!(m.bulk_outcome(&vec![s("L1"), s("L1")], &vec![60, 60]), BulkCheck::Refused(CarbonError::InsufficientLiquidity));
    assert_eq!(m.bulk_outcome(&vec![s("L1"), s("L1")], &vec![10]), BulkCheck::Aborts);
    assert_eq!(m.bulk_outcome(&vec![s("L9"), s("L1")], &vec![10]), BulkCheck::Refused(CarbonError::ListingNotFound));
    assert_eq!(m.get_listing(&s("L1")).unwrap().available, 100);
    let mut bare = CarbonMarketplace::new();
    list_one(&mut bare, "L1", 100).unwrap();
    assert_eq!(bare.bulk_outcome(&vec![s("L1")], &vec![10]), BulkCheck::Aborts);
    assert_eq!(bare.bulk_outcome(&vec![s("L1")], &vec![0]), BulkCheck::Refused(CarbonError::ZeroAmountNotAllowed));
    assert_eq!(bare.purchase_refusal(&s("L1"), 10), None);
    assert_eq!(bare.purchase_refusal(&s("L1"), 101), Some(CarbonError::InsufficientLiquidity));
}

#[test]
fn restored_marketplace_sees_loaded_listing() {
    let mut m = setup();
    list_one(&mut m, "L1", 100).unwrap();
    let l = m.get_listing(&s("L1")).unwrap();
    let mut restored = CarbonMarketplace::restore(Some(s("admin")), Some(s("fee_rec")));
    restored.load_listing(&s("L1"), l.clone());
    assert_eq!(restored.get_listing(&s("L1")), Ok(l));
    restored.purchase_credits(&s("buyer"), &s("L1"), 30).unwrap();
    assert_eq!(restored.get_listing(&s("L1")).unwrap().available, 70);
}

#[test]
fn purchase_settles_payment_and_credits() {
    let mut m = setup();
    list_one(&mut m, "L1", 100).unwrap();
    let st = m.purchase_credits(&s("buyer"), &s("L1"), 40).unwrap();
    assert_eq!(
        st,
        Settlement { buyer: s("buyer"), seller: s("seller"), batch_id: s("B1"), credits: 40, payment: 600 }
    );
    // The payment does not wrap at 64 bits.
    m.list_credits(s("seller"), s("L2"), s("B2"), s("P1"), u64::MAX, u64::MAX, 2023, s("VCS"), s("US"), 0)
        .unwrap();
    let big = m.purchase_credits(&s("buyer"), &s("L2"), u64::MAX).unwrap();
    assert_eq!(big.payment, (u64::MAX as u128) * (u64::MAX as u128));
}

#[test]
fn bulk_purchase_returns_each_settlement() {
    let mut m = setup();
    list_one(&mut m, "L1", 100).unwrap();
    m.list_credits(s("seller2"), s("L2"), s("B2"), s("P2"), 10, 20, 2022, s("VCS"), s("BR"), 0).unwrap();
    let v = m.bulk_purchase(&s("buyer"), &vec![s("L1"), s("L2"), s("L1")], &vec![40, 10, 5]).unwrap();
    assert_eq!(
        v,
        vec![
            Settlement { buyer: s("buyer"), seller: s("seller"), batch_id: s("B1"), credits: 40, payment: 600 },
            Settlement { buyer: s("buyer"), seller: s("seller2"), batch_id: s("B2"), credits: 10, payment: 200 },
            Settlement { buyer: s("buyer"), seller: s("seller"), batch_id: s("B1"), credits: 5, payment: 75 },
        ]
    );
    assert_eq!(m.bulk_purchase(&s("buyer"), &vec![], &vec![]), Ok(vec![]));
}

#[test]
fn listing_of_another_seller_is_kept() {
    let mut m = setup();
    list_one(&mut m, "L1", 100).unwrap();
    assert_eq!(
        m.list_credits(s("intruder"), s("L1"), s("B9"), s("P9"), 5, 1, 2023, s("VCS"), s("US"), 7),
        Err(CarbonError::UnauthorizedVerifier)
    );
    let l = m.get_listing(&s("L1")).unwrap();
    assert_eq!(l.seller, s("seller"));
    assert_eq!(l.available, 100);
    // The seller may list again under the same id.
    m.list_credits(s("seller"), s("L1"), s("B1"), s("P1"), 30, 16, 2023, s("VCS"), s("US"), 8).unwrap();
    let l = m.get_listing(&s("L1")).unwrap();
    assert_eq!(l.available, 30);
    assert_eq!(l.price_per_tonne, 16);
}
