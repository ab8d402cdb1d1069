use carbon_ledger::carbon_credit::{CarbonCredit, CarbonError, CreditBatch};
use soroban_sdk::Env;

fn s(x: &str) -> String {
    x.to_string()
}

fn setup() -> CarbonCredit {
    let mut c = CarbonCredit::new();
    c.initialize(s("admin"));
    c
}

fn mint(c: &mut CarbonCredit, id: &str, project: &str) -> Result<(), CarbonError> {
    c.mint_credits(&s("admin"), s(id), s(project), 2023, s("VCS"), 1000, 10, 0)
}

#[test]
fn mint_success() {
    let mut c = setup();
    mint(&mut c, "B1", "P1").unwrap();
}

#[test]
#[should_panic]
fn invalid_vintage_fails() {
    let mut c = setup();
    c.mint_credits(&s("admin"), s("B1"), s("P1"), 1999, s("VCS"), 1000, 10, 0).unwrap();
}

#[test]
fn transfer() {
    let mut c = setup();
    c.credit_to_address(&s("admin"), &s("from"), &s("B1"), 100).unwrap();
    c.transfer_credits(&s("from"), &s("to"), &s("B1"), 50).unwrap();
    assert_eq!(c.get_balance(&s("to"), &s("B1")), 50);
}

#[test]
#[should_panic]
fn transfer_insufficient_fails() {
    let mut c = setup();
    c.transfer_credits(&s("from"), &s("to"), &s("B1"), 50).unwrap();
}

#[test]
fn retire_generates_cert() {
    let env = Env::default();
    let mut c = setup();
    mint(&mut c, "B1", "P1").unwrap();
    c.credit_to_address(&s("admin"), &s("owner"), &s("B1"), 100).unwrap();
    c.retire_credits(&env, s("owner"), s("B1"), 50, s("Ben"), s("ESG"), 0).unwrap();
}

#[test]
#[should_panic]
fn retire_more_than_owned_fails() {
    let env = Env::default();
    let mut c = setup();
    mint(&mut c, "B1", "P1").unwrap();
    c.credit_to_address(&s("admin"), &s("owner"), &s("B1"), 100).unwrap();
    c.retire_credits(&env, s("owner"), s("B1"), 150, s("Ben"), s("ESG"), 0).unwrap();
}

#[test]
#[should_panic]
fn zero_amount_fails() {
    let env = Env::default();
    let mut c = setup();
    mint(&mut c, "B1", "P1").unwrap();
    c.credit_to_address(&s("admin"), &s("owner"), &s("B1"), 100).unwrap();
    c.retire_credits(&env, s("owner"), s("B1"), 0, s("Ben"), s("ESG"), 0).unwrap();
}

#[test]
fn balance_after_retire() {
    let env = Env::default();
    let mut c = setup();
    mint(&mut c, "B1", "P1").unwrap();
    c.credit_to_address(&s("admin"), &s("owner"), &s("B1"), 100).unwrap();
    c.retire_credits(&env, s("owner"), s("B1"), 50, s("Ben"), s("ESG"), 0).unwrap();
    assert_eq!(c.get_balance(&s("owner"), &s("B1")), 50);
}

#[test]
fn multiple_batches_unique_serials() {
    let mut c = setup();
    mint(&mut c, "B1", "P1").unwrap();
    mint(&mut c, "B2", "P2").unwrap();
    let b1 = c.get_credit_batch(&s("B1")).unwrap();
    let b2 = c.get_credit_batch(&s("B2")).unwrap();
    assert!(b1.serial_start != b2.serial_start);
}

#[test]
fn get_certificate() {
    let env = Env::default();
    let mut c = setup();
    mint(&mut c, "B1", "P1").unwrap();
    c.credit_to_address(&s("admin"), &s("owner"), &s("B1"), 100).unwrap();
    let cert_id = c.retire_credits(&env, s("owner"), s("B1"), 50, s("Ben"), s("ESG"), 0).unwrap();
    c.get_retirement_certificate(&cert_id).unwrap();
}

// Exact values and error cases.

#[test]
fn minted_batch_fields() {
    let mut c = setup();
    c.mint_credits(&s("admin"), s("B1"), s("P1"), 2023, s("VCS"), 1000, 10, 77).unwrap();
    let b = c.get_credit_batch(&s("B1")).unwrap();
    assert_eq!(
        b,
        CreditBatch {
            id: s("B1"),
            project_id: s("P1"),
            vintage_year: 2023,
            methodology: s("VCS"),
            serial_start: 1,
            serial_end: 1000,
            total_amount: 1000,
            available: 1000,
            retired: 0,
            minted_at: 77,
            price_per_tonne: 10,
        }
    );
    mint(&mut c, "B2", "P2").unwrap();
    let b2 = c.get_credit_batch(&s("B2")).unwrap();
    assert_eq!(b2.serial_start, 1_000_001);
    assert_eq!(b2.serial_end, 1_001_000);
    assert!(b.serial_end < b2.serial_start);
}

#[test]
fn mint_errors() {
    let mut c = setup();
    assert_eq!(
        c.mint_credits(&s("admin"), s("B1"), s("P1"), 2101, s("VCS"), 1000, 10, 0),
        Err(CarbonError::InvalidVintageYear)
    );
    assert_eq!(
        c.mint_credits(&s("admin"), s("B1"), s("P1"), 2000, s("VCS"), 0, 10, 0),
        Err(CarbonError::ZeroAmountNotAllowed)
    );
    assert_eq!(c.get_credit_batch(&s("B1")), Err(CarbonError::ListingNotFound));
    assert_eq!(
        c.mint_credits(&s("admin"), s("B1"), s("P1"), 2100, s("VCS"), 1, 10, 0),
        Ok(())
    );
}

#[test]
fn transfer_errors_and_self_transfer() {
    let mut c = setup();
    c.credit_to_address(&s("admin"), &s("a"), &s("B1"), 30).unwrap();
    assert_eq!(
        c.transfer_credits(&s("a"), &s("b"), &s("B1"), 0),
        Err(CarbonError::ZeroAmountNotAllowed)
    );
    assert_eq!(
        c.transfer_credits(&s("a"), &s("b"), &s("B1"), 31),
        Err(CarbonError::InsufficientCredits)
    );
    assert_eq!(c.transfer_credits(&s("a"), &s("a"), &s("B1"), 30), Ok(()));
    assert_eq!(c.get_balance(&s("a"), &s("B1")), 30);
    c.transfer_credits(&s("a"), &s("b"), &s("B1"), 30).unwrap();
    assert_eq!(c.get_balance(&s("a"), &s("B1")), 0);
    assert_eq!(c.get_balance(&s("b"), &s("B1")), 30);
    assert_eq!(c.get_balance(&s("b"), &s("B2")), 0);
}

#[test]
fn retire_errors() {
    let env = Env::default();
    let mut c = setup();
    c.credit_to_address(&s("admin"), &s("owner"), &s("B9"), 10).unwrap();
    assert_eq!(
        c.retire_credits(&env, s("owner"), s("B9"), 5, s("Ben"), s("ESG"), 0),
        Err(CarbonError::ListingNotFound)
    );
    assert_eq!(c.get_balance(&s("owner"), &s("B9")), 10);
    assert_eq!(
        c.retire_credits(&env, s("owner"), s("B9"), 11, s("Ben"), s("ESG"), 0),
        Err(CarbonError::InsufficientCredits)
    );
}

#[test]
fn retirement_certificate_contents() {
    let env = Env::default();
    let mut c = setup();
    mint(&mut c, "B1", "P1").unwrap();
    c.credit_to_address(&s("admin"), &s("owner"), &s("B1"), 100).unwrap();
    let first = c.retire_credits(&env, s("owner"), s("B1"), 50, s("Ben"), s("ESG"), 9).unwrap();
    let cert = c.get_retirement_certificate(&first).unwrap();
    assert_eq!(cert.serial_start, 1);
    assert_eq!(cert.serial_end, 50);
    assert_eq!(cert.amount, 50);
    assert_eq!(cert.retired_by, s("owner"));
    assert_eq!(cert.project_id, s("P1"));
    assert_eq!(cert.methodology, s("VCS"));
    assert_eq!(cert.vintage_year, 2023);
    assert_eq!(cert.retired_at, 9);
    let b = c.get_credit_batch(&s("B1")).unwrap();
    assert_eq!(b.available, 950);
    assert_eq!(b.retired, 50);
    // The next retirement continues with the next serial numbers.
    let second = c.retire_credits(&env, s("owner"), s("B1"), 20, s("Ben"), s("ESG"), 10).unwrap();
    let cert2 = c.get_retirement_certificate(&second).unwrap();
    assert_eq!(cert2.serial_start, 51);
    assert_eq!(cert2.serial_end, 70);
    assert_eq!(c.get_balance(&s("owner"), &s("B1")), 30);
}

#[test]
fn certificate_id_is_sha256_of_first_serial() {
    let env = Env::default();
    let mut c = setup();
    mint(&mut c, "B1", "P1").unwrap();
    c.credit_to_address(&s("admin"), &s("owner"), &s("B1"), 100).unwrap();
    let id = c.retire_credits(&env, s("owner"), s("B1"), 1, s("Ben"), s("ESG"), 0).unwrap();
    // SHA-256 of 24 zero bytes followed by serial number 1 in big-endian order.
    let expected: [u8; 32] = [
        0xec, 0x49, 0x16, 0xdd, 0x28, 0xfc, 0x4c, 0x10, 0xd7, 0x8e, 0x28, 0x7c, 0xa5, 0xd9, 0xcc, 0x51,
        0xee, 0x1a, 0xe7, 0x3c, 0xbf, 0xde, 0x08, 0xc6, 0xb3, 0x73, 0x24, 0xcb, 0xfa, 0xac, 0x8b, 0xc5,
    ];
    assert_eq!(id, expected);
    assert_eq!(c.get_retirement_certificate(&[0u8; 32]), Err(CarbonError::ListingNotFound));
}

#[test]
fn each_retirement_gets_its_own_certificate() {
    let env = Env::default();
    let mut c = setup();
    mint(&mut c, "B1", "P1").unwrap();
    mint(&mut c, "B2", "P2").unwrap();
    c.credit_to_address(&s("admin"), &s("owner"), &s("B1"), 100).unwrap();
    c.credit_to_address(&s("admin"), &s("owner"), &s("B2"), 100).unwrap();
    let first = c.retire_credits(&env, s("owner"), s("B1"), 10, s("Ben"), s("ESG"), 1).unwrap();
    let first_cert = c.get_retirement_certificate(&first).unwrap();
    let second = c.retire_credits(&env, s("owner"), s("B1"), 10, s("Ben2"), s("ESG"), 2).unwrap();
    let third = c.retire_credits(&env, s("owner"), s("B2"), 10, s("Ben3"), s("ESG"), 3).unwrap();
    assert_ne!(first, second);
    assert_ne!(first, third);
    assert_ne!(second, third);
    // The first certificate is still there, unchanged.
    assert_eq!(c.get_retirement_certificate(&first), Ok(first_cert));
    assert_eq!(c.get_retirement_certificate(&third).unwrap().serial_start, 1_000_001);
}

#[test]
fn retirement_under_taken_certificate_id_is_refused() {
    let env = Env::default();
    let mut c = setup();
    mint(&mut c, "B1", "P1").unwrap();
    c.credit_to_address(&s("admin"), &s("owner"), &s("B1"), 100).unwrap();
    let taken = c.retire_credits(&env, s("owner"), s("B1"), 10, s("Ben"), s("ESG"), 1).unwrap();
    let cert = c.get_retirement_certificate(&taken).unwrap();
    // A certificate loaded under the id the next retirement would take.
    let mut other = setup();
    mint(&mut other, "B1", "P1").unwrap();
    other.credit_to_address(&s("admin"), &s("owner"), &s("B1"), 100).unwrap();
    other.load_certificate(cert.clone());
    assert_eq!(
        other.retire_credits(&env, s("owner"), s("B1"), 10, s("Ben"), s("ESG"), 2),
        Err(CarbonError::AlreadyRetired)
    );
    assert_eq!(other.get_balance(&s("owner"), &s("B1")), 100);
    assert_eq!(other.get_credit_batch(&s("B1")).unwrap().retired, 0);
    assert_eq!(other.get_retirement_certificate(&taken), Ok(cert));
}

#[test]
fn record_retirement_with_given_id() {
    let mut c = setup();
    mint(&mut c, "B1", "P1").unwrap();
    c.credit_to_address(&s("admin"), &s("owner"), &s("B1"), 10).unwrap();
    let id = [7u8; 32];
    assert_eq!(c.record_retirement(id, s("owner"), s("B1"), 4, s("Ben"), s("ESG"), 3), Ok(id));
    assert_eq!(c.get_retirement_certificate(&id).unwrap().serial_end, 4);
    assert_eq!(
        c.record_retirement(id, s("owner"), s("B1"), 0, s("Ben"), s("ESG"), 3),
        Err(CarbonError::ZeroAmountNotAllowed)
    );
}

#[test]
fn reinitialize_keeps_counter() {
    let mut c = setup();
    mint(&mut c, "B1", "P1").unwrap();
    c.initialize(s("admin2"));
    assert_eq!(c.counter(), 1);
    mint(&mut c, "B2", "P2").unwrap();
    assert_eq!(c.get_credit_batch(&s("B2")).unwrap().serial_start, 1_000_001);
}

#[test]
fn oversized_batch_is_refused() {
    let mut c = setup();
    assert_eq!(
        c.mint_credits(&s("admin"), s("B1"), s("P1"), 2023, s("VCS"), 2_000_000, 10, 0),
        Err(CarbonError::InvalidSerialRange)
    );
    assert_eq!(c.counter(), 0);
    assert_eq!(c.get_credit_batch(&s("B1")), Err(CarbonError::ListingNotFound));
    c.mint_credits(&s("admin"), s("B1"), s("P1"), 2023, s("VCS"), 1_000_000, 10, 0).unwrap();
    let b1 = c.get_credit_batch(&s("B1")).unwrap();
    assert_eq!(b1.serial_end, 1_000_000);
    mint(&mut c, "B2", "P2").unwrap();
    assert!(b1.serial_end < c.get_credit_batch(&s("B2")).unwrap().serial_start);
}

#[test]
fn error_codes() {
    assert_eq!(CarbonError::ProjectNotFound.code(), 1);
    assert_eq!(CarbonError::ListingNotFound.code(), 10);
    assert_eq!(CarbonError::InvalidSerialRange.code(), 18);
    assert_eq!(CarbonError::from_code(16), Some(CarbonError::ZeroAmountNotAllowed));
    assert_eq!(CarbonError::from_code(0), None);
    assert_eq!(CarbonError::from_code(19), None);
}

#[test]
fn restored_ledger_continues_counter() {
    let mut c = CarbonCredit::restore(Some(s("admin")), 3);
    assert_eq!(c.counter(), 3);
    mint(&mut c, "B4", "P4").unwrap();
    assert_eq!(c.counter(), 4);
    assert_eq!(c.get_credit_batch(&s("B4")).unwrap().serial_start, 3_000_001);
    let b = c.get_credit_batch(&s("B4")).unwrap();
    let mut other = CarbonCredit::restore(None, 0);
    other.load_batch(s("B4"), b.clone());
    other.load_balance(&s("owner"), &s("B4"), 7);
    assert_eq!(other.get_credit_batch(&s("B4")), Ok(b));
    assert_eq!(other.get_balance(&s("owner"), &s("B4")), 7);
    let env = Env::default();
    let id = other.retire_credits(&env, s("owner"), s("B4"), 7, s("Ben"), s("ESG"), 1).unwrap();
    let cert = other.get_retirement_certificate(&id).unwrap();
    let mut third = CarbonCredit::restore(None, 0);
    third.load_certificate(cert.clone());
    assert_eq!(third.get_retirement_certificate(&id), Ok(cert));
}

#[test]
fn retired_counts_only_grow() {
    let env = Env::default();
    let mut c = setup();
    mint(&mut c, "B1", "P1").unwrap();
    mint(&mut c, "B2", "P2").unwrap();
    c.credit_to_address(&s("admin"), &s("owner"), &s("B1"), 100).unwrap();
    c.retire_credits(&env, s("owner"), s("B1"), 10, s("Ben"), s("ESG"), 0).unwrap();
    c.transfer_credits(&s("owner"), &s("other"), &s("B1"), 20).unwrap();
    c.credit_to_address(&s("admin"), &s("other"), &s("B1"), 5).unwrap();
    mint(&mut c, "B3", "P3").unwrap();
    let b1 = c.get_credit_batch(&s("B1")).unwrap();
    assert_eq!(b1.retired, 10);
    assert_eq!(b1.available + b1.retired, b1.total_amount);
    c.retire_credits(&env, s("other"), s("B1"), 25, s("Ben"), s("ESG"), 0).unwrap();
    assert_eq!(c.get_credit_batch(&s("B1")).unwrap().retired, 35);
    assert_eq!(c.get_credit_batch(&s("B2")).unwrap().retired, 0);
    // Minting again under an existing batch id is refused and keeps the batch.
    assert_eq!(mint(&mut c, "B1", "P1"), Err(CarbonError::DoubleCountingDetected));
    assert_eq!(c.get_credit_batch(&s("B1")).unwrap().retired, 35);
    assert_eq!(c.counter(), 3);
}
