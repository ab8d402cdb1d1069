//! Credit issuance: batches minted with serial numbers, balances held per
//! owner and batch, transfers, and irreversible retirement with certificates.
use vstd::prelude::*;
use soroban_sdk::Env;
use crate::host::{sha256, sha256_digest};
use crate::table::{account_view, Replica, Table};
pub use crate::error::CarbonError;

verus! {

/// Earliest vintage year a batch may carry.
pub const MIN_VINTAGE_YEAR: u32 = 2000;

/// Latest vintage year a batch may carry.
pub const MAX_VINTAGE_YEAR: u32 = 2100;

/// Serial numbers reserved for each minted batch.
pub const SERIALS_PER_BATCH: u64 = 1_000_000;

/// A minted batch of credits and how much of it is retired.
#[derive(Clone, Debug, PartialEq, Eq)]
pub struct CreditBatch {
    pub id: String,
    pub project_id: String,
    pub vintage_year: u32,
    pub methodology: String,
    pub serial_start: u64,
    pub serial_end: u64,
    pub total_amount: u64,
    pub available: u64,
    pub retired: u64,
    pub minted_at: u64,
    pub price_per_tonne: u64,
}

/// The permanent record of one retirement.
#[derive(Clone, Debug, PartialEq, Eq)]
pub struct RetirementCertificate {
    pub cert_id: [u8; 32],
    pub batch_id: String,
    pub project_id: String,
    pub retired_by: String,
    pub beneficiary: String,
    pub reason: String,
    pub amount: u64,
    pub vintage_year: u32,
    pub serial_start: u64,
    pub serial_end: u64,
    pub retired_at: u64,
    pub methodology: String,
}

impl Replica for CreditBatch {
    fn replica(&self) -> (r: Self) {
        CreditBatch {
            id: self.id.clone(),
            project_id: self.project_id.clone(),
            vintage_year: self.vintage_year,
            methodology: self.methodology.clone(),
            serial_start: self.serial_start,
            serial_end: self.serial_end,
            total_amount: self.total_amount,
            available: self.available,
            retired: self.retired,
            minted_at: self.minted_at,
            price_per_tonne: self.price_per_tonne,
        }
    }
}

impl Replica for RetirementCertificate {
    fn replica(&self) -> (r: Self) {
        RetirementCertificate {
            cert_id: self.cert_id,
            batch_id: self.batch_id.clone(),
            project_id: self.project_id.clone(),
            retired_by: self.retired_by.clone(),
            beneficiary: self.beneficiary.clone(),
            reason: self.reason.clone(),
            amount: self.amount,
            vintage_year: self.vintage_year,
            serial_start: self.serial_start,
            serial_end: self.serial_end,
            retired_at: self.retired_at,
            methodology: self.methodology.clone(),
        }
    }
}

/// The stored state of the credit contract.
#[verifier::ext_equal]
pub struct CreditState {
    pub admin: Option<Seq<char>>,
    /// Number of batches minted so far; it fixes the next serial block.
    pub counter: u64,
    /// Batches by batch id.
    pub batches: Map<Seq<char>, CreditBatch>,
    /// Balances by (owner, batch id).
    pub balances: Map<(Seq<char>, Seq<char>), u64>,
    /// Certificates by certificate id.
    pub certificates: Map<Seq<u8>, RetirementCertificate>,
}

/// The balance `owner` holds of `batch`; none stored reads as zero.
pub open spec fn balance_in(b: Map<(Seq<char>, Seq<char>), u64>, owner: Seq<char>, batch: Seq<char>) -> u64 {
    if b.contains_key((owner, batch)) {
        b[(owner, batch)]
    } else {
        0
    }
}

/// The first serial number of the batch minted when the counter is `counter`.
pub open spec fn serial_block_start(counter: u64) -> int {
    counter * SERIALS_PER_BATCH + 1
}

/// Why minting is refused, if it is: a vintage outside the accepted years,
/// no credits, more credits than a block of serial numbers holds, or a batch
/// already stored under the id.
pub open spec fn mint_error(s: CreditState, id: Seq<char>, vintage_year: u32, total_amount: u64) -> Option<CarbonError> {
    if vintage_year < MIN_VINTAGE_YEAR || vintage_year > MAX_VINTAGE_YEAR {
        Some(CarbonError::InvalidVintageYear)
    } else if total_amount == 0 {
        Some(CarbonError::ZeroAmountNotAllowed)
    } else if total_amount > SERIALS_PER_BATCH {
        Some(CarbonError::InvalidSerialRange)
    } else if s.batches.contains_key(id) {
        Some(CarbonError::DoubleCountingDetected)
    } else {
        None
    }
}

/// The serial numbers of a new batch fit in 64 bits.
pub open spec fn mint_fits(s: CreditState, total_amount: u64) -> bool {
    serial_block_start(s.counter) + total_amount <= u64::MAX
}

/// The batch a successful mint stores.
pub open spec fn minted_batch(
    s: CreditState,
    id: String,
    project_id: String,
    vintage_year: u32,
    methodology: String,
    total_amount: u64,
    price_per_tonne: u64,
    now: u64,
) -> CreditBatch {
    CreditBatch {
        id,
        project_id,
        vintage_year,
        methodology,
        serial_start: serial_block_start(s.counter) as u64,
        serial_end: (serial_block_start(s.counter) + total_amount - 1) as u64,
        total_amount,
        available: total_amount,
        retired: 0,
        minted_at: now,
        price_per_tonne,
    }
}

/// The state after a successful mint.
pub open spec fn minted_state(
    s: CreditState,
    id: String,
    project_id: String,
    vintage_year: u32,
    methodology: String,
    total_amount: u64,
    price_per_tonne: u64,
    now: u64,
) -> CreditState {
    CreditState {
        counter: (s.counter + 1) as u64,
        batches: s.batches.insert(
            id@,
            minted_batch(s, id, project_id, vintage_year, methodology, total_amount, price_per_tonne, now),
        ),
        ..s
    }
}

/// Balances after `amount` of `batch` leaves `owner`.
pub open spec fn debited(b: Map<(Seq<char>, Seq<char>), u64>, owner: Seq<char>, batch: Seq<char>, amount: u64) -> Map<(Seq<char>, Seq<char>), u64> {
    b.insert((owner, batch), (balance_in(b, owner, batch) - amount) as u64)
}

/// Balances after `amount` of `batch` reaches `owner`.
pub open spec fn credited(b: Map<(Seq<char>, Seq<char>), u64>, owner: Seq<char>, batch: Seq<char>, amount: u64) -> Map<(Seq<char>, Seq<char>), u64> {
    b.insert((owner, batch), (balance_in(b, owner, batch) + amount) as u64)
}

/// Why a transfer is refused, if it is.
pub open spec fn transfer_error(s: CreditState, from: Seq<char>, batch: Seq<char>, amount: u64) -> Option<CarbonError> {
    if amount == 0 {
        Some(CarbonError::ZeroAmountNotAllowed)
    } else if balance_in(s.balances, from, batch) < amount {
        Some(CarbonError::InsufficientCredits)
    } else {
        None
    }
}

/// The receiving balance of a transfer fits in 64 bits.
pub open spec fn transfer_fits(s: CreditState, from: Seq<char>, to: Seq<char>, batch: Seq<char>, amount: u64) -> bool {
    balance_in(debited(s.balances, from, batch, amount), to, batch) + amount <= u64::MAX
}

/// The state after a successful transfer: the sender is debited, then the
/// receiver is credited.
pub open spec fn transferred_state(s: CreditState, from: Seq<char>, to: Seq<char>, batch: Seq<char>, amount: u64) -> CreditState {
    CreditState {
        balances: credited(debited(s.balances, from, batch, amount), to, batch, amount),
        ..s
    }
}

/// Why a retirement is refused, if it is.
pub open spec fn retire_error(s: CreditState, owner: Seq<char>, batch: Seq<char>, amount: u64) -> Option<CarbonError> {
    if amount == 0 {
        Some(CarbonError::ZeroAmountNotAllowed)
    } else if balance_in(s.balances, owner, batch) < amount {
        Some(CarbonError::InsufficientCredits)
    } else if !s.batches.contains_key(batch) {
        Some(CarbonError::ListingNotFound)
    } else {
        None
    }
}

/// The batch can absorb the retirement: enough of it is available and its
/// retired serial numbers stay within 64 bits.
pub open spec fn retire_fits(s: CreditState, batch: Seq<char>, amount: u64) -> bool {
    s.batches.contains_key(batch) ==> {
        let b = s.batches[batch];
        &&& amount <= b.available
        &&& b.serial_start + b.retired + amount <= u64::MAX
    }
}

/// The batch after `amount` of it is retired.
pub open spec fn retired_batch(b: CreditBatch, amount: u64) -> CreditBatch {
    CreditBatch { available: (b.available - amount) as u64, retired: (b.retired + amount) as u64, ..b }
}

/// The certificate of a retirement.
pub open spec fn issued_certificate(
    s: CreditState,
    cert_id: [u8; 32],
    owner: String,
    batch_id: String,
    amount: u64,
    beneficiary: String,
    reason: String,
    now: u64,
) -> RetirementCertificate {
    let b = s.batches[batch_id@];
    RetirementCertificate {
        cert_id,
        batch_id,
        project_id: b.project_id,
        retired_by: owner,
        beneficiary,
        reason,
        amount,
        vintage_year: b.vintage_year,
        serial_start: (b.serial_start + b.retired) as u64,
        serial_end: (b.serial_start + b.retired + amount - 1) as u64,
        retired_at: now,
        methodology: b.methodology,
    }
}

/// The state after a successful retirement.
pub open spec fn retired_state(
    s: CreditState,
    cert_id: [u8; 32],
    owner: String,
    batch_id: String,
    amount: u64,
    beneficiary: String,
    reason: String,
    now: u64,
) -> CreditState {
    CreditState {
        balances: debited(s.balances, owner@, batch_id@, amount),
        batches: s.batches.insert(batch_id@, retired_batch(s.batches[batch_id@], amount)),
        certificates: s.certificates.insert(
            cert_id@,
            issued_certificate(s, cert_id, owner, batch_id, amount, beneficiary, reason, now),
        ),
        ..s
    }
}

/// The first serial number the next retirement from `batch` takes.
pub open spec fn next_retired_serial(s: CreditState, batch: Seq<char>) -> u64 {
    (s.batches[batch].serial_start + s.batches[batch].retired) as u64
}

/// The bytes whose digest names the certificate of the retirement that
/// starts at serial number `serial`: 24 zero bytes, then the serial number
/// in big-endian order.
pub open spec fn certificate_preimage(serial: u64) -> Seq<u8> {
    Seq::new(32, |i: int| if i < 24 { 0u8 } else { (serial >> ((31 - i) * 8) as u64) as u8 })
}

/// The identifier of the certificate of the retirement that starts at
/// serial number `serial`.
pub open spec fn certificate_id(serial: u64) -> Seq<u8> {
    sha256_digest(certificate_preimage(serial))
}

/// Every certificate of `s` is still stored, unchanged, in `t`.
pub open spec fn certificates_kept(s: CreditState, t: CreditState) -> bool {
    forall|k: Seq<u8>| #[trigger] s.certificates.contains_key(k) ==> t.certificates.contains_key(k)
        && t.certificates[k] == s.certificates[k]
}

/// Two batches share no serial number.
pub open spec fn ranges_disjoint(a: CreditBatch, b: CreditBatch) -> bool {
    a.serial_end < b.serial_start || b.serial_end < a.serial_start
}

/// Serial numbers are unique: every stored batch lies below the next block
/// to be issued, and no two stored batches share a serial number.
pub open spec fn serials_unique(s: CreditState) -> bool {
    &&& forall|k: Seq<char>| #[trigger] s.batches.contains_key(k) ==> s.batches[k].serial_end < serial_block_start(
        s.counter,
    )
    &&& forall|j: Seq<char>, k: Seq<char>|
        #![trigger s.batches.contains_key(j), s.batches.contains_key(k)]
        s.batches.contains_key(j) && s.batches.contains_key(k) && j != k ==> ranges_disjoint(
            s.batches[j],
            s.batches[k],
        )
}

/// A batch's books balance: what is available and what is retired add up to
/// what was minted, and its serial range holds exactly that many numbers.
pub open spec fn batch_accounted(b: CreditBatch) -> bool {
    &&& b.available + b.retired == b.total_amount
    &&& b.serial_end + 1 == b.serial_start + b.total_amount
}

/// Every stored batch balances its books.
pub open spec fn batches_accounted(s: CreditState) -> bool {
    forall|k: Seq<char>| #[trigger] s.batches.contains_key(k) ==> batch_accounted(s.batches[k])
}

/// No batch of `s` has fewer credits retired in `t`, and none disappears.
pub open spec fn retirements_kept(s: CreditState, t: CreditState) -> bool {
    forall|k: Seq<char>| #[trigger] s.batches.contains_key(k) ==> t.batches.contains_key(k)
        && t.batches[k].retired >= s.batches[k].retired
}

/// A freshly minted batch balances its books, and minting keeps every other
/// stored batch as it was, so the books of the whole contract stay balanced.
pub proof fn lemma_mint_keeps_books(
    s: CreditState,
    id: String,
    project_id: String,
    vintage_year: u32,
    methodology: String,
    total_amount: u64,
    price_per_tonne: u64,
    now: u64,
)
    requires
        batches_accounted(s),
        mint_error(s, id@, vintage_year, total_amount) is None,
        mint_fits(s, total_amount),
    ensures
        batches_accounted(minted_state(s, id, project_id, vintage_year, methodology, total_amount, price_per_tonne, now)),
        batch_accounted(minted_batch(s, id, project_id, vintage_year, methodology, total_amount, price_per_tonne, now)),
{
    let t = minted_state(s, id, project_id, vintage_year, methodology, total_amount, price_per_tonne, now);
    assert forall|k: Seq<char>| #[trigger] t.batches.contains_key(k) implies batch_accounted(t.batches[k]) by {
        if k != id@ {
            assert(s.batches.contains_key(k));
        }
    }
}

/// Retiring credits moves them from available to retired: the books of
/// every batch stay balanced.
pub proof fn lemma_retire_keeps_books(
    s: CreditState,
    cert_id: [u8; 32],
    owner: String,
    batch_id: String,
    amount: u64,
    beneficiary: String,
    reason: String,
    now: u64,
)
    requires
        batches_accounted(s),
        retire_error(s, owner@, batch_id@, amount) is None,
        retire_fits(s, batch_id@, amount),
    ensures
        batches_accounted(retired_state(s, cert_id, owner, batch_id, amount, beneficiary, reason, now)),
{
    let t = retired_state(s, cert_id, owner, batch_id, amount, beneficiary, reason, now);
    assert forall|k: Seq<char>| #[trigger] t.batches.contains_key(k) implies batch_accounted(t.batches[k]) by {
        assert(s.batches.contains_key(k));
    }
}

/// Transfers and credits to an address move balances only: every batch,
/// and so the books of the contract, stay as they were.
pub proof fn lemma_balance_moves_keep_books(s: CreditState, from: Seq<char>, to: Seq<char>, batch: Seq<char>, amount: u64)
    requires
        batches_accounted(s),
    ensures
        transferred_state(s, from, to, batch, amount).batches == s.batches,
        batches_accounted(transferred_state(s, from, to, batch, amount)),
        batches_accounted(CreditState { balances: credited(s.balances, to, batch, amount), ..s }),
{
}

/// Retirement is irreversible: no transfer, credit to an address,
/// retirement, mint or initialisation lowers the retired count of a stored
/// batch or removes it.
pub proof fn lemma_retirements_kept(
    s: CreditState,
    from: Seq<char>,
    to: Seq<char>,
    batch: Seq<char>,
    amount: u64,
    cert_id: [u8; 32],
    owner: String,
    batch_id: String,
    beneficiary: String,
    reason: String,
    id: String,
    project_id: String,
    vintage_year: u32,
    methodology: String,
    total_amount: u64,
    price_per_tonne: u64,
    now: u64,
    admin: Seq<char>,
)
    ensures
        retirements_kept(s, transferred_state(s, from, to, batch, amount)),
        retirements_kept(s, CreditState { balances: credited(s.balances, to, batch, amount), ..s }),
        retire_error(s, owner@, batch_id@, amount) is None && retire_fits(s, batch_id@, amount) ==> retirements_kept(
            s,
            retired_state(s, cert_id, owner, batch_id, amount, beneficiary, reason, now),
        ),
        mint_error(s, id@, vintage_year, total_amount) is None ==> retirements_kept(
            s,
            minted_state(s, id, project_id, vintage_year, methodology, total_amount, price_per_tonne, now),
        ),
        retirements_kept(s, CreditState { admin: Some(admin), ..s }),
{
}

/// Serial numbers stay unique: a minted batch shares no serial number with
/// any batch stored before it, and minting, retiring, transferring,
/// crediting and initialising all keep the serial ranges of the stored
/// batches pairwise disjoint.
pub proof fn lemma_serials_stay_unique(
    s: CreditState,
    from: Seq<char>,
    to: Seq<char>,
    batch: Seq<char>,
    amount: u64,
    cert_id: [u8; 32],
    owner: String,
    batch_id: String,
    beneficiary: String,
    reason: String,
    id: String,
    project_id: String,
    vintage_year: u32,
    methodology: String,
    total_amount: u64,
    price_per_tonne: u64,
    now: u64,
    admin: Seq<char>,
)
    requires
        serials_unique(s),
    ensures
        mint_error(s, id@, vintage_year, total_amount) is None && mint_fits(s, total_amount) ==> {
            let m = minted_batch(s, id, project_id, vintage_year, methodology, total_amount, price_per_tonne, now);
            &&& forall|k: Seq<char>| #[trigger] s.batches.contains_key(k) ==> ranges_disjoint(s.batches[k], m)
            &&& serials_unique(
                minted_state(s, id, project_id, vintage_year, methodology, total_amount, price_per_tonne, now),
            )
        },
        retire_error(s, owner@, batch_id@, amount) is None && retire_fits(s, batch_id@, amount) ==> serials_unique(
            retired_state(s, cert_id, owner, batch_id, amount, beneficiary, reason, now),
        ),
        serials_unique(transferred_state(s, from, to, batch, amount)),
        serials_unique(CreditState { balances: credited(s.balances, to, batch, amount), ..s }),
        serials_unique(CreditState { admin: Some(admin), ..s }),
{
    if mint_error(s, id@, vintage_year, total_amount) is None && mint_fits(s, total_amount) {
        let m = minted_batch(s, id, project_id, vintage_year, methodology, total_amount, price_per_tonne, now);
        let t = minted_state(s, id, project_id, vintage_year, methodology, total_amount, price_per_tonne, now);
        assert forall|k: Seq<char>| #[trigger] t.batches.contains_key(k) implies t.batches[k].serial_end
            < serial_block_start(t.counter) by {
            if k != id@ {
                assert(s.batches.contains_key(k));
            }
        }
        assert forall|j: Seq<char>, k: Seq<char>|
            #![trigger t.batches.contains_key(j), t.batches.contains_key(k)]
            t.batches.contains_key(j) && t.batches.contains_key(k) && j != k implies ranges_disjoint(
                t.batches[j],
                t.batches[k],
            ) by {
            if j != id@ {
                assert(s.batches.contains_key(j));
            }
            if k != id@ {
                assert(s.batches.contains_key(k));
            }
        }
    }
    if retire_error(s, owner@, batch_id@, amount) is None && retire_fits(s, batch_id@, amount) {
        let t = retired_state(s, cert_id, owner, batch_id, amount, beneficiary, reason, now);
        assert forall|k: Seq<char>| #[trigger] t.batches.contains_key(k) implies t.batches[k].serial_end
            < serial_block_start(t.counter) by {
            assert(s.batches.contains_key(k));
        }
        assert forall|j: Seq<char>, k: Seq<char>|
            #![trigger t.batches.contains_key(j), t.batches.contains_key(k)]
            t.batches.contains_key(j) && t.batches.contains_key(k) && j != k implies ranges_disjoint(
                t.batches[j],
                t.batches[k],
            ) by {
            assert(s.batches.contains_key(j));
            assert(s.batches.contains_key(k));
        }
    }
}

/// Certificates are permanent: no transfer, credit to an address, mint or
/// initialisation touches a stored certificate, and a retirement adds its
/// certificate under an id no stored certificate holds.
pub proof fn lemma_certificates_kept(
    s: CreditState,
    from: Seq<char>,
    to: Seq<char>,
    batch: Seq<char>,
    amount: u64,
    cert_id: [u8; 32],
    owner: String,
    batch_id: String,
    beneficiary: String,
    reason: String,
    id: String,
    project_id: String,
    vintage_year: u32,
    methodology: String,
    total_amount: u64,
    price_per_tonne: u64,
    now: u64,
    admin: Seq<char>,
)
    ensures
        certificates_kept(s, transferred_state(s, from, to, batch, amount)),
        certificates_kept(s, CreditState { balances: credited(s.balances, to, batch, amount), ..s }),
        certificates_kept(
            s,
            minted_state(s, id, project_id, vintage_year, methodology, total_amount, price_per_tonne, now),
        ),
        certificates_kept(s, CreditState { admin: Some(admin), ..s }),
        !s.certificates.contains_key(cert_id@) ==> certificates_kept(
            s,
            retired_state(s, cert_id, owner, batch_id, amount, beneficiary, reason, now),
        ),
{
}

/// A transfer between two different owners moves exactly `amount` from one
/// to the other and leaves every other balance alone; a transfer to oneself
/// changes no balance.
pub proof fn lemma_transfer_conserves(s: CreditState, from: Seq<char>, to: Seq<char>, batch: Seq<char>, amount: u64)
    requires
        transfer_error(s, from, batch, amount) is None,
        transfer_fits(s, from, to, batch, amount),
    ensures
        ({
            let t = transferred_state(s, from, to, batch, amount);
            &&& from != to ==> balance_in(t.balances, from, batch) == balance_in(s.balances, from, batch) - amount
            &&& from != to ==> balance_in(t.balances, to, batch) == balance_in(s.balances, to, batch) + amount
            &&& from == to ==> balance_in(t.balances, from, batch) == balance_in(s.balances, from, batch)
            &&& forall|o: Seq<char>, b: Seq<char>|
                (o, b) != (from, batch) && (o, b) != (to, batch) ==> #[trigger] balance_in(t.balances, o, b)
                    == balance_in(s.balances, o, b)
            &&& t.batches == s.batches
            &&& t.certificates == s.certificates
        }),
{
}

/// The certificate of a retirement names the next unretired serial numbers
/// of the batch, inside the batch's range, and the batch's next retirement
/// starts right after it: no serial number is retired twice.
pub proof fn lemma_retired_serials(
    s: CreditState,
    cert_id: [u8; 32],
    owner: String,
    batch_id: String,
    amount: u64,
    beneficiary: String,
    reason: String,
    now: u64,
)
    requires
        batches_accounted(s),
        retire_error(s, owner@, batch_id@, amount) is None,
        retire_fits(s, batch_id@, amount),
    ensures
        ({
            let b = s.batches[batch_id@];
            let c = issued_certificate(s, cert_id, owner, batch_id, amount, beneficiary, reason, now);
            let t = retired_state(s, cert_id, owner, batch_id, amount, beneficiary, reason, now);
            &&& b.serial_start <= c.serial_start
            &&& c.serial_start <= c.serial_end
            &&& c.serial_end <= b.serial_end
            &&& c.serial_end - c.serial_start + 1 == amount
            &&& c.serial_start == next_retired_serial(s, batch_id@)
            &&& next_retired_serial(t, batch_id@) == c.serial_end + 1
        }),
{
    assert(s.batches.contains_key(batch_id@));
}

/// What a retirement writes can be read back: the certificate under its id
/// names the retiring owner, the beneficiary and reason given, the amount,
/// the batch and its project, vintage and methodology, the retired serial
/// range and the time; the batch moves `amount` from available to retired
/// and keeps everything else; the owner's balance drops by `amount`, every
/// other balance, batch and certificate stays as it was.
pub proof fn lemma_retirement_readable(
    s: CreditState,
    cert_id: [u8; 32],
    owner: String,
    batch_id: String,
    amount: u64,
    beneficiary: String,
    reason: String,
    now: u64,
)
    requires
        retire_error(s, owner@, batch_id@, amount) is None,
        retire_fits(s, batch_id@, amount),
        !s.certificates.contains_key(cert_id@),
    ensures
        ({
            let t = retired_state(s, cert_id, owner, batch_id, amount, beneficiary, reason, now);
            let b = s.batches[batch_id@];
            let c = t.certificates[cert_id@];
            let nb = t.batches[batch_id@];
            &&& t.certificates.contains_key(cert_id@)
            &&& c.cert_id == cert_id
            &&& c.batch_id == batch_id
            &&& c.project_id == b.project_id
            &&& c.retired_by == owner
            &&& c.beneficiary == beneficiary
            &&& c.reason == reason
            &&& c.amount == amount
            &&& c.vintage_year == b.vintage_year
            &&& c.methodology == b.methodology
            &&& c.serial_start == b.serial_start + b.retired
            &&& c.serial_end == b.serial_start + b.retired + amount - 1
            &&& c.retired_at == now
            &&& t.batches.contains_key(batch_id@)
            &&& nb.available == b.available - amount
            &&& nb.retired == b.retired + amount
            &&& nb.id == b.id
            &&& nb.project_id == b.project_id
            &&& nb.vintage_year == b.vintage_year
            &&& nb.methodology == b.methodology
            &&& nb.serial_start == b.serial_start
            &&& nb.serial_end == b.serial_end
            &&& nb.total_amount == b.total_amount
            &&& nb.minted_at == b.minted_at
            &&& nb.price_per_tonne == b.price_per_tonne
            &&& balance_in(t.balances, owner@, batch_id@) == balance_in(s.balances, owner@, batch_id@) - amount
            &&& forall|o: Seq<char>, k: Seq<char>|
                (o, k) != (owner@, batch_id@) ==> #[trigger] balance_in(t.balances, o, k) == balance_in(
                    s.balances,
                    o,
                    k,
                )
            &&& forall|k: Seq<char>|
                k != batch_id@ ==> (#[trigger] t.batches.contains_key(k) == s.batches.contains_key(k)
                    && t.batches[k] == s.batches[k])
            &&& forall|k: Seq<u8>|
                k != cert_id@ ==> (#[trigger] t.certificates.contains_key(k) == s.certificates.contains_key(k)
                    && t.certificates[k] == s.certificates[k])
            &&& t.admin == s.admin
            &&& t.counter == s.counter
        }),
{
    assert(s.batches.contains_key(batch_id@));
}

/// What a mint writes can be read back under the batch id: the id, project,
/// vintage, methodology and price given, the next block of serial numbers
/// holding exactly `total_amount` of them, all available and none retired,
/// minted at `now`; the counter moves on by one and nothing else changes.
pub proof fn lemma_mint_readable(
    s: CreditState,
    id: String,
    project_id: String,
    vintage_year: u32,
    methodology: String,
    total_amount: u64,
    price_per_tonne: u64,
    now: u64,
)
    requires
        mint_error(s, id@, vintage_year, total_amount) is None,
        mint_fits(s, total_amount),
    ensures
        ({
            let t = minted_state(s, id, project_id, vintage_year, methodology, total_amount, price_per_tonne, now);
            let b = t.batches[id@];
            &&& t.batches.contains_key(id@)
            &&& b.id == id
            &&& b.project_id == project_id
            &&& b.vintage_year == vintage_year
            &&& b.methodology == methodology
            &&& b.serial_start == s.counter * SERIALS_PER_BATCH + 1
            &&& b.serial_end == s.counter * SERIALS_PER_BATCH + total_amount
            &&& b.total_amount == total_amount
            &&& b.available == total_amount
            &&& b.retired == 0
            &&& b.minted_at == now
            &&& b.price_per_tonne == price_per_tonne
            &&& t.counter == s.counter + 1
            &&& forall|k: Seq<char>|
                k != id@ ==> (#[trigger] t.batches.contains_key(k) == s.batches.contains_key(k) && t.batches[k]
                    == s.batches[k])
            &&& t.balances == s.balances
            &&& t.certificates == s.certificates
            &&& t.admin == s.admin
        }),
{
}

/// Crediting an address raises exactly that balance by `amount`; every other
/// balance, every batch and every certificate stays as it was.
pub proof fn lemma_credit_adds(s: CreditState, to: Seq<char>, batch: Seq<char>, amount: u64)
    requires
        balance_in(s.balances, to, batch) + amount <= u64::MAX,
    ensures
        ({
            let t = CreditState { balances: credited(s.balances, to, batch, amount), ..s };
            &&& balance_in(t.balances, to, batch) == balance_in(s.balances, to, batch) + amount
            &&& forall|o: Seq<char>, k: Seq<char>|
                (o, k) != (to, batch) ==> #[trigger] balance_in(t.balances, o, k) == balance_in(s.balances, o, k)
            &&& t.batches == s.batches
            &&& t.certificates == s.certificates
        }),
{
}

/// The bytes whose digest names the certificate of the retirement that
/// starts at serial number `serial`.
fn certificate_preimage_bytes(serial: u64) -> (p: Vec<u8>)
    ensures
        p@ == certificate_preimage(serial),
{
    let mut p: Vec<u8> = Vec::new();
    let mut i: usize = 0;
    while i < 32
        invariant
            i <= 32,
            p@.len() == i,
            forall|j: int| 0 <= j < i ==> p@[j] == certificate_preimage(serial)[j],
        decreases 32 - i,
    {
        if i < 24 {
            p.push(0u8);
        } else {
            p.push((serial >> (((31 - i) * 8) as u64)) as u8);
        }
        i = i + 1;
    }
    assert(p@ =~= certificate_preimage(serial));
    p
}

/// The credit contract: its storage and the calls that change it.
pub struct CarbonCredit {
    admin: Option<String>,
    counter: u64,
    batches: Table<String, CreditBatch>,
    balances: Table<(String, String), u64>,
    certificates: Table<[u8; 32], RetirementCertificate>,
}

impl View for CarbonCredit {
    type V = CreditState;

    closed spec fn view(&self) -> CreditState {
        CreditState {
            admin: account_view(self.admin),
            counter: self.counter,
            batches: self.batches@,
            balances: self.balances@,
            certificates: self.certificates@,
        }
    }
}

impl CarbonCredit {
    /// The storage tables are well formed.
    pub closed spec fn wf(&self) -> bool {
        &&& self.batches.wf()
        &&& self.balances.wf()
        &&& self.certificates.wf()
    }

    /// A freshly deployed contract: nothing stored.
    pub fn new() -> (c: Self)
        ensures
            c.wf(),
            c@ == (CreditState {
                admin: None,
                counter: 0,
                batches: Map::empty(),
                balances: Map::empty(),
                certificates: Map::empty(),
            }),
    {
        CarbonCredit {
            admin: None,
            counter: 0,
            batches: Table::new(),
            balances: Table::new(),
            certificates: Table::new(),
        }
    }

    /// The contract as stored: the administrator and batch counter from
    /// instance storage, with no persistent entry loaded yet.
    pub fn restore(admin: Option<String>, counter: u64) -> (c: Self)
        ensures
            c.wf(),
            c@ == (CreditState {
                admin: account_view(admin),
                counter,
                batches: Map::empty(),
                balances: Map::empty(),
                certificates: Map::empty(),
            }),
    {
        CarbonCredit {
            admin,
            counter,
            batches: Table::new(),
            balances: Table::new(),
            certificates: Table::new(),
        }
    }

    /// The number of batches minted so far.
    pub fn counter(&self) -> (n: u64)
        ensures
            n == self@.counter,
    {
        self.counter
    }

    /// Loads a stored batch under `batch_id`.
    pub fn load_batch(&mut self, batch_id: String, batch: CreditBatch)
        requires
            old(self).wf(),
        ensures
            final(self).wf(),
            final(self)@ == (CreditState { batches: old(self)@.batches.insert(batch_id@, batch), ..old(self)@ }),
    {
        let ghost (gk, gb) = (batch_id, batch);
        self.batches.insert(batch_id, batch);
        assert(self@ =~= (CreditState { batches: old(self)@.batches.insert(gk@, gb), ..old(self)@ }));
    }

    /// Loads a stored certificate under its id.
    pub fn load_certificate(&mut self, certificate: RetirementCertificate)
        requires
            old(self).wf(),
        ensures
            final(self).wf(),
            final(self)@ == (CreditState {
                certificates: old(self)@.certificates.insert(certificate.cert_id@, certificate),
                ..old(self)@
            }),
    {
        let ghost gc = certificate;
        self.certificates.insert(certificate.cert_id, certificate);
        assert(self@ =~= (CreditState {
            certificates: old(self)@.certificates.insert(gc.cert_id@, gc),
            ..old(self)@
        }));
    }

    /// Records the administrator. The batch counter is kept, so a second
    /// initialisation never hands out serial numbers again.
    pub fn initialize(&mut self, admin: String)
        requires
            old(self).wf(),
        ensures
            final(self).wf(),
            final(self)@ == (CreditState { admin: Some(admin@), ..old(self)@ }),
    {
        self.admin = Some(admin);
    }

    /// Mints a batch of `total_amount` credits under `id`, with the next
    /// block of serial numbers. A batch larger than a block, or an id under
    /// which a batch is stored, is refused.
    /// `admin` is the account whose authorisation the host has checked.
    pub fn mint_credits(
        &mut self,
        admin: &String,
        id: String,
        project_id: String,
        vintage_year: u32,
        methodology: String,
        total_amount: u64,
        price_per_tonne: u64,
        now: u64,
    ) -> (r: Result<(), CarbonError>)
        requires
            old(self).wf(),
            mint_error(old(self)@, id@, vintage_year, total_amount) is Some || mint_fits(old(self)@, total_amount),
        ensures
            final(self).wf(),
            match mint_error(old(self)@, id@, vintage_year, total_amount) {
                Some(e) => r == Err::<(), CarbonError>(e) && final(self)@ == old(self)@,
                None => r is Ok && final(self)@ == minted_state(
                    old(self)@,
                    id,
                    project_id,
                    vintage_year,
                    methodology,
                    total_amount,
                    price_per_tonne,
                    now,
                ),
            },
    {
        if vintage_year < MIN_VINTAGE_YEAR || vintage_year > MAX_VINTAGE_YEAR {
            return Err(CarbonError::InvalidVintageYear);
        }
        if total_amount == 0 {
            return Err(CarbonError::ZeroAmountNotAllowed);
        }
        if total_amount > SERIALS_PER_BATCH {
            return Err(CarbonError::InvalidSerialRange);
        }
        if self.batches.contains_key(&id) {
            return Err(CarbonError::DoubleCountingDetected);
        }
        let ghost s = self@;
        let ghost (gid, gproject, gmeth) = (id, project_id, methodology);
        let serial_start = self.counter * SERIALS_PER_BATCH + 1;
        let serial_end = serial_start + total_amount - 1;
        self.counter = self.counter + 1;
        let key = id.clone();
        let batch = CreditBatch {
            id,
            project_id,
            vintage_year,
            methodology,
            serial_start,
            serial_end,
            total_amount,
            available: total_amount,
            retired: 0,
            minted_at: now,
            price_per_tonne,
        };
        self.batches.insert(key, batch);
        assert(self@ =~= minted_state(s, gid, gproject, vintage_year, gmeth, total_amount, price_per_tonne, now));
        Ok(())
    }

    /// The balance `owner` holds of batch `batch_id`.
    pub fn get_balance(&self, owner: &String, batch_id: &String) -> (b: u64)
        requires
            self.wf(),
        ensures
            b == balance_in(self@.balances, owner@, batch_id@),
    {
        let key = (owner.clone(), batch_id.clone());
        match self.balances.get(&key) {
            Some(b) => *b,
            None => 0,
        }
    }

    /// Sets the balance `owner` holds of `batch_id`, as loaded from storage.
    pub fn load_balance(&mut self, owner: &String, batch_id: &String, amount: u64)
        requires
            old(self).wf(),
        ensures
            final(self).wf(),
            final(self)@ == (CreditState {
                balances: old(self)@.balances.insert((owner@, batch_id@), amount),
                ..old(self)@
            }),
    {
        self.balances.insert((owner.clone(), batch_id.clone()), amount);
        assert(self@.balances == old(self)@.balances.insert((owner@, batch_id@), amount));
        assert(self@ =~= (CreditState {
            balances: old(self)@.balances.insert((owner@, batch_id@), amount),
            ..old(self)@
        }));
    }

    /// Moves `amount` credits of `batch_id` from `from` to `to`.
    /// `from` is the account whose authorisation the host has checked.
    pub fn transfer_credits(&mut self, from: &String, to: &String, batch_id: &String, amount: u64) -> (r: Result<(), CarbonError>)
        requires
            old(self).wf(),
            transfer_error(old(self)@, from@, batch_id@, amount) is Some
                || transfer_fits(old(self)@, from@, to@, batch_id@, amount),
        ensures
            final(self).wf(),
            match transfer_error(old(self)@, from@, batch_id@, amount) {
                Some(e) => r == Err::<(), CarbonError>(e) && final(self)@ == old(self)@,
                None => r is Ok && final(self)@ == transferred_state(old(self)@, from@, to@, batch_id@, amount),
            },
    {
        if amount == 0 {
            return Err(CarbonError::ZeroAmountNotAllowed);
        }
        let balance = self.get_balance(from, batch_id);
        if balance < amount {
            return Err(CarbonError::InsufficientCredits);
        }
        self.load_balance(from, batch_id, balance - amount);
        let to_balance = self.get_balance(to, batch_id);
        self.load_balance(to, batch_id, to_balance + amount);
        Ok(())
    }

    /// Retires `amount` credits of `batch_id` held by `owner` and stores the
    /// certificate under `cert_id`, the identifier the host computed for it.
    /// An identifier under which a certificate is stored is refused, so no
    /// certificate is ever replaced.
    pub fn record_retirement(
        &mut self,
        cert_id: [u8; 32],
        owner: String,
        batch_id: String,
        amount: u64,
        beneficiary: String,
        reason: String,
        now: u64,
    ) -> (r: Result<[u8; 32], CarbonError>)
        requires
            old(self).wf(),
            retire_error(old(self)@, owner@, batch_id@, amount) is Some || retire_fits(old(self)@, batch_id@, amount),
        ensures
            final(self).wf(),
            match retire_error(old(self)@, owner@, batch_id@, amount) {
                Some(e) => r == Err::<[u8; 32], CarbonError>(e) && final(self)@ == old(self)@,
                None => if old(self)@.certificates.contains_key(cert_id@) {
                    r == Err::<[u8; 32], CarbonError>(CarbonError::AlreadyRetired) && final(self)@ == old(self)@
                } else {
                    r == Ok::<[u8; 32], CarbonError>(cert_id) && final(self)@ == retired_state(
                        old(self)@,
                        cert_id,
                        owner,
                        batch_id,
                        amount,
                        beneficiary,
                        reason,
                        now,
                    )
                },
            },
    {
        if amount == 0 {
            return Err(CarbonError::ZeroAmountNotAllowed);
        }
        let balance = self.get_balance(&owner, &batch_id);
        if balance < amount {
            return Err(CarbonError::InsufficientCredits);
        }
        let mut batch = match self.batches.get(&batch_id) {
            Some(b) => b.replica(),
            None => return Err(CarbonError::ListingNotFound),
        };
        if self.certificates.contains_key(&cert_id) {
            return Err(CarbonError::AlreadyRetired);
        }
        let ghost s = self@;
        let ghost (gowner, gbatch, gben, greason) = (owner, batch_id, beneficiary, reason);
        self.load_balance(&owner, &batch_id, balance - amount);
        batch.available = batch.available - amount;
        batch.retired = batch.retired + amount;
        let serial_start = batch.serial_start + batch.retired - amount;
        let serial_end = batch.serial_start + batch.retired - 1;
        let certificate = RetirementCertificate {
            cert_id,
            batch_id: batch_id.clone(),
            project_id: batch.project_id.clone(),
            retired_by: owner,
            beneficiary,
            reason,
            amount,
            vintage_year: batch.vintage_year,
            serial_start,
            serial_end,
            retired_at: now,
            methodology: batch.methodology.clone(),
        };
        self.batches.insert(batch_id, batch);
        self.certificates.insert(cert_id, certificate);
        assert(self@ =~= retired_state(s, cert_id, gowner, gbatch, amount, gben, greason, now));
        Ok(cert_id)
    }

    /// Retires `amount` credits of `batch_id` held by `owner` for
    /// `beneficiary`, and returns the id of the certificate it stores: the
    /// digest of the first serial number retired. Should a certificate be
    /// stored under that id already, the retirement is refused.
    /// `owner` is the account whose authorisation the host has checked.
    pub fn retire_credits(
        &mut self,
        env: &Env,
        owner: String,
        batch_id: String,
        amount: u64,
        beneficiary: String,
        reason: String,
        now: u64,
    ) -> (r: Result<[u8; 32], CarbonError>)
        requires
            old(self).wf(),
            retire_error(old(self)@, owner@, batch_id@, amount) is Some || retire_fits(old(self)@, batch_id@, amount),
        ensures
            final(self).wf(),
            match retire_error(old(self)@, owner@, batch_id@, amount) {
                Some(e) => r == Err::<[u8; 32], CarbonError>(e) && final(self)@ == old(self)@,
                None => {
                    let id = certificate_id(next_retired_serial(old(self)@, batch_id@));
                    match r {
                        Ok(c) => c@ == id && !old(self)@.certificates.contains_key(id) && final(self)@
                            == retired_state(old(self)@, c, owner, batch_id, amount, beneficiary, reason, now),
                        Err(e) => e == CarbonError::AlreadyRetired && old(self)@.certificates.contains_key(id)
                            && final(self)@ == old(self)@,
                    }
                },
            },
    {
        if amount == 0 {
            return Err(CarbonError::ZeroAmountNotAllowed);
        }
        if self.get_balance(&owner, &batch_id) < amount {
            return Err(CarbonError::InsufficientCredits);
        }
        let cert_id = match self.next_certificate_id(env, &batch_id) {
            Some(c) => c,
            None => return Err(CarbonError::ListingNotFound),
        };
        self.record_retirement(cert_id, owner, batch_id, amount, beneficiary, reason, now)
    }

    /// The id the certificate of the next retirement from `batch_id` takes:
    /// the digest of the first serial number it retires. `None` when no
    /// batch is stored under `batch_id`, or its next serial number does not
    /// fit in 64 bits.
    pub fn next_certificate_id(&self, env: &Env, batch_id: &String) -> (r: Option<[u8; 32]>)
        requires
            self.wf(),
        ensures
            match r {
                Some(c) => self@.batches.contains_key(batch_id@) && self@.batches[batch_id@].serial_start
                    + self@.batches[batch_id@].retired <= u64::MAX && c@ == certificate_id(
                    next_retired_serial(self@, batch_id@),
                ),
                None => !self@.batches.contains_key(batch_id@) || self@.batches[batch_id@].serial_start
                    + self@.batches[batch_id@].retired > u64::MAX,
            },
    {
        let serial = match self.batches.get(batch_id) {
            Some(b) => match b.serial_start.checked_add(b.retired) {
                Some(n) => n,
                None => return None,
            },
            None => return None,
        };
        let preimage = certificate_preimage_bytes(serial);
        Some(sha256(env, preimage.as_slice()))
    }

    /// Adds `amount` credits of `batch_id` to the balance of `to`.
    /// `admin` is the account whose authorisation the host has checked.
    pub fn credit_to_address(&mut self, admin: &String, to: &String, batch_id: &String, amount: u64) -> (r: Result<(), CarbonError>)
        requires
            old(self).wf(),
            balance_in(old(self)@.balances, to@, batch_id@) + amount <= u64::MAX,
        ensures
            final(self).wf(),
            r is Ok,
            final(self)@ == (CreditState { balances: credited(old(self)@.balances, to@, batch_id@, amount), ..old(self)@ }),
    {
        let to_balance = self.get_balance(to, batch_id);
        self.load_balance(to, batch_id, to_balance + amount);
        Ok(())
    }

    /// The batch stored under `batch_id`.
    pub fn get_credit_batch(&self, batch_id: &String) -> (r: Result<CreditBatch, CarbonError>)
        requires
            self.wf(),
        ensures
            r == (if self@.batches.contains_key(batch_id@) {
                Ok::<CreditBatch, CarbonError>(self@.batches[batch_id@])
            } else {
                Err(CarbonError::ListingNotFound)
            }),
    {
        match self.batches.get(batch_id) {
            Some(b) => Ok(b.replica()),
            None => Err(CarbonError::ListingNotFound),
        }
    }

    /// The certificate stored under `cert_id`.
    pub fn get_retirement_certificate(&self, cert_id: &[u8; 32]) -> (r: Result<RetirementCertificate, CarbonError>)
        requires
            self.wf(),
        ensures
            r == (if self@.certificates.contains_key(cert_id@) {
                Ok::<RetirementCertificate, CarbonError>(self@.certificates[cert_id@])
            } else {
                Err(CarbonError::ListingNotFound)
            }),
    {
        match self.certificates.get(cert_id) {
            Some(c) => Ok(c.replica()),
            None => Err(CarbonError::ListingNotFound),
        }
    }
}

} // verus!
