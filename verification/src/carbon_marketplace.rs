//! Marketplace: sellers list credits at a price per tonne, buyers purchase
//! from listings one at a time or from several listings at once.
use vstd::prelude::*;
use crate::table::{account_view, Replica, Table};
pub use crate::error::CarbonError;

verus! {

/// Credits offered for sale.
#[derive(Clone, Debug, PartialEq, Eq)]
pub struct CreditListing {
    pub id: String,
    pub seller: String,
    pub batch_id: String,
    pub project_id: String,
    pub amount: u64,
    pub available: u64,
    pub price_per_tonne: u64,
    pub vintage_year: u32,
    pub methodology: String,
    pub country: String,
    pub listed_at: u64,
    pub active: bool,
}

impl Replica for CreditListing {
    fn replica(&self) -> (r: Self) {
        CreditListing {
            id: self.id.clone(),
            seller: self.seller.clone(),
            batch_id: self.batch_id.clone(),
            project_id: self.project_id.clone(),
            amount: self.amount,
            available: self.available,
            price_per_tonne: self.price_per_tonne,
            vintage_year: self.vintage_year,
            methodology: self.methodology.clone(),
            country: self.country.clone(),
            listed_at: self.listed_at,
            active: self.active,
        }
    }
}

/// What a purchase settles: the buyer pays `payment` to the seller, and is
/// owed `credits` credits of batch `batch_id`.
#[derive(Clone, Debug, PartialEq, Eq)]
pub struct Settlement {
    pub buyer: String,
    pub seller: String,
    pub batch_id: String,
    pub credits: u64,
    pub payment: u128,
}

/// The stored state of the marketplace contract.
#[verifier::ext_equal]
pub struct MarketState {
    pub admin: Option<Seq<char>>,
    pub fee_recipient: Option<Seq<char>>,
    /// Listings by listing id.
    pub listings: Map<Seq<char>, CreditListing>,
}

/// The listing a successful `list_credits` stores.
pub open spec fn new_listing(
    seller: String,
    id: String,
    batch_id: String,
    project_id: String,
    amount: u64,
    price_per_tonne: u64,
    vintage_year: u32,
    methodology: String,
    country: String,
    now: u64,
) -> CreditListing {
    CreditListing {
        id,
        seller,
        batch_id,
        project_id,
        amount,
        available: amount,
        price_per_tonne,
        vintage_year,
        methodology,
        country,
        listed_at: now,
        active: true,
    }
}

/// The state with the listing under `id` replaced by `l`.
pub open spec fn with_listing(s: MarketState, id: Seq<char>, l: CreditListing) -> MarketState {
    MarketState { listings: s.listings.insert(id, l), ..s }
}

/// Why listing is refused, if it is: no credits, or an id under which
/// another seller's listing is stored.
pub open spec fn list_error(s: MarketState, seller: Seq<char>, id: Seq<char>, amount: u64) -> Option<CarbonError> {
    if amount == 0 {
        Some(CarbonError::ZeroAmountNotAllowed)
    } else if s.listings.contains_key(id) && s.listings[id].seller@ != seller {
        Some(CarbonError::UnauthorizedVerifier)
    } else {
        None
    }
}

/// Why delisting is refused, if it is.
pub open spec fn delist_error(s: MarketState, seller: Seq<char>, id: Seq<char>) -> Option<CarbonError> {
    if !s.listings.contains_key(id) {
        Some(CarbonError::ListingNotFound)
    } else if s.listings[id].seller@ != seller {
        Some(CarbonError::UnauthorizedVerifier)
    } else {
        None
    }
}

/// Why a purchase is refused, if it is.
pub open spec fn purchase_error(s: MarketState, id: Seq<char>, amount: u64) -> Option<CarbonError> {
    if amount == 0 {
        Some(CarbonError::ZeroAmountNotAllowed)
    } else if !s.listings.contains_key(id) {
        Some(CarbonError::ListingNotFound)
    } else if !s.listings[id].active || s.listings[id].available < amount {
        Some(CarbonError::InsufficientLiquidity)
    } else {
        None
    }
}

/// The listing after `amount` of it is bought; a sold-out listing closes.
pub open spec fn bought_listing(l: CreditListing, amount: u64) -> CreditListing {
    let left = (l.available - amount) as u64;
    CreditListing { available: left, active: if left == 0 { false } else { l.active }, ..l }
}

/// The state after a successful purchase.
pub open spec fn purchased_state(s: MarketState, id: Seq<char>, amount: u64) -> MarketState {
    with_listing(s, id, bought_listing(s.listings[id], amount))
}

/// What buying `amount` credits from the listing under `id` settles: the
/// buyer pays the listed price per tonne for each credit to the seller, and
/// is owed that many credits of the listed batch.
pub open spec fn settlement_of(s: MarketState, buyer: String, id: Seq<char>, amount: u64) -> Settlement {
    let l = s.listings[id];
    Settlement {
        buyer,
        seller: l.seller,
        batch_id: l.batch_id,
        credits: amount,
        payment: (amount * l.price_per_tonne) as u128,
    }
}

/// How a bulk purchase ends.
pub enum BulkOutcome {
    /// Every purchase went through, leaving this state.
    Completed(MarketState),
    /// A purchase was refused with this error; nothing is kept.
    Refused(CarbonError),
    /// The call cannot complete: an amount is missing, or no fee recipient
    /// is recorded.
    Aborted,
}

/// The outcome of purchasing `amounts[j]` from listing `ids[j]` for each
/// `j` from `i` on, starting in state `s`.
pub open spec fn bulk_from(s: MarketState, ids: Seq<Seq<char>>, amounts: Seq<u64>, i: nat) -> BulkOutcome
    decreases ids.len() - i,
{
    if i >= ids.len() {
        BulkOutcome::Completed(s)
    } else if i >= amounts.len() {
        BulkOutcome::Aborted
    } else {
        match purchase_error(s, ids[i as int], amounts[i as int]) {
            Some(e) => BulkOutcome::Refused(e),
            None => if s.fee_recipient is None {
                BulkOutcome::Aborted
            } else {
                bulk_from(purchased_state(s, ids[i as int], amounts[i as int]), ids, amounts, i + 1)
            },
        }
    }
}

/// The settlements of the purchases of a bulk purchase from `i` on, as far
/// as they go through.
pub open spec fn bulk_settlements(
    s: MarketState,
    buyer: String,
    ids: Seq<Seq<char>>,
    amounts: Seq<u64>,
    i: nat,
) -> Seq<Settlement>
    decreases ids.len() - i,
{
    if i >= ids.len() || i >= amounts.len() {
        Seq::empty()
    } else {
        match purchase_error(s, ids[i as int], amounts[i as int]) {
            Some(_) => Seq::empty(),
            None => if s.fee_recipient is None {
                Seq::empty()
            } else {
                seq![settlement_of(s, buyer, ids[i as int], amounts[i as int])] + bulk_settlements(
                    purchased_state(s, ids[i as int], amounts[i as int]),
                    buyer,
                    ids,
                    amounts,
                    i + 1,
                )
            },
        }
    }
}

/// The state after the first `k` purchases of a bulk purchase, each made
/// as a single purchase.
pub open spec fn purchases_applied(s: MarketState, ids: Seq<Seq<char>>, amounts: Seq<u64>, k: nat) -> MarketState
    decreases k,
{
    if k == 0 {
        s
    } else {
        let prev = purchases_applied(s, ids, amounts, (k - 1) as nat);
        purchased_state(prev, ids[k - 1], amounts[k - 1])
    }
}

/// Each of the first `k` purchases, made one after the other as single
/// purchases, goes through.
pub open spec fn purchases_succeed(s: MarketState, ids: Seq<Seq<char>>, amounts: Seq<u64>, k: nat) -> bool {
    forall|j: nat|
        #![trigger purchases_applied(s, ids, amounts, j)]
        j < k ==> purchase_error(purchases_applied(s, ids, amounts, j), ids[j as int], amounts[j as int]) is None
}

/// The settlements of the first `k` purchases, made one after the other as
/// single purchases.
pub open spec fn settled_prefix(
    s: MarketState,
    buyer: String,
    ids: Seq<Seq<char>>,
    amounts: Seq<u64>,
    k: nat,
) -> Seq<Settlement> {
    Seq::new(k, |j: int| settlement_of(purchases_applied(s, ids, amounts, j as nat), buyer, ids[j], amounts[j]))
}

/// How a bulk purchase would end, without its resulting state.
#[derive(Clone, Copy, Debug, PartialEq, Eq)]
pub enum BulkCheck {
    Completes,
    Refused(CarbonError),
    Aborts,
}

/// The listing ids of a bulk purchase, as views.
pub open spec fn id_views(ids: Seq<String>) -> Seq<Seq<char>> {
    ids.map_values(|s: String| s@)
}

/// No listing offers more than it was listed with.
pub open spec fn listings_consistent(s: MarketState) -> bool {
    forall|k: Seq<char>| #[trigger] s.listings.contains_key(k) ==> s.listings[k].available <= s.listings[k].amount
}

/// Listing, delisting and purchasing keep every listing within what it was
/// listed with.
pub proof fn lemma_listing_operations_consistent(
    s: MarketState,
    seller: String,
    id: String,
    batch_id: String,
    project_id: String,
    amount: u64,
    price_per_tonne: u64,
    vintage_year: u32,
    methodology: String,
    country: String,
    now: u64,
    key: Seq<char>,
    bought: u64,
)
    requires
        listings_consistent(s),
    ensures
        listings_consistent(
            with_listing(
                s,
                id@,
                new_listing(seller, id, batch_id, project_id, amount, price_per_tonne, vintage_year, methodology, country, now),
            ),
        ),
        s.listings.contains_key(key) ==> listings_consistent(
            with_listing(s, key, CreditListing { active: false, ..s.listings[key] }),
        ),
        purchase_error(s, key, bought) is None ==> listings_consistent(purchased_state(s, key, bought)),
{
    if purchase_error(s, key, bought) is None {
        let t = purchased_state(s, key, bought);
        assert forall|k: Seq<char>| #[trigger] t.listings.contains_key(k) implies t.listings[k].available
            <= t.listings[k].amount by {
            assert(s.listings.contains_key(k));
        }
    }
    if s.listings.contains_key(key) {
        let closed = CreditListing { active: false, ..s.listings[key] };
        let t = with_listing(s, key, closed);
        assert forall|k: Seq<char>| #[trigger] t.listings.contains_key(k) implies t.listings[k].available
            <= t.listings[k].amount by {
            assert(s.listings.contains_key(k));
        }
    }
}

/// A completed bulk purchase keeps every listing within what it was listed
/// with.
pub proof fn lemma_bulk_consistent(s: MarketState, ids: Seq<Seq<char>>, amounts: Seq<u64>, i: nat)
    requires
        listings_consistent(s),
    ensures
        bulk_from(s, ids, amounts, i) matches BulkOutcome::Completed(t) ==> listings_consistent(t),
    decreases ids.len() - i,
{
    if i < ids.len() && i < amounts.len() && purchase_error(s, ids[i as int], amounts[i as int]) is None
        && s.fee_recipient is Some {
        let t = purchased_state(s, ids[i as int], amounts[i as int]);
        assert forall|k: Seq<char>| #[trigger] t.listings.contains_key(k) implies t.listings[k].available
            <= t.listings[k].amount by {
            assert(s.listings.contains_key(k));
        }
        lemma_bulk_consistent(t, ids, amounts, i + 1);
    }
}

/// A purchase takes exactly `amount` from the listing and closes it when
/// nothing is left; a closed listing refuses every further purchase.
pub proof fn lemma_purchase_outcomes(s: MarketState, seller: Seq<char>, id: Seq<char>, amount: u64, next: u64)
    ensures
        purchase_error(s, id, amount) is None ==> {
            let l = purchased_state(s, id, amount).listings[id];
            &&& l.available == s.listings[id].available - amount
            &&& (l.available == 0 ==> !l.active)
            &&& (l.available == 0 && next > 0 ==> purchase_error(purchased_state(s, id, amount), id, next)
                == Some(CarbonError::InsufficientLiquidity))
        },
        delist_error(s, seller, id) is None && next > 0 ==> purchase_error(
            with_listing(s, id, CreditListing { active: false, ..s.listings[id] }),
            id,
            next,
        ) == Some(CarbonError::InsufficientLiquidity),
{
}

/// Purchases keep the recorded accounts.
pub proof fn lemma_purchases_keep_accounts(s: MarketState, ids: Seq<Seq<char>>, amounts: Seq<u64>, k: nat)
    ensures
        purchases_applied(s, ids, amounts, k).fee_recipient == s.fee_recipient,
    decreases k,
{
    if k > 0 {
        lemma_purchases_keep_accounts(s, ids, amounts, (k - 1) as nat);
    }
}

/// When the first `k` purchases go through one after the other, a bulk
/// purchase has made exactly those purchases, with their settlements, by
/// the time it reaches the `k`-th.
pub proof fn lemma_bulk_prefix(s: MarketState, buyer: String, ids: Seq<Seq<char>>, amounts: Seq<u64>, k: nat)
    requires
        s.fee_recipient is Some,
        k <= ids.len(),
        k <= amounts.len(),
        purchases_succeed(s, ids, amounts, k),
    ensures
        bulk_from(s, ids, amounts, 0) == bulk_from(purchases_applied(s, ids, amounts, k), ids, amounts, k),
        bulk_settlements(s, buyer, ids, amounts, 0) == settled_prefix(s, buyer, ids, amounts, k)
            + bulk_settlements(purchases_applied(s, ids, amounts, k), buyer, ids, amounts, k),
    decreases k,
{
    if k == 0 {
        assert(settled_prefix(s, buyer, ids, amounts, 0) =~= Seq::empty());
        assert(Seq::<Settlement>::empty() + bulk_settlements(s, buyer, ids, amounts, 0) =~= bulk_settlements(
            s,
            buyer,
            ids,
            amounts,
            0,
        ));
    } else {
        let j = (k - 1) as nat;
        assert(purchases_succeed(s, ids, amounts, j));
        lemma_bulk_prefix(s, buyer, ids, amounts, j);
        let w = purchases_applied(s, ids, amounts, j);
        lemma_purchases_keep_accounts(s, ids, amounts, j);
        assert(purchase_error(w, ids[j as int], amounts[j as int]) is None);
        assert(purchases_applied(s, ids, amounts, k) == purchased_state(w, ids[j as int], amounts[j as int]));
        let x = settlement_of(w, buyer, ids[j as int], amounts[j as int]);
        let rest = bulk_settlements(purchases_applied(s, ids, amounts, k), buyer, ids, amounts, k);
        assert(bulk_settlements(w, buyer, ids, amounts, j) == seq![x] + rest);
        assert(settled_prefix(s, buyer, ids, amounts, k) =~= settled_prefix(s, buyer, ids, amounts, j).push(x));
        assert(settled_prefix(s, buyer, ids, amounts, j) + (seq![x] + rest) =~= settled_prefix(
            s,
            buyer,
            ids,
            amounts,
            k,
        ) + rest);
    }
}

/// A bulk purchase is atomic: it goes through exactly when each of its
/// purchases, made in order as single purchases, goes through, and then it
/// leaves the state and the settlements of those purchases; otherwise it is
/// refused with the error of the first purchase refused, and nothing is
/// kept.
pub proof fn lemma_bulk_atomic(s: MarketState, buyer: String, ids: Seq<Seq<char>>, amounts: Seq<u64>)
    requires
        s.fee_recipient is Some,
        ids.len() <= amounts.len(),
    ensures
        purchases_succeed(s, ids, amounts, ids.len()) ==> {
            &&& bulk_from(s, ids, amounts, 0) == BulkOutcome::Completed(
                purchases_applied(s, ids, amounts, ids.len()),
            )
            &&& bulk_settlements(s, buyer, ids, amounts, 0) == settled_prefix(s, buyer, ids, amounts, ids.len())
        },
        forall|k: nat|
            #![trigger purchases_applied(s, ids, amounts, k)]
            k < ids.len() && purchases_succeed(s, ids, amounts, k) && purchase_error(
                purchases_applied(s, ids, amounts, k),
                ids[k as int],
                amounts[k as int],
            ) is Some ==> bulk_from(s, ids, amounts, 0) == BulkOutcome::Refused(
                purchase_error(purchases_applied(s, ids, amounts, k), ids[k as int], amounts[k as int])->0,
            ),
{
    if purchases_succeed(s, ids, amounts, ids.len()) {
        lemma_bulk_prefix(s, buyer, ids, amounts, ids.len());
        let t = purchases_applied(s, ids, amounts, ids.len());
        assert(settled_prefix(s, buyer, ids, amounts, ids.len()) + Seq::<Settlement>::empty() =~= settled_prefix(
            s,
            buyer,
            ids,
            amounts,
            ids.len(),
        ));
    }
    assert forall|k: nat|
        #![trigger purchases_applied(s, ids, amounts, k)]
        k < ids.len() && purchases_succeed(s, ids, amounts, k) && purchase_error(
            purchases_applied(s, ids, amounts, k),
            ids[k as int],
            amounts[k as int],
        ) is Some implies bulk_from(s, ids, amounts, 0) == BulkOutcome::Refused(
            purchase_error(purchases_applied(s, ids, amounts, k), ids[k as int], amounts[k as int])->0,
        ) by {
        lemma_bulk_prefix(s, buyer, ids, amounts, k);
    }
}

/// Every field of a listing other than what is left of it and whether it is
/// open is the same in `l` and `m`.
pub open spec fn same_offer(l: CreditListing, m: CreditListing) -> bool {
    &&& l.id == m.id
    &&& l.seller == m.seller
    &&& l.batch_id == m.batch_id
    &&& l.project_id == m.project_id
    &&& l.amount == m.amount
    &&& l.price_per_tonne == m.price_per_tonne
    &&& l.vintage_year == m.vintage_year
    &&& l.methodology == m.methodology
    &&& l.country == m.country
    &&& l.listed_at == m.listed_at
}

/// What listing, delisting and purchasing write can be read back. A new
/// listing carries the seller, id, batch, project, amount, price, vintage,
/// methodology and country given, all of it available, open, listed at
/// `now`. Delisting only closes the listing. A purchase only lowers what is
/// left by `amount` (closing a sold-out listing), and settles a payment of
/// `amount` times the listed price from the buyer to the listing's seller
/// for `amount` credits of the listed batch. None of them touches another
/// listing.
pub proof fn lemma_listing_readable(
    s: MarketState,
    seller: String,
    id: String,
    batch_id: String,
    project_id: String,
    amount: u64,
    price_per_tonne: u64,
    vintage_year: u32,
    methodology: String,
    country: String,
    now: u64,
    key: Seq<char>,
    bought: u64,
    buyer: String,
    other: Seq<char>,
)
    ensures
        ({
            let t = with_listing(
                s,
                id@,
                new_listing(seller, id, batch_id, project_id, amount, price_per_tonne, vintage_year, methodology, country, now),
            );
            let l = t.listings[id@];
            &&& t.listings.contains_key(id@)
            &&& l.id == id
            &&& l.seller == seller
            &&& l.batch_id == batch_id
            &&& l.project_id == project_id
            &&& l.amount == amount
            &&& l.available == amount
            &&& l.price_per_tonne == price_per_tonne
            &&& l.vintage_year == vintage_year
            &&& l.methodology == methodology
            &&& l.country == country
            &&& l.listed_at == now
            &&& l.active
            &&& (other != id@ ==> t.listings.contains_key(other) == s.listings.contains_key(other)
                && t.listings[other] == s.listings[other])
        }),
        s.listings.contains_key(key) ==> {
            let t = with_listing(s, key, CreditListing { active: false, ..s.listings[key] });
            &&& !t.listings[key].active
            &&& t.listings[key].available == s.listings[key].available
            &&& same_offer(t.listings[key], s.listings[key])
            &&& (other != key ==> t.listings[other] == s.listings[other])
        },
        purchase_error(s, key, bought) is None ==> {
            let l = s.listings[key];
            let t = purchased_state(s, key, bought);
            let st = settlement_of(s, buyer, key, bought);
            &&& t.listings[key].available == l.available - bought
            &&& t.listings[key].active == (l.available - bought > 0)
            &&& same_offer(t.listings[key], l)
            &&& (other != key ==> t.listings.contains_key(other) == s.listings.contains_key(other)
                && t.listings[other] == s.listings[other])
            &&& st.buyer == buyer
            &&& st.seller == l.seller
            &&& st.batch_id == l.batch_id
            &&& st.credits == bought
            &&& st.payment == bought * l.price_per_tonne
        },
{
    if purchase_error(s, key, bought) is None {
        let l = s.listings[key];
        assert(0 <= bought * l.price_per_tonne <= u128::MAX) by (nonlinear_arith)
            requires
                bought <= u64::MAX,
                l.price_per_tonne <= u64::MAX,
        ;
    }
}

/// A bulk purchase of one listing is that single purchase.
pub proof fn lemma_bulk_single(s: MarketState, id: Seq<char>, amount: u64)
    requires
        s.fee_recipient is Some,
    ensures
        bulk_from(s, seq![id], seq![amount], 0) == (match purchase_error(s, id, amount) {
            Some(e) => BulkOutcome::Refused(e),
            None => BulkOutcome::Completed(purchased_state(s, id, amount)),
        }),
{
    reveal_with_fuel(bulk_from, 2);
}

/// The marketplace contract: its storage and the calls that change it.
pub struct CarbonMarketplace {
    admin: Option<String>,
    fee_recipient: Option<String>,
    listings: Table<String, CreditListing>,
}

impl View for CarbonMarketplace {
    type V = MarketState;

    closed spec fn view(&self) -> MarketState {
        MarketState {
            admin: account_view(self.admin),
            fee_recipient: account_view(self.fee_recipient),
            listings: self.listings@,
        }
    }
}

/// A copy of an optional account.
fn account_copy(a: &Option<String>) -> (r: Option<String>)
    ensures
        r == *a,
{
    match a {
        Some(s) => Some(s.clone()),
        None => None,
    }
}

impl CarbonMarketplace {
    /// The listing table is well formed.
    pub closed spec fn wf(&self) -> bool {
        self.listings.wf()
    }

    /// A freshly deployed marketplace: nothing stored.
    pub fn new() -> (c: Self)
        ensures
            c.wf(),
            c@ == (MarketState { admin: None, fee_recipient: None, listings: Map::empty() }),
    {
        CarbonMarketplace { admin: None, fee_recipient: None, listings: Table::new() }
    }

    /// The marketplace as stored: its accounts from instance storage, with
    /// no listing loaded yet.
    pub fn restore(admin: Option<String>, fee_recipient: Option<String>) -> (c: Self)
        ensures
            c.wf(),
            c@ == (MarketState {
                admin: account_view(admin),
                fee_recipient: account_view(fee_recipient),
                listings: Map::empty(),
            }),
    {
        CarbonMarketplace { admin, fee_recipient, listings: Table::new() }
    }

    /// Loads a stored listing under `id`.
    pub fn load_listing(&mut self, id: &String, listing: CreditListing)
        requires
            old(self).wf(),
        ensures
            final(self).wf(),
            final(self)@ == with_listing(old(self)@, id@, listing),
    {
        self.store_listing(id, listing);
    }

    /// Records the administrator and the account that receives fees.
    pub fn initialize(&mut self, admin: String, fee_recipient: String)
        requires
            old(self).wf(),
        ensures
            final(self).wf(),
            final(self)@ == (MarketState {
                admin: Some(admin@),
                fee_recipient: Some(fee_recipient@),
                ..old(self)@
            }),
    {
        self.admin = Some(admin);
        self.fee_recipient = Some(fee_recipient);
    }

    /// A copy of the whole marketplace.
    fn replica(&self) -> (r: Self)
        requires
            self.wf(),
        ensures
            r.wf(),
            r@ == self@,
    {
        CarbonMarketplace {
            admin: account_copy(&self.admin),
            fee_recipient: account_copy(&self.fee_recipient),
            listings: self.listings.replica(),
        }
    }

    /// The stored listing under `id`, copied out.
    fn listing_copy(&self, id: &String) -> (r: Option<CreditListing>)
        requires
            self.wf(),
        ensures
            match r {
                Some(l) => self@.listings.contains_key(id@) && l == self@.listings[id@],
                None => !self@.listings.contains_key(id@),
            },
    {
        match self.listings.get(id) {
            Some(l) => Some(l.replica()),
            None => None,
        }
    }

    /// Stores `l` under `id`.
    fn store_listing(&mut self, id: &String, l: CreditListing)
        requires
            old(self).wf(),
        ensures
            final(self).wf(),
            final(self)@ == with_listing(old(self)@, id@, l),
    {
        let ghost gl = l;
        self.listings.insert(id.clone(), l);
        assert(self@ =~= with_listing(old(self)@, id@, gl));
    }

    /// Lists `amount` credits of `batch_id` for sale under `id`. A listing
    /// of the same seller stored there is replaced; one of another seller is
    /// refused and kept. `seller` is the account whose authorisation the
    /// host has checked.
    pub fn list_credits(
        &mut self,
        seller: String,
        id: String,
        batch_id: String,
        project_id: String,
        amount: u64,
        price_per_tonne: u64,
        vintage_year: u32,
        methodology: String,
        country: String,
        now: u64,
    ) -> (r: Result<(), CarbonError>)
        requires
            old(self).wf(),
        ensures
            final(self).wf(),
            match list_error(old(self)@, seller@, id@, amount) {
                Some(e) => r == Err::<(), CarbonError>(e) && final(self)@ == old(self)@,
                None => r is Ok && final(self)@ == with_listing(
                    old(self)@,
                    id@,
                    new_listing(
                        seller,
                        id,
                        batch_id,
                        project_id,
                        amount,
                        price_per_tonne,
                        vintage_year,
                        methodology,
                        country,
                        now,
                    ),
                ),
            },
    {
        if amount == 0 {
            return Err(CarbonError::ZeroAmountNotAllowed);
        }
        match self.listings.get(&id) {
            Some(l) => if l.seller != seller {
                return Err(CarbonError::UnauthorizedVerifier);
            },
            None => {},
        }
        let key = id.clone();
        let listing = CreditListing {
            id,
            seller,
            batch_id,
            project_id,
            amount,
            available: amount,
            price_per_tonne,
            vintage_year,
            methodology,
            country,
            listed_at: now,
            active: true,
        };
        self.store_listing(&key, listing);
        Ok(())
    }

    /// Closes the listing under `id`; only its seller may do so.
    pub fn delist_credits(&mut self, seller: &String, id: &String) -> (r: Result<(), CarbonError>)
        requires
            old(self).wf(),
        ensures
            final(self).wf(),
            match delist_error(old(self)@, seller@, id@) {
                Some(e) => r == Err::<(), CarbonError>(e) && final(self)@ == old(self)@,
                None => r is Ok && final(self)@ == with_listing(
                    old(self)@,
                    id@,
                    CreditListing { active: false, ..old(self)@.listings[id@] },
                ),
            },
    {
        let mut listing = match self.listing_copy(id) {
            Some(l) => l,
            None => return Err(CarbonError::ListingNotFound),
        };
        if listing.seller != *seller {
            return Err(CarbonError::UnauthorizedVerifier);
        }
        listing.active = false;
        self.store_listing(id, listing);
        Ok(())
    }

    /// Why buying `amount` credits from the listing under `id` would be
    /// refused, if it would.
    pub fn purchase_refusal(&self, id: &String, amount: u64) -> (r: Option<CarbonError>)
        requires
            self.wf(),
        ensures
            r == purchase_error(self@, id@, amount),
    {
        if amount == 0 {
            return Some(CarbonError::ZeroAmountNotAllowed);
        }
        match self.listings.get(id) {
            None => Some(CarbonError::ListingNotFound),
            Some(l) => if !l.active || l.available < amount {
                Some(CarbonError::InsufficientLiquidity)
            } else {
                None
            },
        }
    }

    /// How buying `amounts[i]` credits from listing `ids[i]` for every `i`
    /// would end, without buying anything.
    pub fn bulk_outcome(&self, ids: &Vec<String>, amounts: &Vec<u64>) -> (r: BulkCheck)
        requires
            self.wf(),
        ensures
            r == (match bulk_from(self@, id_views(ids@), amounts@, 0) {
                BulkOutcome::Completed(_) => BulkCheck::Completes,
                BulkOutcome::Refused(e) => BulkCheck::Refused(e),
                BulkOutcome::Aborted => BulkCheck::Aborts,
            }),
    {
        let ghost idv = id_views(ids@);
        let mut work = self.replica();
        let mut i: usize = 0;
        while i < ids.len()
            invariant
                work.wf(),
                idv == id_views(ids@),
                i <= ids@.len(),
                bulk_from(self@, idv, amounts@, 0) == bulk_from(work@, idv, amounts@, i as nat),
            decreases ids@.len() - i,
        {
            assert(idv[i as int] == ids@[i as int]@);
            if i >= amounts.len() {
                return BulkCheck::Aborts;
            }
            match work.purchase_refusal(&ids[i], amounts[i]) {
                Some(e) => {
                    return BulkCheck::Refused(e);
                },
                None => {},
            }
            if work.fee_recipient.is_none() {
                return BulkCheck::Aborts;
            }
            let _ = work.take_from_listing(&ids[i], amounts[i]);
            i = i + 1;
        }
        BulkCheck::Completes
    }

    /// Takes `amount` credits from the listing under `id`, and returns the
    /// listing as it stood before.
    fn take_from_listing(&mut self, id: &String, amount: u64) -> (r: Result<CreditListing, CarbonError>)
        requires
            old(self).wf(),
        ensures
            final(self).wf(),
            match purchase_error(old(self)@, id@, amount) {
                Some(e) => r == Err::<CreditListing, CarbonError>(e) && final(self)@ == old(self)@,
                None => r == Ok::<CreditListing, CarbonError>(old(self)@.listings[id@]) && final(self)@
                    == purchased_state(old(self)@, id@, amount),
            },
    {
        if amount == 0 {
            return Err(CarbonError::ZeroAmountNotAllowed);
        }
        let mut listing = match self.listing_copy(id) {
            Some(l) => l,
            None => return Err(CarbonError::ListingNotFound),
        };
        if !listing.active || listing.available < amount {
            return Err(CarbonError::InsufficientLiquidity);
        }
        let before = listing.replica();
        listing.available = listing.available - amount;
        if listing.available == 0 {
            listing.active = false;
        }
        self.store_listing(id, listing);
        Ok(before)
    }

    /// Buys `amount` credits from the listing under `id`, and returns what
    /// the purchase settles: the payment owed to the seller and the credits
    /// owed to the buyer. `buyer` is the account whose authorisation the
    /// host has checked.
    pub fn purchase_credits(&mut self, buyer: &String, id: &String, amount: u64) -> (r: Result<Settlement, CarbonError>)
        requires
            old(self).wf(),
            purchase_error(old(self)@, id@, amount) is Some || old(self)@.fee_recipient is Some,
        ensures
            final(self).wf(),
            match purchase_error(old(self)@, id@, amount) {
                Some(e) => r == Err::<Settlement, CarbonError>(e) && final(self)@ == old(self)@,
                None => r == Ok::<Settlement, CarbonError>(settlement_of(old(self)@, *buyer, id@, amount))
                    && final(self)@ == purchased_state(old(self)@, id@, amount),
            },
    {
        let listing = match self.take_from_listing(id, amount) {
            Ok(l) => l,
            Err(e) => return Err(e),
        };
        let credits: u128 = amount as u128;
        let price: u128 = listing.price_per_tonne as u128;
        assert(credits * price <= 0xffff_ffff_ffff_ffff_ffff_ffff_ffff_ffffu128) by (nonlinear_arith)
            requires
                credits <= 0xffff_ffff_ffff_ffff_u128,
                price <= 0xffff_ffff_ffff_ffff_u128,
        ;
        Ok(Settlement {
            buyer: buyer.clone(),
            seller: listing.seller,
            batch_id: listing.batch_id,
            credits: amount,
            payment: credits * price,
        })
    }

    /// Buys `amounts[i]` credits from listing `ids[i]` for every `i`, in
    /// order, and returns the settlement of each purchase; if any purchase
    /// is refused, none is kept.
    pub fn bulk_purchase(&mut self, buyer: &String, ids: &Vec<String>, amounts: &Vec<u64>) -> (r: Result<
        Vec<Settlement>,
        CarbonError,
    >)
        requires
            old(self).wf(),
            !(bulk_from(old(self)@, id_views(ids@), amounts@, 0) is Aborted),
        ensures
            final(self).wf(),
            match bulk_from(old(self)@, id_views(ids@), amounts@, 0) {
                BulkOutcome::Completed(s) => match r {
                    Ok(v) => v@ == bulk_settlements(old(self)@, *buyer, id_views(ids@), amounts@, 0)
                        && final(self)@ == s,
                    Err(_) => false,
                },
                BulkOutcome::Refused(e) => r == Err::<Vec<Settlement>, CarbonError>(e) && final(self)@ == old(self)@,
                BulkOutcome::Aborted => false,
            },
    {
        let ghost idv = id_views(ids@);
        let ghost start = self@;
        let mut work = self.replica();
        let mut settled: Vec<Settlement> = Vec::new();
        let mut i: usize = 0;
        while i < ids.len()
            invariant
                work.wf(),
                self.wf(),
                self@ == start,
                idv == id_views(ids@),
                i <= ids@.len(),
                bulk_from(start, idv, amounts@, 0) == bulk_from(work@, idv, amounts@, i as nat),
                bulk_settlements(start, *buyer, idv, amounts@, 0) == settled@ + bulk_settlements(
                    work@,
                    *buyer,
                    idv,
                    amounts@,
                    i as nat,
                ),
                !(bulk_from(start, idv, amounts@, 0) is Aborted),
            decreases ids@.len() - i,
        {
            assert(idv[i as int] == ids@[i as int]@);
            if i >= amounts.len() {
                assert(bulk_from(work@, idv, amounts@, i as nat) is Aborted);
                assert(false);
            }
            let ghost before = work@;
            let r = work.purchase_credits(buyer, &ids[i], amounts[i]);
            match r {
                Err(e) => {
                    return Err(e);
                },
                Ok(st) => {
                    let ghost rest = bulk_settlements(work@, *buyer, idv, amounts@, (i + 1) as nat);
                    assert(bulk_settlements(before, *buyer, idv, amounts@, i as nat) == seq![st] + rest);
                    let ghost done = settled@;
                    settled.push(st);
                    assert(done + (seq![st] + rest) =~= settled@ + rest);
                },
            }
            i = i + 1;
        }
        assert(settled@ + Seq::<Settlement>::empty() =~= settled@);
        *self = work;
        Ok(settled)
    }

    /// The listing stored under `id`.
    pub fn get_listing(&self, id: &String) -> (r: Result<CreditListing, CarbonError>)
        requires
            self.wf(),
        ensures
            r == (if self@.listings.contains_key(id@) {
                Ok::<CreditListing, CarbonError>(self@.listings[id@])
            } else {
                Err(CarbonError::ListingNotFound)
            }),
    {
        match self.listing_copy(id) {
            Some(l) => Ok(l),
            None => Err(CarbonError::ListingNotFound),
        }
    }
}

} // verus!
