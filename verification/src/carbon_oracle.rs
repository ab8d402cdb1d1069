//! Oracle: satellite monitoring data per project, benchmark prices per
//! methodology and vintage, and investigation flags, all pushed by the one
//! recorded oracle account.
use vstd::prelude::*;
use crate::table::{account_view, Replica, Table};
pub use crate::error::CarbonError;

verus! {

/// How long monitoring data stays current, in seconds (365 days).
pub const MONITORING_VALIDITY_SECONDS: u64 = 31536000;

/// One monitoring report for a project.
#[derive(Clone, Debug, PartialEq, Eq)]
pub struct MonitoringData {
    pub project_id: String,
    pub submitted_by: String,
    pub data_hash: [u8; 32],
    pub sequestration_tonnes: u64,
    pub period_start: u64,
    pub period_end: u64,
    pub submitted_at: u64,
    pub source: String,
}

/// A benchmark price for one methodology and vintage.
#[derive(Clone, Debug, PartialEq, Eq)]
pub struct PriceData {
    pub methodology: String,
    pub vintage_year: u32,
    pub price_per_tonne: u64,
    pub source: String,
    pub updated_at: u64,
}

impl Replica for MonitoringData {
    fn replica(&self) -> (r: Self) {
        MonitoringData {
            project_id: self.project_id.clone(),
            submitted_by: self.submitted_by.clone(),
            data_hash: self.data_hash,
            sequestration_tonnes: self.sequestration_tonnes,
            period_start: self.period_start,
            period_end: self.period_end,
            submitted_at: self.submitted_at,
            source: self.source.clone(),
        }
    }
}

impl Replica for PriceData {
    fn replica(&self) -> (r: Self) {
        PriceData {
            methodology: self.methodology.clone(),
            vintage_year: self.vintage_year,
            price_per_tonne: self.price_per_tonne,
            source: self.source.clone(),
            updated_at: self.updated_at,
        }
    }
}

/// The stored state of the oracle contract.
#[verifier::ext_equal]
pub struct OracleState {
    pub admin: Option<Seq<char>>,
    pub oracle: Option<Seq<char>>,
    /// Latest monitoring report by project id.
    pub monitoring: Map<Seq<char>, MonitoringData>,
    /// Benchmark prices by (methodology, vintage year).
    pub prices: Map<(Seq<char>, u32), PriceData>,
    /// Investigation flags by project id.
    pub flags: Map<Seq<char>, bool>,
}

/// Whether `oracle` is the recorded oracle account.
pub open spec fn is_oracle(s: OracleState, oracle: Seq<char>) -> bool {
    s.oracle == Some(oracle)
}

/// Whether monitoring data for `project_id` exists and was submitted no more
/// than the validity period before `now`.
pub open spec fn monitoring_current(s: OracleState, project_id: Seq<char>, now: u64) -> bool {
    s.monitoring.contains_key(project_id)
        && !(now > s.monitoring[project_id].submitted_at + MONITORING_VALIDITY_SECONDS)
}

/// Whether a project is flagged; an unflagged project reads as false.
pub open spec fn flagged_in(s: OracleState, project_id: Seq<char>) -> bool {
    s.flags.contains_key(project_id) && s.flags[project_id]
}

/// The state after a monitoring report is stored.
pub open spec fn submitted_state(
    s: OracleState,
    oracle: String,
    project_id: String,
    data_hash: [u8; 32],
    sequestration_tonnes: u64,
    period_start: u64,
    period_end: u64,
    source: String,
    now: u64,
) -> OracleState {
    OracleState {
        monitoring: s.monitoring.insert(
            project_id@,
            MonitoringData {
                project_id,
                submitted_by: oracle,
                data_hash,
                sequestration_tonnes,
                period_start,
                period_end,
                submitted_at: now,
                source,
            },
        ),
        ..s
    }
}

/// The state after a benchmark price is stored.
pub open spec fn priced_state(
    s: OracleState,
    methodology: String,
    vintage_year: u32,
    price_per_tonne: u64,
    source: String,
    now: u64,
) -> OracleState {
    OracleState {
        prices: s.prices.insert(
            (methodology@, vintage_year),
            PriceData { methodology, vintage_year, price_per_tonne, source, updated_at: now },
        ),
        ..s
    }
}

/// The state after a project is flagged.
pub open spec fn flagged_state(s: OracleState, project_id: Seq<char>) -> OracleState {
    OracleState { flags: s.flags.insert(project_id, true), ..s }
}

/// Monitoring data submitted at `now` reads as current at `later` exactly
/// when `later` is no more than the validity period after `now`.
pub proof fn lemma_monitoring_freshness(
    s: OracleState,
    oracle: String,
    project_id: String,
    data_hash: [u8; 32],
    sequestration_tonnes: u64,
    period_start: u64,
    period_end: u64,
    source: String,
    now: u64,
    later: u64,
)
    ensures
        monitoring_current(
            submitted_state(s, oracle, project_id, data_hash, sequestration_tonnes, period_start, period_end, source, now),
            project_id@,
            later,
        ) == (later <= now + MONITORING_VALIDITY_SECONDS),
{
}

/// What the oracle stores can be read back. The report under the project
/// carries every submitted field as given (project, submitting oracle, data
/// hash, sequestered tonnes, reporting period, source) and the submission
/// time; the benchmark price under (methodology, vintage) carries the
/// methodology, vintage, price and source given and the update time; the
/// flag reads as set. Each leaves every other entry as it was.
pub proof fn lemma_oracle_readable(
    s: OracleState,
    oracle: String,
    project_id: String,
    data_hash: [u8; 32],
    sequestration_tonnes: u64,
    period_start: u64,
    period_end: u64,
    source: String,
    methodology: String,
    vintage_year: u32,
    price_per_tonne: u64,
    now: u64,
    other: Seq<char>,
    other_key: (Seq<char>, u32),
)
    ensures
        ({
            let t = submitted_state(s, oracle, project_id, data_hash, sequestration_tonnes, period_start, period_end, source, now);
            let m = t.monitoring[project_id@];
            &&& t.monitoring.contains_key(project_id@)
            &&& m.project_id == project_id
            &&& m.submitted_by == oracle
            &&& m.data_hash == data_hash
            &&& m.sequestration_tonnes == sequestration_tonnes
            &&& m.period_start == period_start
            &&& m.period_end == period_end
            &&& m.source == source
            &&& m.submitted_at == now
            &&& (other != project_id@ ==> t.monitoring.contains_key(other) == s.monitoring.contains_key(other)
                && t.monitoring[other] == s.monitoring[other])
            &&& t.prices == s.prices
            &&& t.flags == s.flags
        }),
        ({
            let t = priced_state(s, methodology, vintage_year, price_per_tonne, source, now);
            let p = t.prices[(methodology@, vintage_year)];
            &&& t.prices.contains_key((methodology@, vintage_year))
            &&& p.methodology == methodology
            &&& p.vintage_year == vintage_year
            &&& p.price_per_tonne == price_per_tonne
            &&& p.source == source
            &&& p.updated_at == now
            &&& (other_key != (methodology@, vintage_year) ==> t.prices.contains_key(other_key)
                == s.prices.contains_key(other_key) && t.prices[other_key] == s.prices[other_key])
            &&& t.monitoring == s.monitoring
            &&& t.flags == s.flags
        }),
        flagged_in(flagged_state(s, project_id@), project_id@),
        other != project_id@ ==> flagged_in(flagged_state(s, project_id@), other) == flagged_in(s, other),
        flagged_state(s, project_id@).monitoring == s.monitoring,
        flagged_state(s, project_id@).prices == s.prices,
{
}

/// The oracle contract: its storage and the calls that change it.
pub struct CarbonOracle {
    admin: Option<String>,
    oracle: Option<String>,
    monitoring: Table<String, MonitoringData>,
    prices: Table<(String, u32), PriceData>,
    flags: Table<String, bool>,
}

impl View for CarbonOracle {
    type V = OracleState;

    closed spec fn view(&self) -> OracleState {
        OracleState {
            admin: account_view(self.admin),
            oracle: account_view(self.oracle),
            monitoring: self.monitoring@,
            prices: self.prices@,
            flags: self.flags@,
        }
    }
}

impl CarbonOracle {
    /// The storage tables are well formed.
    pub closed spec fn wf(&self) -> bool {
        &&& self.monitoring.wf()
        &&& self.prices.wf()
        &&& self.flags.wf()
    }

    /// A freshly deployed oracle contract: nothing stored.
    pub fn new() -> (c: Self)
        ensures
            c.wf(),
            c@ == (OracleState {
                admin: None,
                oracle: None,
                monitoring: Map::empty(),
                prices: Map::empty(),
                flags: Map::empty(),
            }),
    {
        CarbonOracle {
            admin: None,
            oracle: None,
            monitoring: Table::new(),
            prices: Table::new(),
            flags: Table::new(),
        }
    }

    /// The oracle contract as stored: its accounts from instance storage,
    /// with no persistent entry loaded yet.
    pub fn restore(admin: Option<String>, oracle: Option<String>) -> (c: Self)
        ensures
            c.wf(),
            c@ == (OracleState {
                admin: account_view(admin),
                oracle: account_view(oracle),
                monitoring: Map::empty(),
                prices: Map::empty(),
                flags: Map::empty(),
            }),
    {
        CarbonOracle { admin, oracle, monitoring: Table::new(), prices: Table::new(), flags: Table::new() }
    }

    /// Loads a stored monitoring report under `project_id`.
    pub fn load_monitoring(&mut self, project_id: String, data: MonitoringData)
        requires
            old(self).wf(),
        ensures
            final(self).wf(),
            final(self)@ == (OracleState { monitoring: old(self)@.monitoring.insert(project_id@, data), ..old(self)@ }),
    {
        let ghost (gk, gd) = (project_id, data);
        self.monitoring.insert(project_id, data);
        assert(self@ =~= (OracleState { monitoring: old(self)@.monitoring.insert(gk@, gd), ..old(self)@ }));
    }

    /// Loads a stored benchmark price under its methodology and vintage.
    pub fn load_price(&mut self, price: PriceData)
        requires
            old(self).wf(),
        ensures
            final(self).wf(),
            final(self)@ == (OracleState {
                prices: old(self)@.prices.insert((price.methodology@, price.vintage_year), price),
                ..old(self)@
            }),
    {
        let ghost gp = price;
        self.prices.insert((price.methodology.clone(), price.vintage_year), price);
        assert(self@ =~= (OracleState {
            prices: old(self)@.prices.insert((gp.methodology@, gp.vintage_year), gp),
            ..old(self)@
        }));
    }

    /// Loads a stored flag under `project_id`.
    pub fn load_flag(&mut self, project_id: &String, flag: bool)
        requires
            old(self).wf(),
        ensures
            final(self).wf(),
            final(self)@ == (OracleState { flags: old(self)@.flags.insert(project_id@, flag), ..old(self)@ }),
    {
        self.flags.insert(project_id.clone(), flag);
        assert(self@ =~= (OracleState { flags: old(self)@.flags.insert(project_id@, flag), ..old(self)@ }));
    }

    /// Records the administrator.
    pub fn initialize(&mut self, admin: String)
        requires
            old(self).wf(),
        ensures
            final(self).wf(),
            final(self)@ == (OracleState { admin: Some(admin@), ..old(self)@ }),
    {
        self.admin = Some(admin);
    }

    /// Records the oracle account. `admin` is the account whose
    /// authorisation the host has checked.
    pub fn add_oracle(&mut self, admin: &String, oracle: String)
        requires
            old(self).wf(),
        ensures
            final(self).wf(),
            final(self)@ == (OracleState { oracle: Some(oracle@), ..old(self)@ }),
    {
        self.oracle = Some(oracle);
    }

    /// Whether `oracle` is the recorded oracle account.
    fn check_oracle(&self, oracle: &String) -> (b: bool)
        requires
            self.oracle is Some,
        ensures
            b == is_oracle(self@, oracle@),
    {
        match &self.oracle {
            Some(o) => *o == *oracle,
            None => false,
        }
    }

    /// Stores a monitoring report for `project_id`, replacing the previous one.
    pub fn submit_monitoring_data(
        &mut self,
        oracle: String,
        project_id: String,
        data_hash: [u8; 32],
        sequestration_tonnes: u64,
        period_start: u64,
        period_end: u64,
        source: String,
        now: u64,
    ) -> (r: Result<(), CarbonError>)
        requires
            old(self).wf(),
            old(self)@.oracle is Some,
        ensures
            final(self).wf(),
            if is_oracle(old(self)@, oracle@) {
                r is Ok && final(self)@ == submitted_state(
                    old(self)@,
                    oracle,
                    project_id,
                    data_hash,
                    sequestration_tonnes,
                    period_start,
                    period_end,
                    source,
                    now,
                )
            } else {
                r == Err::<(), CarbonError>(CarbonError::UnauthorizedOracle) && final(self)@ == old(self)@
            },
    {
        if !self.check_oracle(&oracle) {
            return Err(CarbonError::UnauthorizedOracle);
        }
        let ghost s = self@;
        let ghost (gp, go, gs) = (project_id, oracle, source);
        let key = project_id.clone();
        let data = MonitoringData {
            project_id,
            submitted_by: oracle,
            data_hash,
            sequestration_tonnes,
            period_start,
            period_end,
            submitted_at: now,
            source,
        };
        self.monitoring.insert(key, data);
        assert(self@ =~= submitted_state(s, go, gp, data_hash, sequestration_tonnes, period_start, period_end, gs, now));
        Ok(())
    }

    /// Stores the benchmark price for `methodology` and `vintage_year`.
    pub fn update_credit_price(
        &mut self,
        oracle: &String,
        methodology: String,
        vintage_year: u32,
        price_per_tonne: u64,
        source: String,
        now: u64,
    ) -> (r: Result<(), CarbonError>)
        requires
            old(self).wf(),
            old(self)@.oracle is Some,
        ensures
            final(self).wf(),
            if is_oracle(old(self)@, oracle@) {
                r is Ok && final(self)@ == priced_state(old(self)@, methodology, vintage_year, price_per_tonne, source, now)
            } else {
                r == Err::<(), CarbonError>(CarbonError::UnauthorizedOracle) && final(self)@ == old(self)@
            },
    {
        if !self.check_oracle(oracle) {
            return Err(CarbonError::UnauthorizedOracle);
        }
        let ghost s = self@;
        let ghost (gm, gs) = (methodology, source);
        let key = (methodology.clone(), vintage_year);
        let price = PriceData { methodology, vintage_year, price_per_tonne, source, updated_at: now };
        self.prices.insert(key, price);
        assert(self@ =~= priced_state(s, gm, vintage_year, price_per_tonne, gs, now));
        Ok(())
    }

    /// Flags `project_id` for investigation.
    pub fn flag_project(&mut self, oracle: &String, project_id: &String) -> (r: Result<(), CarbonError>)
        requires
            old(self).wf(),
            old(self)@.oracle is Some,
        ensures
            final(self).wf(),
            if is_oracle(old(self)@, oracle@) {
                r is Ok && final(self)@ == flagged_state(old(self)@, project_id@)
            } else {
                r == Err::<(), CarbonError>(CarbonError::UnauthorizedOracle) && final(self)@ == old(self)@
            },
    {
        if !self.check_oracle(oracle) {
            return Err(CarbonError::UnauthorizedOracle);
        }
        let ghost s = self@;
        self.flags.insert(project_id.clone(), true);
        assert(self@ =~= flagged_state(s, project_id@));
        Ok(())
    }

    /// Whether the monitoring data of `project_id` is current at `now`.
    pub fn is_monitoring_current(&self, project_id: &String, now: u64) -> (b: bool)
        requires
            self.wf(),
            self@.monitoring.contains_key(project_id@) ==> self@.monitoring[project_id@].submitted_at
                + MONITORING_VALIDITY_SECONDS <= u64::MAX,
        ensures
            b == monitoring_current(self@, project_id@, now),
    {
        match self.monitoring.get(project_id) {
            Some(data) => !(now > data.submitted_at + MONITORING_VALIDITY_SECONDS),
            None => false,
        }
    }

    /// The latest monitoring report of `project_id`.
    pub fn get_monitoring_data(&self, project_id: &String) -> (r: Result<MonitoringData, CarbonError>)
        requires
            self.wf(),
        ensures
            r == (if self@.monitoring.contains_key(project_id@) {
                Ok::<MonitoringData, CarbonError>(self@.monitoring[project_id@])
            } else {
                Err(CarbonError::MonitoringDataStale)
            }),
    {
        match self.monitoring.get(project_id) {
            Some(d) => Ok(d.replica()),
            None => Err(CarbonError::MonitoringDataStale),
        }
    }

    /// The benchmark price for `methodology` and `vintage_year`.
    pub fn get_benchmark_price(&self, methodology: &String, vintage_year: u32) -> (r: Result<PriceData, CarbonError>)
        requires
            self.wf(),
        ensures
            r == (if self@.prices.contains_key((methodology@, vintage_year)) {
                Ok::<PriceData, CarbonError>(self@.prices[(methodology@, vintage_year)])
            } else {
                Err(CarbonError::PriceNotSet)
            }),
    {
        let key = (methodology.clone(), vintage_year);
        match self.prices.get(&key) {
            Some(p) => Ok(p.replica()),
            None => Err(CarbonError::PriceNotSet),
        }
    }

    /// Whether `project_id` is flagged for investigation.
    pub fn get_flagged_projects(&self, project_id: &String) -> (b: bool)
        requires
            self.wf(),
        ensures
            b == flagged_in(self@, project_id@),
    {
        match self.flags.get(project_id) {
            Some(f) => *f,
            None => false,
        }
    }
}

} // verus!
