//! Project registry: registration, verification, rejection, suspension and
//! the issued/retired totals of each carbon project.
use vstd::prelude::*;
use crate::table::{account_view, Replica, Table};
pub use crate::error::CarbonError;

verus! {

/// Where a project stands in its assessment.
#[derive(Clone, Copy, Debug, PartialEq, Eq, Structural)]
pub enum ProjectStatus {
    Pending,
    Verified,
    Rejected,
    Suspended,
}

/// A registered carbon project.
#[derive(Clone, Debug, PartialEq, Eq)]
pub struct Project {
    pub id: String,
    pub developer: String,
    pub methodology: String,
    pub country: String,
    pub lat: String,
    pub lng: String,
    pub status: ProjectStatus,
    pub registered_at: u64,
    pub verified_at: u64,
    pub verifier: Option<String>,
    pub total_issued: u64,
    pub total_retired: u64,
}

impl Replica for Project {
    fn replica(&self) -> (r: Self) {
        let verifier = match &self.verifier {
            Some(v) => Some(v.clone()),
            None => None,
        };
        Project {
            id: self.id.clone(),
            developer: self.developer.clone(),
            methodology: self.methodology.clone(),
            country: self.country.clone(),
            lat: self.lat.clone(),
            lng: self.lng.clone(),
            status: self.status,
            registered_at: self.registered_at,
            verified_at: self.verified_at,
            verifier,
            total_issued: self.total_issued,
            total_retired: self.total_retired,
        }
    }
}

/// The stored state of the registry contract.
#[verifier::ext_equal]
pub struct RegistryState {
    pub admin: Option<Seq<char>>,
    pub verifier: Option<Seq<char>>,
    pub oracle: Option<Seq<char>>,
    /// Projects by project id.
    pub projects: Map<Seq<char>, Project>,
}

/// The project a registration stores.
pub open spec fn registered_project(
    id: String,
    developer: String,
    methodology: String,
    country: String,
    lat: String,
    lng: String,
    now: u64,
) -> Project {
    Project {
        id,
        developer,
        methodology,
        country,
        lat,
        lng,
        status: ProjectStatus::Pending,
        registered_at: now,
        verified_at: 0,
        verifier: None,
        total_issued: 0,
        total_retired: 0,
    }
}

/// Why verification is refused, if it is: only the recorded verifier
/// verifies, and a rejected project stays rejected.
pub open spec fn verify_error(s: RegistryState, verifier: Seq<char>, id: Seq<char>) -> Option<CarbonError> {
    if s.verifier != Some(verifier) {
        Some(CarbonError::UnauthorizedVerifier)
    } else if !s.projects.contains_key(id) {
        Some(CarbonError::ProjectNotFound)
    } else if s.projects[id].status == ProjectStatus::Rejected {
        Some(CarbonError::ProjectNotVerified)
    } else {
        None
    }
}

/// Why suspension is refused, if it is: a rejected project stays rejected.
pub open spec fn suspend_error(s: RegistryState, id: Seq<char>) -> Option<CarbonError> {
    if !s.projects.contains_key(id) {
        Some(CarbonError::ProjectNotFound)
    } else if s.projects[id].status == ProjectStatus::Rejected {
        Some(CarbonError::ProjectNotVerified)
    } else {
        None
    }
}

/// Why recording issuance is refused, if it is: a suspended project issues
/// nothing.
pub open spec fn issue_error(s: RegistryState, id: Seq<char>) -> Option<CarbonError> {
    if !s.projects.contains_key(id) {
        Some(CarbonError::ProjectNotFound)
    } else if s.projects[id].status == ProjectStatus::Suspended {
        Some(CarbonError::ProjectSuspended)
    } else {
        None
    }
}

/// The state after `amount` more credits are recorded as issued for the
/// project under `id`.
pub open spec fn issued_state(s: RegistryState, id: Seq<char>, amount: u64) -> RegistryState {
    with_project(s, id, Project { total_issued: (s.projects[id].total_issued + amount) as u64, ..s.projects[id] })
}

/// The state after `amount` more credits are recorded as retired for the
/// project under `id`.
pub open spec fn retired_total_state(s: RegistryState, id: Seq<char>, amount: u64) -> RegistryState {
    with_project(s, id, Project { total_retired: (s.projects[id].total_retired + amount) as u64, ..s.projects[id] })
}

/// The state with the project under `id` replaced by `p`.
pub open spec fn with_project(s: RegistryState, id: Seq<char>, p: Project) -> RegistryState {
    RegistryState { projects: s.projects.insert(id, p), ..s }
}

/// The project under `id` with its status set to `status`.
pub open spec fn with_status(s: RegistryState, id: Seq<char>, status: ProjectStatus) -> RegistryState {
    with_project(s, id, Project { status, ..s.projects[id] })
}

/// Whether the project under `id` is verified.
pub open spec fn verified_in(s: RegistryState, id: Seq<char>) -> bool {
    s.projects.contains_key(id) && s.projects[id].status == ProjectStatus::Verified
}

/// The state after the project under `id` is verified by `verifier` at `now`.
pub open spec fn verified_state(s: RegistryState, verifier: String, id: Seq<char>, now: u64) -> RegistryState {
    with_project(
        s,
        id,
        Project { status: ProjectStatus::Verified, verified_at: now, verifier: Some(verifier), ..s.projects[id] },
    )
}

/// A new registration stores a pending, unverified project that carries the
/// id, developer, methodology, country and coordinates given, registered at
/// `now`, with no verifier and zero totals; every other project stays as it
/// was, and a further registration under the same id cannot replace it.
pub proof fn lemma_registration(
    s: RegistryState,
    id: String,
    developer: String,
    methodology: String,
    country: String,
    lat: String,
    lng: String,
    now: u64,
)
    requires
        !s.projects.contains_key(id@),
    ensures
        ({
            let t = with_project(s, id@, registered_project(id, developer, methodology, country, lat, lng, now));
            let p = t.projects[id@];
            &&& t.projects.contains_key(id@)
            &&& p.id == id
            &&& p.developer == developer
            &&& p.methodology == methodology
            &&& p.country == country
            &&& p.lat == lat
            &&& p.lng == lng
            &&& p.status == ProjectStatus::Pending
            &&& p.registered_at == now
            &&& p.verified_at == 0
            &&& p.verifier is None
            &&& p.total_issued == 0
            &&& p.total_retired == 0
            &&& !verified_in(t, id@)
            &&& forall|k: Seq<char>|
                k != id@ ==> (#[trigger] t.projects.contains_key(k) == s.projects.contains_key(k)
                    && t.projects[k] == s.projects[k])
            &&& t.admin == s.admin
            &&& t.verifier == s.verifier
            &&& t.oracle == s.oracle
        }),
{
}

/// Every field of a project other than its status, verification and
/// totals is the same in `p` and `q`.
pub open spec fn same_description(p: Project, q: Project) -> bool {
    &&& p.id == q.id
    &&& p.developer == q.developer
    &&& p.methodology == q.methodology
    &&& p.country == q.country
    &&& p.lat == q.lat
    &&& p.lng == q.lng
    &&& p.registered_at == q.registered_at
}

/// Verification marks the project verified at `now` by `verifier` and keeps
/// its description and totals; a status change sets only the status;
/// recording issued or retired credits raises exactly that total by
/// `amount` and keeps everything else. None of them touches another project.
pub proof fn lemma_project_updates(s: RegistryState, verifier: String, id: Seq<char>, other: Seq<char>, status: ProjectStatus, amount: u64, now: u64)
    requires
        s.projects.contains_key(id),
        other != id,
    ensures
        ({
            let p = s.projects[id];
            let v = verified_state(s, verifier, id, now).projects[id];
            &&& v.status == ProjectStatus::Verified
            &&& v.verified_at == now
            &&& v.verifier == Some(verifier)
            &&& same_description(v, p)
            &&& v.total_issued == p.total_issued
            &&& v.total_retired == p.total_retired
        }),
        ({
            let p = s.projects[id];
            let q = with_status(s, id, status).projects[id];
            &&& q.status == status
            &&& same_description(q, p)
            &&& q.verified_at == p.verified_at
            &&& q.verifier == p.verifier
            &&& q.total_issued == p.total_issued
            &&& q.total_retired == p.total_retired
        }),
        s.projects[id].total_issued + amount <= u64::MAX ==> {
            let p = s.projects[id];
            let q = issued_state(s, id, amount).projects[id];
            &&& q.total_issued == p.total_issued + amount
            &&& q.total_retired == p.total_retired
            &&& q.status == p.status
            &&& same_description(q, p)
            &&& q.verified_at == p.verified_at
            &&& q.verifier == p.verifier
        },
        s.projects[id].total_retired + amount <= u64::MAX ==> {
            let p = s.projects[id];
            let q = retired_total_state(s, id, amount).projects[id];
            &&& q.total_retired == p.total_retired + amount
            &&& q.total_issued == p.total_issued
            &&& q.status == p.status
            &&& same_description(q, p)
            &&& q.verified_at == p.verified_at
            &&& q.verifier == p.verifier
        },
        verified_state(s, verifier, id, now).projects.contains_key(other) == s.projects.contains_key(other),
        verified_state(s, verifier, id, now).projects[other] == s.projects[other],
        with_status(s, id, status).projects[other] == s.projects[other],
        issued_state(s, id, amount).projects[other] == s.projects[other],
        retired_total_state(s, id, amount).projects[other] == s.projects[other],
{
}

/// Two recordings of retired credits add up: after `a` and then `b` the
/// retired total has grown by `a + b`.
pub proof fn lemma_retired_totals_add(s: RegistryState, id: Seq<char>, a: u64, b: u64)
    requires
        s.projects.contains_key(id),
        s.projects[id].total_retired + a + b <= u64::MAX,
    ensures
        retired_total_state(retired_total_state(s, id, a), id, b).projects[id].total_retired
            == s.projects[id].total_retired + a + b,
{
}

/// Two recordings of issued credits add up: after `a` and then `b` the
/// issued total has grown by `a + b`.
pub proof fn lemma_issued_totals_add(s: RegistryState, id: Seq<char>, a: u64, b: u64)
    requires
        s.projects.contains_key(id),
        s.projects[id].total_issued + a + b <= u64::MAX,
    ensures
        issued_state(issued_state(s, id, a), id, b).projects[id].total_issued == s.projects[id].total_issued + a + b,
{
}

/// Only the recorded verifier can verify, and a verified project reads as
/// verified; a rejected or suspended project reads as unverified. Assessments
/// leave every other project as it was.
pub proof fn lemma_assessment_outcomes(s: RegistryState, verifier: String, id: Seq<char>, other: Seq<char>, now: u64)
    requires
        other != id,
    ensures
        s.verifier != Some(verifier@) ==> verify_error(s, verifier@, id) == Some(CarbonError::UnauthorizedVerifier),
        verify_error(s, verifier@, id) is None ==> verified_in(verified_state(s, verifier, id, now), id),
        s.projects.contains_key(id) ==> !verified_in(with_status(s, id, ProjectStatus::Rejected), id),
        s.projects.contains_key(id) ==> !verified_in(with_status(s, id, ProjectStatus::Suspended), id),
        verified_in(verified_state(s, verifier, id, now), other) == verified_in(s, other),
        verified_in(with_status(s, id, ProjectStatus::Rejected), other) == verified_in(s, other),
        verified_in(with_status(s, id, ProjectStatus::Suspended), other) == verified_in(s, other),
{
}

/// Whether the project under `id` is stored and rejected.
pub open spec fn rejected_in(s: RegistryState, id: Seq<char>) -> bool {
    s.projects.contains_key(id) && s.projects[id].status == ProjectStatus::Rejected
}

/// Rejection is permanent: verification and suspension of a rejected
/// project are refused, and every registry call that succeeds leaves a
/// rejected project rejected, so it never reads as verified again.
pub proof fn lemma_rejection_permanent(
    s: RegistryState,
    id: Seq<char>,
    verifier: String,
    key: Seq<char>,
    project: Project,
    amount: u64,
    now: u64,
)
    requires
        rejected_in(s, id),
    ensures
        verify_error(s, verifier@, id) is Some,
        suspend_error(s, id) == Some(CarbonError::ProjectNotVerified),
        !verified_in(s, id),
        verify_error(s, verifier@, key) is None ==> rejected_in(verified_state(s, verifier, key, now), id),
        suspend_error(s, key) is None ==> rejected_in(with_status(s, key, ProjectStatus::Suspended), id),
        s.projects.contains_key(key) ==> rejected_in(with_status(s, key, ProjectStatus::Rejected), id),
        issue_error(s, key) is None ==> rejected_in(issued_state(s, key, amount), id),
        s.projects.contains_key(key) ==> rejected_in(retired_total_state(s, key, amount), id),
        !s.projects.contains_key(key) ==> rejected_in(with_project(s, key, project), id),
{
}

/// Suspension halts issuance: recording issued credits for a suspended
/// project is refused, and the refusal leaves its totals as they were.
pub proof fn lemma_suspension_halts_issuance(s: RegistryState, id: Seq<char>)
    requires
        s.projects.contains_key(id),
        s.projects[id].status == ProjectStatus::Suspended,
    ensures
        issue_error(s, id) == Some(CarbonError::ProjectSuspended),
{
}

/// The registry contract: its storage and the calls that change it.
pub struct CarbonRegistry {
    admin: Option<String>,
    verifier: Option<String>,
    oracle: Option<String>,
    projects: Table<String, Project>,
}

impl View for CarbonRegistry {
    type V = RegistryState;

    closed spec fn view(&self) -> RegistryState {
        RegistryState {
            admin: account_view(self.admin),
            verifier: account_view(self.verifier),
            oracle: account_view(self.oracle),
            projects: self.projects@,
        }
    }
}

impl CarbonRegistry {
    /// The project table is well formed.
    pub closed spec fn wf(&self) -> bool {
        self.projects.wf()
    }

    /// A freshly deployed registry: nothing stored.
    pub fn new() -> (c: Self)
        ensures
            c.wf(),
            c@ == (RegistryState { admin: None, verifier: None, oracle: None, projects: Map::empty() }),
    {
        CarbonRegistry { admin: None, verifier: None, oracle: None, projects: Table::new() }
    }

    /// The registry as stored: its accounts from instance storage, with no
    /// project loaded yet.
    pub fn restore(admin: Option<String>, verifier: Option<String>, oracle: Option<String>) -> (c: Self)
        ensures
            c.wf(),
            c@ == (RegistryState {
                admin: account_view(admin),
                verifier: account_view(verifier),
                oracle: account_view(oracle),
                projects: Map::empty(),
            }),
    {
        CarbonRegistry { admin, verifier, oracle, projects: Table::new() }
    }

    /// Loads a stored project under `id`.
    pub fn load_project(&mut self, id: &String, project: Project)
        requires
            old(self).wf(),
        ensures
            final(self).wf(),
            final(self)@ == with_project(old(self)@, id@, project),
    {
        self.store_project(id, project);
    }

    /// Records the administrator.
    pub fn initialize(&mut self, admin: String)
        requires
            old(self).wf(),
        ensures
            final(self).wf(),
            final(self)@ == (RegistryState { admin: Some(admin@), ..old(self)@ }),
    {
        self.admin = Some(admin);
    }

    /// Records the accredited verifier; the administrator's authorisation is
    /// checked by the host.
    pub fn add_verifier(&mut self, verifier: String)
        requires
            old(self).wf(),
            old(self)@.admin is Some,
        ensures
            final(self).wf(),
            final(self)@ == (RegistryState { verifier: Some(verifier@), ..old(self)@ }),
    {
        self.verifier = Some(verifier);
    }

    /// Records the oracle account; the administrator's authorisation is
    /// checked by the host.
    pub fn add_oracle(&mut self, oracle: String)
        requires
            old(self).wf(),
            old(self)@.admin is Some,
        ensures
            final(self).wf(),
            final(self)@ == (RegistryState { oracle: Some(oracle@), ..old(self)@ }),
    {
        self.oracle = Some(oracle);
    }

    /// Registers a pending project under `id`, unless one is stored there.
    /// `developer` is the account whose authorisation the host has checked.
    pub fn register_project(
        &mut self,
        id: String,
        developer: String,
        methodology: String,
        country: String,
        lat: String,
        lng: String,
        now: u64,
    ) -> (r: Result<(), CarbonError>)
        requires
            old(self).wf(),
        ensures
            final(self).wf(),
            if old(self)@.projects.contains_key(id@) {
                r == Err::<(), CarbonError>(CarbonError::ProjectAlreadyExists) && final(self)@ == old(self)@
            } else {
                r is Ok && final(self)@ == with_project(
                    old(self)@,
                    id@,
                    registered_project(id, developer, methodology, country, lat, lng, now),
                )
            },
    {
        if self.projects.contains_key(&id) {
            return Err(CarbonError::ProjectAlreadyExists);
        }
        let ghost s = self@;
        let ghost (gid, gdev, gmeth, gcountry, glat, glng) = (id, developer, methodology, country, lat, lng);
        let key = id.clone();
        let project = Project {
            id,
            developer,
            methodology,
            country,
            lat,
            lng,
            status: ProjectStatus::Pending,
            registered_at: now,
            verified_at: 0,
            verifier: None,
            total_issued: 0,
            total_retired: 0,
        };
        self.projects.insert(key, project);
        assert(self@ =~= with_project(s, gid@, registered_project(gid, gdev, gmeth, gcountry, glat, glng, now)));
        Ok(())
    }

    /// The stored project under `id`, copied out.
    fn project_copy(&self, id: &String) -> (r: Option<Project>)
        requires
            self.wf(),
        ensures
            match r {
                Some(p) => self@.projects.contains_key(id@) && p == self@.projects[id@],
                None => !self@.projects.contains_key(id@),
            },
    {
        match self.projects.get(id) {
            Some(p) => Some(p.replica()),
            None => None,
        }
    }

    /// Stores `p` under `id`.
    fn store_project(&mut self, id: &String, p: Project)
        requires
            old(self).wf(),
        ensures
            final(self).wf(),
            final(self)@ == with_project(old(self)@, id@, p),
    {
        let ghost gp = p;
        self.projects.insert(id.clone(), p);
        assert(self@ =~= with_project(old(self)@, id@, gp));
    }

    /// Marks the project under `id` verified by `verifier` at `now`; only the
    /// recorded verifier may do so, and a rejected project is refused.
    pub fn verify_project(&mut self, verifier: String, id: &String, now: u64) -> (r: Result<(), CarbonError>)
        requires
            old(self).wf(),
        ensures
            final(self).wf(),
            match verify_error(old(self)@, verifier@, id@) {
                Some(e) => r == Err::<(), CarbonError>(e) && final(self)@ == old(self)@,
                None => r is Ok && final(self)@ == verified_state(old(self)@, verifier, id@, now),
            },
    {
        let authorised = match &self.verifier {
            Some(v) => *v == verifier,
            None => false,
        };
        if !authorised {
            return Err(CarbonError::UnauthorizedVerifier);
        }
        let mut project = match self.project_copy(id) {
            Some(p) => p,
            None => return Err(CarbonError::ProjectNotFound),
        };
        if project.status == ProjectStatus::Rejected {
            return Err(CarbonError::ProjectNotVerified);
        }
        project.status = ProjectStatus::Verified;
        project.verified_at = now;
        project.verifier = Some(verifier);
        self.store_project(id, project);
        Ok(())
    }

    /// Marks the project under `id` rejected. `verifier` is the account
    /// whose authorisation the host has checked; it is not compared with the
    /// recorded verifier.
    pub fn reject_project(&mut self, verifier: &String, id: &String) -> (r: Result<(), CarbonError>)
        requires
            old(self).wf(),
        ensures
            final(self).wf(),
            if old(self)@.projects.contains_key(id@) {
                r is Ok && final(self)@ == with_status(old(self)@, id@, ProjectStatus::Rejected)
            } else {
                r == Err::<(), CarbonError>(CarbonError::ProjectNotFound) && final(self)@ == old(self)@
            },
    {
        let mut project = match self.project_copy(id) {
            Some(p) => p,
            None => return Err(CarbonError::ProjectNotFound),
        };
        project.status = ProjectStatus::Rejected;
        self.store_project(id, project);
        Ok(())
    }

    /// Marks the project under `id` suspended; a rejected project is
    /// refused and stays rejected. `admin` is the account whose
    /// authorisation the host has checked.
    pub fn suspend_project(&mut self, admin: &String, id: &String) -> (r: Result<(), CarbonError>)
        requires
            old(self).wf(),
        ensures
            final(self).wf(),
            match suspend_error(old(self)@, id@) {
                Some(e) => r == Err::<(), CarbonError>(e) && final(self)@ == old(self)@,
                None => r is Ok && final(self)@ == with_status(old(self)@, id@, ProjectStatus::Suspended),
            },
    {
        let mut project = match self.project_copy(id) {
            Some(p) => p,
            None => return Err(CarbonError::ProjectNotFound),
        };
        if project.status == ProjectStatus::Rejected {
            return Err(CarbonError::ProjectNotVerified);
        }
        project.status = ProjectStatus::Suspended;
        self.store_project(id, project);
        Ok(())
    }

    /// Adds `amount` to the credits issued for the project under `id`; a
    /// suspended project issues nothing.
    pub fn increment_issued(&mut self, admin: &String, id: &String, amount: u64) -> (r: Result<(), CarbonError>)
        requires
            old(self).wf(),
            issue_error(old(self)@, id@) is None ==> old(self)@.projects[id@].total_issued + amount <= u64::MAX,
        ensures
            final(self).wf(),
            match issue_error(old(self)@, id@) {
                Some(e) => r == Err::<(), CarbonError>(e) && final(self)@ == old(self)@,
                None => r is Ok && final(self)@ == issued_state(old(self)@, id@, amount),
            },
    {
        let mut project = match self.project_copy(id) {
            Some(p) => p,
            None => return Err(CarbonError::ProjectNotFound),
        };
        if project.status == ProjectStatus::Suspended {
            return Err(CarbonError::ProjectSuspended);
        }
        project.total_issued = project.total_issued + amount;
        self.store_project(id, project);
        Ok(())
    }

    /// Adds `amount` to the credits retired from the project under `id`.
    pub fn increment_retired(&mut self, admin: &String, id: &String, amount: u64) -> (r: Result<(), CarbonError>)
        requires
            old(self).wf(),
            old(self)@.projects.contains_key(id@) ==> old(self)@.projects[id@].total_retired + amount <= u64::MAX,
        ensures
            final(self).wf(),
            if old(self)@.projects.contains_key(id@) {
                r is Ok && final(self)@ == retired_total_state(old(self)@, id@, amount)
            } else {
                r == Err::<(), CarbonError>(CarbonError::ProjectNotFound) && final(self)@ == old(self)@
            },
    {
        let mut project = match self.project_copy(id) {
            Some(p) => p,
            None => return Err(CarbonError::ProjectNotFound),
        };
        project.total_retired = project.total_retired + amount;
        self.store_project(id, project);
        Ok(())
    }

    /// The project stored under `id`.
    pub fn get_project(&self, id: &String) -> (r: Result<Project, CarbonError>)
        requires
            self.wf(),
        ensures
            r == (if self@.projects.contains_key(id@) {
                Ok::<Project, CarbonError>(self@.projects[id@])
            } else {
                Err(CarbonError::ProjectNotFound)
            }),
    {
        match self.project_copy(id) {
            Some(p) => Ok(p),
            None => Err(CarbonError::ProjectNotFound),
        }
    }

    /// Whether the project under `id` is verified.
    pub fn is_verified(&self, id: &String) -> (b: bool)
        requires
            self.wf(),
        ensures
            b == verified_in(self@, id@),
    {
        match self.projects.get(id) {
            Some(p) => match p.status {
                ProjectStatus::Verified => true,
                _ => false,
            },
            None => false,
        }
    }
}

} // verus!
