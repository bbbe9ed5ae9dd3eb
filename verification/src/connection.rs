use vstd::prelude::*;

verus! {

/// What the body of a successful answer to the health probe held.
#[derive(Clone, Debug, PartialEq, Eq)]
pub enum StatusReport {
    /// A status with the service's version.
    Version(String),
    /// A status without a version.
    NoVersion,
    /// Nothing that reads as a status.
    Unreadable,
}

/// How the health probe went.
#[derive(Clone, Debug, PartialEq, Eq)]
pub enum HealthProbe {
    /// No connection could be made.
    Unreachable,
    /// The service answered with `status`; `report` says what the body of a
    /// successful answer held.
    Answered { status: u16, report: StatusReport },
}

/// What the health probe says of the service.
#[derive(Clone, Copy, Debug, PartialEq, Eq, Structural)]
pub enum Health {
    /// The service answered and named its version.
    Healthy,
    /// The service answered with a status that names no version.
    Unconfirmed,
    /// The service answered with something that is no status.
    Malformed,
    /// The service does not accept the API key.
    Unauthorized,
    /// The service answered with an error; the run is attempted anyway.
    Degraded,
    /// The service cannot be reached.
    Unreachable,
}

/// The status code by which the service refuses an API key.
pub const UNAUTHORIZED: u16 = 401;

/// What a probe says of the service.
pub open spec fn health_of(probe: HealthProbe) -> Health {
    match probe {
        HealthProbe::Unreachable => Health::Unreachable,
        HealthProbe::Answered { status, report } => if 200 <= status < 300 {
            match report {
                StatusReport::Version(_) => Health::Healthy,
                StatusReport::NoVersion => Health::Unconfirmed,
                StatusReport::Unreadable => Health::Malformed,
            }
        } else if status == UNAUTHORIZED {
            Health::Unauthorized
        } else {
            Health::Degraded
        },
    }
}

impl Health {
    /// Whether the run must stop before anything is fetched: the service
    /// cannot be reached, refuses the API key, or answers with something
    /// that is no status.
    pub open spec fn fatal(self) -> bool {
        self == Health::Unreachable || self == Health::Unauthorized || self == Health::Malformed
    }

    /// Whether the run must stop before anything is fetched.
    pub fn is_fatal(&self) -> (fatal: bool)
        ensures
            fatal == self.fatal(),
    {
        match self {
            Health::Unreachable => true,
            Health::Unauthorized => true,
            Health::Malformed => true,
            Health::Healthy => false,
            Health::Unconfirmed => false,
            Health::Degraded => false,
        }
    }
}

/// Judges the answer to the health probe.
pub fn check_health(probe: &HealthProbe) -> (health: Health)
    ensures
        health == health_of(*probe),
{
    match probe {
        HealthProbe::Unreachable => Health::Unreachable,
        HealthProbe::Answered { status, report } => {
            if 200 <= *status && *status < 300 {
                match report {
                    StatusReport::Version(_) => Health::Healthy,
                    StatusReport::NoVersion => Health::Unconfirmed,
                    StatusReport::Unreadable => Health::Malformed,
                }
            } else if *status == UNAUTHORIZED {
                Health::Unauthorized
            } else {
                Health::Degraded
            }
        },
    }
}

/// How far the preparations of a run have come. The ledger is opened
/// first, then the service is probed, and only then is anything fetched.
#[derive(Clone, Copy, Debug, PartialEq, Eq, Structural)]
pub enum Startup {
    /// The ledger is yet to be opened.
    OpeningStore,
    /// The ledger is open; the service is yet to be probed.
    Probing,
    /// The run may fetch its records.
    Ready,
    /// The run cannot take place.
    Failed,
}

impl Startup {
    /// The stage after the attempt to open the ledger.
    pub open spec fn after_store(self, opened: bool) -> Startup {
        match self {
            Startup::OpeningStore => if opened {
                Startup::Probing
            } else {
                Startup::Failed
            },
            other => other,
        }
    }

    /// The stage after the health probe.
    pub open spec fn after_probe(self, health: Health) -> Startup {
        match self {
            Startup::Probing => if health.fatal() {
                Startup::Failed
            } else {
                Startup::Ready
            },
            other => other,
        }
    }

    /// Where every run begins.
    pub fn begin() -> (stage: Startup)
        ensures
            stage == Startup::OpeningStore,
    {
        Startup::OpeningStore
    }

    /// Takes in whether the ledger could be opened. Without a ledger the
    /// run fails before the service is contacted.
    pub fn store_opened(self, opened: bool) -> (stage: Startup)
        ensures
            stage == self.after_store(opened),
    {
        match self {
            Startup::OpeningStore => if opened {
                Startup::Probing
            } else {
                Startup::Failed
            },
            other => other,
        }
    }

    /// Takes in what the health probe said. A fatal answer fails the run
    /// before anything is fetched.
    pub fn probed(self, health: Health) -> (stage: Startup)
        ensures
            stage == self.after_probe(health),
    {
        match self {
            Startup::Probing => if health.is_fatal() {
                Startup::Failed
            } else {
                Startup::Ready
            },
            other => other,
        }
    }

    /// Whether the run may fetch its records.
    pub fn may_fetch(&self) -> (ready: bool)
        ensures
            ready == (*self == Startup::Ready),
    {
        match self {
            Startup::Ready => true,
            _ => false,
        }
    }

    /// The exit code of a process whose run ends at this stage: zero unless
    /// the run failed.
    pub fn exit_code(&self) -> (code: u8)
        ensures
            code == if *self == Startup::Failed { 1u8 } else { 0u8 },
    {
        match self {
            Startup::Failed => 1,
            _ => 0,
        }
    }
}

/// A run whose ledger cannot be opened, or whose health probe is fatal,
/// fails and never comes to fetch anything.
pub proof fn lemma_fatal_start_never_fetches(opened: bool, health: Health)
    ensures
        Startup::OpeningStore.after_store(opened).after_probe(health) == Startup::Ready <==> opened
            && !health.fatal(),
        !opened || health.fatal() ==> Startup::OpeningStore.after_store(opened).after_probe(health)
            == Startup::Failed,
        !opened ==> Startup::OpeningStore.after_store(opened) == Startup::Failed,
{
}

} // verus!
