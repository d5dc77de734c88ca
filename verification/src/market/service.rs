//! A service and the steps it goes through.

use vstd::prelude::*;
use crate::address::Address;
use crate::dispute::optional_text;
use crate::market::error::Error;

verus! {

/// Seconds in a day.
pub const SECONDS_PER_DAY: u64 = 86400;

/// Seconds in a week.
pub const SECONDS_PER_WEEK: u64 = 604800;

/// Seconds in a month.
pub const SECONDS_PER_MONTH: i128 = 2628000;

/// The scale of numbers with 7 decimals.
pub const SCALAR_7: i128 = 10000000;

/// The scale of numbers with 12 decimals.
pub const SCALAR_12: i128 = 1000000000000;

/// How long the judges of a dispute about a service may vote: seven days.
pub const DISPUTE_VOTING_TIME: u64 = 604800;

/// Where a service stands.
#[derive(Clone, Copy, Debug, PartialEq, Eq, Structural)]
pub enum ServiceStatus {
    /// Offered by the employee.
    CREATED,
    /// Accepted by the employer, who has paid the milestone in.
    ACCEPTED,
    /// A milestone was approved; the next one is awaited.
    WAITING,
    /// Taken to the judges.
    DISPUTING,
}

/// A service that an employee does for an employer, milestone by milestone.
#[derive(Clone, Debug)]
pub struct Service {
    pub id: u32,
    pub metadata: Option<String>,
    pub employee: Address,
    pub employer: Address,
    /// The time agreed for the milestone, in seconds.
    pub duration: u64,
    pub started_moment: u64,
    pub status: ServiceStatus,
    pub current_milestone: u32,
    pub milestone_payment: i128,
}

/// What a service holds.
pub struct ServiceView {
    pub id: u32,
    pub metadata: Option<Seq<char>>,
    pub employee: Address,
    pub employer: Address,
    pub duration: u64,
    pub started_moment: u64,
    pub status: ServiceStatus,
    pub current_milestone: u32,
    pub milestone_payment: i128,
}

impl View for Service {
    type V = ServiceView;

    open spec fn view(&self) -> ServiceView {
        ServiceView {
            id: self.id,
            metadata: optional_text(self.metadata),
            employee: self.employee,
            employer: self.employer,
            duration: self.duration,
            started_moment: self.started_moment,
            status: self.status,
            current_milestone: self.current_milestone,
            milestone_payment: self.milestone_payment,
        }
    }
}

/// The most days a milestone can take: its seconds must fit in 64 bits.
pub open spec fn max_days() -> u64 {
    (u64::MAX / SECONDS_PER_DAY) as u64
}

/// The service as the employee `creator` offers it to `employer`.
pub open spec fn offered(
    id: u32,
    creator: Address,
    employer: Address,
    days: u64,
    metadata: Option<Seq<char>>,
    milestone_payment: i128,
) -> ServiceView {
    ServiceView {
        id,
        metadata,
        employee: creator,
        employer,
        duration: (days * SECONDS_PER_DAY) as u64,
        started_moment: 0,
        status: ServiceStatus::CREATED,
        current_milestone: 1,
        milestone_payment,
    }
}

/// The service accepted at time `now`.
pub open spec fn accepted(service: ServiceView, now: u64) -> ServiceView {
    ServiceView { started_moment: now, status: ServiceStatus::ACCEPTED, ..service }
}

/// The service with its milestone approved.
pub open spec fn milestone_approved(service: ServiceView) -> ServiceView {
    ServiceView {
        current_milestone: (service.current_milestone + 1) as u32,
        status: ServiceStatus::WAITING,
        ..service
    }
}

/// Why the employee cannot add a milestone, if it cannot: only the employee
/// of a service adds one, only while the next milestone is awaited, and only
/// to a service whose time and payment are both used up.
pub open spec fn milestone_error(service: ServiceView, employee: Address) -> Option<Error> {
    if service.employee != employee {
        Some(Error::NotAuthorized)
    } else if service.status != ServiceStatus::WAITING {
        Some(Error::InvalidStatus)
    } else if service.duration != 0 || service.milestone_payment != 0 {
        Some(Error::InvalidService)
    } else {
        None
    }
}

/// The service with a milestone of `days` days and `payment` added.
pub open spec fn with_milestone(service: ServiceView, days: u64, payment: i128) -> ServiceView {
    ServiceView {
        duration: (service.duration + days * SECONDS_PER_DAY) as u64,
        milestone_payment: (service.milestone_payment + payment) as i128,
        ..service
    }
}

/// Why the service is not taken to the judges, if it is not: only its
/// employer disputes it, and only while it is accepted.
pub open spec fn dispute_error(service: ServiceView, creator: Address) -> Option<Error> {
    if creator != service.employer {
        Some(Error::NotAuthorized)
    } else if service.status != ServiceStatus::ACCEPTED {
        Some(Error::InvalidServiceStatus)
    } else {
        None
    }
}

/// The service taken to the judges.
pub open spec fn disputed(service: ServiceView) -> ServiceView {
    ServiceView { status: ServiceStatus::DISPUTING, ..service }
}

impl Service {
    /// The service that the employee `creator` offers to `employer`, with a
    /// first milestone of `days` days, at least one.
    pub fn offer(
        id: u32,
        creator: Address,
        employer: Address,
        days: u64,
        metadata: Option<String>,
        milestone_payment: i128,
    ) -> (result: Result<Service, Error>)
        requires
            days <= max_days(),
        ensures
            match result {
                Ok(service) => days >= 1 && service@ == offered(
                    id,
                    creator,
                    employer,
                    days,
                    optional_text(metadata),
                    milestone_payment,
                ),
                Err(error) => days < 1 && error == Error::InvalidDuration,
            },
    {
        if days < 1 {
            return Err(Error::InvalidDuration);
        }
        assert(days * SECONDS_PER_DAY <= u64::MAX) by (nonlinear_arith)
            requires
                days <= u64::MAX / SECONDS_PER_DAY,
                SECONDS_PER_DAY == 86400,
        ;
        Ok(
            Service {
                id,
                metadata,
                employee: creator,
                employer,
                duration: days * SECONDS_PER_DAY,
                started_moment: 0,
                status: ServiceStatus::CREATED,
                current_milestone: 1,
                milestone_payment,
            },
        )
    }

    /// Accepts the service for `employer` at time `now`; only the employer of
    /// the service accepts it.
    pub fn accept(&mut self, employer: Address, now: u64) -> (result: Result<(), Error>)
        ensures
            if old(self)@.employer != employer {
                result == Err::<(), Error>(Error::NotAuthorized) && final(self)@ == old(self)@
            } else {
                result is Ok && final(self)@ == accepted(old(self)@, now)
            },
    {
        if self.employer != employer {
            return Err(Error::NotAuthorized);
        }
        self.started_moment = now;
        self.status = ServiceStatus::ACCEPTED;
        Ok(())
    }

    /// Approves the milestone for `employer`; only the employer of the
    /// service approves it.
    pub fn approve_milestone(&mut self, employer: Address) -> (result: Result<(), Error>)
        requires
            old(self)@.employer == employer ==> old(self)@.current_milestone < u32::MAX,
        ensures
            if old(self)@.employer != employer {
                result == Err::<(), Error>(Error::NotAuthorized) && final(self)@ == old(self)@
            } else {
                result is Ok && final(self)@ == milestone_approved(old(self)@)
            },
    {
        if self.employer != employer {
            return Err(Error::NotAuthorized);
        }
        self.current_milestone = self.current_milestone + 1;
        self.status = ServiceStatus::WAITING;
        Ok(())
    }

    /// Adds a milestone of `days` days and `payment` for `employee`, or says
    /// why not and leaves the service as it was.
    pub fn add_milestone(&mut self, employee: Address, days: u64, payment: i128) -> (result: Result<
        (),
        Error,
    >)
        requires
            milestone_error(old(self)@, employee) is None ==> days <= max_days(),
        ensures
            match milestone_error(old(self)@, employee) {
                Some(error) => result == Err::<(), Error>(error) && final(self)@ == old(self)@,
                None => result is Ok && final(self)@ == with_milestone(old(self)@, days, payment),
            },
    {
        if self.employee != employee {
            return Err(Error::NotAuthorized);
        }
        if self.status != ServiceStatus::WAITING {
            return Err(Error::InvalidStatus);
        }
        if self.duration != 0 || self.milestone_payment != 0 {
            return Err(Error::InvalidService);
        }
        assert(days * SECONDS_PER_DAY <= u64::MAX) by (nonlinear_arith)
            requires
                days <= u64::MAX / SECONDS_PER_DAY,
                SECONDS_PER_DAY == 86400,
        ;
        self.duration = self.duration + days * SECONDS_PER_DAY;
        self.milestone_payment = self.milestone_payment + payment;
        Ok(())
    }

    /// Takes the service to the judges for `creator`, or says why not and
    /// leaves the service as it was.
    pub fn dispute(&mut self, creator: Address) -> (result: Result<(), Error>)
        ensures
            match dispute_error(old(self)@, creator) {
                Some(error) => result == Err::<(), Error>(error) && final(self)@ == old(self)@,
                None => result is Ok && final(self)@ == disputed(old(self)@),
            },
    {
        if creator != self.employer {
            return Err(Error::NotAuthorized);
        }
        if self.status != ServiceStatus::ACCEPTED {
            return Err(Error::InvalidServiceStatus);
        }
        self.status = ServiceStatus::DISPUTING;
        Ok(())
    }

    /// A copy of this service.
    pub fn duplicate(&self) -> (copy: Service)
        ensures
            copy@ == self@,
    {
        let metadata = match &self.metadata {
            Some(text) => Some(text.clone()),
            None => None,
        };
        Service {
            id: self.id,
            metadata,
            employee: self.employee,
            employer: self.employer,
            duration: self.duration,
            started_moment: self.started_moment,
            status: self.status,
            current_milestone: self.current_milestone,
            milestone_payment: self.milestone_payment,
        }
    }
}

} // verus!
