//! The startup probe: one look at the container before traffic begins.
//!
//! The probe only names what it found. Whether a failing probe keeps the
//! pipeline from starting is for the caller to say.

use std::sync::Arc;
use vstd::prelude::*;
use crate::client::{share, ContainerHandle};
use crate::error::{
    ClassifiedError, ClassifiedErrorView, HealthcheckError, HealthcheckErrorView, HealthcheckFailure,
    HealthcheckFailureView,
};
use crate::status::{is_status_code, StatusCode, FORBIDDEN, NOT_FOUND};

verus! {

/// What a failed probe of the named container means. Where the store answered
/// with a status code, the code names the trouble: refused credentials, a
/// container that is not there, or a status that the probe has no name for.
/// Every other failure, one without a status or with a number that is no
/// status code, is passed on as it came.
pub open spec fn probe_failure(container_name: Seq<char>, error: ClassifiedErrorView) -> HealthcheckFailureView {
    match error {
        ClassifiedErrorView::Transport(status) => if !is_status_code(status as int) {
            HealthcheckFailureView::Other(error)
        } else if status == FORBIDDEN {
            HealthcheckFailureView::Diagnosed(HealthcheckErrorView::InvalidCredentials)
        } else if status == NOT_FOUND {
            HealthcheckFailureView::Diagnosed(
                HealthcheckErrorView::UnknownContainer { container: container_name },
            )
        } else {
            HealthcheckFailureView::Diagnosed(HealthcheckErrorView::Unknown { status: status as int })
        },
        ClassifiedErrorView::Other(_) => HealthcheckFailureView::Other(error),
    }
}

/// A probe that is ready to run: the caller asks the store for the properties
/// of the container and brings the outcome to `conclude`.
pub struct Healthcheck {
    container_name: String,
    client: Arc<ContainerHandle>,
}

/// Prepares the probe of the named container.
pub fn build_healthcheck(container_name: String, client: Arc<ContainerHandle>) -> (check: Healthcheck)
    ensures
        check.container_name() == container_name,
        check.container() == client,
{
    Healthcheck { container_name, client }
}

impl Healthcheck {
    /// The name under which the probe reports the container.
    pub closed spec fn container_name(&self) -> String {
        self.container_name
    }

    /// The container that the probe looks at.
    pub closed spec fn container(&self) -> Arc<ContainerHandle> {
        self.client
    }

    /// The container that the probe looks at.
    pub fn client(&self) -> (client: &Arc<ContainerHandle>)
        ensures
            *client == self.container(),
    {
        &self.client
    }

    /// That `verdict` is what the probe says to the given outcome. Success
    /// is success; a failure is named as `probe_failure` names it.
    pub open spec fn judges(
        self,
        outcome: Result<(), ClassifiedError>,
        verdict: Result<(), HealthcheckFailure>,
    ) -> bool {
        match outcome {
            Ok(_) => verdict is Ok,
            Err(error) => {
                &&& verdict matches Err(failure)
                &&& failure@ == probe_failure(self.container_name()@, error@)
            },
        }
    }

    /// Runs the probe: asks once, through the given request for the
    /// container's properties, and judges the answer. Nothing is tried again.
    pub fn check<P>(self, get_properties: P) -> (verdict: Result<(), HealthcheckFailure>) where
        P: FnOnce(Arc<ContainerHandle>) -> Result<(), ClassifiedError>,

        requires
            call_requires(get_properties, (self.container(),)),
        ensures
            exists|outcome: Result<(), ClassifiedError>|
                {
                    &&& call_ensures(get_properties, (self.container(),), outcome)
                    &&& self.judges(outcome, verdict)
                },
    {
        let outcome = get_properties(share(&self.client));
        self.conclude(outcome)
    }

    /// Judges the probe by what the store answered.
    pub fn conclude(self, outcome: Result<(), ClassifiedError>) -> (verdict: Result<(), HealthcheckFailure>)
        ensures
            self.judges(outcome, verdict),
    {
        match outcome {
            Ok(_) => Ok(()),
            Err(ClassifiedError::Transport(raw)) => match StatusCode::from_u16(raw) {
                Some(status) => {
                    let code = status.as_u16();
                    if code == FORBIDDEN {
                        Err(HealthcheckFailure::Diagnosed(HealthcheckError::InvalidCredentials))
                    } else if code == NOT_FOUND {
                        Err(
                            HealthcheckFailure::Diagnosed(
                                HealthcheckError::UnknownContainer { container: self.container_name },
                            ),
                        )
                    } else {
                        Err(HealthcheckFailure::Diagnosed(HealthcheckError::Unknown { status }))
                    }
                },
                None => Err(HealthcheckFailure::Other(ClassifiedError::Transport(raw))),
            },
            Err(ClassifiedError::Other(text)) => Err(HealthcheckFailure::Other(ClassifiedError::Other(text))),
        }
    }
}

} // verus!
