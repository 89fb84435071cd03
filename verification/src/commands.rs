//! The subcommands that talk to the backend, made ready from their
//! arguments.

use vstd::prelude::*;
use vstd::std_specs::convert::FromSpecImpl;
use vstd::string::StringExecFns;
use crate::backend::chosen_host;
use crate::backend::chosen_token;
use crate::backend::Backend;
use crate::resource::resource_text;
use crate::resource::uuid_text;
use crate::resource::ResourceId;
use crate::text::text_of;
use crate::cli::CliBackend;
use crate::error::CliError;
use crate::web::parsed_url;

verus! {

/// The arguments that create a metric kind.
#[derive(Debug, Clone, PartialEq, Eq)]
pub struct CliMetricKindCreate {
    /// Project slug or UUID.
    pub project: ResourceId,
    /// Metric kind name.
    pub name: String,
    /// Metric kind slug.
    pub slug: Option<String>,
    /// Metric kind unit of measure.
    pub units: Option<String>,
    pub backend: CliBackend,
}

/// The creation of a metric kind.
#[derive(Debug, Clone, PartialEq, Eq)]
pub struct Create {
    pub project: ResourceId,
    pub name: String,
    pub slug: Option<String>,
    pub units: Option<String>,
    pub backend: Backend,
}

/// The body of the request that creates a metric kind.
#[derive(Debug, Clone, PartialEq, Eq)]
pub struct NewMetricKind {
    pub name: String,
    pub slug: Option<String>,
    pub units: Option<String>,
}

/// The arguments that show a threshold.
#[derive(Debug, Clone, PartialEq, Eq)]
pub struct CliThresholdView {
    /// Project slug or UUID.
    pub project: ResourceId,
    /// Threshold UUID.
    pub threshold: u128,
    pub backend: CliBackend,
}

/// The showing of a threshold.
#[derive(Debug, Clone, PartialEq, Eq)]
pub struct ThresholdView {
    pub project: ResourceId,
    pub threshold: u128,
    pub backend: Backend,
}

/// The arguments that accept an invitation.
#[derive(Debug, Clone, PartialEq, Eq)]
pub struct CliAuthAccept {
    /// The token of the invitation.
    pub invite: String,
    pub backend: CliBackend,
}

/// The acceptance of an invitation.
#[derive(Debug, Clone, PartialEq, Eq)]
pub struct Accept {
    pub invite: String,
    pub backend: Backend,
}

/// The body of the request that accepts an invitation.
#[derive(Debug, Clone, PartialEq, Eq)]
pub struct JsonAccept {
    pub invite: String,
}

/// The backend of a command is the one that its arguments and the
/// environment describe.
pub open spec fn backend_of(
    made: Backend,
    backend: CliBackend,
    env_host: Option<String>,
    env_token: Option<String>,
) -> bool {
    &&& parsed_url(chosen_host(backend.host, env_host)) == Some(made.host@)
    &&& text_of(made.token) == chosen_token(backend.token, env_token)
    &&& made.attempts == backend.attempts
    &&& made.retry_after == backend.retry_after
}

/// No backend can be made of the arguments and the environment: the host
/// is no URL.
pub open spec fn no_backend(error: CliError, backend: CliBackend, env_host: Option<String>) -> bool {
    parsed_url(chosen_host(backend.host, env_host)) is None && error is Url
}

/// The path of the metric kinds of a project.
pub open spec fn metric_kinds_path(project: ResourceId) -> Seq<char> {
    "/v0/projects/"@ + resource_text(project) + "/metric-kinds"@
}

/// The path of a threshold of a project.
pub open spec fn threshold_path(project: ResourceId, threshold: u128) -> Seq<char> {
    "/v0/projects/"@ + resource_text(project) + "/thresholds/"@ + uuid_text(threshold)
}

impl Create {
    /// The path that the creation is posted to.
    pub fn path(&self) -> (path: String)
        ensures
            path@ == metric_kinds_path(self.project),
    {
        let project: String = self.project.to_text();
        "/v0/projects/".to_owned().concat(project.as_str()).concat("/metric-kinds")
    }

    /// Takes over the arguments and makes the backend ready.
    pub fn try_from(
        create: CliMetricKindCreate,
        env_host: Option<String>,
        env_token: Option<String>,
    ) -> (made: Result<Create, CliError>)
        ensures
            match made {
                Ok(c) => {
                    &&& c.project == create.project
                    &&& c.name == create.name
                    &&& c.slug == create.slug
                    &&& c.units == create.units
                    &&& backend_of(c.backend, create.backend, env_host, env_token)
                },
                Err(e) => no_backend(e, create.backend, env_host),
            },
    {
        let CliMetricKindCreate { project, name, slug, units, backend } = create;
        match Backend::try_from(backend, env_host, env_token) {
            Ok(backend) => Ok(Create { project, name, slug, units, backend }),
            Err(e) => Err(e),
        }
    }
}

impl From<Create> for NewMetricKind {
    fn from(create: Create) -> (body: NewMetricKind) {
        let Create { project: _, name, slug, units, backend: _ } = create;
        NewMetricKind { name, slug, units }
    }
}

impl FromSpecImpl<Create> for NewMetricKind {
    open spec fn obeys_from_spec() -> bool {
        true
    }

    open spec fn from_spec(create: Create) -> NewMetricKind {
        NewMetricKind { name: create.name, slug: create.slug, units: create.units }
    }
}

impl ThresholdView {
    /// The path that the threshold is read from.
    pub fn path(&self) -> (path: String)
        ensures
            path@ == threshold_path(self.project, self.threshold),
    {
        let project: String = self.project.to_text();
        let threshold: String = ResourceId::Uuid(self.threshold).to_text();
        "/v0/projects/".to_owned().concat(project.as_str()).concat("/thresholds/").concat(
            threshold.as_str(),
        )
    }

    /// Takes over the arguments and makes the backend ready.
    pub fn try_from(view: CliThresholdView, env_host: Option<String>, env_token: Option<String>) -> (
    made: Result<ThresholdView, CliError>)
        ensures
            match made {
                Ok(v) => {
                    &&& v.project == view.project
                    &&& v.threshold == view.threshold
                    &&& backend_of(v.backend, view.backend, env_host, env_token)
                },
                Err(e) => no_backend(e, view.backend, env_host),
            },
    {
        let CliThresholdView { project, threshold, backend } = view;
        match Backend::try_from(backend, env_host, env_token) {
            Ok(backend) => Ok(ThresholdView { project, threshold, backend }),
            Err(e) => Err(e),
        }
    }
}

impl Accept {
    /// Takes over the arguments and makes the backend ready.
    pub fn try_from(accept: CliAuthAccept, env_host: Option<String>, env_token: Option<String>) -> (
    made: Result<Accept, CliError>)
        ensures
            match made {
                Ok(a) => {
                    &&& a.invite == accept.invite
                    &&& backend_of(a.backend, accept.backend, env_host, env_token)
                },
                Err(e) => no_backend(e, accept.backend, env_host),
            },
    {
        let CliAuthAccept { invite, backend } = accept;
        match Backend::try_from(backend, env_host, env_token) {
            Ok(backend) => Ok(Accept { invite, backend }),
            Err(e) => Err(e),
        }
    }
}

impl From<Accept> for JsonAccept {
    fn from(accept: Accept) -> (body: JsonAccept) {
        let Accept { invite, backend: _ } = accept;
        JsonAccept { invite }
    }
}

impl FromSpecImpl<Accept> for JsonAccept {
    open spec fn obeys_from_spec() -> bool {
        true
    }

    open spec fn from_spec(accept: Accept) -> JsonAccept {
        JsonAccept { invite: accept.invite }
    }
}

} // verus!
