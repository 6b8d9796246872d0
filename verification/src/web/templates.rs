//! The values that the pages are rendered from.

use crate::services::models::ServiceCard;
use vstd::prelude::*;

verus! {

/// The landing page.
pub struct LandingTemplate {
    /// Logo to show, if there is one.
    pub logo_url: Option<String>,
}

/// A point in time, for display and for machines.
pub struct FormattedTime {
    /// For display, as in `2026-02-02 15:30 UTC`.
    pub display: String,
    /// As it came, ISO 8601.
    pub iso: String,
}

/// What the footer says about the deployment.
pub struct DeploymentDisplay {
    /// Deployment identifier.
    pub deployment_id: String,
    /// First seven characters of the commit hash.
    pub short_sha: Option<String>,
    /// Commit time.
    pub commit_time: Option<FormattedTime>,
    /// Deployment time.
    pub deployed_time: Option<FormattedTime>,
}

/// The dashboard.
pub struct DashboardTemplate {
    /// Name of the user.
    pub username: String,
    /// Email address of the user.
    pub email: Option<String>,
    /// The cards the user may see.
    pub services: Vec<ServiceCard>,
    /// Footer.
    pub deployment: DeploymentDisplay,
}

} // verus!
