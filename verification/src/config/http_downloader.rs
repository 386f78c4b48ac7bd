//! Where a configuration package is downloaded from, and what a download
//! amounts to.

use vstd::prelude::*;
use crate::error::Error;
use crate::error_kind::REQUEST_FAILURE;
use crate::error_kind::TIMED_OUT;
use crate::text::joined;

verus! {

pub const CONFIG_PATH: &'static str = "/config?stage=";

pub const ENVIRONMENT_PARAMETER: &'static str = "&environment=";

pub const COMPONENT_PARAMETER: &'static str = "&component=";

pub const DOWNLOAD_TIMED_OUT: &'static str = "configuration download has timed out";

/// The address of the configuration package of a component: the host, the
/// path of the packages, and stage, environment and component as they are
/// given.
pub fn download_url(host: &str, stage: &str, environment: &str, component: &str) -> (url: String)
    ensures
        url@ == host@ + CONFIG_PATH@ + stage@ + ENVIRONMENT_PARAMETER@ + environment@
            + COMPONENT_PARAMETER@ + component@,
{
    let url = joined(host, CONFIG_PATH);
    let url = joined(url.as_str(), stage);
    let url = joined(url.as_str(), ENVIRONMENT_PARAMETER);
    let url = joined(url.as_str(), environment);
    let url = joined(url.as_str(), COMPONENT_PARAMETER);
    joined(url.as_str(), component)
}

/// What became of the request for a package.
#[derive(Debug, Clone)]
pub enum Download {
    /// No answer came in time.
    TimedOut,
    /// The request or the reading of the answer failed: the transport's
    /// words.
    RequestFailed(String),
    /// The bytes of the package.
    Received(Vec<u8>),
}

/// The package that a download brought, or the failure: `timed_out` where no
/// answer came in time, `request_failure` where the transport failed.
pub fn downloaded(download: Download) -> (package: Result<Vec<u8>, Error>)
    ensures
        match download {
            Download::TimedOut => package matches Err(error) && error@.kind == TIMED_OUT@
                && error@.message == DOWNLOAD_TIMED_OUT@,
            Download::RequestFailed(detail) => package matches Err(error) && error@.kind
                == REQUEST_FAILURE@ && error@.message == detail@,
            Download::Received(bytes) => package == Ok::<Vec<u8>, Error>(bytes),
        },
{
    match download {
        Download::TimedOut => Err(Error::new(TIMED_OUT, DOWNLOAD_TIMED_OUT)),
        Download::RequestFailed(detail) => Err(Error::new(REQUEST_FAILURE, detail.as_str())),
        Download::Received(bytes) => Ok(bytes),
    }
}

} // verus!
