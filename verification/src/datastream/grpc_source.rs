//! The gRPC batch source. The connection is left to the caller.

use vstd::prelude::*;
use vstd::string::*;
use crate::datastream::error::DatastreamError;
use crate::datastream::source::SourceMetadata;

verus! {

/// How the gRPC batch source is configured.
#[derive(Debug, Clone)]
pub struct GrpcSourceConfig {
    /// URL of the gRPC endpoint.
    pub url: String,
}

/// The gRPC batch source, without its connection.
#[derive(Debug)]
pub struct GrpcSource {
    /// Configuration.
    pub config: GrpcSourceConfig,
}

impl GrpcSource {
    /// A source with the given configuration.
    pub fn new(config: GrpcSourceConfig) -> (r: GrpcSource)
        ensures
            r.config == config,
    {
        GrpcSource { config }
    }

    /// The error for an endpoint that is no URL.
    pub fn invalid_url(reason: &str) -> (r: DatastreamError)
        ensures
            r matches DatastreamError::ConnectionError(text) && text@ == "Invalid gRPC URL: "@
                + reason@,
    {
        let mut text = String::from_str("Invalid gRPC URL: ");
        text.append(reason);
        DatastreamError::ConnectionError(text)
    }

    /// The error for an endpoint that cannot be reached.
    pub fn connect_failed(reason: &str) -> (r: DatastreamError)
        ensures
            r matches DatastreamError::ConnectionError(text) && text@
                == "Failed to connect to gRPC: "@ + reason@,
    {
        let mut text = String::from_str("Failed to connect to gRPC: ");
        text.append(reason);
        DatastreamError::ConnectionError(text)
    }

    /// What the source says of itself.
    pub fn metadata(&self) -> (r: SourceMetadata)
        ensures
            r.name@ == "gRPC Source"@,
            r.version@ == "1.0"@,
            r.url@ == self.config.url@,
            r.supports_checkpoints,
            r.max_batch_size is None,
            r.available,
    {
        SourceMetadata::new(
            String::from_str("gRPC Source"),
            String::from_str("1.0"),
            self.config.url.clone(),
            true,
        )
    }
}

} // verus!
