//! What a batch source says of itself.

use vstd::prelude::*;

verus! {

/// Metadata about a batch source.
#[derive(Debug, Clone, PartialEq, Eq)]
pub struct SourceMetadata {
    /// Human-readable name of the source.
    pub name: String,
    /// Version of the source protocol.
    pub version: String,
    /// URL or identifier of the source.
    pub url: String,
    /// Whether the source supports checkpoints.
    pub supports_checkpoints: bool,
    /// Largest batch size supported.
    pub max_batch_size: Option<u32>,
    /// Whether the source is available now.
    pub available: bool,
}

impl SourceMetadata {
    /// Metadata of an available source without a limit on the batch size.
    pub fn new(name: String, version: String, url: String, supports_checkpoints: bool) -> (r:
        SourceMetadata)
        ensures
            r == (SourceMetadata {
                name,
                version,
                url,
                supports_checkpoints,
                max_batch_size: None,
                available: true,
            }),
    {
        SourceMetadata {
            name,
            version,
            url,
            supports_checkpoints,
            max_batch_size: None,
            available: true,
        }
    }

    /// The same metadata with the largest batch size set.
    pub fn with_max_batch_size(self, max_size: u32) -> (r: SourceMetadata)
        ensures
            r == (SourceMetadata { max_batch_size: Some(max_size), ..self }),
    {
        let mut out = self;
        out.max_batch_size = Some(max_size);
        out
    }

    /// The same metadata with the availability set.
    pub fn with_availability(self, available: bool) -> (r: SourceMetadata)
        ensures
            r == (SourceMetadata { available, ..self }),
    {
        let mut out = self;
        out.available = available;
        out
    }

    /// Metadata with the same contents.
    pub fn duplicate(&self) -> (r: SourceMetadata)
        ensures
            r == *self,
    {
        SourceMetadata {
            name: self.name.clone(),
            version: self.version.clone(),
            url: self.url.clone(),
            supports_checkpoints: self.supports_checkpoints,
            max_batch_size: self.max_batch_size,
            available: self.available,
        }
    }
}

} // verus!
