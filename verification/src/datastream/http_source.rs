//! The HTTP batch source: what it asks for, and what it makes of the answers.
//! Sending the requests is left to the caller.

use vstd::prelude::*;
use vstd::string::*;
use std::time::Duration;
use crate::datastream::checkpoint::Checkpoint;
use crate::datastream::error::{DatastreamError, DatastreamResult};
use crate::datastream::source::SourceMetadata;
use crate::text::{decimal, u256_to_decimal};
use crate::time::{duration_secs, duration_subsec_nanos};
use crate::types::batch::Batch;
use crate::types::u256::{pow256, U256};

verus! {

/// What `url::Url::parse` makes of a text: the URL written out again, or the
/// text of the parse error.
pub uninterp spec fn url_parse_result(input: Seq<char>) -> Result<Seq<char>, Seq<char>>;

/// What `url::Url::join` makes of a reference against a base URL: the
/// resulting URL written out, or the text of the parse error. Where the base
/// itself is no URL, the error is that of parsing the base.
pub uninterp spec fn url_join_result(base: Seq<char>, reference: Seq<char>) -> Result<
    Seq<char>,
    Seq<char>,
>;

/// Whether a text result is the named one.
pub open spec fn text_result_is(r: Result<String, String>, named: Result<Seq<char>, Seq<char>>) -> bool {
    match (r, named) {
        (Ok(a), Ok(b)) => a@ == b,
        (Err(a), Err(b)) => a@ == b,
        _ => false,
    }
}

/// `url::Url::parse` on `input`: the URL written out again by its `Display`,
/// or the parse error written out by its `Display`.
#[verifier::external_body]
pub(crate) fn parse_url(input: &str) -> (r: Result<String, String>)
    ensures
        text_result_is(r, url_parse_result(input@)),
{
    match url::Url::parse(input) {
        Ok(u) => Ok(u.to_string()),
        Err(e) => Err(e.to_string()),
    }
}

/// `url::Url::join` of `reference` against the URL that `base` parses to: the
/// resulting URL written out, or the parse error written out.
#[verifier::external_body]
pub(crate) fn join_url(base: &str, reference: &str) -> (r: Result<String, String>)
    ensures
        text_result_is(r, url_join_result(base@, reference@)),
{
    match url::Url::parse(base) {
        Ok(b) => match b.join(reference) {
            Ok(u) => Ok(u.to_string()),
            Err(e) => Err(e.to_string()),
        },
        Err(e) => Err(e.to_string()),
    }
}

/// Path of the batches of a source.
pub const BATCHES_PATH: &'static str = "/api/v1/batches";

/// Path of the metadata of a source.
pub const METADATA_PATH: &'static str = "/api/v1/metadata";

/// Path of the health check of a source.
pub const HEALTH_PATH: &'static str = "/api/v1/health";

/// How the HTTP batch source is configured.
#[derive(Debug, Clone)]
pub struct HttpBatchSourceConfig {
    /// Base URL of the batch API.
    pub base_url: String,
    /// API key, sent as a bearer token where there is one.
    pub api_key: Option<String>,
    /// Time after which a request is given up.
    pub timeout: Duration,
    /// How often a failed request is tried again.
    pub max_retries: u32,
    /// Delay before the first retry.
    pub retry_delay: Duration,
}

impl Default for HttpBatchSourceConfig {
    fn default() -> (r: HttpBatchSourceConfig)
        ensures
            r.base_url@ == "http://localhost:8080"@,
            r.api_key is None,
            duration_secs(r.timeout) == 30,
            duration_subsec_nanos(r.timeout) == 0,
            r.max_retries == 3,
            duration_secs(r.retry_delay) == 1,
            duration_subsec_nanos(r.retry_delay) == 0,
    {
        HttpBatchSourceConfig {
            base_url: String::from_str("http://localhost:8080"),
            api_key: None,
            timeout: Duration::from_secs(30),
            max_retries: 3,
            retry_delay: Duration::from_secs(1),
        }
    }
}

/// The first batch of `batches` at or after position `from` whose number lies
/// above `floor`, as its position; the length of `batches` where there is none.
pub open spec fn first_above(batches: Seq<Batch>, floor: Option<nat>, from: int) -> int
    decreases batches.len() - from,
{
    if from < 0 || from >= batches.len() {
        batches.len() as int
    } else if floor is None || batches[from].id.number@ > floor->0 {
        from
    } else {
        first_above(batches, floor, from + 1)
    }
}

/// The number that the next batch has to lie above: that of the checkpoint.
pub open spec fn floor_of(checkpoint: Option<Checkpoint>) -> Option<nat> {
    match checkpoint {
        Some(c) => Some(c.last_batch_id@),
        None => None,
    }
}

/// What the batches that a server sent offer to a source with a checkpoint.
pub enum Offer {
    /// No batch lies above the checkpoint.
    Nothing,
    /// The batch at this position is the first above the checkpoint, but it
    /// does not follow the checkpoint directly.
    Gap(int),
    /// The batch at this position is handed out.
    Next(int),
}

/// What the batches that a server sent offer: the first batch above the
/// checkpoint, which after a valid checkpoint must have the number that
/// follows the checkpoint's.
pub open spec fn next_batch(batches: Seq<Batch>, checkpoint: Option<Checkpoint>) -> Offer {
    let at = first_above(batches, floor_of(checkpoint), 0);
    if at >= batches.len() {
        Offer::Nothing
    } else if checkpoint is Some && checkpoint->0.valid() && batches[at].id.number@
        != checkpoint->0.last_batch_id@ + 1 {
        Offer::Gap(at)
    } else {
        Offer::Next(at)
    }
}

/// The text that reports a gap in the batch numbers.
pub open spec fn gap_message(expected: nat, got: nat) -> Seq<char> {
    "Gap in batch numbers: expected "@ + decimal(expected) + ", got "@ + decimal(got)
}

/// `first_above` points at a batch above the floor, and every batch before
/// it lies at or below the floor.
pub proof fn lemma_first_above(batches: Seq<Batch>, floor: Option<nat>, from: int)
    requires
        0 <= from,
    ensures
        from <= first_above(batches, floor, from) || first_above(batches, floor, from)
            == batches.len(),
        first_above(batches, floor, from) <= batches.len(),
        first_above(batches, floor, from) < batches.len() ==> (floor is None || batches[first_above(
            batches,
            floor,
            from,
        )].id.number@ > floor->0),
        forall|j: int|
            from <= j < first_above(batches, floor, from) ==> floor is Some && (
            #[trigger] batches[j]).id.number@ <= floor->0,
    decreases batches.len() - from,
{
    if from < batches.len() && !(floor is None || batches[from].id.number@ > floor->0) {
        lemma_first_above(batches, floor, from + 1);
    }
}

/// The path and query that asks for the batches after a checkpoint.
pub open spec fn batches_request(checkpoint: Option<Checkpoint>) -> Seq<char> {
    match checkpoint {
        Some(c) => "/api/v1/batches?from="@ + decimal(
            (c.last_batch_id@ + 1) % pow256(),
        ),
        None => "/api/v1/batches"@,
    }
}

/// The HTTP batch source, without its connection.
#[derive(Debug)]
pub struct HttpBatchSource {
    /// Configuration.
    pub config: HttpBatchSourceConfig,
    /// The checkpoint of the batch that was handed out last.
    pub current_checkpoint: Option<Checkpoint>,
    /// What the source says of itself until the server says otherwise.
    pub metadata: SourceMetadata,
}

impl HttpBatchSource {
    /// A source with the given configuration and no checkpoint.
    pub fn new(config: HttpBatchSourceConfig) -> (r: HttpBatchSource)
        ensures
            r.config == config,
            r.current_checkpoint is None,
            r.metadata.name@ == "HTTP Batch Source"@,
            r.metadata.version@ == "1.0"@,
            r.metadata.url@ == config.base_url@,
            r.metadata.supports_checkpoints,
            r.metadata.max_batch_size is None,
            r.metadata.available,
    {
        let metadata = SourceMetadata::new(
            String::from_str("HTTP Batch Source"),
            String::from_str("1.0"),
            config.base_url.clone(),
            true,
        );
        HttpBatchSource { config, current_checkpoint: None, metadata }
    }

    /// A source at the given URL, with the default configuration otherwise:
    /// `ConfigError` exactly when the text is no URL.
    pub fn from_url(url: &str) -> (r: DatastreamResult<HttpBatchSource>)
        ensures
            match url_parse_result(url@) {
                Ok(written) => {
                    &&& r is Ok
                    &&& r->Ok_0.config.base_url@ == written
                    &&& r->Ok_0.config.api_key is None
                    &&& duration_secs(r->Ok_0.config.timeout) == 30
                    &&& r->Ok_0.config.max_retries == 3
                    &&& duration_secs(r->Ok_0.config.retry_delay) == 1
                    &&& r->Ok_0.current_checkpoint is None
                    &&& r->Ok_0.metadata.name@ == "HTTP Batch Source"@
                    &&& r->Ok_0.metadata.version@ == "1.0"@
                    &&& r->Ok_0.metadata.url@ == written
                    &&& r->Ok_0.metadata.supports_checkpoints
                    &&& r->Ok_0.metadata.max_batch_size is None
                    &&& r->Ok_0.metadata.available
                },
                Err(reason) => r matches Err(DatastreamError::ConfigError(text)) && text@
                    == "Invalid URL: "@ + reason,
            },
    {
        match parse_url(url) {
            Ok(written) => {
                let mut config = HttpBatchSourceConfig::default();
                config.base_url = written;
                Ok(HttpBatchSource::new(config))
            },
            Err(reason) => {
                let mut text = String::from_str("Invalid URL: ");
                text.append(reason.as_str());
                Err(DatastreamError::ConfigError(text))
            },
        }
    }

    /// The URL of a request: `path` joined to the base URL. `ConfigError`
    /// exactly when the two do not make a URL.
    pub fn request_url(&self, path: &str) -> (r: DatastreamResult<String>)
        ensures
            match url_join_result(self.config.base_url@, path@) {
                Ok(written) => r is Ok && r->Ok_0@ == written,
                Err(reason) => r matches Err(DatastreamError::ConfigError(text)) && text@
                    == "Invalid path: "@ + reason,
            },
    {
        match join_url(self.config.base_url.as_str(), path) {
            Ok(written) => Ok(written),
            Err(reason) => {
                let mut text = String::from_str("Invalid path: ");
                text.append(reason.as_str());
                Err(DatastreamError::ConfigError(text))
            },
        }
    }

    /// The value of the `Authorization` header, where an API key is set.
    pub fn authorization(&self) -> (r: Option<String>)
        ensures
            match self.config.api_key {
                Some(key) => r is Some && r->0@ == "Bearer "@ + key@,
                None => r is None,
            },
    {
        match &self.config.api_key {
            Some(key) => {
                let mut text = String::from_str("Bearer ");
                text.append(key.as_str());
                Some(text)
            },
            None => None,
        }
    }

    /// Whether an HTTP status is a success: 200 to 299.
    pub open spec fn is_success(status: u16) -> bool {
        200 <= status < 300
    }

    /// What a response's status means: `Ok` for a success, else `HttpError`
    /// with the status and the text that came with it.
    pub fn check_status(status: u16, reason: String) -> (r: DatastreamResult<()>)
        ensures
            Self::is_success(status) ==> r is Ok,
            !Self::is_success(status) ==> r == Err::<(), DatastreamError>(
                DatastreamError::HttpError { status, message: reason },
            ),
    {
        if 200 <= status && status < 300 {
            Ok(())
        } else {
            Err(DatastreamError::HttpError { status, message: reason })
        }
    }

    /// The path and query that asks for the batches after the checkpoint.
    pub fn batches_path(&self) -> (r: String)
        ensures
            r@ == batches_request(self.current_checkpoint),
    {
        match &self.current_checkpoint {
            Some(c) => {
                let one = U256::one();
                let from = c.last_batch_id.wrapping_add(&one);
                let number = u256_to_decimal(from);
                let mut text = String::from_str("/api/v1/batches?from=");
                text.append(number.as_str());
                text
            },
            None => String::from_str("/api/v1/batches"),
        }
    }

    /// Takes the batches that the server sent and hands out the next one: the
    /// first whose number lies above the checkpoint's. Batches at or below the
    /// checkpoint came before and are passed over. After a valid checkpoint
    /// the next batch must follow it without a gap, else `InvalidBatchData`.
    /// The checkpoint then names the batch handed out, so that numbers only
    /// rise from one batch to the next.
    pub fn accept_batches(&mut self, batches: Vec<Batch>, now: u64) -> (r: DatastreamResult<
        Option<Batch>,
    >)
        ensures
            final(self).config == old(self).config,
            final(self).metadata == old(self).metadata,
            match next_batch(batches@, old(self).current_checkpoint) {
                Offer::Nothing => {
                    &&& r is Ok
                    &&& r->Ok_0 is None
                    &&& final(self).current_checkpoint == old(self).current_checkpoint
                },
                Offer::Gap(at) => {
                    &&& r matches Err(DatastreamError::InvalidBatchData(text))
                    &&& text@ == gap_message(
                        old(self).current_checkpoint->0.last_batch_id@ + 1,
                        batches@[at].id.number@,
                    )
                    &&& final(self).current_checkpoint == old(self).current_checkpoint
                },
                Offer::Next(at) => {
                    &&& r is Ok
                    &&& r->Ok_0 == Some(batches@[at])
                    &&& old(self).current_checkpoint is Some
                        ==> batches@[at].id.number@ > old(self).current_checkpoint->0.last_batch_id@
                    &&& final(self).current_checkpoint is Some
                    &&& final(self).current_checkpoint->0.last_batch_id == batches@[at].id.number
                    &&& final(self).current_checkpoint->0.last_batch_hash == batches@[at].id.hash
                    &&& final(self).current_checkpoint->0.last_l1_block == batches@[at].l1_origin
                    &&& final(self).current_checkpoint->0.timestamp == now
                },
            },
    {
        let mut rest = batches;
        let ghost all = rest@;
        let ghost floor = floor_of(self.current_checkpoint);
        let mut i: usize = 0;
        while i < rest.len()
            invariant
                i <= rest@.len(),
                rest@ == all,
                all == batches@,
                floor == floor_of(self.current_checkpoint),
                self.config == old(self).config,
                self.metadata == old(self).metadata,
                self.current_checkpoint == old(self).current_checkpoint,
                first_above(all, floor, 0) == first_above(all, floor, i as int),
            decreases rest@.len() - i,
        {
            let fresh: bool = match &self.current_checkpoint {
                Some(c) => rest[i].id.number.gt(&c.last_batch_id),
                None => true,
            };
            if fresh {
                assert(first_above(all, floor, i as int) == i);
                let follows: bool = match &self.current_checkpoint {
                    Some(c) => {
                        if c.is_valid() {
                            let one = U256::one();
                            match c.last_batch_id.checked_add(&one) {
                                Some(expected) => rest[i].id.number.equals(&expected),
                                None => false,
                            }
                        } else {
                            true
                        }
                    },
                    None => true,
                };
                if !follows {
                    let expected: String = match &self.current_checkpoint {
                        Some(c) => {
                            let one = U256::one();
                            match c.last_batch_id.checked_add(&one) {
                                Some(e) => u256_to_decimal(e),
                                None => {
                                    proof {
                                        U256::lemma_view_bound(rest[i as int].id.number);
                                    }
                                    assert(false);
                                    String::from_str("")
                                },
                            }
                        },
                        None => {
                            assert(false);
                            String::from_str("")
                        },
                    };
                    let got = u256_to_decimal(rest[i].id.number);
                    let text = crate::text::concat4(
                        "Gap in batch numbers: expected ",
                        expected.as_str(),
                        ", got ",
                        got.as_str(),
                    );
                    return Err(DatastreamError::InvalidBatchData(text));
                }
                let batch = rest.swap_remove(i);
                assert(batch == all[i as int]);
                let made = Checkpoint::from_batch(&batch, now);
                self.current_checkpoint = Some(made);
                return Ok(Some(batch));
            }
            i = i + 1;
        }
        Ok(None)
    }

    /// The checkpoint of the batch handed out last: `CheckpointError` exactly
    /// when there is none.
    pub fn checkpoint(&self) -> (r: DatastreamResult<Checkpoint>)
        ensures
            match self.current_checkpoint {
                Some(c) => r is Ok && r->Ok_0.same_as(&c),
                None => r matches Err(DatastreamError::CheckpointError(text)) && text@
                    == "No checkpoint available"@,
            },
    {
        match &self.current_checkpoint {
            Some(c) => Ok(c.duplicate()),
            None => Err(
                DatastreamError::CheckpointError(String::from_str("No checkpoint available")),
            ),
        }
    }

    /// Sets the checkpoint to resume from.
    pub fn set_checkpoint(&mut self, checkpoint: Checkpoint) -> (r: DatastreamResult<()>)
        ensures
            r is Ok,
            final(self).current_checkpoint == Some(checkpoint),
            final(self).config == old(self).config,
            final(self).metadata == old(self).metadata,
    {
        self.current_checkpoint = Some(checkpoint);
        Ok(())
    }

    /// What the source says of itself: what the server sent, or what the
    /// source holds where the server could not be asked.
    pub fn metadata_or_cached(&self, fetched: DatastreamResult<SourceMetadata>) -> (r: SourceMetadata)
        ensures
            match fetched {
                Ok(m) => r == m,
                Err(_) => r == self.metadata,
            },
    {
        match fetched {
            Ok(m) => m,
            Err(_) => self.metadata.duplicate(),
        }
    }

    /// What the status of the health endpoint means: healthy exactly when it
    /// is a success, else the source is unavailable.
    pub fn health_from_status(status: u16) -> (r: DatastreamResult<()>)
        ensures
            Self::is_success(status) ==> r is Ok,
            !Self::is_success(status) ==> (r matches Err(DatastreamError::SourceUnavailable(text))
                && text@ == "Health check failed"@),
    {
        if 200 <= status && status < 300 {
            Ok(())
        } else {
            Err(DatastreamError::SourceUnavailable(String::from_str("Health check failed")))
        }
    }
}

} // verus!
