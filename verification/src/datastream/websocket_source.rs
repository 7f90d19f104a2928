//! The WebSocket batch source: what it sends, and what it makes of each message.
//! The connection is left to the caller.

use vstd::prelude::*;
use vstd::string::*;
use crate::datastream::error::DatastreamError;
use crate::datastream::source::SourceMetadata;
use crate::types::batch::Batch;

verus! {

/// How the WebSocket batch source is configured.
#[derive(Debug, Clone)]
pub struct WebSocketSourceConfig {
    /// URL of the WebSocket endpoint.
    pub url: String,
}

/// A message as it comes from the connection.
#[derive(Debug, Clone, PartialEq, Eq)]
pub enum WsMessage {
    /// A text frame.
    Text(String),
    /// A binary frame.
    Binary(Vec<u8>),
    /// A ping, with its payload.
    Ping(Vec<u8>),
    /// A pong, with its payload.
    Pong(Vec<u8>),
    /// The peer closes the connection.
    Close,
    /// A raw frame.
    Frame,
}

/// What the source does with a message.
#[derive(Debug, Clone, PartialEq, Eq)]
pub enum WsStep {
    /// Decode the text as a batch and hand the outcome on.
    DecodeText(String),
    /// Decode the bytes as a batch and hand the outcome on.
    DecodeBinary(Vec<u8>),
    /// Answer with a pong that carries this payload.
    Pong(Vec<u8>),
    /// Nothing to do; go on reading.
    Skip,
    /// Stop reading.
    Stop,
}

/// The WebSocket batch source, without its connection.
#[derive(Debug)]
pub struct WebSocketSource {
    /// Configuration.
    pub config: WebSocketSourceConfig,
}

impl WebSocketSource {
    /// A source with the given configuration.
    pub fn new(config: WebSocketSourceConfig) -> (r: WebSocketSource)
        ensures
            r.config == config,
    {
        WebSocketSource { config }
    }

    /// The request that subscribes to batches, sent once after connecting.
    pub fn subscribe_message() -> (r: String)
        ensures
            r@ == "{\"jsonrpc\":\"2.0\",\"method\":\"cdk_subscribeBatches\",\"params\":[],\"id\":1}"@,
    {
        String::from_str(
            "{\"jsonrpc\":\"2.0\",\"method\":\"cdk_subscribeBatches\",\"params\":[],\"id\":1}",
        )
    }

    /// What to do with a message: text and binary frames are decoded as
    /// batches, a ping is answered with a pong of the same payload, a close
    /// ends the stream, and pongs and raw frames are passed over.
    pub fn on_message(message: WsMessage) -> (r: WsStep)
        ensures
            r == match message {
                WsMessage::Text(text) => WsStep::DecodeText(text),
                WsMessage::Binary(bytes) => WsStep::DecodeBinary(bytes),
                WsMessage::Ping(payload) => WsStep::Pong(payload),
                WsMessage::Pong(_) => WsStep::Skip,
                WsMessage::Close => WsStep::Stop,
                WsMessage::Frame => WsStep::Skip,
            },
    {
        match message {
            WsMessage::Text(text) => WsStep::DecodeText(text),
            WsMessage::Binary(bytes) => WsStep::DecodeBinary(bytes),
            WsMessage::Ping(payload) => WsStep::Pong(payload),
            WsMessage::Pong(_) => WsStep::Skip,
            WsMessage::Close => WsStep::Stop,
            WsMessage::Frame => WsStep::Skip,
        }
    }

    /// What the stream yields for a frame that was decoded: the batch, or a
    /// `DeserializationError` with the decoder's text.
    pub fn on_decoded(outcome: Result<Batch, String>) -> (r: Result<Batch, DatastreamError>)
        ensures
            r == match outcome {
                Ok(batch) => Ok::<Batch, DatastreamError>(batch),
                Err(reason) => Err::<Batch, DatastreamError>(
                    DatastreamError::DeserializationError(reason),
                ),
            },
    {
        match outcome {
            Ok(batch) => Ok(batch),
            Err(reason) => Err(DatastreamError::DeserializationError(reason)),
        }
    }

    /// What the stream yields where reading from the connection failed.
    pub fn on_read_error(reason: String) -> (r: DatastreamError)
        ensures
            r == DatastreamError::ConnectionError(reason),
    {
        DatastreamError::ConnectionError(reason)
    }

    /// What the stream yields where a pong could not be sent.
    pub fn on_pong_error(reason: String) -> (r: DatastreamError)
        ensures
            r == DatastreamError::CommunicationError(reason),
    {
        DatastreamError::CommunicationError(reason)
    }

    /// What the source says of itself.
    pub fn metadata(&self) -> (r: SourceMetadata)
        ensures
            r.name@ == "WebSocket Source"@,
            r.version@ == "1.0"@,
            r.url@ == self.config.url@,
            r.supports_checkpoints,
            r.max_batch_size is None,
            r.available,
    {
        SourceMetadata::new(
            String::from_str("WebSocket Source"),
            String::from_str("1.0"),
            self.config.url.clone(),
            true,
        )
    }
}

} // verus!
