//! The per-object transfer: get from the source, then put to the
//! destination. The driver performs the two storage calls; this module
//! holds the decisions between them. A failed get aborts the transfer
//! before any put. A successful get turns into a put request that carries
//! the body, the declared length, and the attribute set verbatim. The put's
//! result becomes the transfer's outcome.

use vstd::prelude::*;
use crate::outcome::{FailureRecord, Stage, TransferOutcome};

verus! {

/// The per-object attributes a transfer preserves.
#[derive(Debug, Clone, PartialEq, Eq)]
pub struct ObjectAttributes {
    pub content_type: Option<String>,
    pub content_disposition: Option<String>,
    pub content_language: Option<String>,
    /// User metadata, as ordered key/value pairs.
    pub metadata: Vec<(String, String)>,
}

/// What a successful get hands back: the body, its declared length, and
/// the attributes to carry over.
#[derive(Debug, Clone, PartialEq, Eq)]
pub struct ObjectData {
    pub body: Vec<u8>,
    pub content_length: u64,
    pub attributes: ObjectAttributes,
}

/// One put request, ready for the destination container.
#[derive(Debug, Clone, PartialEq, Eq)]
pub struct PutSpec {
    pub bucket: String,
    pub key: String,
    pub body: Vec<u8>,
    pub content_length: u64,
    pub attributes: ObjectAttributes,
}

/// What the transfer does after the get: issue this put, or stop with this
/// outcome.
#[derive(Debug)]
pub enum TransferStep {
    DoPut(PutSpec),
    Abort(TransferOutcome),
}

/// The put request for one fetched object: everything the get returned,
/// verbatim, under the destination bucket and key.
pub fn build_put(destination_bucket: String, destination_key: String, data: ObjectData) -> (p:
    PutSpec)
    ensures
        p.bucket == destination_bucket,
        p.key == destination_key,
        p.body == data.body,
        p.content_length == data.content_length,
        p.attributes == data.attributes,
{
    PutSpec {
        bucket: destination_bucket,
        key: destination_key,
        body: data.body,
        content_length: data.content_length,
        attributes: data.attributes,
    }
}

/// The decision after the get: a failed get ends the transfer at the Get
/// stage with its cause, and no put is attempted; a successful get becomes
/// the put request, with body and attributes untouched.
pub fn on_get_result(
    relative_key: String,
    destination_bucket: String,
    destination_key: String,
    fetched: Result<ObjectData, String>,
) -> (step: TransferStep)
    ensures
        (match fetched {
            Ok(data) => step matches TransferStep::DoPut(p) && p.bucket == destination_bucket
                && p.key == destination_key && p.body == data.body && p.content_length
                == data.content_length && p.attributes == data.attributes,
            Err(cause) => step == (TransferStep::Abort(
                TransferOutcome::Failure(
                    FailureRecord { relative_key, stage: Stage::Get, cause },
                ),
            )),
        }),
{
    match fetched {
        Ok(data) => TransferStep::DoPut(build_put(destination_bucket, destination_key, data)),
        Err(cause) => TransferStep::Abort(
            TransferOutcome::Failure(FailureRecord { relative_key, stage: Stage::Get, cause }),
        ),
    }
}

/// The decision after the put: failure ends the transfer at the Put stage
/// with its cause; success reports the declared content length as the bytes
/// transferred.
pub fn on_put_result(relative_key: String, content_length: u64, stored: Result<(), String>) -> (o:
    TransferOutcome)
    ensures
        (match stored {
            Ok(_) => o == (TransferOutcome::Success {
                relative_key,
                bytes_transferred: content_length,
            }),
            Err(cause) => o == (TransferOutcome::Failure(
                FailureRecord { relative_key, stage: Stage::Put, cause },
            )),
        }),
{
    match stored {
        Ok(_) => TransferOutcome::Success { relative_key, bytes_transferred: content_length },
        Err(cause) => TransferOutcome::Failure(
            FailureRecord { relative_key, stage: Stage::Put, cause },
        ),
    }
}

} // verus!
