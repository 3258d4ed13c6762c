//! The failures that a cache operation reports.

use vstd::prelude::*;

verus! {

/// The error type of the Redis driver: `rustis::Error`. Carried through as it
/// came; nothing is known of what it holds.
#[verifier::external_type_specification]
#[verifier::external_body]
pub struct ExRedisError(rustis::Error);

/// The error type of the MessagePack encoder: `rmp_serde::encode::Error`.
/// Carried through as it came.
#[verifier::external_type_specification]
#[verifier::external_body]
pub struct ExEncodeError(rmp_serde::encode::Error);

/// The error type of the MessagePack decoder: `rmp_serde::decode::Error`.
/// Carried through as it came.
#[verifier::external_type_specification]
#[verifier::external_body]
pub struct ExDecodeError(rmp_serde::decode::Error);

/// Why a cache operation failed. The three kinds exclude each other.
#[derive(Debug)]
pub enum CacheError {
    /// The transport or the server failed, or a reply had an unexpected shape.
    RedisError(rustis::Error),
    /// A loaded value could not be serialized.
    EncodeError(rmp_serde::encode::Error),
    /// Cached bytes could not be deserialized.
    DecodeError(rmp_serde::decode::Error),
}

/// Wraps a driver error as a [`CacheError::RedisError`].
pub fn new_redis_error(err: rustis::Error) -> (error: CacheError)
    ensures
        error == CacheError::RedisError(err),
{
    CacheError::RedisError(err)
}

/// Wraps an encoder error as a [`CacheError::EncodeError`].
pub fn new_encode_error(err: rmp_serde::encode::Error) -> (error: CacheError)
    ensures
        error == CacheError::EncodeError(err),
{
    CacheError::EncodeError(err)
}

/// Wraps a decoder error as a [`CacheError::DecodeError`].
pub fn new_decode_error(err: rmp_serde::decode::Error) -> (error: CacheError)
    ensures
        error == CacheError::DecodeError(err),
{
    CacheError::DecodeError(err)
}

/// The driver's error for an aborted operation, `rustis::Error::Aborted`,
/// which stands for a reply of an unexpected shape.
#[verifier::external_body]
pub(crate) fn aborted() -> rustis::Error {
    rustis::Error::Aborted
}

} // verus!
