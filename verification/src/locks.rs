use vstd::prelude::*;

use crate::contracts::ids::{sha256_hex as digest_hex, sha256_hex_of};
use crate::text::str_eq;

verus! {

pub const LEASE_SCHEMA: &'static str = "gpt-webai.lease.v2";

/// The record of a slot lease, as written into the slot's lock directory.
#[derive(Clone, Debug, PartialEq, Eq)]
pub struct LeaseRecord {
    pub schema: String,
    pub slot_id: String,
    pub request_id: String,
    pub run_id: String,
    pub fencing_token_sha256: String,
    pub owner_pid: u32,
    pub acquired_at_ms: u128,
    pub heartbeat_at_ms: u128,
    pub expires_at_ms: u128,
}

/// A lease is stale once it has expired or its owner process is gone.
pub open spec fn stale(record: LeaseRecord, now_ms: u128, owner_alive: bool) -> bool {
    record.expires_at_ms <= now_ms || !owner_alive
}

/// Whether the lease is stale at `now_ms`, given whether its owner process
/// is still alive.
pub fn lease_is_stale(record: &LeaseRecord, now_ms: u128, owner_alive: bool) -> (r: bool)
    ensures
        r == stale(*record, now_ms, owner_alive),
{
    record.expires_at_ms <= now_ms || !owner_alive
}

/// Whether the lease is still held at `now_ms`: the exact opposite of stale.
pub fn lease_is_active(record: &LeaseRecord, now_ms: u128, owner_alive: bool) -> (r: bool)
    ensures
        r == !stale(*record, now_ms, owner_alive),
{
    record.expires_at_ms > now_ms && owner_alive
}

/// The hexadecimal SHA-256 digest of a text's UTF-8 bytes.
pub fn sha256_hex(value: &str) -> (r: String)
    ensures
        r@ == sha256_hex_of(vstd::utf8::encode_utf8(value@)),
{
    digest_hex(value.as_bytes())
}

/// Whether `fencing_token` is the token the lease was granted with.
pub fn fencing_matches(record: &LeaseRecord, fencing_token: &str) -> (r: bool)
    ensures
        r == (record.fencing_token_sha256@ == sha256_hex_of(vstd::utf8::encode_utf8(fencing_token@))),
{
    let digest = sha256_hex(fencing_token);
    str_eq(record.fencing_token_sha256.as_str(), digest.as_str())
}

/// Whether a record read from a lease file has the current schema.
pub fn known_schema(record: &LeaseRecord) -> (r: bool)
    ensures
        r == (record.schema@ == LEASE_SCHEMA@),
{
    str_eq(record.schema.as_str(), LEASE_SCHEMA)
}

} // verus!
