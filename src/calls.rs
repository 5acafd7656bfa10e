//! Remote requests the factory issues, and the results the host delivers to
//! its continuations.
use vstd::prelude::*;

use crate::error::FactoryError;

verus! {

/// The views of a sequence of strings.
pub open spec fn views_of(v: Seq<String>) -> Seq<Seq<char>> {
    v.map_values(|s: String| s@)
}

/// The view of an optional string.
pub open spec fn opt_view(o: Option<String>) -> Option<Seq<char>> {
    match o {
        Some(s) => Some(s@),
        None => None,
    }
}

/// The token identifiers, in order, of the JSON list of non-fungible tokens
/// held in `bytes`, or `None` where the bytes are no such list.
pub uninterp spec fn token_ids_of(bytes: Seq<u8>) -> Option<Seq<Seq<char>>>;

/// Relies on `near_sdk::serde_json::from_slice` decoding a list of
/// `near_contract_standards` tokens: the result depends on the bytes alone.
#[verifier::external_body]
pub(crate) fn decode_token_ids(bytes: &Vec<u8>) -> (r: Option<Vec<String>>)
    ensures
        r is Some <==> token_ids_of(bytes@) is Some,
        r is Some ==> token_ids_of(bytes@) == Some(views_of(r->0@)),
{
    near_sdk::serde_json::from_slice::<
        Vec<near_contract_standards::non_fungible_token::Token>,
    >(bytes).ok().map(|v| v.into_iter().map(|t| t.token_id).collect())
}

/// The result of a remote call, as the host hands it to a continuation.
#[derive(Debug, Clone, PartialEq, Eq)]
pub enum CallResult {
    /// The call has not resolved yet.
    NotReady,
    /// The call succeeded with this serialized payload.
    Successful(Vec<u8>),
    /// The call failed.
    Failed,
}

/// "List the items owned by `account_id`" sent to the inventory service, whose
/// continuation carries `sender` as the buyer.
#[derive(Debug, Clone, PartialEq, Eq)]
pub struct TokensQuery {
    pub loot_box_id: String,
    pub account_id: String,
    pub sender: String,
}

/// "Transfer `token_id` to `receiver_id`" sent to the inventory service.
#[derive(Debug, Clone, PartialEq, Eq)]
pub struct TransferRequest {
    pub loot_box_id: String,
    pub token_id: String,
    pub receiver_id: String,
}

/// "Mint `token_id` to `receiver_id`" sent to the minting service, with no
/// continuation.
#[derive(Debug, Clone, PartialEq, Eq)]
pub struct MintRequest {
    pub hero_id: String,
    pub token_id: String,
    pub receiver_id: String,
}

/// What a continuation reads from the host: the payload of its single
/// pending result.
pub open spec fn single_payload(results_count: u64, result: CallResult) -> Result<Vec<u8>, FactoryError> {
    if results_count != 1 {
        Err(FactoryError::InvariantViolation)
    } else {
        match result {
            CallResult::Successful(bytes) => Ok(bytes),
            _ => Err(FactoryError::ExternalCall),
        }
    }
}

/// Checks that exactly one result is pending and returns its payload; a
/// failed or unresolved call aborts.
pub fn resolve_single(results_count: u64, result: CallResult) -> (r: Result<Vec<u8>, FactoryError>)
    ensures
        r == single_payload(results_count, result),
{
    if results_count != 1 {
        return Err(FactoryError::InvariantViolation);
    }
    match result {
        CallResult::Successful(bytes) => Ok(bytes),
        _ => Err(FactoryError::ExternalCall),
    }
}

} // verus!
