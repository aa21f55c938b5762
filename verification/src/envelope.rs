//! The outer protobuf envelope shared by all smart-contract state queries:
//! a request wraps (contract address, query bytes), a response wraps the
//! contract's reply bytes. Encoding and decoding are done by prost through
//! the generated cosmos proto types; their results are named here so that
//! the rest of the library can be proved against them.

use vstd::prelude::*;
use cosmrs::proto::cosmwasm::wasm::v1::QuerySmartContractStateRequest;
use cosmrs::proto::cosmwasm::wasm::v1::QuerySmartContractStateResponse;
use cosmrs::proto::prost::Message;

verus! {

/// The protobuf encoding of a state-query request envelope holding the given
/// contract address and query bytes.
pub uninterp spec fn state_query_encoded(address: Seq<char>, query_data: Seq<u8>) -> Seq<u8>;

/// The protobuf encoding of a state-query response envelope holding the given
/// reply bytes.
pub uninterp spec fn state_response_encoded(data: Seq<u8>) -> Seq<u8>;

/// What prost makes of the given bytes when read as a state-query response
/// envelope: the reply bytes inside, or nothing if the bytes are malformed.
pub uninterp spec fn envelope_decoded(bytes: Seq<u8>) -> Option<Seq<u8>>;

/// Relies on prost's `Message::encode_to_vec` for `QuerySmartContractStateRequest`:
/// the encoding is a function of the address and query bytes alone, and encoding
/// into a growable buffer cannot fail.
#[verifier::external_body]
pub(crate) fn encode_state_query(address: &str, query_data: &Vec<u8>) -> (r: Vec<u8>)
    ensures
        r@ == state_query_encoded(address@, query_data@),
{
    let msg = QuerySmartContractStateRequest {
        address: address.to_string(),
        query_data: query_data.clone(),
    };
    msg.encode_to_vec()
}

/// Relies on prost's `Message::encode_to_vec` for `QuerySmartContractStateResponse`,
/// and on prost's round-trip guarantee that `decode` inverts `encode` for a
/// well-formed message.
#[verifier::external_body]
pub(crate) fn encode_state_response(data: &Vec<u8>) -> (r: Vec<u8>)
    ensures
        r@ == state_response_encoded(data@),
        envelope_decoded(r@) == Some(data@),
{
    let msg = QuerySmartContractStateResponse { data: data.clone() };
    msg.encode_to_vec()
}

/// Relies on prost's `Message::decode` for `QuerySmartContractStateResponse`:
/// whether the bytes decode, and to what, is a function of the bytes alone.
#[verifier::external_body]
pub(crate) fn decode_state_response(bytes: &Vec<u8>) -> (r: Option<Vec<u8>>)
    ensures
        r is Some <==> envelope_decoded(bytes@) is Some,
        r is Some ==> r->0@ == envelope_decoded(bytes@)->0,
{
    match QuerySmartContractStateResponse::decode(bytes.as_slice()) {
        Ok(resp) => Some(resp.data),
        Err(_) => None,
    }
}

/// Wrap contract reply bytes into an encoded state-query response envelope,
/// as an endpoint would before answering a batch.
pub fn encode_state_response_envelope(data: &Vec<u8>) -> (r: Vec<u8>)
    ensures
        r@ == state_response_encoded(data@),
        envelope_decoded(r@) == Some(data@),
{
    encode_state_response(data)
}

/// Unwrap an encoded state-query response envelope, yielding the contract
/// reply bytes inside, or `None` if the bytes are malformed.
pub fn decode_state_response_envelope(bytes: &Vec<u8>) -> (r: Option<Vec<u8>>)
    ensures
        r is Some <==> envelope_decoded(bytes@) is Some,
        r is Some ==> r->0@ == envelope_decoded(bytes@)->0,
{
    decode_state_response(bytes)
}

/// Law: encoding reply bytes into a response envelope and decoding the
/// envelope again returns the original bytes unchanged, whatever they are.
pub fn state_response_round_trip(data: &Vec<u8>) -> (r: Vec<u8>)
    ensures
        r@ == data@,
{
    let encoded = encode_state_response(data);
    let decoded = decode_state_response(&encoded);
    decoded.unwrap()
}

} // verus!
