//! The request objects sent to the post service, and the operations that
//! build and sign them.

use chrono::Local;
use vstd::prelude::*;

use crate::encode::{create_payload, delete_payload, encode_create, encode_delete};
use crate::signer::{base64_standard, key_loads, rsa_sha256_signature, sign, SignError};

verus! {

/// A request to create a post. `signature` is meant to be the base64 text of
/// the signature over `create_payload(title, body, timestamp)`.
pub struct CreateRequest {
    pub title: String,
    pub body: String,
    pub timestamp: i64,
    pub signature: String,
}

/// A request to delete the post `id`. `signature` is meant to be the base64
/// text of the signature over `delete_payload(id, timestamp)`.
pub struct DeleteRequest {
    pub id: i32,
    pub timestamp: i64,
    pub signature: String,
}

/// Relies on chrono's `Local::now`, read as whole seconds since the Unix epoch
/// by `DateTime::timestamp`. Nothing is assumed of the value: it is the clock.
#[verifier::external_body]
fn now_timestamp() -> i64 {
    Local::now().timestamp()
}

/// Puts the fields of a create request together, as given.
pub fn build_create_request(
    title: String,
    body: String,
    timestamp: i64,
    signature: String,
) -> (r: CreateRequest)
    ensures
        r.title@ == title@,
        r.body@ == body@,
        r.timestamp == timestamp,
        r.signature@ == signature@,
{
    CreateRequest { title, body, timestamp, signature }
}

/// Puts the fields of a delete request together, as given.
pub fn build_delete_request(id: i32, timestamp: i64, signature: String) -> (r: DeleteRequest)
    ensures
        r.id == id,
        r.timestamp == timestamp,
        r.signature@ == signature@,
{
    DeleteRequest { id, timestamp, signature }
}

/// Signs the canonical bytes of (`title`, `body`, `timestamp`) with the
/// PEM-encoded RSA private key `pem`, and returns the create request that
/// carries those fields and the signature.
pub fn sign_create(
    pem: &[u8],
    title: String,
    body: String,
    timestamp: i64,
) -> (r: Result<CreateRequest, SignError>)
    ensures
        r == Err::<CreateRequest, SignError>(SignError::KeyLoad) <==> !key_loads(pem@),
        r is Ok ==> {
            let req = r->Ok_0;
            &&& req.title@ == title@
            &&& req.body@ == body@
            &&& req.timestamp == timestamp
            &&& req.signature@ == base64_standard(
                rsa_sha256_signature(pem@, create_payload(title@, body@, timestamp)),
            )
        },
{
    let data = encode_create(title.as_str(), body.as_str(), timestamp);
    match sign(data.as_slice(), pem) {
        Ok(signature) => Ok(build_create_request(title, body, timestamp, signature)),
        Err(e) => Err(e),
    }
}

/// Signs the canonical bytes of (`id`, `timestamp`) with the PEM-encoded RSA
/// private key `pem`, and returns the delete request that carries those fields
/// and the signature.
pub fn sign_delete(pem: &[u8], id: i32, timestamp: i64) -> (r: Result<DeleteRequest, SignError>)
    ensures
        r == Err::<DeleteRequest, SignError>(SignError::KeyLoad) <==> !key_loads(pem@),
        r is Ok ==> {
            let req = r->Ok_0;
            &&& req.id == id
            &&& req.timestamp == timestamp
            &&& req.signature@ == base64_standard(
                rsa_sha256_signature(pem@, delete_payload(id, timestamp)),
            )
        },
{
    let data = encode_delete(id, timestamp);
    match sign(data.as_slice(), pem) {
        Ok(signature) => Ok(build_delete_request(id, timestamp, signature)),
        Err(e) => Err(e),
    }
}

/// `sign_create` with the timestamp taken from the clock at the call.
pub fn sign_create_now(pem: &[u8], title: String, body: String) -> (r: Result<CreateRequest, SignError>)
    ensures
        r == Err::<CreateRequest, SignError>(SignError::KeyLoad) <==> !key_loads(pem@),
        r is Ok ==> {
            let req = r->Ok_0;
            &&& req.title@ == title@
            &&& req.body@ == body@
            &&& req.signature@ == base64_standard(
                rsa_sha256_signature(pem@, create_payload(title@, body@, req.timestamp)),
            )
        },
{
    sign_create(pem, title, body, now_timestamp())
}

/// `sign_delete` with the timestamp taken from the clock at the call.
pub fn sign_delete_now(pem: &[u8], id: i32) -> (r: Result<DeleteRequest, SignError>)
    ensures
        r == Err::<DeleteRequest, SignError>(SignError::KeyLoad) <==> !key_loads(pem@),
        r is Ok ==> {
            let req = r->Ok_0;
            &&& req.id == id
            &&& req.signature@ == base64_standard(
                rsa_sha256_signature(pem@, delete_payload(id, req.timestamp)),
            )
        },
{
    sign_delete(pem, id, now_timestamp())
}

} // verus!
