//! Signed create/delete requests for a remote post service: the canonical
//! byte encoding of each request, its RSA/SHA-256 signature, and the request
//! objects that carry both.

pub mod encode;
pub mod request;
pub mod signer;

pub use encode::{encode_create, encode_delete};
pub use request::{
    build_create_request, build_delete_request, sign_create, sign_create_now,
    sign_delete, sign_delete_now, CreateRequest, DeleteRequest,
};
pub use signer::{sign, signature_text, SignError};
