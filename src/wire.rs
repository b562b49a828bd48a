//! The daemon's request/response shapes and the codec's error type, as the
//! greetd_ipc crate defines them.
use vstd::prelude::*;

verus! {

/// greetd_ipc's `Request`: its four variants and their public fields, as
/// declared in the crate.
#[verifier::external_type_specification]
pub struct ExRequest(greetd_ipc::Request);

/// greetd_ipc's `Response`: its three variants and their public fields.
#[verifier::external_type_specification]
pub struct ExResponse(greetd_ipc::Response);

/// greetd_ipc's `ErrorType`: generic or authentication failure.
#[verifier::external_type_specification]
pub struct ExErrorType(greetd_ipc::ErrorType);

/// greetd_ipc's `AuthMessageType`: visible, secret, info or error.
#[verifier::external_type_specification]
pub struct ExAuthMessageType(greetd_ipc::AuthMessageType);

/// greetd_ipc's codec error, carried through as an opaque value.
#[verifier::external_type_specification]
#[verifier::external_body]
pub struct ExCodecError(greetd_ipc::codec::Error);

/// either's `Either`: a `Left` or a `Right` value.
#[verifier::external_type_specification]
#[verifier::reject_recursive_types(L)]
#[verifier::reject_recursive_types(R)]
pub struct ExEither<L, R>(either::Either<L, R>);

} // verus!
