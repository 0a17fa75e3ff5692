use vstd::prelude::*;

/// Failure of a remote call: the connection, the JSON-RPC framing, or the
/// server's own error reply. It is handed on unchanged.
pub use jsonrpsee_types::Error as RpcError;

verus! {

/// jsonrpsee's error type, carried through the library's results as it is.
#[verifier::external_type_specification]
#[verifier::external_body]
pub struct ExRpcError(jsonrpsee_types::Error);

} // verus!
