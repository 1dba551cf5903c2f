//! The ways a call can fail: no reply, a reply that rejects the call, or a
//! successful reply that cannot be understood.

use vstd::prelude::*;
use crate::json::Json;
use crate::schema::{DecodeError, opt_view, str_at, opt_str_ok, opt_str};

verus! {

/// The error payload that the service sends with a failure status.
#[derive(Clone, Debug)]
pub struct RemoteError {
    /// Carried on the wire under the key `error_type`.
    pub error_type: Option<String>,
    pub error_code: Option<String>,
    pub error_message: Option<String>,
    /// The identifier of the failed request, for support correlation.
    pub request_id: Option<String>,
}

/// `j` is an object whose error fields are each absent, `null` or a string.
pub open spec fn remote_error_ok(j: Json) -> bool {
    &&& j is Object
    &&& opt_str_ok(j, "error_type"@)
    &&& opt_str_ok(j, "error_code"@)
    &&& opt_str_ok(j, "error_message"@)
    &&& opt_str_ok(j, "request_id"@)
}

/// `x` holds the error fields of the object `j`.
pub open spec fn remote_error_from(j: Json, x: RemoteError) -> bool {
    &&& str_at(j, "error_type"@) == opt_view(x.error_type)
    &&& str_at(j, "error_code"@) == opt_view(x.error_code)
    &&& str_at(j, "error_message"@) == opt_view(x.error_message)
    &&& str_at(j, "request_id"@) == opt_view(x.request_id)
}

impl RemoteError {
    /// Reads the error payload of a failed call from a JSON object.
    pub fn from_json(j: &Json) -> (r: Result<RemoteError, DecodeError>)
        ensures
            r is Ok <==> remote_error_ok(*j),
            r matches Ok(x) ==> remote_error_from(*j, x),
            !(*j is Object) ==> r matches Err(DecodeError::NotAnObject),
    {
        if !(matches!(j, Json::Object(_))) {
            return Err(DecodeError::NotAnObject);
        }
        let error_type = match opt_str(j, "error_type") {
            Ok(v) => v,
            Err(e) => return Err(e),
        };
        let error_code = match opt_str(j, "error_code") {
            Ok(v) => v,
            Err(e) => return Err(e),
        };
        let error_message = match opt_str(j, "error_message") {
            Ok(v) => v,
            Err(e) => return Err(e),
        };
        let request_id = match opt_str(j, "request_id") {
            Ok(v) => v,
            Err(e) => return Err(e),
        };
        Ok(RemoteError { error_type, error_code, error_message, request_id })
    }
}

/// A reply with a status outside the success range.
#[derive(Clone, Debug)]
pub struct ApiError {
    /// The HTTP status of the reply.
    pub status: u16,
    /// The error payload, where the body held one.
    pub remote: Option<RemoteError>,
}

/// The error of an operation.
#[derive(Clone, Debug)]
pub enum ClientError {
    /// No complete reply arrived: the connection could not be made, timed
    /// out, or was dropped. The text describes the cause.
    Transport(String),
    /// The service replied with a failure status.
    Api(ApiError),
    /// The service replied with a success status and a body that does not
    /// have the shape of the expected response.
    Schema(DecodeError),
}

} // verus!
