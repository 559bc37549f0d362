//! The two operations of the backend: integer multiplication and a health
//! report. Each returns a fresh response record whose string fields are
//! pinned, character for character, by the contracts below.

use vstd::prelude::*;
use vstd::string::*;
use crate::decimal::{dec_str, i32_to_string};
use crate::models::{ErrorResponse, HealthResponse, MultiplyResponse};
use crate::timestamp::{now_rfc3339, rfc3339_shaped};

verus! {

/// Whether an integer fits the 32-bit signed range.
pub open spec fn in_i32_range(n: int) -> bool {
    i32::MIN <= n <= i32::MAX
}

/// The success message for multiplying `a` and `b`.
pub open spec fn success_message(a: int, b: int) -> Seq<char> {
    "Successfully multiplied "@ + dec_str(a) + " and "@ + dec_str(b)
}

/// The rendered equation for multiplying `a` and `b`.
pub open spec fn operation_string(a: int, b: int) -> Seq<char> {
    dec_str(a) + " × "@ + dec_str(b) + " = "@ + dec_str(a * b)
}

/// The short name of the overflow error.
pub open spec fn overflow_error() -> Seq<char> {
    "overflow"@
}

/// The description of the overflow error for `a` and `b`.
pub open spec fn overflow_message(a: int, b: int) -> Seq<char> {
    "multiplying "@ + dec_str(a) + " and "@ + dec_str(b)
        + " overflows a 32-bit signed integer"@
}

/// Whether `r` is the multiplication response owed for the inputs `a` and `b`.
pub open spec fn multiply_response_spec(a: int, b: int, r: MultiplyResponse) -> bool {
    &&& r.result == a * b
    &&& r.message@ == success_message(a, b)
    &&& r.operation@ == operation_string(a, b)
}

/// Multiplies two integers taken from the request path. Overflow is
/// detected and rejected with an error report rather than wrapped silently.
pub fn multiply_numbers(a: i32, b: i32) -> (r: Result<MultiplyResponse, ErrorResponse>)
    ensures
        r is Ok <==> in_i32_range(a as int * b as int),
        r matches Ok(resp) ==> multiply_response_spec(a as int, b as int, resp),
        r matches Err(e) ==> {
            &&& e.error@ == overflow_error()
            &&& e.message@ == overflow_message(a as int, b as int)
            &&& rfc3339_shaped(e.timestamp@)
        },
{
    match a.checked_mul(b) {
        Some(result) => {
            let mut message = String::from_str("Successfully multiplied ");
            message.append(i32_to_string(a).as_str());
            message.append(" and ");
            message.append(i32_to_string(b).as_str());

            let mut operation = i32_to_string(a);
            operation.append(" × ");
            operation.append(i32_to_string(b).as_str());
            operation.append(" = ");
            operation.append(i32_to_string(result).as_str());

            proof {
                assert(message@ =~= success_message(a as int, b as int));
                assert(operation@ =~= operation_string(a as int, b as int));
            }
            Ok(MultiplyResponse { result, message, operation })
        },
        None => {
            let mut description = String::from_str("multiplying ");
            description.append(i32_to_string(a).as_str());
            description.append(" and ");
            description.append(i32_to_string(b).as_str());
            description.append(" overflows a 32-bit signed integer");
            proof {
                assert(description@ =~= overflow_message(a as int, b as int));
            }
            Err(ErrorResponse::new("overflow", description.as_str()))
        },
    }
}

/// Repeated multiplications of the same inputs are answered alike: the
/// response owed for `a` and `b` is determined by `a` and `b` alone, so any
/// two responses meeting it agree on every field.
pub proof fn lemma_multiply_idempotent(
    a: int,
    b: int,
    r1: MultiplyResponse,
    r2: MultiplyResponse,
)
    requires
        multiply_response_spec(a, b, r1),
        multiply_response_spec(a, b, r2),
    ensures
        r1.result == r2.result,
        r1.message@ == r2.message@,
        r1.operation@ == r2.operation@,
{
}

/// A zero factor never overflows, and the response owed for it carries a
/// zero result.
pub proof fn lemma_zero_factor(a: int, b: int, r: MultiplyResponse)
    requires
        a == 0 || b == 0,
        multiply_response_spec(a, b, r),
    ensures
        a * b == 0,
        in_i32_range(a * b),
        r.result == 0,
{
}

/// Reports the backend as healthy, with a fixed status, message and version
/// and the current instant in RFC 3339 form.
pub fn health_check() -> (r: HealthResponse)
    ensures
        r.status@ == "healthy"@,
        r.message@ == "🦀 Rust backend is running perfectly!"@,
        r.version@ == "1.0.0"@,
        rfc3339_shaped(r.timestamp@),
{
    HealthResponse {
        status: String::from_str("healthy"),
        message: String::from_str("🦀 Rust backend is running perfectly!"),
        timestamp: now_rfc3339(),
        version: String::from_str("1.0.0"),
    }
}

} // verus!
