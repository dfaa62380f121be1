//! The decision cores of the sample backend and of the management
//! service's authorization endpoint. Their HTTP scaffolding stays outside;
//! these are the values and answers it serves.

use vstd::prelude::*;
use vstd::string::StringExecFns;

verus! {

/// The sample backend's answer on its `/foo` route.
pub fn foo() -> (r: &'static str)
    ensures
        r@ == "Hello from foo service!"@,
{
    "Hello from foo service!"
}

/// The sample backend's answer on its `/bar` route.
pub fn bar() -> (r: &'static str)
    ensures
        r@ == "Hello from bar service!"@,
{
    "Hello from bar service!"
}

/// The sample backend's answer on its `/baz` route.
pub fn baz() -> (r: &'static str)
    ensures
        r@ == "Hello from baz service!"@,
{
    "Hello from baz service!"
}

/// The authorization check's request payload: the client's token and the
/// path it asks for.
pub struct Token {
    pub token: String,
    pub path: String,
}

/// The management service's authorization answer: 200 exactly on the one
/// accepted token, 401 on every other.
pub fn authenticate(check_request: &Token) -> (status: u16)
    ensures
        status == 200 <==> check_request.token@ == "AUTH_TOKEN"@,
        status == 200 || status == 401,
{
    let accepted: String = String::from_str("AUTH_TOKEN");
    if check_request.token == accepted {
        200
    } else {
        401
    }
}

/// One route's rate limit as the management service accounts it: calls
/// counted so far and the permitted maximum.
pub struct RateLimit {
    pub count: u32,
    pub quota: u32,
}

impl RateLimit {
    /// Creates a new RateLimit.
    pub fn new(count: u32, quota: u32) -> (r: RateLimit)
        ensures
            r.count == count,
            r.quota == quota,
    {
        RateLimit { count, quota }
    }
}

} // verus!
