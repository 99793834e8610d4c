//! The retry-eligibility gate: whether another attempt is permitted at all.

pub mod backoff;

use vstd::prelude::*;
use crate::model::{HttpMethod, RequestContext};

verus! {

/// A method is idempotent when it is safe to repeat without further
/// caller-side proof: every method here but POST.
pub open spec fn idempotent_method(method: HttpMethod) -> bool {
    match method {
        HttpMethod::GET => true,
        HttpMethod::HEAD => true,
        HttpMethod::PUT => true,
        HttpMethod::DELETE => true,
        HttpMethod::OPTIONS => true,
        HttpMethod::POST => false,
    }
}

/// Another attempt is permitted when budget remains and either the method
/// is idempotent or the caller proved (idempotency key) and allowed
/// (policy flag) a non-idempotent retry.
pub open spec fn retry_permitted(ctx: RequestContext) -> bool {
    &&& ctx.attempt < ctx.max_attempts
    &&& {
        ||| idempotent_method(ctx.method)
        ||| (ctx.idempotency_key is Some && ctx.allow_non_idempotent_retry)
    }
}

pub fn is_idempotent(method: &HttpMethod) -> (r: bool)
    ensures
        r == idempotent_method(*method),
{
    matches!(
        method,
        HttpMethod::GET | HttpMethod::HEAD | HttpMethod::PUT | HttpMethod::DELETE
            | HttpMethod::OPTIONS
    )
}

/// The single gate consulted before every Retry / RefreshAndRetry
/// decision; no component bypasses it.
pub fn can_retry(ctx: &RequestContext) -> (r: bool)
    ensures
        r == retry_permitted(*ctx),
{
    if ctx.attempt >= ctx.max_attempts {
        return false;
    }
    if is_idempotent(&ctx.method) {
        return true;
    }
    ctx.idempotency_key.is_some() && ctx.allow_non_idempotent_retry
}

/// A non-idempotent method without an idempotency key is denied retry
/// whatever the attempt count.
pub proof fn lemma_non_idempotent_without_key_denied(ctx: RequestContext)
    requires
        !idempotent_method(ctx.method),
        ctx.idempotency_key is None,
    ensures
        !retry_permitted(ctx),
{
}

} // verus!
