//! What an RPC middleware decides about each call it passes on.

use crate::adaptive_concurrency::AdaptiveConcurrency;
use crate::model::Controller;
use crate::rpc_errors::{classify_error, has_throttle_error_payload, RpcErrorKind};
use crate::text::push_decimal;
use alloy::rpc::json_rpc::{RequestPacket, ResponsePacket};
use alloy_chains::Chain;
use vstd::prelude::*;
use vstd::string::*;

verus! {

/// Seconds from which on a successful call counts as slow.
pub const SLOW_CALL_SECS: u64 = 10;

/// The name under which `alloy_chains` displays the chain with a given id.
pub uninterp spec fn chain_name(chain_id: u64) -> Seq<char>;

/// Makes an `alloy_chains::Chain` of the id and displays it: the chain's name if it is a known
/// one, the id otherwise. The result is a function of the id.
#[verifier::external_body]
fn display_chain(chain_id: u64) -> (name: String)
    ensures
        name@ == chain_name(chain_id),
{
    Chain::from(chain_id).to_string()
}

/// Wraps RPC services so that their calls are logged, measured and throttled.
pub struct RpcLoggingLayer {
    pub chain_id: u64,
    /// Chain name used as the `network` metric label.
    pub network: String,
    pub rpc_url: String,
}

/// A wrapped RPC service.
#[derive(Debug)]
pub struct RpcLoggingService<S> {
    pub inner: S,
    pub chain_id: u64,
    pub network: String,
    pub rpc_url: String,
}

impl Clone for RpcLoggingLayer {
    fn clone(&self) -> (copy: Self)
        ensures
            copy == *self,
    {
        RpcLoggingLayer {
            chain_id: self.chain_id,
            network: self.network.clone(),
            rpc_url: self.rpc_url.clone(),
        }
    }
}

impl<S: Clone> Clone for RpcLoggingService<S> {
    fn clone(&self) -> (copy: Self)
        ensures
            cloned(self.inner, copy.inner),
            copy.chain_id == self.chain_id,
            copy.network == self.network,
            copy.rpc_url == self.rpc_url,
    {
        RpcLoggingService {
            inner: self.inner.clone(),
            chain_id: self.chain_id,
            network: self.network.clone(),
            rpc_url: self.rpc_url.clone(),
        }
    }
}

impl RpcLoggingLayer {
    /// A layer for calls to the chain with the given id at the given URL.
    pub fn new(chain_id: u64, rpc_url: String) -> (layer: Self)
        ensures
            layer.chain_id == chain_id,
            layer.network@ == chain_name(chain_id),
            layer.rpc_url@ == rpc_url@,
    {
        RpcLoggingLayer { chain_id, network: display_chain(chain_id), rpc_url }
    }

    /// Wraps a service.
    pub fn layer<S>(&self, inner: S) -> (service: RpcLoggingService<S>)
        ensures
            service.inner == inner,
            service.chain_id == self.chain_id,
            service.network@ == self.network@,
            service.rpc_url@ == self.rpc_url@,
    {
        RpcLoggingService {
            inner,
            chain_id: self.chain_id,
            network: self.network.clone(),
            rpc_url: self.rpc_url.clone(),
        }
    }
}

/// `alloy`'s request packet, a collection of requests: a single one or a batch.
#[verifier::external_type_specification]
#[verifier::external_body]
pub struct ExRequestPacket(alloy::rpc::json_rpc::RequestPacket);

/// The methods of the requests of a packet, in their order.
pub uninterp spec fn packet_methods(packet: RequestPacket) -> Seq<Seq<char>>;

/// The characters of each method.
pub open spec fn method_texts(methods: Seq<String>) -> Seq<Seq<char>> {
    Seq::new(methods.len(), |i: int| methods[i]@)
}

/// Calls `RequestPacket::method_names`, which walks the methods of the packet's requests in order
/// (one for a single request), and copies each.
#[verifier::external_body]
fn collect_methods(packet: &RequestPacket) -> (methods: Vec<String>)
    ensures
        method_texts(methods@) == packet_methods(*packet),
{
    packet.method_names().map(|m| m.to_string()).collect()
}

/// The label of a call: the method where there is one request, otherwise how many there are.
pub open spec fn call_label(methods: Seq<Seq<char>>) -> Seq<char> {
    if methods.len() == 0 {
        "empty_batch"@
    } else if methods.len() == 1 {
        methods[0]
    } else {
        "batch_"@ + crate::text::decimal(methods.len()) + "_requests"@
    }
}

/// The label of a call that makes requests with the given methods.
pub fn method_name(methods: &Vec<String>) -> (label: String)
    ensures
        label@ == call_label(method_texts(methods@)),
{
    if methods.len() == 0 {
        "empty_batch".to_string()
    } else if methods.len() == 1 {
        assert(method_texts(methods@)[0] == methods@[0]@);
        methods[0].clone()
    } else {
        let mut label: String = String::new();
        label.append("batch_");
        push_decimal(&mut label, methods.len() as u64);
        label.append("_requests");
        assert(label@ =~= call_label(method_texts(methods@)));
        label
    }
}

/// What the report on a call names.
#[derive(Debug)]
pub struct CallContext {
    pub chain_id: u64,
    pub network: String,
    pub rpc_url: String,
    pub method_name: String,
}

impl<S> RpcLoggingService<S> {
    /// What the report on a call will name, taken down before the call is passed on.
    pub fn call_context(&self, request: &RequestPacket) -> (context: CallContext)
        ensures
            context.chain_id == self.chain_id,
            context.network@ == self.network@,
            context.rpc_url@ == self.rpc_url@,
            context.method_name@ == call_label(packet_methods(*request)),
    {
        let methods: Vec<String> = collect_methods(request);
        CallContext {
            chain_id: self.chain_id,
            network: self.network.clone(),
            rpc_url: self.rpc_url.clone(),
            method_name: method_name(&methods),
        }
    }
}

/// How long a request is held back: the backoff, if there is one, and the jitter that keeps all
/// callers from waking at once.
pub fn request_delay_ms(backoff_ms: u64, jitter_ms: u64) -> (delay_ms: Option<u64>)
    requires
        backoff_ms + jitter_ms <= u64::MAX,
    ensures
        delay_ms is Some <==> backoff_ms > 0,
        delay_ms matches Some(ms) ==> ms == backoff_ms + jitter_ms,
        // Jitter of up to half the backoff keeps the delay between one and one and a half times it.
        delay_ms matches Some(ms) ==> 2 * jitter_ms <= backoff_ms ==> 2 * backoff_ms <= 2 * ms
            <= 3 * backoff_ms,
{
    if backoff_ms > 0 {
        Some(backoff_ms + jitter_ms)
    } else {
        None
    }
}

/// The controller after a response. One that carries a throttle error is the outage signal
/// itself; any other shows that the provider is alive and decays the backoff. Calls of every kind
/// end here, cheap ones too, so none of them scales anything up.
pub open spec fn after_response(before: Controller, throttled: bool) -> Controller {
    if throttled {
        before
    } else {
        before.decayed()
    }
}

/// Settles a call that was answered after `elapsed_secs`, given whether the answer carries a
/// throttle error. Returns whether the call is to be reported as slow.
pub fn settle_response(
    controller: &mut AdaptiveConcurrency,
    elapsed_secs: u64,
    throttled: bool,
) -> (slow: bool)
    requires
        old(controller)@.wf(),
    ensures
        slow == (elapsed_secs >= SLOW_CALL_SECS),
        slow <==> elapsed_secs >= 10,
        final(controller)@ == after_response(old(controller)@, throttled),
        final(controller)@.wf(),
        final(controller).clock() == old(controller).clock(),
{
    if !throttled {
        controller.record_success_backoff_only();
    }
    elapsed_secs >= SLOW_CALL_SECS
}

/// Settles a call that was answered after `elapsed_secs`. Returns whether the call is to be
/// reported as slow.
pub fn on_response(
    controller: &mut AdaptiveConcurrency,
    elapsed_secs: u64,
    response: &ResponsePacket,
) -> (slow: bool)
    requires
        old(controller)@.wf(),
    ensures
        slow == (elapsed_secs >= SLOW_CALL_SECS),
        slow <==> elapsed_secs >= 10,
        final(controller)@ == after_response(
            old(controller)@,
            crate::rpc_errors::has_throttle_payload(crate::rpc_errors::packet_errors(*response)),
        ),
        crate::rpc_errors::all_ascii(crate::rpc_errors::packet_errors(*response))
            ==> final(controller)@ == after_response(
            old(controller)@,
            crate::rpc_errors::has_ascii_throttle_payload(
                crate::rpc_errors::packet_errors(*response),
            ),
        ),
        crate::rpc_errors::has_throttle_code(crate::rpc_errors::packet_errors(*response))
            ==> final(controller)@ == old(controller)@,
        crate::rpc_errors::has_unavailable_code(crate::rpc_errors::packet_errors(*response))
            ==> final(controller)@ == old(controller)@,
        final(controller)@.wf(),
        final(controller).clock() == old(controller).clock(),
{
    let throttled: bool = has_throttle_error_payload(response);
    settle_response(controller, elapsed_secs, throttled)
}

/// The controller after a failed call, whose kind is that of its error, at time `now`.
pub open spec fn after_failure(
    before: Controller,
    kind: Option<RpcErrorKind>,
    now: int,
) -> Controller {
    if kind == Some(RpcErrorKind::RateLimited) {
        before.rate_limited(now)
    } else {
        before
    }
}

/// Whether `after` is what a failed call makes of `before`, whatever the clock read.
pub open spec fn failure_outcome(
    before: Controller,
    kind: Option<RpcErrorKind>,
    after: Controller,
) -> bool {
    if kind == Some(RpcErrorKind::RateLimited) {
        crate::model::rate_limit_outcome(before, after)
    } else {
        after == before
    }
}

/// Settles a call that failed at time `now_ms` with an error of the given kind. Only a rate limit
/// concerns the controller: it scales down and grows the backoff, which then throttles every
/// later call.
pub fn settle_failure_at(
    controller: &mut AdaptiveConcurrency,
    kind: Option<RpcErrorKind>,
    now_ms: u64,
)
    requires
        old(controller)@.wf(),
    ensures
        final(controller)@ == after_failure(old(controller)@, kind, now_ms as int),
        final(controller)@.wf(),
        final(controller).clock() == old(controller).clock(),
{
    if let Some(RpcErrorKind::RateLimited) = kind {
        controller.record_rate_limit_at(now_ms);
    }
}

/// Settles a call that failed with the given error. Returns the kind under which the error is to
/// be reported, none for an error that block-range retries handle.
pub fn on_failure(controller: &mut AdaptiveConcurrency, error_message: &str) -> (kind: Option<
    RpcErrorKind,
>)
    requires
        old(controller)@.wf(),
    ensures
        kind == crate::rpc_errors::error_kind(
            error_message@,
            crate::rpc_errors::is_throttle_message(error_message@),
        ),
        vstd::utf8::is_ascii_chars(error_message@) ==> kind == crate::rpc_errors::error_kind(
            error_message@,
            crate::rpc_errors::has_token(crate::text::ascii_lowercase(error_message@)),
        ),
        forall|n: int| #[trigger]
            crate::rpc_errors::ascii_head_has_token(error_message@, n) ==> kind
                == crate::rpc_errors::error_kind(error_message@, true),
        failure_outcome(old(controller)@, kind, final(controller)@),
        exists|now: u64|
            old(controller).clock().reads(now) && final(controller)@ == #[trigger] after_failure(
                old(controller)@,
                kind,
                now as int,
            ),
        final(controller)@.wf(),
        final(controller).clock() == old(controller).clock(),
{
    let kind: Option<RpcErrorKind> = classify_error(error_message);
    let now_ms: u64 = controller.now_millis();
    settle_failure_at(controller, kind, now_ms);
    kind
}

/// Answered calls, whatever they carry, scale nothing up and never grow the backoff.
pub proof fn law_answered_calls_scale_nothing(before: Controller, throttled: bool)
    requires
        before.wf(),
    ensures
        ({
            let after = after_response(before, throttled);
            &&& after.current == before.current
            &&& after.batch_size == before.batch_size
            &&& after.consecutive_successes == before.consecutive_successes
            &&& after.backoff_ms <= before.backoff_ms
            &&& throttled ==> after == before
        }),
{
}

/// Errors that block-range retries handle, and timeouts, leave the controller as it is, even if
/// their messages carry a throttle token as well.
pub proof fn law_range_errors_and_timeouts_do_not_throttle(
    before: Controller,
    message: Seq<char>,
    throttled: bool,
    now: int,
)
    requires
        before.wf(),
        crate::text::contains_any_text(message, crate::rpc_errors::known_retryable_phrases())
            || crate::text::contains_text(message, "timeout"@) || crate::text::contains_text(
            message,
            "timed out"@,
        ),
    ensures
        after_failure(before, crate::rpc_errors::error_kind(message, throttled), now) == before,
{
}

/// Any other error whose message means throttling is a rate limit to the controller.
pub proof fn law_throttle_errors_back_off(before: Controller, message: Seq<char>, now: int)
    requires
        before.wf(),
        !crate::text::contains_any_text(message, crate::rpc_errors::known_retryable_phrases()),
        !crate::text::contains_text(message, "timeout"@),
        !crate::text::contains_text(message, "timed out"@),
    ensures
        after_failure(before, crate::rpc_errors::error_kind(message, true), now)
            == before.rate_limited(now),
{
}

/// An answer without a throttle error takes a quarter off any backoff, rounded down, and so makes
/// it shorter; one with a throttle error leaves it as it is. Neither changes anything else but the
/// mark on the metrics.
pub proof fn law_answers_decay_the_backoff(before: Controller, throttled: bool)
    requires
        before.wf(),
    ensures
        ({
            let after = after_response(before, throttled);
            &&& throttled ==> after == before
            &&& !throttled ==> after.backoff_ms == before.backoff_ms * 3 / 4
            &&& !throttled && before.backoff_ms > 0 ==> after.backoff_ms < before.backoff_ms
                && after.unpublished
            &&& before.backoff_ms == 0 ==> after == before
            &&& after.current == before.current
            &&& after.min == before.min
            &&& after.max == before.max
            &&& after.consecutive_successes == before.consecutive_successes
            &&& after.batch_size == before.batch_size
            &&& after.rate_limit_count == before.rate_limit_count
            &&& after.ever_rate_limited == before.ever_rate_limited
            &&& after.last_rate_limit_ms == before.last_rate_limit_ms
            &&& after.last_recovery_ms == before.last_recovery_ms
            &&& after.idle_before_recovery_ms == before.idle_before_recovery_ms
            &&& after.recovery_interval_ms == before.recovery_interval_ms
        }),
{
}

/// A failed call that was rate limited starts a backoff of 500 ms or doubles the one there is, up
/// to 30 s, and is stamped with its time; any other leaves the controller as it is.
pub proof fn law_failures_in_numbers(before: Controller, kind: Option<RpcErrorKind>, now: int)
    requires
        before.wf(),
    ensures
        ({
            let after = after_failure(before, kind, now);
            &&& kind != Some(RpcErrorKind::RateLimited) ==> after == before
            &&& kind == Some(RpcErrorKind::RateLimited) ==> {
                &&& after == before.rate_limited(now)
                &&& after.last_rate_limit_ms == now
                &&& after.backoff_ms == if before.backoff_ms == 0 {
                    500
                } else if before.backoff_ms <= 15_000 {
                    2 * before.backoff_ms
                } else {
                    30_000
                }
            }
        }),
{
}

/// What a failed call leaves, whatever the clock read: a rate limit stamped with some time, or the
/// controller as it was.
pub proof fn law_what_a_failure_leaves(
    before: Controller,
    kind: Option<RpcErrorKind>,
    after: Controller,
)
    requires
        failure_outcome(before, kind, after),
    ensures
        kind != Some(RpcErrorKind::RateLimited) ==> after == before,
        kind == Some(RpcErrorKind::RateLimited) ==> after == before.rate_limited(
            after.last_rate_limit_ms,
        ) && 0 <= after.last_rate_limit_ms <= 18_446_744_073_709_551_615,
{
}

/// A call is labelled by its only method, or else by how many requests it makes.
pub proof fn law_labels(methods: Seq<Seq<char>>)
    ensures
        methods.len() == 0 ==> call_label(methods) == "empty_batch"@,
        methods.len() == 1 ==> call_label(methods) == methods[0],
        methods.len() >= 2 ==> call_label(methods) == "batch_"@ + crate::text::decimal(
            methods.len(),
        ) + "_requests"@,
{
}

/// The texts of methods are theirs, one for one.
pub proof fn law_method_texts(methods: Seq<String>)
    ensures
        method_texts(methods).len() == methods.len(),
        forall|i: int|
            0 <= i < methods.len() ==> #[trigger] method_texts(methods)[i] == methods[i]@,
{
}

} // verus!
