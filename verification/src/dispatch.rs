//! The call dispatcher: retrying method calls over an external transport.
//!
//! The dispatcher owns the per-call decision logic: which transport errors
//! are transient, when to retry, and when to give up. The transport itself
//! only supplies outcomes; the surrounding program performs the actual sends
//! and delays and feeds each outcome back in, either one at a time through
//! the explicit state machine (`step`) or as a whole through
//! `run_call_script`.

use vstd::prelude::*;
use crate::errors::CallErrorKind;
use crate::errors::CallContext;
use crate::errors::CallFailure;
use crate::errors::RequestPart;
use crate::wire::Reply;
use crate::wire::WireValue;
use crate::transport::valid_bus_name;
use crate::transport::valid_object_path;
use crate::transport::valid_interface_name;
use crate::transport::valid_member_name;
use crate::transport::check_bus_name;
use crate::transport::check_object_path;
use crate::transport::check_interface_name;
use crate::transport::check_member_name;

verus! {

/// A method-call request: the endpoint identity and the ordered, untyped
/// argument values. Built fresh per call and immutable once built.
#[derive(Debug)]
pub struct CallRequest {
    pub destination: String,
    pub path: String,
    pub interface: String,
    pub method: String,
    pub args: Vec<WireValue>,
}

/// A dispatcher verdict with its call context stripped, for relating a
/// wrapped result to the bare resolution of the retry loop.
pub open spec fn strip_context(r: Result<Reply, CallFailure>) -> Result<Reply, CallErrorKind> {
    match r {
        Ok(reply) => Ok(reply),
        Err(f) => Err(f.kind),
    }
}

/// The per-call timeout, in seconds, used when none is configured.
pub const DEFAULT_TIMEOUT: u64 = 15;

/// The fixed ceiling on attempts for one call.
pub const RETRIES_ALLOWED: u64 = 10;

/// What the transport reported for one attempt: either a reply, or an error
/// with its stable symbolic name and a human-readable description.
pub enum SendOutcome {
    Reply { reply: Reply },
    Failure { error_name: Option<String>, details: String },
}

/// The dispatcher's retry loop made explicit: one state per phase of a call.
/// The surrounding program performs the outside work a state asks for
/// (building the request, sending it, waiting out the fixed delay) and feeds
/// the resulting event back through `step`.
pub enum DispatchState {
    /// The request is being built from the endpoint identity.
    Building,
    /// Attempt number `attempt` (counted from 1) is in flight.
    Sending { attempt: u64 },
    /// Attempt number `attempt` saw a retryable failure; the fixed one-unit
    /// delay before the next attempt is running.
    RetryWait { attempt: u64 },
    /// The call resolved with a reply.
    Success { reply: Reply },
    /// The call resolved with a terminal failure.
    Failed { error: CallErrorKind },
}

/// What the outside work reported back to the dispatcher.
pub enum DispatchEvent {
    /// The request was built.
    Built,
    /// The request could not be built: the named component is invalid.
    BuildFailed { part: RequestPart },
    /// The in-flight attempt resolved with the given outcome.
    Sent { outcome: SendOutcome },
    /// The inter-retry delay elapsed.
    Waited,
}

/// The dispatcher's configuration: base service name, per-call timeout, and
/// the set of error names that mark a transport failure as transient. Set
/// once at construction and immutable afterwards.
pub struct DBusApi {
    base: String,
    method_timeout: u64,
    method_retry_error_names: Vec<String>,
}

impl DBusApi {
    pub closed spec fn spec_base(self) -> Seq<char> {
        self.base@
    }

    pub closed spec fn spec_method_timeout(self) -> u64 {
        self.method_timeout
    }

    pub closed spec fn spec_retry_error_names(self) -> Seq<String> {
        self.method_retry_error_names@
    }

    /// A transport error name marks a failure as retryable exactly when it is
    /// one of the configured names.
    pub open spec fn is_retryable_name(self, name: Seq<char>) -> bool {
        exists|i: int|
            0 <= i < self.spec_retry_error_names().len() && self.spec_retry_error_names()[i]@
                == name
    }

    /// An absent error name is never retryable; a present one is looked up in
    /// the configured set.
    pub open spec fn retryable_error_name(self, error_name: Option<String>) -> bool {
        error_name is Some && self.is_retryable_name(error_name.unwrap()@)
    }

    /// A reply is never retried; a failure is retried exactly when its name
    /// is configured as retryable.
    pub open spec fn outcome_retryable(self, outcome: SendOutcome) -> bool {
        outcome matches SendOutcome::Failure { error_name, .. } && self.retryable_error_name(
            error_name,
        )
    }

    pub fn new(base: String, method_retry_error_names: Vec<String>, method_timeout: Option<
        u64,
    >) -> (r: DBusApi)
        ensures
            r.spec_base() == base@,
            r.spec_retry_error_names() == method_retry_error_names@,
            r.spec_method_timeout() == (match method_timeout {
                Some(t) => t,
                None => DEFAULT_TIMEOUT,
            }),
    {
        let method_timeout = match method_timeout {
            Some(t) => t,
            None => DEFAULT_TIMEOUT,
        };
        DBusApi { base, method_timeout, method_retry_error_names }
    }

    /// The configured base service name: the destination of every call.
    pub fn base(&self) -> (r: &str)
        ensures
            r@ == self.spec_base(),
    {
        self.base.as_str()
    }

    pub fn method_timeout(&self) -> (r: u64)
        ensures
            r == self.spec_method_timeout(),
    {
        self.method_timeout
    }

    /// Decide whether a transport error name is in the configured retryable
    /// set.
    pub fn name_is_retryable(&self, name: &String) -> (r: bool)
        ensures
            r == self.is_retryable_name(name@),
    {
        let mut i: usize = 0;
        while i < self.method_retry_error_names.len()
            invariant
                0 <= i <= self.method_retry_error_names@.len(),
                forall|j: int| 0 <= j < i ==> self.method_retry_error_names@[j]@ != name@,
            decreases self.method_retry_error_names@.len() - i,
        {
            if self.method_retry_error_names[i].eq(name) {
                proof {
                    assert(self.spec_retry_error_names()[i as int]@ == name@);
                }
                return true;
            }
            i = i + 1;
        }
        false
    }

    /// The first `RETRIES_ALLOWED` outcomes all exist and are all retryable:
    /// the case in which the attempt budget is exhausted.
    pub open spec fn all_attempts_retryable(self, s: Seq<SendOutcome>) -> bool {
        forall|i: int|
            0 <= i < RETRIES_ALLOWED ==> i < s.len() && self.outcome_retryable(#[trigger] s[i])
    }

    /// The outcome sequence is long enough to resolve a call: either it
    /// covers the whole attempt budget, or some outcome in it is terminal.
    pub open spec fn script_covers(self, s: Seq<SendOutcome>) -> bool {
        s.len() >= RETRIES_ALLOWED || exists|i: int|
            0 <= i < s.len() && !self.outcome_retryable(#[trigger] s[i])
    }

    /// The dispatcher's whole contract for one call, given the sequence of
    /// transport outcomes: every attempt before the last saw a retryable
    /// failure; if the whole budget saw retryable failures the call resolves
    /// to a distinct exhaustion error after exactly `RETRIES_ALLOWED`
    /// attempts; otherwise the call resolves on the first terminal outcome,
    /// to the reply on success and to a transport error carrying the
    /// underlying name and details on failure.
    pub open spec fn call_resolution(
        self,
        s: Seq<SendOutcome>,
        verdict: Result<Reply, CallErrorKind>,
        attempts: int,
    ) -> bool {
        &&& 1 <= attempts <= RETRIES_ALLOWED
        &&& forall|i: int| 0 <= i < attempts - 1 ==> self.outcome_retryable(#[trigger] s[i])
        &&& if self.all_attempts_retryable(s) {
            attempts == RETRIES_ALLOWED && verdict == Err::<Reply, CallErrorKind>(
                CallErrorKind::RetriesExhausted { ceiling: RETRIES_ALLOWED },
            )
        } else {
            &&& attempts - 1 < s.len()
            &&& !self.outcome_retryable(s[attempts - 1])
            &&& (s[attempts - 1] matches SendOutcome::Reply { reply } ==> verdict == Ok::<
                Reply,
                CallErrorKind,
            >(reply))
            &&& (s[attempts - 1] matches SendOutcome::Failure { error_name, details }
                ==> verdict == Err::<Reply, CallErrorKind>(
                CallErrorKind::Transport { error_name, details },
            ))
        }
    }

    /// Resolve one call against a given sequence of transport outcomes,
    /// returning the verdict and the number of attempts used. This is the
    /// retry loop itself, with the transport's sends replaced by the given
    /// outcomes; the caller feeding in live outcomes observes exactly the
    /// behaviour stated by `call_resolution`.
    pub fn run_call_script(&self, outcomes: Vec<SendOutcome>) -> (r: (
        Result<Reply, CallErrorKind>,
        u64,
    ))
        requires
            self.script_covers(outcomes@),
        ensures
            self.call_resolution(outcomes@, r.0, r.1 as int),
    {
        let ghost s = outcomes@;
        let mut remaining = outcomes;
        let mut attempt: u64 = 1;
        loop
            invariant
                s == outcomes@,
                self.script_covers(s),
                1 <= attempt <= RETRIES_ALLOWED,
                remaining@ =~= s.subrange(attempt - 1, s.len() as int),
                forall|j: int| 0 <= j < attempt - 1 ==> self.outcome_retryable(#[trigger] s[j]),
            decreases RETRIES_ALLOWED - attempt,
        {
            proof {
                if remaining@.len() == 0 {
                    let i = choose|i: int|
                        0 <= i < s.len() && !self.outcome_retryable(#[trigger] s[i]);
                    assert(self.outcome_retryable(s[i]));
                    assert(false);
                }
            }
            let outcome = remaining.remove(0);
            proof {
                assert(outcome == s[attempt - 1]);
            }
            let after_send = self.step(
                DispatchState::Sending { attempt },
                DispatchEvent::Sent { outcome },
            );
            match after_send {
                DispatchState::Success { reply } => {
                    proof {
                        assert(!self.outcome_retryable(s[attempt - 1]));
                    }
                    return (Ok(reply), attempt);
                },
                DispatchState::Failed { error } => {
                    proof {
                        if self.outcome_retryable(s[attempt - 1]) {
                            assert forall|i: int|
                                0 <= i < RETRIES_ALLOWED implies i < s.len()
                                && self.outcome_retryable(#[trigger] s[i]) by {
                                if i == attempt - 1 {
                                    assert(self.outcome_retryable(s[i]));
                                }
                            }
                        }
                    }
                    return (Err(error), attempt);
                },
                DispatchState::RetryWait { attempt: paused } => {
                    let resumed = self.step(
                        DispatchState::RetryWait { attempt: paused },
                        DispatchEvent::Waited,
                    );
                    proof {
                        assert(self.outcome_retryable(s[attempt - 1]));
                        assert(remaining@ =~= s.subrange(attempt + 1 - 1, s.len() as int));
                    }
                    attempt = match resumed {
                        DispatchState::Sending { attempt: next_attempt } => next_attempt,
                        // A wait always resumes sending.
                        _ => attempt,
                    };
                },
                // Sending an outcome never leaves the machine building,
                // sending or waiting without advancing.
                _ => {
                    return (
                        Err(CallErrorKind::RetriesExhausted { ceiling: RETRIES_ALLOWED }),
                        RETRIES_ALLOWED,
                    );
                },
            }
        }
    }

    /// All four components of the endpoint identity conform to the bus's
    /// naming rules.
    pub open spec fn endpoint_valid(
        self,
        path: Seq<char>,
        interface: Seq<char>,
        method: Seq<char>,
    ) -> bool {
        &&& valid_bus_name(self.spec_base())
        &&& valid_object_path(path)
        &&& valid_interface_name(interface)
        &&& valid_member_name(method)
    }

    /// Build a method-call request from the endpoint identity and arguments.
    /// Construction fails, naming the offending component, exactly when one
    /// of the identity's strings breaks the bus's naming rules; the
    /// components are checked in order.
    pub fn build_request(&self, path: &str, interface: &str, method: &str, args: Vec<
        WireValue,
    >) -> (r: Result<CallRequest, RequestPart>)
        ensures
            r is Ok <==> self.endpoint_valid(path@, interface@, method@),
            r matches Ok(req) ==> req.destination@ == self.spec_base() && req.path@ == path@
                && req.interface@ == interface@ && req.method@ == method@ && req.args == args,
            r matches Err(part) ==> (match part {
                RequestPart::Destination => !valid_bus_name(self.spec_base()),
                RequestPart::Path => valid_bus_name(self.spec_base()) && !valid_object_path(path@),
                RequestPart::Interface => valid_bus_name(self.spec_base()) && valid_object_path(
                    path@,
                ) && !valid_interface_name(interface@),
                RequestPart::Method => valid_bus_name(self.spec_base()) && valid_object_path(path@)
                    && valid_interface_name(interface@) && !valid_member_name(method@),
            }),
    {
        if !check_bus_name(self.base.as_str()) {
            return Err(RequestPart::Destination);
        }
        if !check_object_path(path) {
            return Err(RequestPart::Path);
        }
        if !check_interface_name(interface) {
            return Err(RequestPart::Interface);
        }
        if !check_member_name(method) {
            return Err(RequestPart::Method);
        }
        Ok(
            CallRequest {
                destination: self.base.clone(),
                path: path.to_owned(),
                interface: interface.to_owned(),
                method: method.to_owned(),
                args,
            },
        )
    }

    /// Dispatch one method call with arguments: build the request, then
    /// resolve the retry loop against the transport's outcomes, wrapping any
    /// terminal failure with the call's context for diagnosis.
    pub fn call_with_args(
        &self,
        path: &str,
        interface: &str,
        method: &str,
        args: Vec<WireValue>,
        outcomes: Vec<SendOutcome>,
    ) -> (r: Result<Reply, CallFailure>)
        requires
            self.script_covers(outcomes@),
        ensures
            !self.endpoint_valid(path@, interface@, method@) ==> (r matches Err(f)
                && f.kind matches CallErrorKind::Construction { .. }),
            (r matches Err(f) && f.kind matches CallErrorKind::Construction { .. })
                ==> !self.endpoint_valid(path@, interface@, method@),
            self.endpoint_valid(path@, interface@, method@) ==> exists|n: int|
                #[trigger] self.call_resolution(outcomes@, strip_context(r), n),
            r matches Err(f) ==> f.context.path@ == path@ && f.context.interface@ == interface@
                && f.context.method@ == method@,
    {
        let context = CallContext {
            path: path.to_owned(),
            interface: interface.to_owned(),
            method: method.to_owned(),
        };
        match self.build_request(path, interface, method, args) {
            Err(part) => Err(
                CallFailure { context, kind: CallErrorKind::Construction { part } },
            ),
            Ok(_) => {
                let (verdict, attempts) = self.run_call_script(outcomes);
                let ghost gverdict = verdict;
                let out: Result<Reply, CallFailure> = match verdict {
                    Ok(reply) => Ok(reply),
                    Err(kind) => Err(CallFailure { context, kind }),
                };
                proof {
                    assert(strip_context(out) == gverdict);
                    assert(self.call_resolution(outcomes@, strip_context(out), attempts as int));
                }
                out
            },
        }
    }

    /// Dispatch one method call without arguments.
    pub fn call(&self, path: &str, interface: &str, method: &str, outcomes: Vec<
        SendOutcome,
    >) -> (r: Result<Reply, CallFailure>)
        requires
            self.script_covers(outcomes@),
        ensures
            !self.endpoint_valid(path@, interface@, method@) ==> (r matches Err(f)
                && f.kind matches CallErrorKind::Construction { .. }),
            (r matches Err(f) && f.kind matches CallErrorKind::Construction { .. })
                ==> !self.endpoint_valid(path@, interface@, method@),
            self.endpoint_valid(path@, interface@, method@) ==> exists|n: int|
                #[trigger] self.call_resolution(outcomes@, strip_context(r), n),
            r matches Err(f) ==> f.context.path@ == path@ && f.context.interface@ == interface@
                && f.context.method@ == method@,
    {
        self.call_with_args(path, interface, method, Vec::new(), outcomes)
    }

    /// Attempt counters a state can legally carry: attempts are counted from
    /// 1 and never exceed the budget, and a delay only ever runs when another
    /// attempt is still allowed.
    pub open spec fn state_wf(self, state: DispatchState) -> bool {
        &&& state matches DispatchState::Sending { attempt } ==> 1 <= attempt <= RETRIES_ALLOWED
        &&& state matches DispatchState::RetryWait { attempt } ==> 1 <= attempt < RETRIES_ALLOWED
    }

    /// The transition function of the retry state machine. An event that
    /// does not apply to the current state leaves it unchanged.
    pub open spec fn step_spec(self, state: DispatchState, event: DispatchEvent) -> DispatchState {
        match (state, event) {
            (DispatchState::Building, DispatchEvent::Built) => DispatchState::Sending {
                attempt: 1,
            },
            (DispatchState::Building, DispatchEvent::BuildFailed { part }) => DispatchState::Failed {
                error: CallErrorKind::Construction { part },
            },
            (DispatchState::Sending { attempt }, DispatchEvent::Sent { outcome }) => match outcome {
                SendOutcome::Reply { reply } => DispatchState::Success { reply },
                SendOutcome::Failure { error_name, details } => if self.retryable_error_name(
                    error_name,
                ) {
                    if attempt < RETRIES_ALLOWED {
                        DispatchState::RetryWait { attempt }
                    } else {
                        DispatchState::Failed {
                            error: CallErrorKind::RetriesExhausted { ceiling: RETRIES_ALLOWED },
                        }
                    }
                } else {
                    DispatchState::Failed {
                        error: CallErrorKind::Transport { error_name, details },
                    }
                },
            },
            (DispatchState::RetryWait { attempt }, DispatchEvent::Waited) => DispatchState::Sending {
                attempt: (attempt + 1) as u64,
            },
            (other, _) => other,
        }
    }

    /// Advance the retry state machine by one event.
    pub fn step(&self, state: DispatchState, event: DispatchEvent) -> (next: DispatchState)
        requires
            self.state_wf(state),
        ensures
            next == self.step_spec(state, event),
            self.state_wf(next),
    {
        match (state, event) {
            (DispatchState::Building, DispatchEvent::Built) => DispatchState::Sending {
                attempt: 1,
            },
            (DispatchState::Building, DispatchEvent::BuildFailed { part }) => DispatchState::Failed {
                error: CallErrorKind::Construction { part },
            },
            (DispatchState::Sending { attempt }, DispatchEvent::Sent { outcome }) => match outcome {
                SendOutcome::Reply { reply } => DispatchState::Success { reply },
                SendOutcome::Failure { error_name, details } => {
                    let retryable = match &error_name {
                        Some(n) => self.name_is_retryable(n),
                        None => false,
                    };
                    if retryable {
                        if attempt < RETRIES_ALLOWED {
                            DispatchState::RetryWait { attempt }
                        } else {
                            DispatchState::Failed {
                                error: CallErrorKind::RetriesExhausted {
                                    ceiling: RETRIES_ALLOWED,
                                },
                            }
                        }
                    } else {
                        DispatchState::Failed {
                            error: CallErrorKind::Transport { error_name, details },
                        }
                    }
                },
            },
            (DispatchState::RetryWait { attempt }, DispatchEvent::Waited) => DispatchState::Sending {
                attempt: attempt + 1,
            },
            (other, _) => other,
        }
    }

    /// Law: a run of fewer than the budget's worth of retryable failures
    /// followed by a reply resolves to that reply, and the observed attempt
    /// count is the number of retryable failures plus one.
    pub proof fn lemma_retryable_prefix_then_success(
        self,
        s: Seq<SendOutcome>,
        verdict: Result<Reply, CallErrorKind>,
        attempts: int,
        k: int,
    )
        requires
            self.call_resolution(s, verdict, attempts),
            0 <= k < RETRIES_ALLOWED,
            k < s.len(),
            forall|i: int| 0 <= i < k ==> self.outcome_retryable(#[trigger] s[i]),
            s[k] matches SendOutcome::Reply { .. },
        ensures
            attempts == k + 1,
            verdict == Ok::<Reply, CallErrorKind>(s[k]->reply),
    {
        assert(!self.outcome_retryable(s[k]));
        assert(!self.all_attempts_retryable(s));
        if attempts - 1 < k {
            assert(self.outcome_retryable(s[attempts - 1]));
            assert(false);
        }
        if attempts - 1 > k {
            assert(self.outcome_retryable(s[k]));
            assert(false);
        }
    }

    /// Law: when the whole attempt budget sees retryable failures, the call
    /// resolves to the distinct retry-exhaustion error naming the ceiling,
    /// and the attempt count never exceeds the budget.
    pub proof fn lemma_retryable_budget_exhausted(
        self,
        s: Seq<SendOutcome>,
        verdict: Result<Reply, CallErrorKind>,
        attempts: int,
    )
        requires
            self.call_resolution(s, verdict, attempts),
            self.all_attempts_retryable(s),
        ensures
            attempts == RETRIES_ALLOWED,
            verdict == Err::<Reply, CallErrorKind>(
                CallErrorKind::RetriesExhausted { ceiling: RETRIES_ALLOWED },
            ),
    {
    }

    /// Law: a non-retryable transport failure on the first attempt resolves
    /// the call immediately — one attempt, whatever the configured retryable
    /// set — to a transport error carrying the underlying name and details.
    pub proof fn lemma_non_retryable_is_immediate(
        self,
        s: Seq<SendOutcome>,
        verdict: Result<Reply, CallErrorKind>,
        attempts: int,
    )
        requires
            self.call_resolution(s, verdict, attempts),
            s.len() >= 1,
            s[0] matches SendOutcome::Failure { .. },
            !self.outcome_retryable(s[0]),
        ensures
            attempts == 1,
            verdict == Err::<Reply, CallErrorKind>(
                CallErrorKind::Transport { error_name: s[0]->error_name, details: s[0]->details },
            ),
    {
        assert(!self.all_attempts_retryable(s));
        if attempts - 1 > 0 {
            assert(self.outcome_retryable(s[0]));
            assert(false);
        }
    }
}

} // verus!
