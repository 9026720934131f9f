use vstd::prelude::*;

verus! {

use super::service::Error;

/// Outcome reported by the daemon and the extensions along with a reply.
#[derive(Debug, Clone, Copy, PartialEq, Eq, Structural)]
pub enum Status {
    Success,
    Failure,
}

/// Connection attempts to a server: `cnt` attempts failed so far, of at
/// most `max_try`.
pub struct TryConnect {
    cnt: usize,
    max_try: usize,
}

/// What the next connection attempt is: one after which a failure is
/// retried (after a 200 ms pause), or the last one, whose failure is
/// reported.
#[derive(Debug, Clone, Copy, PartialEq, Eq, Structural)]
pub enum Attempt {
    Retryable,
    Last,
}

/// The abstract state of a [`TryConnect`]: failed attempts and the limit.
pub struct TryConnectView {
    pub cnt: nat,
    pub max_try: nat,
}

impl View for TryConnect {
    type V = TryConnectView;

    closed spec fn view(&self) -> TryConnectView {
        TryConnectView { cnt: self.cnt as nat, max_try: self.max_try as nat }
    }
}

/// The kind of the next attempt after `cnt` failures of at most `max_try`.
pub open spec fn attempt_spec(s: TryConnectView) -> Attempt {
    if s.cnt + 1 < s.max_try {
        Attempt::Retryable
    } else {
        Attempt::Last
    }
}

impl TryConnect {
    /// No attempt made yet, `max_try` allowed in all.
    pub fn new(max_try: usize) -> (r: TryConnect)
        requires
            max_try >= 1,
        ensures
            r@.cnt == 0,
            r@.max_try == max_try,
    {
        TryConnect { cnt: 0, max_try }
    }

    /// The kind of the next attempt.
    pub fn attempt(&self) -> (r: Attempt)
        ensures
            r == attempt_spec(self@),
    {
        proof {
            use_type_invariant(self);
        }
        if self.cnt < self.max_try - 1 {
            Attempt::Retryable
        } else {
            Attempt::Last
        }
    }

    /// Counts a failed attempt that is to be retried.
    pub fn on_failure(&mut self)
        requires
            attempt_spec(old(self)@) == Attempt::Retryable,
        ensures
            final(self)@.cnt == old(self)@.cnt + 1,
            final(self)@.max_try == old(self)@.max_try,
    {
        proof {
            use_type_invariant(&*self);
        }
        self.cnt = self.cnt + 1;
    }

    /// At least one attempt is allowed, and fewer have failed.
    #[verifier::type_invariant]
    spec fn inv(&self) -> bool {
        1 <= self.max_try && self.cnt < self.max_try
    }
}

/// The attempts made to connect: every retried failure leaves an attempt,
/// and after `max_try - 1` retried failures the next attempt is the last, so
/// that exactly `max_try` attempts are made when all of them fail.
pub proof fn lemma_try_connect_attempts(max_try: nat, k: nat)
    requires
        max_try >= 1,
        k < max_try,
    ensures
        attempt_spec(TryConnectView { cnt: k, max_try }) == if k + 1 == max_try {
            Attempt::Last
        } else {
            Attempt::Retryable
        },
{
}

/// The error text of an action `action` whose reply reported a failure.
pub open spec fn executed_but_failed(action: Seq<char>) -> Seq<char> {
    action + " executed but failed"@
}

/// The error text of an action `action` whose request failed.
pub open spec fn action_failed(action: Seq<char>) -> Seq<char> {
    action + " failed"@
}

/// The result of action `action` from its reply: `None` when the request
/// failed, else the reply with its status. A reply that reports success is
/// handed to `handle_content`.
pub fn match_grpc_result<T, U, F: FnOnce(T) -> U>(
    action: &str,
    result: Option<(T, Status)>,
    handle_content: F,
) -> (r: Result<U, Error>)
    requires
        result matches Some((inner, Status::Success)) ==> call_requires(handle_content, (inner,)),
    ensures
        match result {
            None => r matches Err(e) && e.msg@ == action_failed(action@),
            Some((_, Status::Failure)) => r matches Err(e) && e.msg@ == executed_but_failed(
                action@,
            ),
            Some((inner, Status::Success)) => r matches Ok(u) && call_ensures(
                handle_content,
                (inner,),
                u,
            ),
        },
{
    match result {
        Some((inner, status)) => match status {
            Status::Success => Ok(handle_content(inner)),
            Status::Failure => Err(
                Error::new(action.to_owned().concat(" executed but failed")),
            ),
        },
        None => Err(Error::new(action.to_owned().concat(" failed"))),
    }
}

} // verus!
