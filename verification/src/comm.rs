use vstd::prelude::*;

pub mod error;

verus! {

/// How many times a connection to the daemon is tried per request.
pub const MAX_TRY_CONNECT: usize = 3;

/// Replies of the connection to the window; `L` is the interaction
/// service's result list.
#[derive(Debug)]
pub enum Response<L> {
    Connected,
    ConnectFailed(String),
    SearchResult(L),
    RunSuccess,
}

/// The connection to the daemon: whether a client is open, and how many
/// attempts to connect failed in a row for the request at hand.
pub struct Comm {
    connected: bool,
    connect_try: usize,
}

/// The abstract state of a [`Comm`].
pub struct CommView {
    pub connected: bool,
    pub connect_try: nat,
}

impl View for Comm {
    type V = CommView;

    closed spec fn view(&self) -> CommView {
        CommView { connected: self.connected, connect_try: self.connect_try as nat }
    }
}

/// The reply, if any yet, and the state after an attempt to connect that
/// succeeded (`Ok`) or failed with the error text `e`: a failure is tried
/// again until `MAX_TRY_CONNECT` attempts have failed.
pub open spec fn on_connect_spec(s: CommView, result: Result<(), Seq<char>>) -> (
    CommView,
    Option<Result<(), Seq<char>>>,
) {
    match result {
        Ok(()) => (CommView { connected: true, connect_try: 0 }, Some(Ok(()))),
        Err(e) => if s.connect_try + 1 < MAX_TRY_CONNECT {
            (CommView { connect_try: s.connect_try + 1, ..s }, None)
        } else {
            (CommView { connect_try: 0, ..s }, Some(Err(e)))
        },
    }
}

impl Comm {
    /// Fewer attempts than allowed have failed for the request at hand.
    #[verifier::type_invariant]
    spec fn inv(&self) -> bool {
        self.connect_try < MAX_TRY_CONNECT
    }

    /// No client open yet.
    pub fn new() -> (r: Comm)
        ensures
            !r@.connected,
            r@.connect_try == 0,
    {
        Comm { connected: false, connect_try: 0 }
    }

    /// Whether a client is open, so that searches and runs can be sent.
    pub fn connected(&self) -> (r: bool)
        ensures
            r == self@.connected,
    {
        self.connected
    }

    /// Takes the result of an attempt to connect (the error's text on
    /// failure) and gives the reply when the request is done: `None` means
    /// that another attempt is to be made.
    pub fn on_connect_result<L>(&mut self, result: Result<(), String>) -> (r: Option<Response<L>>)
        ensures
            final(self)@.connect_try < MAX_TRY_CONNECT,
            ({
                let (t, reply) = on_connect_spec(
                    old(self)@,
                    match result {
                        Ok(()) => Ok(()),
                        Err(e) => Err(e@),
                    },
                );
                &&& final(self)@ == t
                &&& match reply {
                    None => r is None,
                    Some(Ok(())) => r matches Some(Response::Connected),
                    Some(Err(e)) => r matches Some(Response::ConnectFailed(m)) && m@ == e,
                }
            }),
    {
        proof {
            use_type_invariant(&*self);
        }
        match result {
            Ok(()) => {
                self.connected = true;
                self.connect_try = 0;
                Some(Response::Connected)
            },
            Err(e) => {
                if self.connect_try < MAX_TRY_CONNECT - 1 {
                    self.connect_try = self.connect_try + 1;
                    None
                } else {
                    self.connect_try = 0;
                    Some(Response::ConnectFailed(e))
                }
            },
        }
    }
}

/// A request to connect ends after at most `MAX_TRY_CONNECT` attempts:
/// when the first ones fail, the third failure is reported.
pub proof fn lemma_connect_attempts_bounded(s: CommView, e1: Seq<char>, e2: Seq<char>, e3: Seq<char>)
    requires
        s.connect_try == 0,
    ensures
        ({
            let (s1, r1) = on_connect_spec(s, Err(e1));
            let (s2, r2) = on_connect_spec(s1, Err(e2));
            let (s3, r3) = on_connect_spec(s2, Err(e3));
            &&& r1 is None
            &&& r2 is None
            &&& r3 == Some(Err::<(), Seq<char>>(e3))
            &&& s3.connect_try == 0
        }),
{
}

/// A successful connection resets the count of failures: whatever the state
/// before, the next request again gets `MAX_TRY_CONNECT` attempts, so that
/// after a success two failures are retried and only the third is reported.
pub proof fn lemma_success_resets_attempts(
    s: CommView,
    e1: Seq<char>,
    e2: Seq<char>,
    e3: Seq<char>,
)
    ensures
        ({
            let (s0, r0) = on_connect_spec(s, Ok(()));
            let (s1, r1) = on_connect_spec(s0, Err(e1));
            let (s2, r2) = on_connect_spec(s1, Err(e2));
            let (s3, r3) = on_connect_spec(s2, Err(e3));
            &&& r0 == Some(Ok::<(), Seq<char>>(()))
            &&& s0.connected
            &&& s0.connect_try == 0
            &&& r1 is None
            &&& r2 is None
            &&& r3 == Some(Err::<(), Seq<char>>(e3))
            &&& s3.connect_try == 0
        }),
{
}

} // verus!
