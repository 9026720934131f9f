use vstd::prelude::*;

verus! {

/// How many times a message is offered to the window before giving up.
pub const MAX_TRY_SEND: usize = 3;

/// The message pump between the server side and the window: either waiting
/// for the next request of the window, or offering it a message, the
/// `cnt`-th time after `cnt` failed offers.
#[derive(Debug)]
pub enum State<M> {
    TryRecv,
    TrySend { msg: M, cnt: usize },
}

/// What the pump does next.
#[derive(Debug, Clone, Copy, PartialEq, Eq, Structural)]
pub enum Step {
    Receive,
    Send,
    GiveUp,
}

/// What the pump does in state `s`.
pub open spec fn step_spec<M>(s: State<M>) -> Step {
    match s {
        State::TryRecv => Step::Receive,
        State::TrySend { cnt, .. } => if cnt >= MAX_TRY_SEND {
            Step::GiveUp
        } else {
            Step::Send
        },
    }
}

/// The state after an offer in state `s` succeeded (`ok`) or failed.
pub open spec fn on_sent_spec<M>(s: State<M>, ok: bool) -> State<M> {
    match s {
        State::TrySend { msg, cnt } => if ok {
            State::TryRecv
        } else {
            State::TrySend { msg, cnt: (cnt + 1) as usize }
        },
        State::TryRecv => State::TryRecv,
    }
}

impl<M> State<M> {
    /// Offering `msg` after `cnt` failed offers.
    pub fn new(msg: M, cnt: usize) -> (r: State<M>)
        ensures
            r == (State::TrySend { msg, cnt }),
    {
        State::TrySend { msg, cnt }
    }

    /// Offering `msg` for the first time.
    pub fn with_msg(msg: M) -> (r: State<M>)
        ensures
            r == (State::TrySend { msg, cnt: 0 }),
    {
        State::TrySend { msg, cnt: 0 }
    }

    /// What the pump does next: receive, offer the message, or give up
    /// after `MAX_TRY_SEND` failed offers.
    pub fn step(&self) -> (r: Step)
        ensures
            r == step_spec(*self),
    {
        match self {
            State::TryRecv => Step::Receive,
            State::TrySend { cnt, .. } => if *cnt >= MAX_TRY_SEND {
                Step::GiveUp
            } else {
                Step::Send
            },
        }
    }

    /// The message being offered, if any.
    pub fn message(&self) -> (r: Option<&M>)
        ensures
            match *self {
                State::TrySend { msg, .. } => r == Some(&msg),
                State::TryRecv => r is None,
            },
    {
        match self {
            State::TrySend { msg, .. } => Some(msg),
            State::TryRecv => None,
        }
    }

    /// The state after the offer: back to receiving when it succeeded, one
    /// more failed offer when it did not.
    pub fn on_sent(self, ok: bool) -> (r: State<M>)
        requires
            step_spec(self) == Step::Send,
        ensures
            r == on_sent_spec(self, ok),
    {
        match self {
            State::TrySend { msg, cnt } => if ok {
                State::TryRecv
            } else {
                State::TrySend { msg, cnt: cnt + 1 }
            },
            State::TryRecv => State::TryRecv,
        }
    }
}

/// A message is offered to the window at most `MAX_TRY_SEND` times: after
/// that many failed offers the pump gives up, and before that it offers
/// again.
pub proof fn lemma_send_attempts_bounded<M>(msg: M)
    ensures
        ({
            let s0 = State::TrySend { msg, cnt: 0 };
            let s1 = on_sent_spec(s0, false);
            let s2 = on_sent_spec(s1, false);
            let s3 = on_sent_spec(s2, false);
            &&& step_spec(s0) == Step::Send
            &&& step_spec(s1) == Step::Send
            &&& step_spec(s2) == Step::Send
            &&& step_spec(s3) == Step::GiveUp
        }),
{
}

/// A successful offer always goes back to receiving.
pub proof fn lemma_sent_then_receive<M>(s: State<M>)
    requires
        step_spec(s) == Step::Send,
    ensures
        step_spec(on_sent_spec(s, true)) == Step::Receive,
{
}

/// What happens to the pump: a request was received and answered with the
/// message given, or an offer to the window succeeded (`true`) or failed.
pub enum Event<M> {
    Answered(M),
    Sent(bool),
}

/// The state after `e` in state `s`, and the messages the window got from
/// it. An answer is taken only while receiving, and an offer only while
/// offering; any other event leaves the pump as it was.
pub open spec fn on_event<M>(s: State<M>, e: Event<M>) -> (State<M>, Seq<M>) {
    match e {
        Event::Answered(m) => if step_spec(s) == Step::Receive {
            (State::TrySend { msg: m, cnt: 0 }, Seq::empty())
        } else {
            (s, Seq::empty())
        },
        Event::Sent(ok) => if step_spec(s) == Step::Send {
            (on_sent_spec(s, ok), if ok {
                seq![s->msg]
            } else {
                Seq::empty()
            })
        } else {
            (s, Seq::empty())
        },
    }
}

/// The state after the events `es`, in order, and the messages the window
/// got, in the order it got them.
pub open spec fn run<M>(s: State<M>, es: Seq<Event<M>>) -> (State<M>, Seq<M>)
    decreases es.len(),
{
    if es.len() == 0 {
        (s, Seq::empty())
    } else {
        let (s1, out1) = on_event(s, es[0]);
        let (s2, out2) = run(s1, es.drop_first());
        (s2, out1 + out2)
    }
}

/// The events of a run in which every request is answered with the next of
/// `answers` and every offer succeeds.
pub open spec fn answered_run<M>(answers: Seq<M>) -> Seq<Event<M>>
    decreases answers.len(),
{
    if answers.len() == 0 {
        Seq::empty()
    } else {
        seq![Event::Answered(answers[0]), Event::Sent(true)] + answered_run(answers.drop_first())
    }
}

/// While every offer succeeds, the window gets exactly one message per
/// request, the answers in the order of the requests, and the pump is back
/// to receiving after each; a request is taken only once the answer to the
/// one before was delivered.
pub proof fn lemma_answers_in_order<M>(answers: Seq<M>)
    ensures
        run(State::TryRecv, answered_run(answers)) == (State::<M>::TryRecv, answers),
    decreases answers.len(),
{
    if answers.len() > 0 {
        let es = answered_run(answers);
        let rest = answered_run(answers.drop_first());
        lemma_answers_in_order(answers.drop_first());
        assert(es[0] == Event::Answered(answers[0]));
        assert(es.drop_first() =~= seq![Event::Sent(true)] + rest);
        let es1 = es.drop_first();
        assert(es1[0] == Event::<M>::Sent(true));
        assert(es1.drop_first() =~= rest);
        let (s2, out2) = run(State::TrySend { msg: answers[0], cnt: 0 }, es1);
        assert(out2 =~= seq![answers[0]] + answers.drop_first());
        assert(answers =~= seq![answers[0]] + answers.drop_first());
    }
}

/// The pump's whole life while every offer succeeds: the first message
/// (opening the channel) is delivered, then one answer per request, in
/// order.
pub proof fn lemma_pump_delivers_in_order<M>(first: M, answers: Seq<M>)
    ensures
        run(State::TrySend { msg: first, cnt: 0 }, seq![Event::Sent(true)] + answered_run(answers))
            == (State::<M>::TryRecv, seq![first] + answers),
{
    lemma_answers_in_order(answers);
    let es = seq![Event::Sent(true)] + answered_run(answers);
    assert(es[0] == Event::<M>::Sent(true));
    assert(es.drop_first() =~= answered_run(answers));
}

} // verus!
