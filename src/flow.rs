use vstd::prelude::*;

verus! {

/// The steps of the sender flow, in the order in which they run.
#[derive(Debug, Clone, Copy, PartialEq, Eq, Structural)]
pub enum SenderStep {
    LoadChain,
    ExtendChain,
    RequestToken,
    ComputeTweak,
    BuildAndEncryptMessage,
    SubmitMessage,
    Done,
    Failed,
}

/// The co-signing entity's endpoints.
#[derive(Debug, Clone, Copy, PartialEq, Eq, Structural)]
pub enum Endpoint {
    /// Exchanges the authentication signature for the blinding token `x1`.
    TransferSender,
    /// Stores the encrypted transfer message for the new owner.
    TransferUpdateMsg,
}

/// The step that follows a step that succeeded.
pub open spec fn successor(s: SenderStep) -> SenderStep {
    match s {
        SenderStep::LoadChain => SenderStep::ExtendChain,
        SenderStep::ExtendChain => SenderStep::RequestToken,
        SenderStep::RequestToken => SenderStep::ComputeTweak,
        SenderStep::ComputeTweak => SenderStep::BuildAndEncryptMessage,
        SenderStep::BuildAndEncryptMessage => SenderStep::SubmitMessage,
        SenderStep::SubmitMessage => SenderStep::Done,
        SenderStep::Done => SenderStep::Done,
        SenderStep::Failed => SenderStep::Failed,
    }
}

/// Whether the flow has ended.
pub open spec fn is_terminal(s: SenderStep) -> bool {
    s == SenderStep::Done || s == SenderStep::Failed
}

/// The step after `s`, given whether `s` succeeded. Any failure aborts the flow.
pub open spec fn step_after(s: SenderStep, succeeded: bool) -> SenderStep {
    if is_terminal(s) {
        s
    } else if succeeded {
        successor(s)
    } else {
        SenderStep::Failed
    }
}

/// The network call that a step makes.
pub open spec fn endpoint_of(s: SenderStep) -> Option<Endpoint> {
    match s {
        SenderStep::RequestToken => Some(Endpoint::TransferSender),
        SenderStep::SubmitMessage => Some(Endpoint::TransferUpdateMsg),
        _ => None,
    }
}

/// The network calls of a run from `s`, where `outcomes` says in turn whether
/// each step succeeded.
pub open spec fn calls_of_run(s: SenderStep, outcomes: Seq<bool>) -> Seq<Endpoint>
    decreases outcomes.len(),
{
    if outcomes.len() == 0 || is_terminal(s) {
        seq![]
    } else {
        let here = match endpoint_of(s) {
            Some(e) => seq![e],
            None => seq![],
        };
        here + calls_of_run(step_after(s, outcomes[0]), outcomes.drop_first())
    }
}

/// The calls that are still ahead of a step when every step succeeds.
pub open spec fn calls_ahead(s: SenderStep) -> Seq<Endpoint> {
    match s {
        SenderStep::LoadChain | SenderStep::ExtendChain | SenderStep::RequestToken => seq![
            Endpoint::TransferSender,
            Endpoint::TransferUpdateMsg,
        ],
        SenderStep::ComputeTweak | SenderStep::BuildAndEncryptMessage
        | SenderStep::SubmitMessage => seq![Endpoint::TransferUpdateMsg],
        _ => seq![],
    }
}

impl SenderStep {
    /// The first step of the flow.
    pub fn start() -> (r: SenderStep)
        ensures
            r == SenderStep::LoadChain,
    {
        SenderStep::LoadChain
    }

    /// The step that runs after this one.
    pub fn next(self, succeeded: bool) -> (r: SenderStep)
        ensures
            r == step_after(self, succeeded),
    {
        match self {
            SenderStep::Done => SenderStep::Done,
            SenderStep::Failed => SenderStep::Failed,
            _ => if !succeeded {
                SenderStep::Failed
            } else {
                match self {
                    SenderStep::LoadChain => SenderStep::ExtendChain,
                    SenderStep::ExtendChain => SenderStep::RequestToken,
                    SenderStep::RequestToken => SenderStep::ComputeTweak,
                    SenderStep::ComputeTweak => SenderStep::BuildAndEncryptMessage,
                    SenderStep::BuildAndEncryptMessage => SenderStep::SubmitMessage,
                    _ => SenderStep::Done,
                }
            },
        }
    }

    /// The network call that this step makes, if any.
    pub fn endpoint(self) -> (r: Option<Endpoint>)
        ensures
            r == endpoint_of(self),
    {
        match self {
            SenderStep::RequestToken => Some(Endpoint::TransferSender),
            SenderStep::SubmitMessage => Some(Endpoint::TransferUpdateMsg),
            _ => None,
        }
    }

    /// Whether the flow has ended.
    pub fn is_finished(self) -> (r: bool)
        ensures
            r == is_terminal(self),
    {
        match self {
            SenderStep::Done | SenderStep::Failed => true,
            _ => false,
        }
    }
}

/// Whatever the outcomes, the calls of a run are a prefix of those still ahead.
proof fn lemma_calls_prefix(s: SenderStep, outcomes: Seq<bool>)
    ensures
        calls_of_run(s, outcomes).len() <= calls_ahead(s).len(),
        calls_of_run(s, outcomes) == calls_ahead(s).subrange(0, calls_of_run(s, outcomes).len() as int),
    decreases outcomes.len(),
{
    if outcomes.len() > 0 && !is_terminal(s) {
        let n = step_after(s, outcomes[0]);
        lemma_calls_prefix(n, outcomes.drop_first());
        let rest = calls_of_run(n, outcomes.drop_first());
        let here = match endpoint_of(s) {
            Some(e) => seq![e],
            None => seq![],
        };
        assert(calls_of_run(s, outcomes) == here + rest);
        assert(calls_of_run(s, outcomes) =~= calls_ahead(s).subrange(
            0,
            calls_of_run(s, outcomes).len() as int,
        ));
    }
}

/// The flow calls the entity at most twice, and `TransferSender` always comes
/// before `TransferUpdateMsg`, whichever steps fail.
pub proof fn lemma_sender_call_precedes_update(outcomes: Seq<bool>)
    ensures
        calls_of_run(SenderStep::LoadChain, outcomes).len() <= 2,
        calls_of_run(SenderStep::LoadChain, outcomes) == seq![
            Endpoint::TransferSender,
            Endpoint::TransferUpdateMsg,
        ].subrange(0, calls_of_run(SenderStep::LoadChain, outcomes).len() as int),
{
    lemma_calls_prefix(SenderStep::LoadChain, outcomes);
}

/// Where loading the chain fails, the flow ends failed and makes no network call.
pub proof fn lemma_load_failure_makes_no_call(outcomes: Seq<bool>)
    requires
        outcomes.len() > 0,
        !outcomes[0],
    ensures
        calls_of_run(SenderStep::LoadChain, outcomes) == Seq::<Endpoint>::empty(),
        step_after(SenderStep::LoadChain, outcomes[0]) == SenderStep::Failed,
{
    assert(calls_of_run(SenderStep::Failed, outcomes.drop_first()) == Seq::<Endpoint>::empty());
    assert(calls_of_run(SenderStep::LoadChain, outcomes) =~= Seq::<Endpoint>::empty());
}

/// Where every step succeeds, the flow makes exactly the two calls, in order.
pub proof fn lemma_success_makes_both_calls(outcomes: Seq<bool>)
    requires
        outcomes.len() >= 6,
        forall|i: int| 0 <= i < 6 ==> #[trigger] outcomes[i],
    ensures
        calls_of_run(SenderStep::LoadChain, outcomes) == seq![
            Endpoint::TransferSender,
            Endpoint::TransferUpdateMsg,
        ],
{
    let o1 = outcomes.drop_first();
    let o2 = o1.drop_first();
    let o3 = o2.drop_first();
    let o4 = o3.drop_first();
    let o5 = o4.drop_first();
    let o6 = o5.drop_first();
    assert(o1[0] == outcomes[1]);
    assert(o2[0] == outcomes[2]);
    assert(o3[0] == outcomes[3]);
    assert(o4[0] == outcomes[4]);
    assert(o5[0] == outcomes[5]);
    assert(calls_of_run(SenderStep::Done, o6) == Seq::<Endpoint>::empty());
    assert(calls_of_run(SenderStep::SubmitMessage, o5) =~= seq![Endpoint::TransferUpdateMsg]);
    assert(calls_of_run(SenderStep::BuildAndEncryptMessage, o4) =~= seq![Endpoint::TransferUpdateMsg]);
    assert(calls_of_run(SenderStep::ComputeTweak, o3) =~= seq![Endpoint::TransferUpdateMsg]);
    assert(calls_of_run(SenderStep::RequestToken, o2) =~= seq![
        Endpoint::TransferSender,
        Endpoint::TransferUpdateMsg,
    ]);
    assert(calls_of_run(SenderStep::ExtendChain, o1) =~= seq![
        Endpoint::TransferSender,
        Endpoint::TransferUpdateMsg,
    ]);
    assert(calls_of_run(SenderStep::LoadChain, outcomes) =~= seq![
        Endpoint::TransferSender,
        Endpoint::TransferUpdateMsg,
    ]);
}

} // verus!
