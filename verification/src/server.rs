use crate::command::{Command, CommandModel};
use crate::paxos_message::{message_option_view, MessageModel, PaxosMessage, ProposalId, ValueModel};
use crate::paxos_node::{
    accept_step, accepted_step, learn_step, prepare_step, promise_step, NodeModel, PaxosNode,
};
use vstd::prelude::*;
use vstd::string::StringExecFns;

verus! {

/// How often a send or a receive is tried again before the node gives up.
pub const MAX_RETRIES: u32 = 5;

/// What a node does with one inbound message: the transition that belongs
/// to the message's kind.
pub open spec fn process_step(s: NodeModel, m: MessageModel) -> (NodeModel, Option<MessageModel>) {
    match m {
        MessageModel::Prepare { .. } => prepare_step(s, m),
        MessageModel::Promise { .. } => (s, promise_step(s, m)),
        MessageModel::Accept { .. } => accept_step(s, m),
        MessageModel::Accepted { .. } => accepted_step(s, m),
        MessageModel::Learn { .. } => (learn_step(s, m), None),
    }
}

/// The state of a node after it has processed `messages` in order.
pub open spec fn process_all(s: NodeModel, messages: Seq<MessageModel>) -> NodeModel
    decreases messages.len(),
{
    if messages.len() == 0 {
        s
    } else {
        process_all(process_step(s, messages[0]).0, messages.drop_first())
    }
}

/// Hands `message` to the transition of its kind and returns the answer to
/// send back, if one is due.
pub fn process_message(node: &mut PaxosNode, message: PaxosMessage) -> (r: Option<PaxosMessage>)
    ensures
        final(node)@ == process_step(old(node)@, message@).0,
        message_option_view(r) == process_step(old(node)@, message@).1,
{
    match message {
        PaxosMessage::Prepare { .. } => node.handle_prepare(message),
        PaxosMessage::Promise { .. } => node.handle_promise(message),
        PaxosMessage::Accept { .. } => node.handle_accept(message),
        PaxosMessage::Accepted { .. } => node.handle_accepted(message),
        PaxosMessage::Learn { .. } => {
            node.handle_learn(message);
            None
        },
    }
}

/// Where a proposer stands in the round that it drives against one acceptor.
#[derive(Clone, Copy, Debug, PartialEq, Eq, Structural)]
pub enum RoundStage {
    /// The prepare is out; the promise is due.
    AwaitingPromise,
    /// The accept is out; the acceptance is due.
    AwaitingAccepted,
    /// The value was accepted and is learned.
    Finished,
    /// A step did not bring the message that was due.
    Failed,
}

/// One step of a proposer's round: what the peer's `response` (`None` where
/// none came) makes of the node, the stage that follows, and the message to
/// send next. A promise for the ballot in flight leads to the accept; an
/// acceptance leads to the learn message and ends the round; a missing or
/// unfitting response fails the round and changes nothing.
pub open spec fn round_step(s: NodeModel, stage: RoundStage, response: Option<MessageModel>) -> (
    NodeModel,
    RoundStage,
    Option<MessageModel>,
) {
    match (stage, response) {
        (RoundStage::AwaitingPromise, Some(m)) => if promise_step(s, m) is Some {
            (s, RoundStage::AwaitingAccepted, promise_step(s, m))
        } else {
            (s, RoundStage::Failed, None)
        },
        (RoundStage::AwaitingAccepted, Some(m)) => if m is Accepted {
            (accepted_step(s, m).0, RoundStage::Finished, accepted_step(s, m).1)
        } else {
            (s, RoundStage::Failed, None)
        },
        (RoundStage::Finished, _) => (s, RoundStage::Finished, None),
        _ => (s, RoundStage::Failed, None),
    }
}

/// Feeds the peer's response into the proposer and says how the round goes
/// on: the next stage, and the message to send if one is due.
pub fn proposer_step(node: &mut PaxosNode, stage: RoundStage, response: Option<PaxosMessage>) -> (r:
    (RoundStage, Option<PaxosMessage>))
    ensures
        final(node)@ == round_step(old(node)@, stage, message_option_view(response)).0,
        r.0 == round_step(old(node)@, stage, message_option_view(response)).1,
        message_option_view(r.1) == round_step(old(node)@, stage, message_option_view(response)).2,
{
    match stage {
        RoundStage::AwaitingPromise => match response {
            Some(m) => match node.handle_promise(m) {
                Some(accept) => (RoundStage::AwaitingAccepted, Some(accept)),
                None => (RoundStage::Failed, None),
            },
            None => (RoundStage::Failed, None),
        },
        RoundStage::AwaitingAccepted => match response {
            Some(m) => match node.handle_accepted(m) {
                Some(learn) => (RoundStage::Finished, Some(learn)),
                None => (RoundStage::Failed, None),
            },
            None => (RoundStage::Failed, None),
        },
        RoundStage::Finished => (RoundStage::Finished, None),
        RoundStage::Failed => (RoundStage::Failed, None),
    }
}

/// A round against an acceptor that answers as the protocol says ends with
/// the proposed value learned under its key, where the acceptor admits the
/// ballot and has accepted nothing before.
pub proof fn lemma_uncontended_round_learns_value(
    proposer: NodeModel,
    acceptor: NodeModel,
    round: u64,
    key: Seq<char>,
    value: Seq<char>,
)
    requires
        acceptor.admits_prepare(ProposalId { id: round, node_id: proposer.node_id }),
        acceptor.accepted_value is None,
    ensures
        ({
            let started = crate::paxos_node::start_step(proposer, round, key, value);
            let promised = process_step(acceptor, started.1);
            let after_promise = round_step(started.0, RoundStage::AwaitingPromise, promised.1);
            let accepted = process_step(promised.0, after_promise.2->0);
            let after_accepted = round_step(after_promise.0, after_promise.1, accepted.1);
            &&& after_promise.1 == RoundStage::AwaitingAccepted
            &&& after_promise.2 == Some(
                MessageModel::Accept {
                    proposal_id: ProposalId { id: round, node_id: proposer.node_id },
                    value: ValueModel { key, value },
                },
            )
            &&& accepted.0.accepted_value == Some(ValueModel { key, value })
            &&& after_accepted.1 == RoundStage::Finished
            &&& after_accepted.0.learned.contains_key(key)
            &&& after_accepted.0.learned[key] == value
        }),
{
}

/// What the control connection answers to a command: the learned value of
/// the key of a `get`, or nothing where none is learned; nothing to a `put`;
/// to any other line, that it is invalid, with the line.
pub open spec fn reply_text(s: NodeModel, c: CommandModel) -> Seq<char> {
    match c {
        CommandModel::Get(key) => if s.learned.contains_key(key) {
            s.learned[key]
        } else {
            Seq::empty()
        },
        CommandModel::Put(_, _) => Seq::empty(),
        CommandModel::Invalid(line) => "Invalid command: "@ + line,
    }
}

/// The answer of the control connection to `command`, without the line's
/// end.
pub fn command_reply(node: &PaxosNode, command: &Command) -> (r: String)
    ensures
        r@ == reply_text(node@, command@),
{
    match command {
        Command::Get(key) => match node.learned_value(key.as_str()) {
            Some(v) => v,
            None => String::new(),
        },
        Command::Put(_, _) => String::new(),
        Command::Invalid(line) => String::from_str("Invalid command: ").concat(line.as_str()),
    }
}

/// `a` is no higher than `b`, where a missing ballot is below every ballot.
pub open spec fn ballot_at_most(a: Option<ProposalId>, b: Option<ProposalId>) -> bool {
    match (a, b) {
        (None, _) => true,
        (Some(_), None) => false,
        (Some(x), Some(y)) => x.at_most(y),
    }
}

/// No message lowers the promise, changes the node's identity, or parts a
/// ballot from its value.
pub proof fn lemma_step_keeps_promise(s: NodeModel, m: MessageModel)
    ensures
        ballot_at_most(s.promised_id, process_step(s, m).0.promised_id),
        process_step(s, m).0.node_id == s.node_id,
        s.paired() ==> process_step(s, m).0.paired(),
{
}

/// No sequence of messages lowers the promise, changes the node's identity,
/// or parts a ballot from its value.
pub proof fn lemma_run_keeps_promise(s: NodeModel, messages: Seq<MessageModel>)
    ensures
        ballot_at_most(s.promised_id, process_all(s, messages).promised_id),
        process_all(s, messages).node_id == s.node_id,
        s.paired() ==> process_all(s, messages).paired(),
    decreases messages.len(),
{
    if messages.len() > 0 {
        let next = process_step(s, messages[0]).0;
        lemma_step_keeps_promise(s, messages[0]);
        lemma_run_keeps_promise(next, messages.drop_first());
    }
}

/// An accept is honoured only under a ballot that is not below the promise,
/// and then ballot and value of the last acceptance are exactly those of the
/// message; the promise stays as it was.
pub proof fn lemma_accept_honoured_at_or_above_promise(s: NodeModel, m: MessageModel)
    requires
        accept_step(s, m).1 is Some,
    ensures
        m is Accept,
        s.promised_id is Some ==> s.promised_id->0.at_most(m->Accept_proposal_id),
        accept_step(s, m).0.accepted_id == Some(m->Accept_proposal_id),
        accept_step(s, m).0.accepted_value == Some(m->Accept_value),
        accept_step(s, m).0.promised_id == s.promised_id,
        accept_step(s, m).1 == Some(
            MessageModel::Accepted { proposal_id: m->Accept_proposal_id, value: m->Accept_value },
        ),
{
}

/// An accept whose ballot is strictly below the promise gets no answer and
/// leaves the whole state, the last acceptance with it, as it was. This
/// holds in every state, so also after an earlier accept has succeeded and
/// any messages have been processed since.
pub proof fn lemma_accept_below_promise_is_refused(
    s: NodeModel,
    first: MessageModel,
    between: Seq<MessageModel>,
    id: ProposalId,
    value: ValueModel,
)
    requires
        accept_step(s, first).1 is Some,
    ensures
        ({
            let later = process_all(accept_step(s, first).0, between);
            later.promised_id is Some && id.precedes(later.promised_id->0) ==> accept_step(
                later,
                MessageModel::Accept { proposal_id: id, value },
            ) == (later, None::<MessageModel>)
        }),
{
}

/// Once a prepare has been answered with a promise, the node holds a
/// promise at least as high from then on, whatever it processes, and a
/// prepare whose ballot is not above the promise then held gets no answer
/// and changes nothing.
pub proof fn lemma_promise_is_monotonic(
    s: NodeModel,
    first: MessageModel,
    between: Seq<MessageModel>,
    id: ProposalId,
)
    requires
        prepare_step(s, first).1 is Some,
    ensures
        ({
            let promised = prepare_step(s, first).0;
            let later = process_all(promised, between);
            &&& first is Prepare
            &&& promised.promised_id == Some(first->Prepare_proposal_id)
            &&& later.promised_id is Some
            &&& first->Prepare_proposal_id.at_most(later.promised_id->0)
            &&& id.at_most(later.promised_id->0) ==> prepare_step(
                later,
                MessageModel::Prepare { proposal_id: id },
            ) == (later, None::<MessageModel>)
            &&& id.at_most(first->Prepare_proposal_id) ==> prepare_step(
                later,
                MessageModel::Prepare { proposal_id: id },
            ) == (later, None::<MessageModel>)
        }),
{
    lemma_run_keeps_promise(prepare_step(s, first).0, between);
}

/// A promise for the ballot in flight that carries a value accepted before
/// is answered with an accept for exactly that value, whatever the proposer
/// meant to propose; a promise for another ballot gets no answer.
pub proof fn lemma_promise_adopts_carried_value(
    s: NodeModel,
    proposal_id: ProposalId,
    last_accepted_id: Option<ProposalId>,
    carried: ValueModel,
)
    ensures
        ({
            let promise = MessageModel::Promise {
                proposal_id,
                last_accepted_id,
                last_accepted_value: Some(carried),
            };
            &&& s.current_proposal == Some(proposal_id) ==> promise_step(s, promise) == Some(
                MessageModel::Accept { proposal_id, value: carried },
            )
            &&& s.current_proposal != Some(proposal_id) ==> promise_step(s, promise) is None
        }),
{
}

} // verus!
