use crate::paxos_message::{
    clone_value_option, message_option_view, value_option_view, MessageModel, PaxosMessage,
    PaxosValue, ProposalId, ValueModel,
};
use vstd::hash_map::StringHashMap;
use vstd::prelude::*;

verus! {

/// The mathematical state of a node.
pub struct NodeModel {
    /// The node's identity, the tiebreak of its ballots.
    pub node_id: u64,
    /// The ballot that the node drives as proposer.
    pub current_proposal: Option<ProposalId>,
    /// The value that the node proposed under that ballot.
    pub proposed_value: Option<ValueModel>,
    /// The highest ballot that the node has promised not to ignore.
    pub promised_id: Option<ProposalId>,
    /// The ballot of the last acceptance.
    pub accepted_id: Option<ProposalId>,
    /// The value of the last acceptance.
    pub accepted_value: Option<ValueModel>,
    /// The values that the node believes final, by key.
    pub learned: Map<Seq<char>, Seq<char>>,
}

impl NodeModel {
    /// The state of a node that has seen nothing yet.
    pub open spec fn initial(node_id: u64) -> NodeModel {
        NodeModel {
            node_id,
            current_proposal: None,
            proposed_value: None,
            promised_id: None,
            accepted_id: None,
            accepted_value: None,
            learned: Map::empty(),
        }
    }

    /// The ballot of an acceptance and its value are there together, and so
    /// are the ballot in flight and the value proposed under it.
    pub open spec fn paired(self) -> bool {
        &&& self.accepted_id is Some <==> self.accepted_value is Some
        &&& self.current_proposal is Some <==> self.proposed_value is Some
    }

    /// The acceptor takes ballot `id` in a prepare: nothing is promised yet,
    /// or `id` is strictly above the promise.
    pub open spec fn admits_prepare(self, id: ProposalId) -> bool {
        self.promised_id is None || self.promised_id->0.precedes(id)
    }

    /// The acceptor takes ballot `id` in an accept: nothing is promised yet,
    /// or `id` is not below the promise.
    pub open spec fn admits_accept(self, id: ProposalId) -> bool {
        self.promised_id is None || self.promised_id->0.at_most(id)
    }

    /// The state after `value` was recorded as learned.
    pub open spec fn learn(self, value: ValueModel) -> NodeModel {
        NodeModel { learned: self.learned.insert(value.key, value.value), ..self }
    }
}

/// The proposer opens round `round` for `key` and `value`.
pub open spec fn start_step(s: NodeModel, round: u64, key: Seq<char>, value: Seq<char>) -> (
    NodeModel,
    MessageModel,
) {
    let id = ProposalId { id: round, node_id: s.node_id };
    (
        NodeModel {
            current_proposal: Some(id),
            proposed_value: Some(ValueModel { key, value }),
            ..s
        },
        MessageModel::Prepare { proposal_id: id },
    )
}

/// The acceptor's answer to a prepare.
pub open spec fn prepare_step(s: NodeModel, m: MessageModel) -> (NodeModel, Option<MessageModel>) {
    match m {
        MessageModel::Prepare { proposal_id } => if s.admits_prepare(proposal_id) {
            (
                NodeModel { promised_id: Some(proposal_id), ..s },
                Some(
                    MessageModel::Promise {
                        proposal_id,
                        last_accepted_id: s.accepted_id,
                        last_accepted_value: s.accepted_value,
                    },
                ),
            )
        } else {
            (s, None)
        },
        _ => (s, None),
    }
}

/// The value that an accept carries after a promise: the value that the
/// promise reports as accepted before, else the proposer's own.
pub open spec fn chosen_value(s: NodeModel, carried: Option<ValueModel>) -> Option<ValueModel> {
    if carried is Some {
        carried
    } else {
        s.proposed_value
    }
}

/// The proposer's answer to a promise. The state stays as it is.
pub open spec fn promise_step(s: NodeModel, m: MessageModel) -> Option<MessageModel> {
    match m {
        MessageModel::Promise { proposal_id, last_accepted_id, last_accepted_value } => if
            s.current_proposal == Some(proposal_id) && chosen_value(s, last_accepted_value)
            is Some {
            Some(
                MessageModel::Accept {
                    proposal_id,
                    value: chosen_value(s, last_accepted_value)->0,
                },
            )
        } else {
            None
        },
        _ => None,
    }
}

/// The acceptor's answer to an accept.
pub open spec fn accept_step(s: NodeModel, m: MessageModel) -> (NodeModel, Option<MessageModel>) {
    match m {
        MessageModel::Accept { proposal_id, value } => if s.admits_accept(proposal_id) {
            (
                NodeModel { accepted_id: Some(proposal_id), accepted_value: Some(value), ..s },
                Some(MessageModel::Accepted { proposal_id, value }),
            )
        } else {
            (s, None)
        },
        _ => (s, None),
    }
}

/// The coordinator's answer to an acceptance: the value is learned and
/// handed on.
pub open spec fn accepted_step(s: NodeModel, m: MessageModel) -> (NodeModel, Option<MessageModel>) {
    match m {
        MessageModel::Accepted { proposal_id, value } => (
            s.learn(value),
            Some(MessageModel::Learn { proposal_id, value }),
        ),
        _ => (s, None),
    }
}

/// The learner records the value of a learn message.
pub open spec fn learn_step(s: NodeModel, m: MessageModel) -> NodeModel {
    match m {
        MessageModel::Learn { proposal_id, value } => s.learn(value),
        _ => s,
    }
}

/// One node: proposer, acceptor and learner in one.
pub struct PaxosNode {
    node_id: u64,
    current_proposal_id: Option<ProposalId>,
    proposed_value: Option<PaxosValue>,
    promised_id: Option<ProposalId>,
    accepted_id: Option<ProposalId>,
    accepted_value: Option<PaxosValue>,
    learned_values: StringHashMap<String>,
}

impl View for PaxosNode {
    type V = NodeModel;

    closed spec fn view(&self) -> NodeModel {
        NodeModel {
            node_id: self.node_id,
            current_proposal: self.current_proposal_id,
            proposed_value: value_option_view(self.proposed_value),
            promised_id: self.promised_id,
            accepted_id: self.accepted_id,
            accepted_value: value_option_view(self.accepted_value),
            learned: Map::new(
                |k: Seq<char>| self.learned_values@.contains_key(k),
                |k: Seq<char>| self.learned_values@[k]@,
            ),
        }
    }
}

impl PaxosNode {
    /// A node with the given identity and empty state.
    pub fn new(node_id: u64) -> (r: Self)
        ensures
            r@ == NodeModel::initial(node_id),
    {
        let r = PaxosNode {
            node_id,
            current_proposal_id: None,
            proposed_value: None,
            promised_id: None,
            accepted_id: None,
            accepted_value: None,
            learned_values: StringHashMap::new(),
        };
        assert(r@.learned =~= Map::empty());
        r
    }

    /// Opens a round as proposer: the ballot is `proposal_id` with this
    /// node's identity, and the prepare for it is returned.
    pub fn start_proposal(&mut self, proposal_id: u64, key: String, value: String) -> (r:
        PaxosMessage)
        ensures
            final(self)@ == start_step(old(self)@, proposal_id, key@, value@).0,
            r@ == start_step(old(self)@, proposal_id, key@, value@).1,
    {
        let id = ProposalId { id: proposal_id, node_id: self.node_id };
        self.current_proposal_id = Some(id);
        self.proposed_value = Some(PaxosValue { key, value });
        PaxosMessage::Prepare { proposal_id: id }
    }

    /// Answers a promise for the ballot in flight with the accept to send;
    /// any other message gets no answer. The state stays as it is.
    pub fn handle_promise(&mut self, message: PaxosMessage) -> (r: Option<PaxosMessage>)
        ensures
            final(self)@ == old(self)@,
            message_option_view(r) == promise_step(old(self)@, message@),
    {
        match message {
            PaxosMessage::Promise { proposal_id, last_accepted_id: _, last_accepted_value } => {
                match self.current_proposal_id {
                    Some(current) => {
                        if proposal_id == current {
                            let chosen = match last_accepted_value {
                                Some(v) => Some(v),
                                None => clone_value_option(&self.proposed_value),
                            };
                            match chosen {
                                Some(value) => Some(PaxosMessage::Accept { proposal_id, value }),
                                None => None,
                            }
                        } else {
                            None
                        }
                    },
                    None => None,
                }
            },
            _ => None,
        }
    }

    /// Answers a prepare whose ballot is above every promise so far with a
    /// promise, and remembers the ballot; any other message gets no answer
    /// and changes nothing.
    pub fn handle_prepare(&mut self, message: PaxosMessage) -> (r: Option<PaxosMessage>)
        ensures
            final(self)@ == prepare_step(old(self)@, message@).0,
            message_option_view(r) == prepare_step(old(self)@, message@).1,
    {
        match message {
            PaxosMessage::Prepare { proposal_id } => {
                let admitted = match self.promised_id {
                    None => true,
                    Some(promised) => proposal_id > promised,
                };
                if admitted {
                    self.promised_id = Some(proposal_id);
                    Some(
                        PaxosMessage::Promise {
                            proposal_id,
                            last_accepted_id: self.accepted_id,
                            last_accepted_value: clone_value_option(&self.accepted_value),
                        },
                    )
                } else {
                    None
                }
            },
            _ => None,
        }
    }

    /// Accepts a value whose ballot is not below the promise, and confirms
    /// it; any other message gets no answer and changes nothing.
    pub fn handle_accept(&mut self, message: PaxosMessage) -> (r: Option<PaxosMessage>)
        ensures
            final(self)@ == accept_step(old(self)@, message@).0,
            message_option_view(r) == accept_step(old(self)@, message@).1,
    {
        match message {
            PaxosMessage::Accept { proposal_id, value } => {
                let admitted = match self.promised_id {
                    None => true,
                    Some(promised) => proposal_id >= promised,
                };
                if admitted {
                    self.accepted_id = Some(proposal_id);
                    self.accepted_value = Some(value.clone());
                    Some(PaxosMessage::Accepted { proposal_id, value })
                } else {
                    None
                }
            },
            _ => None,
        }
    }

    /// Records the value of an acceptance as learned and returns the learn
    /// message to hand on; any other message gets no answer and changes
    /// nothing.
    pub fn handle_accepted(&mut self, message: PaxosMessage) -> (r: Option<PaxosMessage>)
        ensures
            final(self)@ == accepted_step(old(self)@, message@).0,
            message_option_view(r) == accepted_step(old(self)@, message@).1,
    {
        match message {
            PaxosMessage::Accepted { proposal_id, value } => {
                self.record(&value);
                Some(PaxosMessage::Learn { proposal_id, value })
            },
            _ => None,
        }
    }

    /// Records the value of a learn message; any other message changes
    /// nothing.
    pub fn handle_learn(&mut self, message: PaxosMessage)
        ensures
            final(self)@ == learn_step(old(self)@, message@),
    {
        match message {
            PaxosMessage::Learn { proposal_id: _, value } => {
                self.record(&value);
            },
            _ => {},
        }
    }

    /// Writes `value` under its key, over whatever stood there.
    fn record(&mut self, value: &PaxosValue)
        ensures
            final(self)@ == old(self)@.learn(value@),
    {
        self.learned_values.insert(value.key.clone(), value.value.clone());
        assert(final(self)@.learned =~= old(self)@.learned.insert(value@.key, value@.value));
    }

    /// The value learned for `key`, if there is one.
    pub fn learned_value(&self, key: &str) -> (r: Option<String>)
        ensures
            match r {
                Some(v) => self@.learned.contains_key(key@) && self@.learned[key@] == v@,
                None => !self@.learned.contains_key(key@),
            },
    {
        match self.learned_values.get(key) {
            Some(v) => Some(v.clone()),
            None => None,
        }
    }

    /// The node's identity.
    pub fn node_id(&self) -> (r: u64)
        ensures
            r == self@.node_id,
    {
        self.node_id
    }

    /// The ballot in flight, if the node has opened a round.
    pub fn current_proposal_id(&self) -> (r: Option<ProposalId>)
        ensures
            r == self@.current_proposal,
    {
        self.current_proposal_id
    }

    /// The highest ballot promised so far.
    pub fn promised_id(&self) -> (r: Option<ProposalId>)
        ensures
            r == self@.promised_id,
    {
        self.promised_id
    }

    /// The ballot of the last acceptance.
    pub fn accepted_id(&self) -> (r: Option<ProposalId>)
        ensures
            r == self@.accepted_id,
    {
        self.accepted_id
    }

    /// The value of the last acceptance.
    pub fn accepted_value(&self) -> (r: Option<PaxosValue>)
        ensures
            value_option_view(r) == self@.accepted_value,
    {
        clone_value_option(&self.accepted_value)
    }
}

} // verus!
