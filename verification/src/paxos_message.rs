use std::cmp::Ordering;
use vstd::prelude::*;
use vstd::std_specs::cmp::PartialOrdSpec;

verus! {

/// A ballot: a round number, with the proposing node's identity as tiebreak.
#[derive(Clone, Copy, Debug, PartialEq, Eq, Structural, Ord, Hash)]
pub struct ProposalId {
    pub id: u64,
    pub node_id: u64,
}

impl ProposalId {
    /// `self` is strictly below `other`: by round first, then by node.
    pub open spec fn precedes(self, other: ProposalId) -> bool {
        self.id < other.id || (self.id == other.id && self.node_id < other.node_id)
    }

    /// `self` is below or equal to `other`.
    pub open spec fn at_most(self, other: ProposalId) -> bool {
        self.precedes(other) || self == other
    }
}

impl PartialOrd for ProposalId {
    fn partial_cmp(&self, other: &Self) -> (r: Option<Ordering>) {
        if self.id < other.id {
            Some(Ordering::Less)
        } else if self.id > other.id {
            Some(Ordering::Greater)
        } else if self.node_id < other.node_id {
            Some(Ordering::Less)
        } else if self.node_id > other.node_id {
            Some(Ordering::Greater)
        } else {
            Some(Ordering::Equal)
        }
    }
}

impl vstd::std_specs::cmp::PartialOrdSpecImpl for ProposalId {
    open spec fn obeys_partial_cmp_spec() -> bool {
        true
    }

    open spec fn partial_cmp_spec(&self, other: &Self) -> Option<Ordering> {
        if self.precedes(*other) {
            Some(Ordering::Less)
        } else if other.precedes(*self) {
            Some(Ordering::Greater)
        } else {
            Some(Ordering::Equal)
        }
    }
}

/// The ballot order is a strict total order: no ballot precedes itself, of two
/// different ballots exactly one precedes the other, and the order is
/// transitive.
pub proof fn lemma_proposal_order_strict_total(a: ProposalId, b: ProposalId, c: ProposalId)
    ensures
        !a.precedes(a),
        a.precedes(b) <==> (a.id < b.id || (a.id == b.id && a.node_id < b.node_id)),
        a.precedes(b) || b.precedes(a) || a == b,
        !(a.precedes(b) && b.precedes(a)),
        !(a.precedes(b) && a == b),
        a.precedes(b) && b.precedes(c) ==> a.precedes(c),
{
}

/// What `<`, `<=`, `>` and `>=` compute on ballots is the order `precedes`.
pub proof fn lemma_proposal_operators(a: ProposalId, b: ProposalId)
    ensures
        a.partial_cmp_spec(&b) == Some(Ordering::Less) <==> a.precedes(b),
        a.partial_cmp_spec(&b) == Some(Ordering::Greater) <==> b.precedes(a),
        a.partial_cmp_spec(&b) == Some(Ordering::Equal) <==> a == b,
        a.partial_cmp_spec(&b) is Some,
{
}

/// A key with the value proposed for it.
#[derive(Debug)]
pub struct PaxosValue {
    pub key: String,
    pub value: String,
}

/// The mathematical content of a `PaxosValue`.
pub struct ValueModel {
    pub key: Seq<char>,
    pub value: Seq<char>,
}

impl View for PaxosValue {
    type V = ValueModel;

    open spec fn view(&self) -> ValueModel {
        ValueModel { key: self.key@, value: self.value@ }
    }
}

impl Clone for PaxosValue {
    fn clone(&self) -> (r: Self)
        ensures
            r@ == self@,
    {
        PaxosValue { key: self.key.clone(), value: self.value.clone() }
    }
}

/// The view of an optional value.
pub open spec fn value_option_view(v: Option<PaxosValue>) -> Option<ValueModel> {
    match v {
        Some(x) => Some(x@),
        None => None,
    }
}

/// A copy of an optional value.
pub fn clone_value_option(v: &Option<PaxosValue>) -> (r: Option<PaxosValue>)
    ensures
        value_option_view(r) == value_option_view(*v),
{
    match v {
        Some(x) => Some(x.clone()),
        None => None,
    }
}

/// The five messages of the protocol.
#[derive(Debug)]
pub enum PaxosMessage {
    Prepare { proposal_id: ProposalId },
    Promise {
        proposal_id: ProposalId,
        last_accepted_id: Option<ProposalId>,
        last_accepted_value: Option<PaxosValue>,
    },
    Accept { proposal_id: ProposalId, value: PaxosValue },
    Accepted { proposal_id: ProposalId, value: PaxosValue },
    Learn { proposal_id: ProposalId, value: PaxosValue },
}

/// The mathematical content of a `PaxosMessage`.
pub enum MessageModel {
    Prepare { proposal_id: ProposalId },
    Promise {
        proposal_id: ProposalId,
        last_accepted_id: Option<ProposalId>,
        last_accepted_value: Option<ValueModel>,
    },
    Accept { proposal_id: ProposalId, value: ValueModel },
    Accepted { proposal_id: ProposalId, value: ValueModel },
    Learn { proposal_id: ProposalId, value: ValueModel },
}

impl View for PaxosMessage {
    type V = MessageModel;

    open spec fn view(&self) -> MessageModel {
        match *self {
            PaxosMessage::Prepare { proposal_id } => MessageModel::Prepare { proposal_id },
            PaxosMessage::Promise { proposal_id, last_accepted_id, last_accepted_value } =>
                MessageModel::Promise {
                    proposal_id,
                    last_accepted_id,
                    last_accepted_value: value_option_view(last_accepted_value),
                },
            PaxosMessage::Accept { proposal_id, value } => MessageModel::Accept {
                proposal_id,
                value: value@,
            },
            PaxosMessage::Accepted { proposal_id, value } => MessageModel::Accepted {
                proposal_id,
                value: value@,
            },
            PaxosMessage::Learn { proposal_id, value } => MessageModel::Learn {
                proposal_id,
                value: value@,
            },
        }
    }
}

impl Clone for PaxosMessage {
    fn clone(&self) -> (r: Self)
        ensures
            r@ == self@,
    {
        match self {
            PaxosMessage::Prepare { proposal_id } => PaxosMessage::Prepare {
                proposal_id: *proposal_id,
            },
            PaxosMessage::Promise { proposal_id, last_accepted_id, last_accepted_value } =>
                PaxosMessage::Promise {
                    proposal_id: *proposal_id,
                    last_accepted_id: *last_accepted_id,
                    last_accepted_value: clone_value_option(last_accepted_value),
                },
            PaxosMessage::Accept { proposal_id, value } => PaxosMessage::Accept {
                proposal_id: *proposal_id,
                value: value.clone(),
            },
            PaxosMessage::Accepted { proposal_id, value } => PaxosMessage::Accepted {
                proposal_id: *proposal_id,
                value: value.clone(),
            },
            PaxosMessage::Learn { proposal_id, value } => PaxosMessage::Learn {
                proposal_id: *proposal_id,
                value: value.clone(),
            },
        }
    }
}

/// The view of an optional message.
pub open spec fn message_option_view(m: Option<PaxosMessage>) -> Option<MessageModel> {
    match m {
        Some(x) => Some(x@),
        None => None,
    }
}

} // verus!
