use paxos::paxos_message::{PaxosMessage, PaxosValue, ProposalId};
use paxos::paxos_node::PaxosNode;
use paxos::server::{process_message, MAX_RETRIES};
use std::cmp::Ordering;

fn pid(id: u64, node_id: u64) -> ProposalId {
    ProposalId { id, node_id }
}

fn val(key: &str, value: &str) -> PaxosValue {
    PaxosValue { key: key.to_string(), value: value.to_string() }
}

fn assert_value(v: &PaxosValue, key: &str, value: &str) {
    assert_eq!(v.key, key);
    assert_eq!(v.value, value);
}

#[test]
fn proposal_ids_order_by_round_then_node() {
    assert!(pid(1, 9) < pid(2, 0));
    assert!(pid(2, 0) > pid(1, 9));
    assert!(pid(3, 1) < pid(3, 2));
    assert!(!(pid(3, 2) < pid(3, 1)));
    assert!(!(pid(3, 2) < pid(3, 2)));
    assert!(pid(3, 2) <= pid(3, 2));
    assert!(pid(3, 2) >= pid(3, 2));
    assert_eq!(pid(3, 2), pid(3, 2));
    assert_ne!(pid(3, 2), pid(2, 3));
}

#[test]
fn proposal_id_partial_cmp_gives_all_three_orderings() {
    assert_eq!(pid(1, 1).partial_cmp(&pid(1, 2)), Some(Ordering::Less));
    assert_eq!(pid(2, 1).partial_cmp(&pid(1, 2)), Some(Ordering::Greater));
    assert_eq!(pid(7, 7).partial_cmp(&pid(7, 7)), Some(Ordering::Equal));
    assert_eq!(pid(0, u64::MAX).partial_cmp(&pid(1, 0)), Some(Ordering::Less));
    assert_eq!(pid(1, 1).cmp(&pid(1, 2)), Ordering::Less);
    assert_eq!(pid(2, 1).cmp(&pid(1, 2)), Ordering::Greater);
}

#[test]
fn proposal_order_is_total_on_a_grid() {
    for a in 0..3u64 {
        for b in 0..3u64 {
            for c in 0..3u64 {
                for d in 0..3u64 {
                    let x = pid(a, b);
                    let y = pid(c, d);
                    let expected = a < c || (a == c && b < d);
                    assert_eq!(x < y, expected);
                    let count = [x < y, x == y, y < x].iter().filter(|t| **t).count();
                    assert_eq!(count, 1);
                }
            }
        }
    }
}

#[test]
fn new_node_is_empty() {
    let node = PaxosNode::new(4);
    assert_eq!(node.node_id(), 4);
    assert_eq!(node.current_proposal_id(), None);
    assert_eq!(node.promised_id(), None);
    assert_eq!(node.accepted_id(), None);
    assert!(node.accepted_value().is_none());
    assert_eq!(node.learned_value("k"), None);
}

#[test]
fn start_proposal_uses_node_id_as_tiebreak() {
    let mut node = PaxosNode::new(3);
    let m = node.start_proposal(8, "k".to_string(), "v".to_string());
    match m {
        PaxosMessage::Prepare { proposal_id } => assert_eq!(proposal_id, pid(8, 3)),
        other => panic!("unexpected {:?}", other),
    }
    assert_eq!(node.current_proposal_id(), Some(pid(8, 3)));
    assert_eq!(node.promised_id(), None);
}

#[test]
fn single_round_without_contention() {
    let mut a = PaxosNode::new(1);
    let mut b = PaxosNode::new(2);

    let prepare = a.start_proposal(1, "k".to_string(), "v1".to_string());
    assert!(matches!(prepare, PaxosMessage::Prepare { proposal_id } if proposal_id == pid(1, 1)));

    let promise = b.handle_prepare(prepare).unwrap();
    match &promise {
        PaxosMessage::Promise { proposal_id, last_accepted_id, last_accepted_value } => {
            assert_eq!(*proposal_id, pid(1, 1));
            assert_eq!(*last_accepted_id, None);
            assert!(last_accepted_value.is_none());
        }
        other => panic!("unexpected {:?}", other),
    }
    assert_eq!(b.promised_id(), Some(pid(1, 1)));

    let accept = a.handle_promise(promise).unwrap();
    match &accept {
        PaxosMessage::Accept { proposal_id, value } => {
            assert_eq!(*proposal_id, pid(1, 1));
            assert_value(value, "k", "v1");
        }
        other => panic!("unexpected {:?}", other),
    }

    let accepted = b.handle_accept(accept).unwrap();
    match &accepted {
        PaxosMessage::Accepted { proposal_id, value } => {
            assert_eq!(*proposal_id, pid(1, 1));
            assert_value(value, "k", "v1");
        }
        other => panic!("unexpected {:?}", other),
    }
    assert_eq!(b.accepted_id(), Some(pid(1, 1)));
    assert_value(&b.accepted_value().unwrap(), "k", "v1");

    let learn = a.handle_accepted(accepted).unwrap();
    match &learn {
        PaxosMessage::Learn { proposal_id, value } => {
            assert_eq!(*proposal_id, pid(1, 1));
            assert_value(value, "k", "v1");
        }
        other => panic!("unexpected {:?}", other),
    }
    assert_eq!(a.learned_value("k"), Some("v1".to_string()));
    assert_eq!(b.learned_value("k"), None);

    b.handle_learn(learn);
    assert_eq!(b.learned_value("k"), Some("v1".to_string()));
}

#[test]
fn preempted_ballot_is_ignored() {
    let mut b = PaxosNode::new(2);
    assert!(b.handle_prepare(PaxosMessage::Prepare { proposal_id: pid(5, 2) }).is_some());
    assert_eq!(b.promised_id(), Some(pid(5, 2)));

    let r = b.handle_prepare(PaxosMessage::Prepare { proposal_id: pid(3, 1) });
    assert!(r.is_none());
    assert_eq!(b.promised_id(), Some(pid(5, 2)));
    assert_eq!(b.accepted_id(), None);
    assert!(b.accepted_value().is_none());
    assert_eq!(b.current_proposal_id(), None);
}

#[test]
fn value_adoption_on_reproposal() {
    let mut b = PaxosNode::new(2);
    let accepted = b.handle_accept(PaxosMessage::Accept {
        proposal_id: pid(2, 2),
        value: val("k", "old"),
    });
    assert!(accepted.is_some());

    let mut a = PaxosNode::new(1);
    let prepare = a.start_proposal(7, "k".to_string(), "new".to_string());
    let promise = b.handle_prepare(prepare).unwrap();
    match &promise {
        PaxosMessage::Promise { proposal_id, last_accepted_id, last_accepted_value } => {
            assert_eq!(*proposal_id, pid(7, 1));
            assert_eq!(*last_accepted_id, Some(pid(2, 2)));
            assert_value(last_accepted_value.as_ref().unwrap(), "k", "old");
        }
        other => panic!("unexpected {:?}", other),
    }
    let accept = a.handle_promise(promise).unwrap();
    match &accept {
        PaxosMessage::Accept { proposal_id, value } => {
            assert_eq!(*proposal_id, pid(7, 1));
            assert_value(value, "k", "old");
        }
        other => panic!("unexpected {:?}", other),
    }
}

#[test]
fn accept_below_promise_leaves_acceptance_unchanged() {
    let mut b = PaxosNode::new(2);
    assert!(b
        .handle_accept(PaxosMessage::Accept { proposal_id: pid(4, 1), value: val("k", "first") })
        .is_some());
    assert!(b.handle_prepare(PaxosMessage::Prepare { proposal_id: pid(6, 3) }).is_some());

    let r = b.handle_accept(PaxosMessage::Accept { proposal_id: pid(5, 9), value: val("k", "x") });
    assert!(r.is_none());
    assert_eq!(b.accepted_id(), Some(pid(4, 1)));
    assert_value(&b.accepted_value().unwrap(), "k", "first");
    assert_eq!(b.promised_id(), Some(pid(6, 3)));

    let r = b.handle_accept(PaxosMessage::Accept { proposal_id: pid(6, 2), value: val("k", "y") });
    assert!(r.is_none());
    assert_eq!(b.accepted_id(), Some(pid(4, 1)));
}

#[test]
fn accept_at_or_above_promise_is_taken() {
    let mut b = PaxosNode::new(2);
    assert!(b.handle_prepare(PaxosMessage::Prepare { proposal_id: pid(6, 3) }).is_some());
    let r = b.handle_accept(PaxosMessage::Accept { proposal_id: pid(6, 3), value: val("k", "eq") });
    assert!(matches!(r, Some(PaxosMessage::Accepted { proposal_id, .. }) if proposal_id == pid(6, 3)));
    assert_eq!(b.accepted_id(), Some(pid(6, 3)));
    assert_value(&b.accepted_value().unwrap(), "k", "eq");
    // an accept does not move the promise
    assert_eq!(b.promised_id(), Some(pid(6, 3)));

    let r = b.handle_accept(PaxosMessage::Accept { proposal_id: pid(9, 0), value: val("k", "hi") });
    assert!(r.is_some());
    assert_eq!(b.accepted_id(), Some(pid(9, 0)));
    assert_value(&b.accepted_value().unwrap(), "k", "hi");
    assert_eq!(b.promised_id(), Some(pid(6, 3)));
}

#[test]
fn promise_is_monotonic() {
    let mut b = PaxosNode::new(2);
    assert!(b.handle_prepare(PaxosMessage::Prepare { proposal_id: pid(5, 1) }).is_some());
    // equal ballot: not strictly greater
    assert!(b.handle_prepare(PaxosMessage::Prepare { proposal_id: pid(5, 1) }).is_none());
    // same round, lower node
    assert!(b.handle_prepare(PaxosMessage::Prepare { proposal_id: pid(5, 0) }).is_none());
    assert!(b.handle_prepare(PaxosMessage::Prepare { proposal_id: pid(4, 9) }).is_none());
    assert_eq!(b.promised_id(), Some(pid(5, 1)));
    // same round, higher node wins the tiebreak
    assert!(b.handle_prepare(PaxosMessage::Prepare { proposal_id: pid(5, 2) }).is_some());
    assert_eq!(b.promised_id(), Some(pid(5, 2)));
    assert!(b.handle_prepare(PaxosMessage::Prepare { proposal_id: pid(5, 1) }).is_none());
}

#[test]
fn promise_for_another_ballot_gets_no_answer() {
    let mut a = PaxosNode::new(1);
    // no round opened
    let r = a.handle_promise(PaxosMessage::Promise {
        proposal_id: pid(1, 1),
        last_accepted_id: None,
        last_accepted_value: None,
    });
    assert!(r.is_none());

    a.start_proposal(2, "k".to_string(), "mine".to_string());
    let r = a.handle_promise(PaxosMessage::Promise {
        proposal_id: pid(1, 1),
        last_accepted_id: None,
        last_accepted_value: Some(val("k", "other")),
    });
    assert!(r.is_none());
    let r = a.handle_promise(PaxosMessage::Promise {
        proposal_id: pid(2, 2),
        last_accepted_id: None,
        last_accepted_value: None,
    });
    assert!(r.is_none());
    assert_eq!(a.current_proposal_id(), Some(pid(2, 1)));
}

#[test]
fn promise_without_prior_value_carries_own_value() {
    let mut a = PaxosNode::new(1);
    a.start_proposal(2, "k".to_string(), "mine".to_string());
    let r = a.handle_promise(PaxosMessage::Promise {
        proposal_id: pid(2, 1),
        last_accepted_id: None,
        last_accepted_value: None,
    });
    match r {
        Some(PaxosMessage::Accept { proposal_id, value }) => {
            assert_eq!(proposal_id, pid(2, 1));
            assert_value(&value, "k", "mine");
        }
        other => panic!("unexpected {:?}", other),
    }
}

#[test]
fn promise_with_prior_value_never_carries_own_value() {
    let mut a = PaxosNode::new(1);
    a.start_proposal(2, "k".to_string(), "mine".to_string());
    let r = a.handle_promise(PaxosMessage::Promise {
        proposal_id: pid(2, 1),
        last_accepted_id: Some(pid(1, 5)),
        last_accepted_value: Some(val("other_key", "theirs")),
    });
    match r {
        Some(PaxosMessage::Accept { proposal_id, value }) => {
            assert_eq!(proposal_id, pid(2, 1));
            assert_value(&value, "other_key", "theirs");
        }
        other => panic!("unexpected {:?}", other),
    }
}

#[test]
fn handlers_ignore_messages_of_other_kinds() {
    let mut n = PaxosNode::new(1);
    let learn = PaxosMessage::Learn { proposal_id: pid(1, 1), value: val("k", "v") };
    assert!(n.handle_prepare(learn.clone()).is_none());
    assert!(n.handle_promise(learn.clone()).is_none());
    assert!(n.handle_accept(learn.clone()).is_none());
    assert!(n.handle_accepted(learn).is_none());
    n.handle_learn(PaxosMessage::Prepare { proposal_id: pid(1, 1) });
    assert_eq!(n.promised_id(), None);
    assert_eq!(n.accepted_id(), None);
    assert_eq!(n.learned_value("k"), None);
}

#[test]
fn learned_values_are_last_write_wins() {
    let mut n = PaxosNode::new(1);
    n.handle_learn(PaxosMessage::Learn { proposal_id: pid(9, 1), value: val("k", "new") });
    assert_eq!(n.learned_value("k"), Some("new".to_string()));
    // no ballot comparison at learn time
    n.handle_learn(PaxosMessage::Learn { proposal_id: pid(1, 1), value: val("k", "stale") });
    assert_eq!(n.learned_value("k"), Some("stale".to_string()));
    let r = n.handle_accepted(PaxosMessage::Accepted { proposal_id: pid(2, 1), value: val("j", "x") });
    assert!(matches!(r, Some(PaxosMessage::Learn { proposal_id, .. }) if proposal_id == pid(2, 1)));
    assert_eq!(n.learned_value("j"), Some("x".to_string()));
    assert_eq!(n.learned_value("k"), Some("stale".to_string()));
    assert_eq!(n.learned_value(""), None);
}

#[test]
fn process_message_dispatches_by_kind() {
    let mut a = PaxosNode::new(1);
    let mut b = PaxosNode::new(2);
    let prepare = a.start_proposal(1, "k".to_string(), "v".to_string());
    let promise = process_message(&mut b, prepare).unwrap();
    assert!(matches!(promise, PaxosMessage::Promise { .. }));
    let accept = process_message(&mut a, promise).unwrap();
    assert!(matches!(accept, PaxosMessage::Accept { .. }));
    let accepted = process_message(&mut b, accept).unwrap();
    assert!(matches!(accepted, PaxosMessage::Accepted { .. }));
    let learn = process_message(&mut a, accepted).unwrap();
    assert!(matches!(learn, PaxosMessage::Learn { .. }));
    assert!(process_message(&mut b, learn).is_none());
    assert_eq!(b.learned_value("k"), Some("v".to_string()));
    assert_eq!(a.learned_value("k"), Some("v".to_string()));
    assert_eq!(MAX_RETRIES, 5);
}

#[test]
fn message_clone_keeps_every_field() {
    let m = PaxosMessage::Promise {
        proposal_id: pid(3, 4),
        last_accepted_id: Some(pid(1, 2)),
        last_accepted_value: Some(val("a", "b")),
    };
    match m.clone() {
        PaxosMessage::Promise { proposal_id, last_accepted_id, last_accepted_value } => {
            assert_eq!(proposal_id, pid(3, 4));
            assert_eq!(last_accepted_id, Some(pid(1, 2)));
            assert_value(&last_accepted_value.unwrap(), "a", "b");
        }
        other => panic!("unexpected {:?}", other),
    }
    let v = val("x", "y").clone();
    assert_value(&v, "x", "y");
}
