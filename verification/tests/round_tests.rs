use paxos::command::{parse_command, Command};
use paxos::paxos_message::{PaxosMessage, PaxosValue, ProposalId};
use paxos::paxos_node::PaxosNode;
use paxos::server::{command_reply, process_message, proposer_step, RoundStage};

fn pid(id: u64, node_id: u64) -> ProposalId {
    ProposalId { id, node_id }
}

#[test]
fn proposer_round_runs_to_the_end() {
    let mut a = PaxosNode::new(1);
    let mut b = PaxosNode::new(2);
    let prepare = a.start_proposal(1, "k".to_string(), "v1".to_string());

    let promise = process_message(&mut b, prepare);
    let (stage, accept) = proposer_step(&mut a, RoundStage::AwaitingPromise, promise);
    assert_eq!(stage, RoundStage::AwaitingAccepted);
    let accept = accept.unwrap();
    assert!(matches!(&accept, PaxosMessage::Accept { proposal_id, value }
        if *proposal_id == pid(1, 1) && value.key == "k" && value.value == "v1"));

    let accepted = process_message(&mut b, accept);
    let (stage, learn) = proposer_step(&mut a, stage, accepted);
    assert_eq!(stage, RoundStage::Finished);
    assert!(matches!(learn, Some(PaxosMessage::Learn { proposal_id, .. }) if proposal_id == pid(1, 1)));
    assert_eq!(a.learned_value("k"), Some("v1".to_string()));

    let (stage, next) = proposer_step(&mut a, stage, None);
    assert_eq!(stage, RoundStage::Finished);
    assert!(next.is_none());
}

#[test]
fn proposer_round_fails_without_the_due_message() {
    let mut a = PaxosNode::new(1);
    a.start_proposal(3, "k".to_string(), "v".to_string());

    let (stage, next) = proposer_step(&mut a, RoundStage::AwaitingPromise, None);
    assert_eq!(stage, RoundStage::Failed);
    assert!(next.is_none());

    // a promise for another ballot
    let stale = PaxosMessage::Promise {
        proposal_id: pid(2, 1),
        last_accepted_id: None,
        last_accepted_value: None,
    };
    let (stage, next) = proposer_step(&mut a, RoundStage::AwaitingPromise, Some(stale));
    assert_eq!(stage, RoundStage::Failed);
    assert!(next.is_none());

    // a prepare where the acceptance is due
    let wrong = PaxosMessage::Prepare { proposal_id: pid(3, 1) };
    let (stage, next) = proposer_step(&mut a, RoundStage::AwaitingAccepted, Some(wrong));
    assert_eq!(stage, RoundStage::Failed);
    assert!(next.is_none());
    assert_eq!(a.learned_value("k"), None);

    let (stage, next) = proposer_step(&mut a, RoundStage::AwaitingAccepted, None);
    assert_eq!(stage, RoundStage::Failed);
    assert!(next.is_none());

    let ok = PaxosMessage::Accepted {
        proposal_id: pid(3, 1),
        value: PaxosValue { key: "k".to_string(), value: "v".to_string() },
    };
    let (stage, next) = proposer_step(&mut a, RoundStage::Failed, Some(ok));
    assert_eq!(stage, RoundStage::Failed);
    assert!(next.is_none());
    assert_eq!(a.learned_value("k"), None);
}

#[test]
fn preempted_proposer_fails_its_round() {
    let mut a = PaxosNode::new(1);
    let mut b = PaxosNode::new(2);
    assert!(process_message(&mut b, PaxosMessage::Prepare { proposal_id: pid(5, 2) }).is_some());
    let prepare = a.start_proposal(3, "k".to_string(), "v".to_string());
    let answer = process_message(&mut b, prepare);
    assert!(answer.is_none());
    let (stage, next) = proposer_step(&mut a, RoundStage::AwaitingPromise, answer);
    assert_eq!(stage, RoundStage::Failed);
    assert!(next.is_none());
}

#[test]
fn control_replies() {
    let mut n = PaxosNode::new(1);
    n.handle_learn(PaxosMessage::Learn {
        proposal_id: pid(1, 1),
        value: PaxosValue { key: "k".to_string(), value: "v1".to_string() },
    });
    assert_eq!(command_reply(&n, &parse_command("get k\n")), "v1");
    assert_eq!(command_reply(&n, &parse_command("get other\n")), "");
    assert_eq!(command_reply(&n, &parse_command("put k v2\n")), "");
    assert_eq!(n.learned_value("k"), Some("v1".to_string()));
    assert_eq!(command_reply(&n, &parse_command("bogus")), "Invalid command: bogus");
    assert_eq!(
        command_reply(&n, &Command::Invalid("x y z\n".to_string())),
        "Invalid command: x y z\n"
    );
}
