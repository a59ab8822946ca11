use psi_core::party::{Party, Partytype};
use psi_core::scalar::hash;
use psi_core::Error;

fn fruits_x() -> Vec<String> {
    vec![
        "apple".to_string(),
        "banana".to_string(),
        "cherry".to_string(),
        "date".to_string(),
    ]
}

fn fruits_y() -> Vec<String> {
    vec![
        "cherry".to_string(),
        "date".to_string(),
        "elderberry".to_string(),
        "fig".to_string(),
    ]
}

fn run_protocol(list1: Vec<String>, list2: Vec<String>) -> Vec<String> {
    let mut sender = Party::new(list1, Partytype::Sender);
    let mut receiver = Party::new(list2, Partytype::Receiver);
    let m = sender.send_round1().unwrap();
    let polys = receiver.recv_round1().unwrap();
    let k = sender.send_round2(polys).unwrap();
    receiver.recv_round2(k, m).unwrap()
}

#[test]
fn protocol_computes_known_intersection() {
    let mut result = run_protocol(fruits_x(), fruits_y());
    result.sort();
    assert_eq!(result, vec!["cherry".to_string(), "date".to_string()]);
}

#[test]
fn protocol_non_membership_repeated_runs() {
    // an item present only in the sender's set never appears in the result
    for _ in 0..10 {
        let result = run_protocol(fruits_x(), fruits_y());
        assert!(!result.contains(&"apple".to_string()));
        assert!(!result.contains(&"banana".to_string()));
        assert!(!result.contains(&"elderberry".to_string()));
        assert!(!result.contains(&"fig".to_string()));
    }
}

#[test]
fn protocol_disjoint_sets_intersect_empty() {
    let result = run_protocol(
        vec!["ant".to_string(), "bee".to_string(), "cat".to_string()],
        vec!["dog".to_string(), "eel".to_string(), "fox".to_string()],
    );
    assert!(result.is_empty());
}

#[test]
fn round2_before_round1_is_invalid_state() {
    let mut sender = Party::new(fruits_x(), Partytype::Sender);
    let err = sender
        .send_round2((vec![[0u8; 32]; 3], vec![[0u8; 32]; 3]))
        .unwrap_err();
    assert_eq!(err, Error::InvalidState);

    let mut receiver = Party::new(fruits_y(), Partytype::Receiver);
    let err = receiver.recv_round2(vec![[0u8; 32]], [0u8; 32]).unwrap_err();
    assert_eq!(err, Error::InvalidState);
}

#[test]
fn wrong_role_is_invalid_state() {
    let mut receiver = Party::new(fruits_y(), Partytype::Receiver);
    assert_eq!(receiver.send_round1().unwrap_err(), Error::InvalidState);
    let mut sender = Party::new(fruits_x(), Partytype::Sender);
    assert_eq!(sender.recv_round1().unwrap_err(), Error::InvalidState);
}

#[test]
fn empty_receiver_set_aborts() {
    let mut receiver = Party::new(Vec::new(), Partytype::Receiver);
    assert_eq!(receiver.recv_round1().unwrap_err(), Error::EmptyInput);
}

#[test]
fn degenerate_polynomials_abort_round2() {
    // a degree-0 polynomial reaching the sender's second round is rejected
    let mut sender = Party::new(fruits_x(), Partytype::Sender);
    sender.send_round1().unwrap();
    let err = sender
        .send_round2((vec![[7u8; 32]], vec![[7u8; 32]]))
        .unwrap_err();
    assert_eq!(err, Error::DegenerateInput);
}

#[test]
fn shuffle_positions_cover_all_slots() {
    // the position of the key belonging to one fixed receiver item, within
    // the sender's shuffled key set, takes every possible slot over many
    // trials; a missing shuffle would pin it to one slot
    let labels = vec![
        "alpha".to_string(),
        "beta".to_string(),
        "gamma".to_string(),
        "delta".to_string(),
    ];
    let n = labels.len();
    let mut seen = vec![0usize; n];
    for _ in 0..80 {
        let mut sender = Party::new(labels.clone(), Partytype::Sender);
        let mut receiver = Party::new(labels.clone(), Partytype::Receiver);
        let m = sender.send_round1().unwrap();
        let polys = receiver.recv_round1().unwrap();
        let k = sender.send_round2(polys).unwrap();
        // derive the receiver-side hash of the first item and locate it
        let point = psi_core::elligator::map(m).unwrap();
        let shared = point.mul_clamped(&receiver.privkeyshare[0]);
        let h0 = hash(vec![labels[0].as_bytes(), &shared.compress()]);
        let pos = k.iter().position(|kb| *kb == h0).expect("key of a matching item present");
        seen[pos] += 1;
    }
    for count in seen {
        assert!(count > 0, "one slot never held the fixed key: shuffle missing");
    }
}
