use caucus::access_control::{AccessDenied, ApproveAll, DenyAll, Exclude, Guard};
use caucus::caucus::{Caucus, Operation};

type Open = Caucus<u64, String, ApproveAll, ApproveAll, ApproveAll>;

fn open_caucus(members: Vec<u64>) -> Open {
    Caucus::new(ApproveAll, ApproveAll, ApproveAll, members)
}

#[test]
fn approved_join_appends_the_actor() {
    let mut c = open_caucus(Vec::new());
    assert_eq!(c.add_actor(7), Ok(()));
    assert_eq!(c.actors, vec![7]);
    assert_eq!(c.add_actor(9), Ok(()));
    assert_eq!(c.actors, vec![7, 9]);
}

#[test]
fn denied_join_is_an_error_and_changes_nothing() {
    let mut c: Caucus<u64, String, DenyAll, ApproveAll, ApproveAll> =
        Caucus::new(DenyAll, ApproveAll, ApproveAll, vec![1, 2]);
    assert_eq!(c.add_actor(7), Err(AccessDenied));
    assert_eq!(c.actors, vec![1, 2]);
}

#[test]
fn denied_join_twice_is_idempotent() {
    let mut c: Caucus<u64, String, DenyAll, ApproveAll, ApproveAll> =
        Caucus::new(DenyAll, ApproveAll, ApproveAll, vec![1]);
    assert_eq!(c.add_actor(7), Err(AccessDenied));
    assert_eq!(c.add_actor(7), Err(AccessDenied));
    assert_eq!(c.actors, vec![1]);
}

#[test]
fn duplicate_join_makes_two_entries() {
    let mut c = open_caucus(Vec::new());
    assert_eq!(c.add_actor(7), Ok(()));
    assert_eq!(c.add_actor(7), Ok(()));
    assert_eq!(c.actors, vec![7, 7]);
}

#[test]
fn remove_from_empty_succeeds_and_leaves_empty() {
    let mut c = open_caucus(Vec::new());
    assert_eq!(c.remove_actor(&7), Ok(()));
    assert_eq!(c.actors, Vec::<u64>::new());
}

#[test]
fn remove_takes_only_the_first_occurrence() {
    let mut c = open_caucus(vec![1, 2, 1]);
    assert_eq!(c.remove_actor(&1), Ok(()));
    assert_eq!(c.actors, vec![2, 1]);
}

#[test]
fn remove_of_an_absent_actor_is_a_noop() {
    let mut c = open_caucus(vec![3, 4]);
    assert_eq!(c.remove_actor(&9), Ok(()));
    assert_eq!(c.actors, vec![3, 4]);
}

#[test]
fn denied_send_blocks_broadcast_whatever_the_message() {
    let c: Caucus<u64, String, ApproveAll, DenyAll, ApproveAll> =
        Caucus::new(ApproveAll, DenyAll, ApproveAll, vec![1, 2, 3]);
    assert_eq!(c.broadcast(&1, &String::from("hello")), Err(AccessDenied));
    assert_eq!(c.broadcast(&9, &String::new()), Err(AccessDenied));
    let empty: Caucus<u64, String, ApproveAll, DenyAll, ApproveAll> =
        Caucus::new(ApproveAll, DenyAll, ApproveAll, Vec::new());
    assert_eq!(empty.broadcast(&1, &String::from("x")), Err(AccessDenied));
}

#[test]
fn receive_denial_does_not_fail_the_broadcast() {
    let c: Caucus<u64, String, ApproveAll, ApproveAll, Exclude<u64>> =
        Caucus::new(ApproveAll, ApproveAll, Exclude { banned: 5 }, vec![2, 5, 9]);
    assert_eq!(c.broadcast(&2, &String::from("news")), Ok(()));
    assert_eq!(c.recipients(), vec![&2, &9]);
}

#[test]
fn open_receive_admits_every_member() {
    let c = open_caucus(vec![4, 5]);
    assert_eq!(c.broadcast(&4, &String::from("to all")), Ok(()));
    assert_eq!(c.recipients(), vec![&4, &5]);
}

#[test]
fn guards_decide_as_their_policy_says() {
    let members: Vec<u64> = vec![1, 2];
    assert_eq!(ApproveAll.attempt(&1u64, Operation::Join, &members), Ok(()));
    assert_eq!(DenyAll.attempt(&1u64, Operation::Send, &members), Err(AccessDenied));
    let guard = Exclude { banned: 5u64 };
    assert_eq!(guard.attempt(&5u64, Operation::Receive, &members), Err(AccessDenied));
    assert_eq!(guard.attempt(&4u64, Operation::Receive, &members), Ok(()));
}
