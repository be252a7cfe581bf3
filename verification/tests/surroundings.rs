use approval_receiver::{AccountId, Environment};

#[test]
fn account_keeps_its_name() {
    let id = AccountId::new("alice.near".to_string());
    assert_eq!(id.as_str(), "alice.near");
    assert_eq!(AccountId::new(String::new()).as_str(), "");
}

#[test]
fn accounts_are_equal_when_their_names_are() {
    let alice = AccountId::new("alice.near".to_string());
    assert_eq!(alice, AccountId::new("alice.near".to_string()));
    assert_ne!(alice, AccountId::new("bob.near".to_string()));
    assert_ne!(alice, AccountId::new("Alice.near".to_string()));
    assert_ne!(alice, AccountId::new("alice.nea".to_string()));
}

#[test]
fn copy_of_an_account_is_the_same_account() {
    let alice = AccountId::new("alice.near".to_string());
    let copy = alice.clone();
    assert_eq!(copy, alice);
    assert_eq!(copy.as_str(), "alice.near");
}

#[test]
fn new_surroundings_have_an_empty_log() {
    let env = Environment::new(
        AccountId::new("receiver.contract".to_string()),
        AccountId::new("nft.contract".to_string()),
    );
    assert_eq!(env.current_account_id.as_str(), "receiver.contract");
    assert_eq!(env.predecessor_account_id.as_str(), "nft.contract");
    assert!(env.logs.is_empty());
}

#[test]
fn log_appends_lines_in_order() {
    let mut env = Environment::new(
        AccountId::new("receiver.contract".to_string()),
        AccountId::new("nft.contract".to_string()),
    );
    env.log("first".to_string());
    env.log("second".to_string());
    env.log("first".to_string());
    assert_eq!(env.logs, vec!["first".to_string(), "second".to_string(), "first".to_string()]);
    assert_eq!(env.current_account_id.as_str(), "receiver.contract");
    assert_eq!(env.predecessor_account_id.as_str(), "nft.contract");
}
