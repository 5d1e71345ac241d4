use base64::engine::general_purpose::STANDARD as BASE64;
use base64::Engine;
use whisper::context::{CallContext, MIN_STORAGE_DEPOSIT};
use whisper::contract::{Snapshot, WhisperContract};
use whisper::error::WhisperError;
use whisper::event::{Notification, Payment, Transfer};
use whisper::group::GroupChat;
use whisper::profile::MessagingProfile;

const ONE_TENTH: u128 = 100_000_000_000_000_000_000_000;

fn get_context(predecessor: &str) -> CallContext {
    CallContext { caller: predecessor.to_string(), attached_value: ONE_TENTH, now: 1_700_000_000 }
}

fn context_with(predecessor: &str, attached_value: u128, now: u64) -> CallContext {
    CallContext { caller: predecessor.to_string(), attached_value, now }
}

fn key(byte: u8) -> String {
    BASE64.encode([byte; 32])
}

#[test]
fn test_register_key() {
    let context = get_context("alice.near");

    let mut contract = WhisperContract::new("alice.near".to_string());
    let pubkey = BASE64.encode([1u8; 32]);
    contract.register_key(&context, pubkey.clone(), Some("Alice".to_string())).unwrap();

    let profile = contract.get_profile("alice.near".to_string()).unwrap();
    assert_eq!(profile.x25519_pubkey, pubkey);
    assert_eq!(profile.key_version, 1);
    assert_eq!(profile.display_name, Some("Alice".to_string()));
    assert_eq!(contract.get_stats().profile_count, 1);
}

#[test]
fn test_rotate_key() {
    let context = get_context("alice.near");

    let mut contract = WhisperContract::new("alice.near".to_string());
    let pubkey1 = BASE64.encode([1u8; 32]);
    contract.register_key(&context, pubkey1, None).unwrap();

    let pubkey2 = BASE64.encode([2u8; 32]);
    contract.register_key(&context, pubkey2.clone(), None).unwrap();

    let profile = contract.get_profile("alice.near".to_string()).unwrap();
    assert_eq!(profile.x25519_pubkey, pubkey2);
    assert_eq!(profile.key_version, 2);
    assert_eq!(contract.get_stats().profile_count, 1);
}

#[test]
fn test_send_message() {
    let context = get_context("alice.near");

    let mut contract = WhisperContract::new("alice.near".to_string());
    let pubkey_a = BASE64.encode([1u8; 32]);
    contract.register_key(&context, pubkey_a, None).unwrap();

    let context_bob = get_context("bob.near");
    let pubkey_b = BASE64.encode([2u8; 32]);
    contract.register_key(&context_bob, pubkey_b, None).unwrap();

    let context_alice = get_context("alice.near");
    contract
        .send_message(
            &context_alice,
            "bob.near".to_string(),
            "encrypted_data_base64".to_string(),
            "nonce_base64".to_string(),
            1,
            None,
        )
        .unwrap();

    assert_eq!(contract.get_stats().message_count, 1);
}

#[test]
#[should_panic(expected = "Recipient has no registered messaging key")]
fn test_send_to_unregistered() {
    let context = get_context("alice.near");

    let mut contract = WhisperContract::new("alice.near".to_string());
    let pubkey = BASE64.encode([1u8; 32]);
    contract.register_key(&context, pubkey, None).unwrap();

    let sent = contract.send_message(
        &context,
        "nobody.near".to_string(),
        "data".to_string(),
        "nonce".to_string(),
        1,
        None,
    );
    if let Err(e) = sent {
        panic!("{}", e.message());
    }
}

#[test]
fn test_create_group() {
    let context = get_context("alice.near");

    let mut contract = WhisperContract::new("alice.near".to_string());
    contract
        .create_group(
            &context,
            "test-group-1".to_string(),
            Some("Test Group".to_string()),
            "{\"alice.near\":\"key1\",\"bob.near\":\"key2\"}".to_string(),
        )
        .unwrap();

    let group = contract.get_group("test-group-1".to_string()).unwrap();
    assert_eq!(group.creator.to_string(), "alice.near");
    assert_eq!(group.name, Some("Test Group".to_string()));
}

#[test]
fn test_stats() {
    let contract = WhisperContract::new("alice.near".to_string());
    let stats: serde_json::Value =
        serde_json::from_str(&contract.get_stats().to_json()).unwrap();
    assert_eq!(stats["profile_count"], 0);
    assert_eq!(stats["message_count"], 0);
}

#[test]
fn new_relay_is_empty_and_remembers_its_owner() {
    let contract = WhisperContract::new("owner.near".to_string());
    let stats = contract.get_stats();
    assert_eq!(stats.profile_count, 0);
    assert_eq!(stats.message_count, 0);
    assert_eq!(stats.owner, "owner.near");
    assert!(!contract.has_profile("owner.near".to_string()));
    assert_eq!(contract.get_profile("owner.near".to_string()), None);
    assert_eq!(contract.get_group("g".to_string()), None);
}

#[test]
fn init_sets_up_once_only() {
    let mut instance: Option<WhisperContract> = None;
    assert_eq!(WhisperContract::init(&mut instance, "alice.near".to_string()), Ok(()));
    let alice = get_context("alice.near");
    instance.as_mut().unwrap().register_key(&alice, key(1), None).unwrap();

    assert_eq!(
        WhisperContract::init(&mut instance, "mallory.near".to_string()),
        Err(WhisperError::AlreadyInitialized)
    );
    let stats = instance.as_ref().unwrap().get_stats();
    assert_eq!(stats.owner, "alice.near");
    assert_eq!(stats.profile_count, 1);
}

#[test]
fn first_registration_gives_version_one_and_counts_once() {
    let mut contract = WhisperContract::new("o.near".to_string());
    let event = contract
        .register_key(&context_with("alice.near", MIN_STORAGE_DEPOSIT, 42), key(1), None)
        .unwrap();
    assert_eq!(contract.get_stats().profile_count, 1);
    let profile = contract.get_profile("alice.near".to_string()).unwrap();
    assert_eq!(profile.key_version, 1);
    assert_eq!(profile.registered_at, 42);
    assert_eq!(profile.display_name, None);
    assert_eq!(event.standard, "whisper");
    assert_eq!(event.version, "1.0.0");
    assert_eq!(event.event, "key_registered");
    assert_eq!(
        event.data,
        Notification::KeyRegistered {
            account_id: "alice.near".to_string(),
            x25519_pubkey: key(1),
            key_version: 1,
            display_name: None,
        }
    );
}

#[test]
fn every_rotation_raises_the_version_by_one() {
    let mut contract = WhisperContract::new("o.near".to_string());
    let alice = get_context("alice.near");
    let free = context_with("alice.near", 0, 99);
    contract.register_key(&alice, key(1), Some("A".to_string())).unwrap();
    for expected in 2u32..=6 {
        let event = contract.register_key(&free, key(expected as u8), None).unwrap();
        let profile = contract.get_profile("alice.near".to_string()).unwrap();
        assert_eq!(profile.key_version, expected);
        assert_eq!(profile.x25519_pubkey, key(expected as u8));
        assert_eq!(profile.registered_at, 99);
        assert_eq!(contract.get_stats().profile_count, 1);
        match event.data {
            Notification::KeyRegistered { key_version, .. } => assert_eq!(key_version, expected),
            other => panic!("unexpected notification {:?}", other),
        }
    }
}

#[test]
fn rotation_replaces_the_display_name() {
    let mut contract = WhisperContract::new("o.near".to_string());
    let alice = get_context("alice.near");
    contract.register_key(&alice, key(1), Some("Alice".to_string())).unwrap();
    contract.register_key(&alice, key(2), None).unwrap();
    assert_eq!(contract.get_profile("alice.near".to_string()).unwrap().display_name, None);
    contract.register_key(&alice, key(3), Some("Al".to_string())).unwrap();
    assert_eq!(
        contract.get_profile("alice.near".to_string()).unwrap().display_name,
        Some("Al".to_string())
    );
}

#[test]
fn registration_of_one_account_leaves_the_others() {
    let mut contract = WhisperContract::new("o.near".to_string());
    contract.register_key(&get_context("alice.near"), key(1), None).unwrap();
    contract.register_key(&get_context("bob.near"), key(2), None).unwrap();
    contract.register_key(&get_context("alice.near"), key(3), None).unwrap();
    let bob = contract.get_profile("bob.near".to_string()).unwrap();
    assert_eq!(bob.key_version, 1);
    assert_eq!(bob.x25519_pubkey, key(2));
    assert_eq!(contract.get_stats().profile_count, 2);
    assert!(contract.has_profile("alice.near".to_string()));
    assert!(contract.has_profile("bob.near".to_string()));
    assert!(!contract.has_profile("carol.near".to_string()));
}

#[test]
fn malformed_keys_are_rejected_without_a_trace() {
    let mut contract = WhisperContract::new("o.near".to_string());
    let alice = get_context("alice.near");
    let not_base64 = "not base64 at all!".to_string();
    let short = BASE64.encode([1u8; 31]);
    let long = BASE64.encode([1u8; 33]);
    let unpadded = key(1).trim_end_matches('=').to_string();
    for bad in [not_base64, short, long, unpadded, String::new()] {
        assert_eq!(contract.register_key(&alice, bad, None), Err(WhisperError::MalformedKey));
    }
    assert_eq!(contract.get_stats().profile_count, 0);
    assert!(!contract.has_profile("alice.near".to_string()));
}

#[test]
fn malformed_key_is_reported_before_a_missing_deposit() {
    let mut contract = WhisperContract::new("o.near".to_string());
    let poor = context_with("alice.near", 0, 1);
    assert_eq!(
        contract.register_key(&poor, "???".to_string(), None),
        Err(WhisperError::MalformedKey)
    );
}

#[test]
fn first_registration_needs_the_deposit() {
    let mut contract = WhisperContract::new("o.near".to_string());
    let short = context_with("alice.near", MIN_STORAGE_DEPOSIT - 1, 1);
    assert_eq!(
        contract.register_key(&short, key(1), None),
        Err(WhisperError::InsufficientDeposit)
    );
    assert_eq!(contract.get_stats().profile_count, 0);
    assert!(!contract.has_profile("alice.near".to_string()));

    let exact = context_with("alice.near", MIN_STORAGE_DEPOSIT, 1);
    assert!(contract.register_key(&exact, key(1), None).is_ok());
    assert_eq!(contract.get_stats().profile_count, 1);
}

#[test]
fn storage_deposit_is_a_hundredth_of_a_token() {
    assert_eq!(MIN_STORAGE_DEPOSIT, 10u128.pow(24) / 100);
}

#[test]
fn register_decoded_key_goes_by_the_decoding_it_is_given() {
    let mut contract = WhisperContract::new("o.near".to_string());
    let alice = get_context("alice.near");
    assert_eq!(
        contract.register_decoded_key(&alice, key(1), &None, None),
        Err(WhisperError::MalformedKey)
    );
    assert_eq!(
        contract.register_decoded_key(&alice, key(1), &Some(vec![0u8; 31]), None),
        Err(WhisperError::MalformedKey)
    );
    assert!(contract.register_decoded_key(&alice, key(1), &Some(vec![0u8; 32]), None).is_ok());
    assert_eq!(contract.get_profile("alice.near".to_string()).unwrap().key_version, 1);
}

#[test]
fn message_to_unregistered_account_is_rejected_and_not_counted() {
    let mut contract = WhisperContract::new("o.near".to_string());
    let alice = get_context("alice.near");
    contract.register_key(&alice, key(1), None).unwrap();
    let sent = contract.send_message(
        &alice,
        "carol.near".to_string(),
        "body".to_string(),
        "nonce".to_string(),
        1,
        Some("m-0".to_string()),
    );
    assert_eq!(sent, Err(WhisperError::UnknownRecipient));
    assert_eq!(contract.get_stats().message_count, 0);
}

#[test]
fn sender_needs_no_profile() {
    let mut contract = WhisperContract::new("o.near".to_string());
    contract.register_key(&get_context("bob.near"), key(2), None).unwrap();
    let event = contract
        .send_message(
            &context_with("stranger.near", 0, 5),
            "bob.near".to_string(),
            "body".to_string(),
            "nonce".to_string(),
            9,
            Some("m-7".to_string()),
        )
        .unwrap();
    assert_eq!(event.event, "message");
    assert_eq!(
        event.data,
        Notification::Message {
            id: 1,
            from: "stranger.near".to_string(),
            to: "bob.near".to_string(),
            encrypted_body: "body".to_string(),
            nonce: "nonce".to_string(),
            recipient_key_version: 9,
            reply_to: Some("m-7".to_string()),
            timestamp: 5,
            payment: None,
        }
    );
}

fn id_of(data: &Notification) -> u64 {
    match data {
        Notification::Message { id, .. } => *id,
        Notification::GroupMessage { id, .. } => *id,
        other => panic!("no message: {:?}", other),
    }
}

#[test]
fn message_ids_are_consecutive_across_kinds() {
    let mut contract = WhisperContract::new("o.near".to_string());
    let alice = get_context("alice.near");
    contract.register_key(&alice, key(1), None).unwrap();
    contract.register_key(&get_context("bob.near"), key(2), None).unwrap();
    contract.create_group(&alice, "g".to_string(), None, "{}".to_string()).unwrap();

    let mut ids = Vec::new();
    let direct = contract
        .send_message(&alice, "bob.near".to_string(), "a".to_string(), "n".to_string(), 1, None)
        .unwrap();
    ids.push(id_of(&direct.data));
    // A rejected call uses up no identifier.
    assert!(contract
        .send_message(&alice, "carol.near".to_string(), "a".to_string(), "n".to_string(), 1, None)
        .is_err());
    let group = contract
        .send_group_message(&alice, "g".to_string(), "b".to_string(), "n".to_string(), 1)
        .unwrap();
    ids.push(id_of(&group.data));
    assert!(contract
        .send_group_message(&alice, "nope".to_string(), "b".to_string(), "n".to_string(), 1)
        .is_err());
    // Neither does a call that announces no message.
    contract.register_key(&alice, key(3), None).unwrap();
    let (paid, _) = contract
        .send_message_with_payment(
            &alice,
            "bob.near".to_string(),
            "c".to_string(),
            "n".to_string(),
            1,
            None,
        )
        .unwrap();
    ids.push(id_of(&paid.data));
    let again = contract
        .send_message(&alice, "bob.near".to_string(), "d".to_string(), "n".to_string(), 1, None)
        .unwrap();
    ids.push(id_of(&again.data));

    assert_eq!(ids, vec![1, 2, 3, 4]);
    assert_eq!(contract.get_stats().message_count, 4);
}

#[test]
fn payment_message_needs_value() {
    let mut contract = WhisperContract::new("o.near".to_string());
    contract.register_key(&get_context("bob.near"), key(2), None).unwrap();
    let empty = context_with("alice.near", 0, 1);
    let sent = contract.send_message_with_payment(
        &empty,
        "bob.near".to_string(),
        "body".to_string(),
        "nonce".to_string(),
        1,
        None,
    );
    assert_eq!(sent, Err(WhisperError::NoPayment));
    assert_eq!(contract.get_stats().message_count, 0);
}

#[test]
fn missing_payment_is_reported_before_an_unknown_recipient() {
    let mut contract = WhisperContract::new("o.near".to_string());
    let empty = context_with("alice.near", 0, 1);
    let sent = contract.send_message_with_payment(
        &empty,
        "nobody.near".to_string(),
        "body".to_string(),
        "nonce".to_string(),
        1,
        None,
    );
    assert_eq!(sent, Err(WhisperError::NoPayment));

    let paying = context_with("alice.near", 1, 1);
    let sent = contract.send_message_with_payment(
        &paying,
        "nobody.near".to_string(),
        "body".to_string(),
        "nonce".to_string(),
        1,
        None,
    );
    assert_eq!(sent, Err(WhisperError::UnknownRecipient));
    assert_eq!(contract.get_stats().message_count, 0);
}

#[test]
fn payment_message_hands_the_attached_value_to_the_recipient() {
    let mut contract = WhisperContract::new("o.near".to_string());
    contract.register_key(&get_context("bob.near"), key(2), None).unwrap();
    let paying = context_with("alice.near", 1, 77);
    let (event, transfer) = contract
        .send_message_with_payment(
            &paying,
            "bob.near".to_string(),
            "body".to_string(),
            "nonce".to_string(),
            3,
            None,
        )
        .unwrap();
    assert_eq!(transfer, Transfer { to: "bob.near".to_string(), amount: 1 });
    assert_eq!(event.event, "message");
    assert_eq!(
        event.data,
        Notification::Message {
            id: 1,
            from: "alice.near".to_string(),
            to: "bob.near".to_string(),
            encrypted_body: "body".to_string(),
            nonce: "nonce".to_string(),
            recipient_key_version: 3,
            reply_to: None,
            timestamp: 77,
            payment: Some(Payment { token: "NEAR".to_string(), amount: 1 }),
        }
    );
    assert_eq!(contract.get_stats().message_count, 1);

    let rich = context_with("alice.near", u128::MAX, 78);
    let (_, transfer) = contract
        .send_message_with_payment(
            &rich,
            "bob.near".to_string(),
            "body".to_string(),
            "nonce".to_string(),
            3,
            None,
        )
        .unwrap();
    assert_eq!(transfer.amount, u128::MAX);
}

#[test]
fn group_creation_stores_and_announces_the_group() {
    let mut contract = WhisperContract::new("o.near".to_string());
    let alice = context_with("alice.near", MIN_STORAGE_DEPOSIT, 11);
    let blob = "{\"alice.near\":\"k\"}".to_string();
    let event = contract
        .create_group(&alice, "g1".to_string(), None, blob.clone())
        .unwrap();
    assert_eq!(event.event, "group_created");
    assert_eq!(
        event.data,
        Notification::GroupCreated {
            group_id: "g1".to_string(),
            creator: "alice.near".to_string(),
            name: None,
            member_keys: blob,
            timestamp: 11,
        }
    );
    let group = contract.get_group("g1".to_string()).unwrap();
    assert_eq!(group.group_id, "g1");
    assert_eq!(group.creator, "alice.near");
    assert_eq!(group.created_at, 11);
    assert_eq!(group.name, None);
    // A group is no profile, and changes no counter.
    assert_eq!(contract.get_stats().profile_count, 0);
    assert_eq!(contract.get_stats().message_count, 0);
}

#[test]
fn member_keys_are_not_looked_into() {
    let mut contract = WhisperContract::new("o.near".to_string());
    let alice = get_context("alice.near");
    let event = contract
        .create_group(&alice, "g".to_string(), None, "not json {".to_string())
        .unwrap();
    match event.data {
        Notification::GroupCreated { member_keys, .. } => assert_eq!(member_keys, "not json {"),
        other => panic!("unexpected notification {:?}", other),
    }
}

#[test]
fn duplicate_group_is_rejected_and_the_first_stays() {
    let mut contract = WhisperContract::new("o.near".to_string());
    let alice = context_with("alice.near", MIN_STORAGE_DEPOSIT, 11);
    contract
        .create_group(&alice, "g1".to_string(), Some("first".to_string()), "{}".to_string())
        .unwrap();
    let bob = context_with("bob.near", MIN_STORAGE_DEPOSIT, 12);
    assert_eq!(
        contract.create_group(&bob, "g1".to_string(), Some("second".to_string()), "{}".to_string()),
        Err(WhisperError::DuplicateGroup)
    );
    let group = contract.get_group("g1".to_string()).unwrap();
    assert_eq!(group.creator, "alice.near");
    assert_eq!(group.created_at, 11);
    assert_eq!(group.name, Some("first".to_string()));
}

#[test]
fn group_creation_needs_the_deposit() {
    let mut contract = WhisperContract::new("o.near".to_string());
    let poor = context_with("alice.near", MIN_STORAGE_DEPOSIT - 1, 1);
    assert_eq!(
        contract.create_group(&poor, "g".to_string(), None, "{}".to_string()),
        Err(WhisperError::InsufficientDeposit)
    );
    assert_eq!(contract.get_group("g".to_string()), None);

    let exact = context_with("alice.near", MIN_STORAGE_DEPOSIT, 1);
    assert!(contract.create_group(&exact, "g".to_string(), None, "{}".to_string()).is_ok());
}

#[test]
fn taken_identifier_is_reported_whatever_is_attached() {
    let mut contract = WhisperContract::new("o.near".to_string());
    let alice = context_with("alice.near", MIN_STORAGE_DEPOSIT, 11);
    contract
        .create_group(&alice, "g".to_string(), Some("first".to_string()), "{}".to_string())
        .unwrap();
    for attached in [0, 1, MIN_STORAGE_DEPOSIT - 1, MIN_STORAGE_DEPOSIT, u128::MAX] {
        for caller in ["alice.near", "bob.near"] {
            let ctx = context_with(caller, attached, 12);
            assert_eq!(
                contract.create_group(&ctx, "g".to_string(), None, "other".to_string()),
                Err(WhisperError::DuplicateGroup)
            );
        }
    }
    let group = contract.get_group("g".to_string()).unwrap();
    assert_eq!(group.creator, "alice.near");
    assert_eq!(group.created_at, 11);
    assert_eq!(group.name, Some("first".to_string()));
}

#[test]
fn group_message_needs_the_group() {
    let mut contract = WhisperContract::new("o.near".to_string());
    let alice = get_context("alice.near");
    assert_eq!(
        contract.send_group_message(&alice, "g".to_string(), "b".to_string(), "n".to_string(), 1),
        Err(WhisperError::UnknownGroup)
    );
    assert_eq!(contract.get_stats().message_count, 0);

    contract.create_group(&alice, "g".to_string(), None, "{}".to_string()).unwrap();
    let event = contract
        .send_group_message(
            &context_with("bob.near", 0, 21),
            "g".to_string(),
            "b".to_string(),
            "n".to_string(),
            4,
        )
        .unwrap();
    assert_eq!(event.event, "group_message");
    assert_eq!(
        event.data,
        Notification::GroupMessage {
            id: 1,
            group_id: "g".to_string(),
            from: "bob.near".to_string(),
            encrypted_body: "b".to_string(),
            nonce: "n".to_string(),
            group_key_version: 4,
            timestamp: 21,
        }
    );
    assert_eq!(contract.get_stats().message_count, 1);
}

#[test]
fn groups_and_profiles_are_separate_keyspaces() {
    let mut contract = WhisperContract::new("o.near".to_string());
    let alice = get_context("alice.near");
    contract.create_group(&alice, "alice.near".to_string(), None, "{}".to_string()).unwrap();
    assert!(!contract.has_profile("alice.near".to_string()));
    contract.register_key(&alice, key(1), None).unwrap();
    assert!(contract.get_group("alice.near".to_string()).is_some());
    assert_eq!(
        contract.send_group_message(&alice, "bob.near".to_string(), "b".to_string(), "n".to_string(), 1),
        Err(WhisperError::UnknownGroup)
    );
}

#[test]
fn alice_bob_and_carol() {
    let mut contract = WhisperContract::new("owner.near".to_string());
    let alice = get_context("alice.near");
    let k1 = key(1);
    let k2 = key(2);
    let k3 = key(3);

    contract.register_key(&alice, k1, None).unwrap();
    assert_eq!(contract.get_stats().profile_count, 1);
    assert_eq!(contract.get_profile("alice.near".to_string()).unwrap().key_version, 1);

    let alice_without_deposit = context_with("alice.near", 0, 1_700_000_001);
    contract.register_key(&alice_without_deposit, k2.clone(), None).unwrap();
    assert_eq!(contract.get_stats().profile_count, 1);
    let profile = contract.get_profile("alice.near".to_string()).unwrap();
    assert_eq!(profile.key_version, 2);
    assert_eq!(profile.x25519_pubkey, k2);

    contract.register_key(&get_context("bob.near"), k3, None).unwrap();

    let event = contract
        .send_message(
            &alice_without_deposit,
            "bob.near".to_string(),
            "ciphertext".to_string(),
            "nonce".to_string(),
            1,
            None,
        )
        .unwrap();
    assert_eq!(contract.get_stats().message_count, 1);
    match &event.data {
        Notification::Message { to, .. } => assert_eq!(to, "bob.near"),
        other => panic!("unexpected notification {:?}", other),
    }

    let failed = contract.send_message(
        &alice_without_deposit,
        "carol.near".to_string(),
        "ciphertext".to_string(),
        "nonce".to_string(),
        1,
        None,
    );
    assert!(failed.is_err());
    assert_eq!(contract.get_stats().message_count, 1);
}

#[test]
fn every_rejection_has_its_words() {
    assert_eq!(WhisperError::MalformedKey.message(), "X25519 pubkey must be base64 of 32 bytes");
    assert_eq!(
        WhisperError::InsufficientDeposit.message(),
        "Attach at least 0.01 NEAR for storage deposit"
    );
    assert_eq!(
        WhisperError::UnknownRecipient.message(),
        "Recipient has no registered messaging key"
    );
    assert_eq!(WhisperError::UnknownGroup.message(), "Group does not exist");
    assert_eq!(WhisperError::DuplicateGroup.message(), "Group ID already exists");
    assert_eq!(WhisperError::NoPayment.message(), "Must attach NEAR tokens for payment message");
    assert_eq!(
        WhisperError::AlreadyInitialized.message(),
        "The contract has already been initialized"
    );
}

#[test]
fn snapshot_and_restore_round_trip() {
    let mut contract = WhisperContract::new("owner.near".to_string());
    let alice = get_context("alice.near");
    contract.register_key(&alice, key(1), Some("Alice".to_string())).unwrap();
    contract.register_key(&get_context("bob.near"), key(2), None).unwrap();
    contract.register_key(&alice, key(3), None).unwrap();
    contract.create_group(&alice, "g1".to_string(), Some("one".to_string()), "{}".to_string()).unwrap();
    contract
        .send_message(&alice, "bob.near".to_string(), "b".to_string(), "n".to_string(), 1, None)
        .unwrap();

    let snapshot: Snapshot = contract.into_snapshot();
    assert_eq!(snapshot.owner, "owner.near");
    assert_eq!(snapshot.message_count, 1);
    assert_eq!(snapshot.accounts, vec!["alice.near".to_string(), "bob.near".to_string()]);
    assert_eq!(snapshot.profiles[0].key_version, 2);
    assert_eq!(snapshot.profiles[0].x25519_pubkey, key(3));
    assert_eq!(snapshot.profiles[1].key_version, 1);
    assert_eq!(snapshot.groups.len(), 1);
    assert_eq!(snapshot.groups[0].group_id, "g1");

    let mut restored = WhisperContract::restore(snapshot).unwrap();
    let stats = restored.get_stats();
    assert_eq!(stats.profile_count, 2);
    assert_eq!(stats.message_count, 1);
    assert_eq!(stats.owner, "owner.near");
    assert_eq!(restored.get_profile("alice.near".to_string()).unwrap().key_version, 2);
    assert_eq!(restored.get_group("g1".to_string()).unwrap().name, Some("one".to_string()));
    let event = restored
        .send_group_message(&alice, "g1".to_string(), "b".to_string(), "n".to_string(), 1)
        .unwrap();
    assert_eq!(id_of(&event.data), 2);
}

#[test]
fn restore_refuses_what_is_no_relay() {
    let profile = |version: u32| MessagingProfile {
        x25519_pubkey: key(1),
        key_version: version,
        registered_at: 0,
        display_name: None,
    };
    let group = |id: &str| GroupChat {
        group_id: id.to_string(),
        creator: "a".to_string(),
        created_at: 0,
        name: None,
    };
    let sound = || Snapshot {
        owner: "o".to_string(),
        message_count: 0,
        accounts: vec!["a".to_string(), "b".to_string()],
        profiles: vec![profile(1), profile(5)],
        groups: vec![group("g"), group("h")],
    };
    assert!(WhisperContract::restore(sound()).is_some());

    let mut twice = sound();
    twice.accounts[1] = "a".to_string();
    assert!(WhisperContract::restore(twice).is_none());

    let mut unversioned = sound();
    unversioned.profiles[1].key_version = 0;
    assert!(WhisperContract::restore(unversioned).is_none());

    let mut orphan = sound();
    orphan.profiles.pop();
    assert!(WhisperContract::restore(orphan).is_none());

    let mut same_group = sound();
    same_group.groups[1].group_id = "g".to_string();
    assert!(WhisperContract::restore(same_group).is_none());

    let empty = Snapshot {
        owner: "o".to_string(),
        message_count: 9,
        accounts: vec![],
        profiles: vec![],
        groups: vec![],
    };
    assert_eq!(WhisperContract::restore(empty).unwrap().get_stats().message_count, 9);
}

fn relay_at_the_limits() -> WhisperContract {
    let profile = MessagingProfile {
        x25519_pubkey: key(1),
        key_version: u32::MAX,
        registered_at: 0,
        display_name: Some("old".to_string()),
    };
    let group = GroupChat {
        group_id: "g".to_string(),
        creator: "alice.near".to_string(),
        created_at: 0,
        name: None,
    };
    WhisperContract::restore(Snapshot {
        owner: "o.near".to_string(),
        message_count: u64::MAX,
        accounts: vec!["alice.near".to_string()],
        profiles: vec![profile],
        groups: vec![group],
    })
    .unwrap()
}

#[test]
fn rejections_do_not_depend_on_the_message_counter() {
    let mut contract = relay_at_the_limits();
    let alice = get_context("alice.near");
    assert_eq!(
        contract.send_message(
            &alice,
            "nobody.near".to_string(),
            "b".to_string(),
            "n".to_string(),
            1,
            None
        ),
        Err(WhisperError::UnknownRecipient)
    );
    for to in ["alice.near", "nobody.near"] {
        assert_eq!(
            contract.send_message_with_payment(
                &context_with("alice.near", 0, 1),
                to.to_string(),
                "b".to_string(),
                "n".to_string(),
                1,
                None
            ),
            Err(WhisperError::NoPayment)
        );
    }
    assert_eq!(
        contract.send_message_with_payment(
            &alice,
            "nobody.near".to_string(),
            "b".to_string(),
            "n".to_string(),
            1,
            None
        ),
        Err(WhisperError::UnknownRecipient)
    );
    assert_eq!(
        contract.send_group_message(&alice, "h".to_string(), "b".to_string(), "n".to_string(), 1),
        Err(WhisperError::UnknownGroup)
    );
    assert_eq!(contract.get_stats().message_count, u64::MAX);
    assert_eq!(contract.get_stats().profile_count, 1);
}

#[test]
fn try_register_key_registers_as_register_key_does() {
    let mut contract = WhisperContract::new("o.near".to_string());
    let alice = get_context("alice.near");
    let first = contract.try_register_key(&alice, key(1), Some("A".to_string()));
    assert!(matches!(first, Some(Ok(_))));
    let second = contract.try_register_key(&context_with("alice.near", 0, 3), key(2), None);
    match second {
        Some(Ok(event)) => assert_eq!(
            event.data,
            Notification::KeyRegistered {
                account_id: "alice.near".to_string(),
                x25519_pubkey: key(2),
                key_version: 2,
                display_name: None,
            }
        ),
        other => panic!("unexpected outcome {:?}", other),
    }
    assert_eq!(contract.get_stats().profile_count, 1);
    assert_eq!(
        contract.try_register_key(&alice, "???".to_string(), None),
        Some(Err(WhisperError::MalformedKey))
    );
    assert_eq!(
        contract.try_register_key(&context_with("bob.near", 0, 3), key(3), None),
        Some(Err(WhisperError::InsufficientDeposit))
    );
}

#[test]
fn a_version_that_cannot_grow_stays() {
    let mut contract = relay_at_the_limits();
    let alice = get_context("alice.near");
    assert_eq!(contract.try_register_key(&alice, key(2), None), None);
    let profile = contract.get_profile("alice.near".to_string()).unwrap();
    assert_eq!(profile.key_version, u32::MAX);
    assert_eq!(profile.x25519_pubkey, key(1));
    assert_eq!(profile.display_name, Some("old".to_string()));
    assert_eq!(contract.get_stats().profile_count, 1);

    // A malformed key is reported as such on every state.
    assert_eq!(
        contract.try_register_key(&alice, "???".to_string(), None),
        Some(Err(WhisperError::MalformedKey))
    );
    assert_eq!(
        contract.register_key(&alice, "???".to_string(), None),
        Err(WhisperError::MalformedKey)
    );
    // Another account registers as ever.
    assert!(matches!(
        contract.try_register_key(&get_context("bob.near"), key(3), None),
        Some(Ok(_))
    ));
    assert_eq!(contract.get_stats().profile_count, 2);
}

#[test]
fn rotation_up_to_the_last_version() {
    let profile = MessagingProfile {
        x25519_pubkey: key(1),
        key_version: u32::MAX - 1,
        registered_at: 0,
        display_name: None,
    };
    let mut contract = WhisperContract::restore(Snapshot {
        owner: "o.near".to_string(),
        message_count: u64::MAX - 1,
        accounts: vec!["alice.near".to_string()],
        profiles: vec![profile],
        groups: vec![],
    })
    .unwrap();
    let alice = get_context("alice.near");
    assert!(contract.register_key(&alice, key(2), None).is_ok());
    assert_eq!(contract.get_profile("alice.near".to_string()).unwrap().key_version, u32::MAX);
    let event = contract
        .send_message(&alice, "alice.near".to_string(), "b".to_string(), "n".to_string(), 1, None)
        .unwrap();
    assert_eq!(id_of(&event.data), u64::MAX);
    assert_eq!(contract.get_stats().message_count, u64::MAX);
}
