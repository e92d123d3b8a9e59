use kimikuri::config::Config;
use kimikuri::registration::{
    register, registration_begin, registration_reply, RegistrationReply, RegistrationStep, Sender,
    StartEvent,
};
use kimikuri::relay::{
    relay, relay_conclude, relay_plan, PlatformError, RelayStep, SendMessage,
};
use kimikuri::store::{CreateError, StorageError, UserStore};
use kimikuri::token;
use kimikuri::user::User;

fn sample_user(id: u64, name: &str, tok: &str, chat_id: u64) -> User {
    User {
        id,
        name: name.to_string(),
        token: tok.to_string(),
        chat_id,
    }
}

#[test]
fn create_then_find_round_trip() {
    let mut store = UserStore::new();
    let user = sample_user(42, "alice", "tok-a", 100);
    assert!(store.create(&user).is_ok());

    let by_token = store
        .find_by_token(&"tok-a".to_string())
        .unwrap()
        .expect("record must be found by its token");
    assert_eq!(by_token.id, 42);
    assert_eq!(by_token.name, "alice");
    assert_eq!(by_token.token, "tok-a");
    assert_eq!(by_token.chat_id, 100);

    let by_chat = store
        .find_by_chat_id(100)
        .unwrap()
        .expect("record must be found by its conversation handle");
    assert_eq!(by_chat.id, 42);
    assert_eq!(by_chat.name, "alice");
    assert_eq!(by_chat.token, "tok-a");
    assert_eq!(by_chat.chat_id, 100);
}

#[test]
fn find_misses_return_none() {
    let mut store = UserStore::new();
    assert!(store.create(&sample_user(1, "a", "t1", 10)).is_ok());
    assert!(store.find_by_token(&"t2".to_string()).unwrap().is_none());
    assert!(store.find_by_chat_id(11).unwrap().is_none());
}

#[test]
fn create_rejects_duplicate_identity() {
    let mut store = UserStore::new();
    assert!(store.create(&sample_user(1, "a", "t1", 10)).is_ok());
    let r = store.create(&sample_user(1, "b", "t2", 20));
    assert_eq!(r, Err(CreateError::DuplicateKey));
    assert_eq!(store.len(), 1);
}

#[test]
fn create_rejects_duplicate_token() {
    let mut store = UserStore::new();
    assert!(store.create(&sample_user(1, "a", "t1", 10)).is_ok());
    let r = store.create(&sample_user(2, "b", "t1", 20));
    assert_eq!(r, Err(CreateError::DuplicateKey));
    assert_eq!(store.len(), 1);
}

#[test]
fn create_rejects_duplicate_conversation() {
    let mut store = UserStore::new();
    assert!(store.create(&sample_user(1, "a", "t1", 10)).is_ok());
    let r = store.create(&sample_user(2, "b", "t2", 10));
    assert_eq!(r, Err(CreateError::DuplicateKey));
    assert_eq!(store.len(), 1);
}

#[test]
fn register_twice_yields_one_record_and_one_token() {
    let mut store = UserStore::new();
    let event = StartEvent {
        from: Some(Sender {
            id: 42,
            name: Some("alice".to_string()),
        }),
        chat_id: 100,
    };

    let first = register(&mut store, &event, token::generate());
    let second = register(&mut store, &event, token::generate());
    assert_eq!(store.len(), 1);

    let t1 = match first {
        Some(RegistrationReply::Token(t)) => t,
        other => panic!("first registration must reply with a token, got {:?}", other.is_some()),
    };
    let t2 = match second {
        Some(RegistrationReply::Token(t)) => t,
        other => panic!("second registration must reply with a token, got {:?}", other.is_some()),
    };
    assert_eq!(t1, t2);
}

#[test]
fn registered_tokens_are_pairwise_distinct() {
    let mut store = UserStore::new();
    let mut tokens: Vec<String> = Vec::new();
    for i in 0..16u64 {
        let event = StartEvent {
            from: Some(Sender { id: i, name: None }),
            chat_id: 1000 + i,
        };
        match register(&mut store, &event, token::generate()) {
            Some(RegistrationReply::Token(t)) => tokens.push(t),
            _ => panic!("registration of a fresh identity must reply with a token"),
        }
    }
    assert_eq!(store.len(), 16);
    for i in 0..tokens.len() {
        for j in 0..tokens.len() {
            if i != j {
                assert_ne!(tokens[i], tokens[j]);
            }
        }
    }
}

#[test]
fn broadcast_event_is_ignored() {
    let mut store = UserStore::new();
    let event = StartEvent {
        from: None,
        chat_id: 7,
    };
    let reply = register(&mut store, &event, token::generate());
    assert!(reply.is_none());
    assert_eq!(store.len(), 0);
}

#[test]
fn registration_begin_builds_candidate() {
    let event = StartEvent {
        from: Some(Sender {
            id: 5,
            name: Some("bob".to_string()),
        }),
        chat_id: 50,
    };
    match registration_begin(&event, "fresh".to_string()) {
        RegistrationStep::CreateRecord(u) => {
            assert_eq!(u.id, 5);
            assert_eq!(u.name, "bob");
            assert_eq!(u.token, "fresh");
            assert_eq!(u.chat_id, 50);
        }
        RegistrationStep::Ignore => panic!("an identified sender must not be ignored"),
    }
}

#[test]
fn registration_begin_defaults_missing_name_to_empty() {
    let event = StartEvent {
        from: Some(Sender { id: 5, name: None }),
        chat_id: 50,
    };
    match registration_begin(&event, "fresh".to_string()) {
        RegistrationStep::CreateRecord(u) => assert_eq!(u.name, ""),
        RegistrationStep::Ignore => panic!("an identified sender must not be ignored"),
    }
}

#[test]
fn registration_begin_ignores_broadcast() {
    let event = StartEvent {
        from: None,
        chat_id: 50,
    };
    assert!(matches!(
        registration_begin(&event, "fresh".to_string()),
        RegistrationStep::Ignore
    ));
}

#[test]
fn registration_reply_carries_found_token() {
    let reply = registration_reply(Ok(Some(sample_user(1, "a", "t1", 10))));
    match reply {
        RegistrationReply::Token(t) => assert_eq!(t, "t1"),
        RegistrationReply::Failure => panic!("a found record must yield its token"),
    }
}

#[test]
fn registration_reply_fails_generically() {
    assert!(matches!(
        registration_reply(Ok(None)),
        RegistrationReply::Failure
    ));
    assert!(matches!(
        registration_reply(Err(StorageError)),
        RegistrationReply::Failure
    ));
}

#[test]
fn relay_unknown_token_is_rejected_without_delivery() {
    let mut store = UserStore::new();
    assert!(store.create(&sample_user(42, "", "tok-a", 100)).is_ok());
    let request = SendMessage {
        token: "tok-b".to_string(),
        message: "hi".to_string(),
    };
    let (response, delivery) = relay(&store, &request, Ok(()));
    assert!(delivery.is_none());
    assert!(!response.success);
    assert_eq!(response.message, "invalid token.");
}

#[test]
fn relay_known_token_delivers() {
    let mut store = UserStore::new();
    assert!(store.create(&sample_user(42, "", "tok-a", 100)).is_ok());
    let request = SendMessage {
        token: "tok-a".to_string(),
        message: "hi".to_string(),
    };
    let (response, delivery) = relay(&store, &request, Ok(()));
    let delivery = delivery.expect("a known token must lead to a delivery");
    assert_eq!(delivery.chat_id, 100);
    assert_eq!(delivery.message, "hi");
    assert!(response.success);
    assert_eq!(response.message, "");
}

#[test]
fn relay_known_token_rejected_delivery() {
    let mut store = UserStore::new();
    assert!(store.create(&sample_user(42, "", "tok-a", 100)).is_ok());
    let request = SendMessage {
        token: "tok-a".to_string(),
        message: "hi".to_string(),
    };
    let (response, delivery) = relay(&store, &request, Err(PlatformError));
    assert!(delivery.is_some());
    assert!(!response.success);
    assert_eq!(response.message, "failed to send message.");
}

#[test]
fn relay_plan_hides_storage_faults() {
    match relay_plan(Err(StorageError)) {
        RelayStep::Respond(r) => {
            assert!(!r.success);
            assert_eq!(r.message, "invalid parameter.");
        }
        RelayStep::Deliver(_) => panic!("a storage fault must not lead to a delivery"),
    }
}

#[test]
fn relay_conclude_reports_both_outcomes() {
    let ok = relay_conclude(Ok(()));
    assert!(ok.success);
    assert_eq!(ok.message, "");

    let failed = relay_conclude(Err(PlatformError));
    assert!(!failed.success);
    assert_eq!(failed.message, "failed to send message.");
}

#[test]
fn generated_tokens_use_the_unambiguous_alphabet() {
    let t = token::generate();
    assert!(!t.is_empty());
    for c in t.chars() {
        assert!(c.is_ascii_alphanumeric());
        assert!(c != '0' && c != 'O' && c != 'I' && c != 'l');
    }
    // 256 bits of entropy: two draws never collide in practice.
    assert_ne!(t, token::generate());
}

#[test]
fn scenario_register_then_relay() {
    // A platform stub that records deliveries: the relay flow hands the
    // delivery out as a value, so recording it is keeping it.
    let mut store = UserStore::new();
    let event = StartEvent {
        from: Some(Sender {
            id: 42,
            name: Some(String::new()),
        }),
        chat_id: 100,
    };
    let reply = register(&mut store, &event, token::generate());
    assert_eq!(store.len(), 1);
    let token = match reply {
        Some(RegistrationReply::Token(t)) => t,
        _ => panic!("registration must reply with the token"),
    };
    assert!(!token.is_empty());

    let request = SendMessage {
        token,
        message: "hi".to_string(),
    };
    let (response, delivery) = relay(&store, &request, Ok(()));
    let recorded = delivery.expect("the stub platform must receive the delivery");
    assert_eq!(recorded.chat_id, 100);
    assert_eq!(recorded.message, "hi");
    assert!(response.success);
    assert_eq!(response.message, "");
}

#[test]
fn config_defaults() {
    assert_eq!(Config::default_log_level(), "DEBUG");
    assert_eq!(Config::default_log_file(), "");
    assert_eq!(Config::default_max_body_size(), 1024 * 16);
    assert_eq!(Config::default_listen(), "localhost:8080");
    assert_eq!(Config::default_db_file(), "kimikuri.db");
}

#[test]
fn empty_store_finds_nothing() {
    let store = UserStore::new();
    assert_eq!(store.len(), 0);
    assert!(store.find_by_token(&"t".to_string()).unwrap().is_none());
    assert!(store.find_by_chat_id(1).unwrap().is_none());
}
