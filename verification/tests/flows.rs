use std::collections::HashMap;
use user_auth::hashing::HashingService;
use user_auth::login::{self, LoginAction, LoginOutcome, LoginState, LoginVerdict};
use user_auth::registration::{
    self, RegistrationAction, RegistrationEvent, RegistrationOutcome, RegistrationState,
    RegistrationVerdict, Rejection,
};
use user_auth::request::{AuthEndpoint, CreateUserRequest, NewSessionRequest, UserEndpoint};
use user_auth::store::{
    encode_record, Attribute, CredentialRecord, ReadResult, RecordDefect, StoredItem, WriteResult,
};

/// A store in memory that keeps the contract of the real one.
struct MemoryStore {
    items: HashMap<String, StoredItem>,
}

impl MemoryStore {
    fn new() -> MemoryStore {
        MemoryStore { items: HashMap::new() }
    }

    fn get(&self, username: &str) -> ReadResult {
        match self.items.get(username) {
            Some(item) => ReadResult::Found(item.clone()),
            None => ReadResult::Absent,
        }
    }

    fn create_if_absent(&mut self, username: &str, record: &CredentialRecord) -> WriteResult {
        if self.items.contains_key(username) {
            WriteResult::AlreadyExists
        } else {
            self.items.insert(username.to_string(), encode_record(record));
            WriteResult::Created
        }
    }
}

fn quick_service() -> HashingService {
    HashingService::new(b"PEPPER".to_vec(), 4).unwrap()
}

/// Performs the action of a registration on the store and steps the flow.
fn move_registration(
    service: &HashingService,
    store: &mut MemoryStore,
    state: RegistrationState,
    action: RegistrationAction,
) -> (RegistrationState, RegistrationAction) {
    match action {
        RegistrationAction::Lookup { username } => {
            let event = RegistrationEvent::Read(store.get(&username));
            registration::step(service, state, event)
        }
        RegistrationAction::Create { username, record } => {
            let event = RegistrationEvent::Written(store.create_if_absent(&username, &record));
            registration::step(service, state, event)
        }
        RegistrationAction::Finish(verdict) => (state, RegistrationAction::Finish(verdict)),
    }
}

fn register(
    service: &HashingService,
    store: &mut MemoryStore,
    username: &str,
    password: &str,
) -> RegistrationVerdict {
    let (mut state, mut action) =
        registration::begin(username.to_string(), password.to_string());
    loop {
        if let RegistrationAction::Finish(verdict) = action {
            return verdict;
        }
        let (next_state, next_action) = move_registration(service, store, state, action);
        state = next_state;
        action = next_action;
    }
}

fn log_in(
    service: &HashingService,
    store: &MemoryStore,
    username: &str,
    password: &str,
) -> LoginVerdict {
    let (state, action) = login::begin(username.to_string(), password.to_string());
    let read = match action {
        LoginAction::Fetch { username } => store.get(&username),
        LoginAction::Finish(_) => panic!("a login starts with a fetch"),
    };
    match login::step(service, state, read) {
        (LoginState::Concluded(outcome), LoginAction::Finish(verdict)) => {
            assert_eq!(outcome, verdict.outcome());
            verdict
        }
        _ => panic!("a login ends after one read"),
    }
}

#[test]
fn alice_registers_and_logs_in() {
    let service = quick_service();
    let mut store = MemoryStore::new();
    assert_eq!(
        register(&service, &mut store, "alice", "correct-horse").outcome(),
        RegistrationOutcome::Success
    );
    assert_eq!(
        log_in(&service, &store, "alice", "correct-horse").outcome(),
        LoginOutcome::Success
    );
    assert_eq!(
        log_in(&service, &store, "alice", "wrong").outcome(),
        LoginOutcome::InvalidCredentials
    );
    assert_eq!(
        register(&service, &mut store, "alice", "anything").outcome(),
        RegistrationOutcome::Conflict
    );
    assert_eq!(
        log_in(&service, &store, "alice", "correct-horse").outcome(),
        LoginOutcome::Success
    );
    assert_eq!(
        log_in(&service, &store, "alice", "anything").outcome(),
        LoginOutcome::InvalidCredentials
    );
}

#[test]
fn alice_registers_and_logs_in_at_standard_cost() {
    let service = HashingService::standard();
    let mut store = MemoryStore::new();
    assert_eq!(
        register(&service, &mut store, "alice", "correct-horse"),
        RegistrationVerdict::Registered
    );
    assert_eq!(log_in(&service, &store, "alice", "correct-horse"), LoginVerdict::Authenticated);
    assert_eq!(log_in(&service, &store, "alice", "wrong"), LoginVerdict::WrongPassword);
    assert_eq!(
        register(&service, &mut store, "alice", "anything"),
        RegistrationVerdict::TakenAtCheck
    );
}

#[test]
fn registration_stores_salt_and_verifier_together() {
    let service = quick_service();
    let mut store = MemoryStore::new();
    register(&service, &mut store, "bob", "hunter2");
    let item = store.items.get("bob").unwrap();
    let salt = match &item.salt {
        Attribute::Bytes(bytes) => bytes.clone(),
        _ => panic!("no salt"),
    };
    let verifier = match &item.verifier {
        Attribute::Bytes(bytes) => bytes.clone(),
        _ => panic!("no verifier"),
    };
    assert_eq!(salt.len(), 16);
    assert_eq!(verifier.len(), 24);
    let salt: [u8; 16] = salt.try_into().unwrap();
    assert_eq!(verifier, bcrypt::bcrypt(4, salt, b"hunter2PEPPER").to_vec());
}

#[test]
fn same_password_gets_different_records() {
    let service = quick_service();
    let mut store = MemoryStore::new();
    register(&service, &mut store, "carol", "shared");
    register(&service, &mut store, "dave", "shared");
    let carol = store.items.get("carol").unwrap();
    let dave = store.items.get("dave").unwrap();
    assert_ne!(carol.salt, dave.salt);
    assert_ne!(carol.verifier, dave.verifier);
    assert_eq!(log_in(&service, &store, "carol", "shared"), LoginVerdict::Authenticated);
    assert_eq!(log_in(&service, &store, "dave", "shared"), LoginVerdict::Authenticated);
}

#[test]
fn racing_registrations_have_one_winner() {
    // Each schedule says, turn by turn, whether the first contestant moves.
    let schedules: [[bool; 4]; 6] = [
        [true, true, false, false],
        [true, false, true, false],
        [true, false, false, true],
        [false, true, true, false],
        [false, true, false, true],
        [false, false, true, true],
    ];
    let service = quick_service();
    for schedule in schedules {
        let mut store = MemoryStore::new();
        let (mut first_state, mut first_action) =
            registration::begin(String::from("erin"), String::from("one"));
        let (mut second_state, mut second_action) =
            registration::begin(String::from("erin"), String::from("two"));
        for first_moves in schedule {
            if first_moves {
                let moved =
                    move_registration(&service, &mut store, first_state, first_action);
                first_state = moved.0;
                first_action = moved.1;
            } else {
                let moved =
                    move_registration(&service, &mut store, second_state, second_action);
                second_state = moved.0;
                second_action = moved.1;
            }
        }
        let first = match first_action {
            RegistrationAction::Finish(verdict) => verdict.outcome(),
            _ => panic!("the first contestant has not ended"),
        };
        let second = match second_action {
            RegistrationAction::Finish(verdict) => verdict.outcome(),
            _ => panic!("the second contestant has not ended"),
        };
        let winners = [first, second]
            .iter()
            .filter(|outcome| **outcome == RegistrationOutcome::Success)
            .count();
        let losers = [first, second]
            .iter()
            .filter(|outcome| **outcome == RegistrationOutcome::Conflict)
            .count();
        assert_eq!((winners, losers), (1, 1));
        assert_eq!(store.items.len(), 1);
        let winner_password = if first == RegistrationOutcome::Success { "one" } else { "two" };
        let loser_password = if first == RegistrationOutcome::Success { "two" } else { "one" };
        assert_eq!(
            log_in(&service, &store, "erin", winner_password),
            LoginVerdict::Authenticated
        );
        assert_eq!(
            log_in(&service, &store, "erin", loser_password),
            LoginVerdict::WrongPassword
        );
        match (first_state, second_state) {
            (RegistrationState::Committed, RegistrationState::Rejected(Rejection::Conflict)) => {
                assert_eq!(first, RegistrationOutcome::Success)
            }
            (RegistrationState::Rejected(Rejection::Conflict), RegistrationState::Committed) => {
                assert_eq!(second, RegistrationOutcome::Success)
            }
            _ => panic!("one contestant commits and the other is rejected"),
        }
    }
}

#[test]
fn late_conflict_is_told_from_early_conflict() {
    let service = quick_service();
    let mut store = MemoryStore::new();
    let (state, action) = registration::begin(String::from("frank"), String::from("pw"));
    let (state, action) = move_registration(&service, &mut store, state, action);
    assert!(matches!(&state, RegistrationState::Hashed { username, .. } if username == "frank"));
    assert_eq!(register(&service, &mut store, "frank", "other"), RegistrationVerdict::Registered);
    let (state, action) = move_registration(&service, &mut store, state, action);
    assert_eq!(state, RegistrationState::Rejected(Rejection::Conflict));
    assert_eq!(action, RegistrationAction::Finish(RegistrationVerdict::TakenAtWrite));
    assert_eq!(register(&service, &mut store, "frank", "pw"), RegistrationVerdict::TakenAtCheck);
    assert_eq!(log_in(&service, &store, "frank", "other"), LoginVerdict::Authenticated);
}

#[test]
fn registration_begins_with_a_lookup() {
    let (state, action) = registration::begin(String::from("gina"), String::from("pw"));
    assert_eq!(
        state,
        RegistrationState::Start { username: String::from("gina"), password: String::from("pw") }
    );
    assert_eq!(action, RegistrationAction::Lookup { username: String::from("gina") });
}

#[test]
fn given_salt_fixes_the_record() {
    let service = quick_service();
    let salt = [3u8; 16];
    let (state, _) = registration::begin(String::from("gina"), String::from("pw"));
    let (state, action) = registration::step_with_salt(
        &service,
        state,
        RegistrationEvent::Read(ReadResult::Absent),
        salt,
    );
    let record = CredentialRecord { salt, verifier: bcrypt::bcrypt(4, salt, b"pwPEPPER") };
    assert_eq!(state, RegistrationState::Hashed { username: String::from("gina"), record });
    assert_eq!(action, RegistrationAction::Create { username: String::from("gina"), record });
    let (state, action) = registration::step_with_salt(
        &service,
        state,
        RegistrationEvent::Written(WriteResult::Created),
        salt,
    );
    assert_eq!(state, RegistrationState::Committed);
    assert_eq!(action, RegistrationAction::Finish(RegistrationVerdict::Registered));
}

#[test]
fn fresh_salt_fixes_the_verifier() {
    let service = quick_service();
    let (state, _) = registration::begin(String::from("gina"), String::from("pw"));
    let (state, action) =
        registration::step(&service, state, RegistrationEvent::Read(ReadResult::Absent));
    match (state, action) {
        (
            RegistrationState::Hashed { username, record },
            RegistrationAction::Create { username: asked, record: proposed },
        ) => {
            assert_eq!(username, "gina");
            assert_eq!(asked, "gina");
            assert_eq!(record, proposed);
            assert_eq!(record.verifier, bcrypt::bcrypt(4, record.salt, b"pwPEPPER"));
        }
        _ => panic!("an absent name leads to a creation"),
    }
}

#[test]
fn failed_lookup_is_transient() {
    let service = quick_service();
    let (state, _) = registration::begin(String::from("hana"), String::from("pw"));
    let (state, action) = registration::step(
        &service,
        state,
        RegistrationEvent::Read(ReadResult::Unavailable(String::from("throttled"))),
    );
    assert_eq!(state, RegistrationState::Rejected(Rejection::Transient));
    let verdict = RegistrationVerdict::ReadUnavailable(String::from("throttled"));
    assert_eq!(verdict.outcome(), RegistrationOutcome::TransientError);
    assert_eq!(action, RegistrationAction::Finish(verdict));
}

#[test]
fn failed_write_is_transient() {
    let service = quick_service();
    let (state, _) = registration::begin(String::from("hana"), String::from("pw"));
    let (state, _) =
        registration::step(&service, state, RegistrationEvent::Read(ReadResult::Absent));
    let (state, action) = registration::step(
        &service,
        state,
        RegistrationEvent::Written(WriteResult::Unavailable),
    );
    assert_eq!(state, RegistrationState::Rejected(Rejection::Transient));
    assert_eq!(action, RegistrationAction::Finish(RegistrationVerdict::WriteUnavailable));
    assert_eq!(RegistrationVerdict::WriteUnavailable.outcome(), RegistrationOutcome::TransientError);
}

#[test]
fn found_item_is_a_conflict_whatever_it_holds() {
    let service = quick_service();
    let (state, _) = registration::begin(String::from("ivan"), String::from("pw"));
    let broken = StoredItem { salt: Attribute::Missing, verifier: Attribute::Other };
    let (state, action) =
        registration::step(&service, state, RegistrationEvent::Read(ReadResult::Found(broken)));
    assert_eq!(state, RegistrationState::Rejected(Rejection::Conflict));
    assert_eq!(action, RegistrationAction::Finish(RegistrationVerdict::TakenAtCheck));
}

#[test]
fn unhashable_password_is_not_registered() {
    let service = quick_service();
    let mut store = MemoryStore::new();
    let verdict = register(&service, &mut store, "judy", &"x".repeat(67));
    assert_eq!(verdict, RegistrationVerdict::Unhashable);
    assert_eq!(verdict.outcome(), RegistrationOutcome::InternalError);
    assert!(store.items.is_empty());
    assert_eq!(
        register(&service, &mut store, "judy", &"x".repeat(66)),
        RegistrationVerdict::Registered
    );
    assert_eq!(log_in(&service, &store, "judy", &"x".repeat(66)), LoginVerdict::Authenticated);
    assert_eq!(log_in(&service, &store, "judy", &"x".repeat(67)), LoginVerdict::WrongPassword);
    assert_eq!(log_in(&service, &store, "judy", &"x".repeat(65)), LoginVerdict::WrongPassword);
}

#[test]
fn unhashable_password_on_taken_name_is_a_conflict() {
    let service = quick_service();
    let mut store = MemoryStore::new();
    register(&service, &mut store, "judy", "pw");
    assert_eq!(
        register(&service, &mut store, "judy", &"x".repeat(67)),
        RegistrationVerdict::TakenAtCheck
    );
}

#[test]
fn registration_answers_out_of_turn() {
    let service = quick_service();
    let (state, _) = registration::begin(String::from("kim"), String::from("pw"));
    let (state, action) = registration::step(
        &service,
        state,
        RegistrationEvent::Written(WriteResult::Created),
    );
    assert_eq!(state, RegistrationState::Rejected(Rejection::Internal));
    assert_eq!(action, RegistrationAction::Finish(RegistrationVerdict::OutOfTurn));
    assert_eq!(RegistrationVerdict::OutOfTurn.outcome(), RegistrationOutcome::InternalError);

    let (state, _) = registration::begin(String::from("kim"), String::from("pw"));
    let (state, _) =
        registration::step(&service, state, RegistrationEvent::Read(ReadResult::Absent));
    let (state, action) =
        registration::step(&service, state, RegistrationEvent::Read(ReadResult::Absent));
    assert_eq!(state, RegistrationState::Rejected(Rejection::Internal));
    assert_eq!(action, RegistrationAction::Finish(RegistrationVerdict::OutOfTurn));
}

#[test]
fn ended_registration_stays_ended() {
    let service = quick_service();
    for state in [
        RegistrationState::Committed,
        RegistrationState::Rejected(Rejection::Conflict),
        RegistrationState::Rejected(Rejection::Transient),
        RegistrationState::Rejected(Rejection::Internal),
    ] {
        for event in [
            RegistrationEvent::Read(ReadResult::Absent),
            RegistrationEvent::Written(WriteResult::Created),
        ] {
            let (after, action) = registration::step(&service, state.clone(), event);
            assert_eq!(after, state);
            assert_eq!(action, RegistrationAction::Finish(RegistrationVerdict::OutOfTurn));
        }
    }
}

#[test]
fn login_begins_with_a_fetch() {
    let (state, action) = login::begin(String::from("lena"), String::from("pw"));
    assert_eq!(
        state,
        LoginState::AwaitingRecord { username: String::from("lena"), password: String::from("pw") }
    );
    assert_eq!(action, LoginAction::Fetch { username: String::from("lena") });
}

#[test]
fn unknown_user_is_turned_down() {
    let service = quick_service();
    let mut store = MemoryStore::new();
    register(&service, &mut store, "mallory", "pw");
    let verdict = log_in(&service, &store, "nobody", "pw");
    assert_eq!(verdict, LoginVerdict::UnknownUser);
    assert_eq!(verdict.outcome(), LoginOutcome::InvalidCredentials);
    assert_eq!(log_in(&service, &store, "nobody", &"x".repeat(100)), LoginVerdict::UnknownUser);
    assert_eq!(log_in(&service, &store, "", ""), LoginVerdict::UnknownUser);
}

#[test]
fn failed_read_is_transient() {
    let service = quick_service();
    let (state, _) = login::begin(String::from("olga"), String::from("pw"));
    let (state, action) =
        login::step(&service, state, ReadResult::Unavailable(String::from("no route")));
    assert_eq!(state, LoginState::Concluded(LoginOutcome::TransientError));
    assert_eq!(action, LoginAction::Finish(LoginVerdict::Unavailable(String::from("no route"))));
}

#[test]
fn corrupt_record_is_an_internal_error() {
    let service = quick_service();
    let sound_salt = Attribute::Bytes(vec![1u8; 16]);
    let sound_verifier = Attribute::Bytes(vec![2u8; 24]);
    let cases = [
        (Attribute::Missing, sound_verifier.clone(), RecordDefect::SaltAbsent),
        (Attribute::Other, sound_verifier.clone(), RecordDefect::SaltAbsent),
        (Attribute::Bytes(vec![1u8; 15]), sound_verifier.clone(), RecordDefect::SaltLength),
        (sound_salt.clone(), Attribute::Missing, RecordDefect::VerifierAbsent),
        (sound_salt.clone(), Attribute::Other, RecordDefect::VerifierAbsent),
        (sound_salt.clone(), Attribute::Bytes(vec![2u8; 23]), RecordDefect::VerifierLength),
        (sound_salt.clone(), Attribute::Bytes(Vec::new()), RecordDefect::VerifierLength),
    ];
    for (salt, verifier, defect) in cases {
        let verdict =
            login::judge(&service, "pw", ReadResult::Found(StoredItem { salt, verifier }));
        assert_eq!(verdict, LoginVerdict::Corrupt(defect));
        assert_eq!(verdict.outcome(), LoginOutcome::InternalError);
    }
    let sound = StoredItem { salt: sound_salt, verifier: sound_verifier };
    assert_eq!(login::judge(&service, "pw", ReadResult::Found(sound)), LoginVerdict::WrongPassword);
}

#[test]
fn judge_accepts_the_matching_password_only() {
    let service = quick_service();
    let salt = [8u8; 16];
    let record = CredentialRecord { salt, verifier: bcrypt::bcrypt(4, salt, b"sesamePEPPER") };
    let found = ReadResult::Found(encode_record(&record));
    assert_eq!(login::judge(&service, "sesame", found.clone()), LoginVerdict::Authenticated);
    assert_eq!(login::judge(&service, "Sesame", found.clone()), LoginVerdict::WrongPassword);
    assert_eq!(login::judge(&service, "", found.clone()), LoginVerdict::WrongPassword);
    assert_eq!(login::judge(&service, "sesamePEPPER", found.clone()), LoginVerdict::WrongPassword);
    let other_pepper = HashingService::new(b"pepper".to_vec(), 4).unwrap();
    assert_eq!(login::judge(&other_pepper, "sesame", found.clone()), LoginVerdict::WrongPassword);
    let other_cost = HashingService::new(b"PEPPER".to_vec(), 5).unwrap();
    assert_eq!(login::judge(&other_cost, "sesame", found), LoginVerdict::WrongPassword);
}

#[test]
fn ended_login_stays_ended() {
    let service = quick_service();
    for outcome in [
        LoginOutcome::Success,
        LoginOutcome::InvalidCredentials,
        LoginOutcome::TransientError,
        LoginOutcome::InternalError,
    ] {
        let (state, action) =
            login::step(&service, LoginState::Concluded(outcome), ReadResult::Absent);
        assert_eq!(state, LoginState::Concluded(outcome));
        assert_eq!(action, LoginAction::Finish(LoginVerdict::OutOfTurn));
    }
    assert_eq!(LoginVerdict::OutOfTurn.outcome(), LoginOutcome::InternalError);
}

#[test]
fn requests_give_their_parts() {
    let session =
        NewSessionRequest { username: String::from("pat"), password: String::from("pw1") };
    assert_eq!(session.into_parts(), (String::from("pat"), String::from("pw1")));
    let user = CreateUserRequest { username: String::from("quinn"), password: String::from("pw2") };
    assert_eq!(user.into_parts(), (String::from("quinn"), String::from("pw2")));
}

#[test]
fn endpoints_start_their_flows() {
    let session = AuthEndpoint::Post(NewSessionRequest {
        username: String::from("pat"),
        password: String::from("pw1"),
    });
    assert_eq!(session.start(), login::begin(String::from("pat"), String::from("pw1")));
    let user = UserEndpoint::Post(CreateUserRequest {
        username: String::from("quinn"),
        password: String::from("pw2"),
    });
    assert_eq!(user.start(), registration::begin(String::from("quinn"), String::from("pw2")));
}

#[test]
fn failed_write_leaves_the_name_to_the_other() {
    let service = quick_service();
    let mut store = MemoryStore::new();
    let (first_state, first_action) =
        registration::begin(String::from("rosa"), String::from("one"));
    let (second_state, second_action) =
        registration::begin(String::from("rosa"), String::from("two"));
    let (first_state, _) = move_registration(&service, &mut store, first_state, first_action);
    let (second_state, second_action) =
        move_registration(&service, &mut store, second_state, second_action);
    // The first contestant's write fails and leaves nothing behind.
    let (first_state, first_action) = registration::step(
        &service,
        first_state,
        RegistrationEvent::Written(WriteResult::Unavailable),
    );
    assert_eq!(first_state, RegistrationState::Rejected(Rejection::Transient));
    assert_eq!(first_action, RegistrationAction::Finish(RegistrationVerdict::WriteUnavailable));
    let (second_state, second_action) =
        move_registration(&service, &mut store, second_state, second_action);
    assert_eq!(second_state, RegistrationState::Committed);
    assert_eq!(second_action, RegistrationAction::Finish(RegistrationVerdict::Registered));
    assert_eq!(log_in(&service, &store, "rosa", "two"), LoginVerdict::Authenticated);
    assert_eq!(log_in(&service, &store, "rosa", "one"), LoginVerdict::WrongPassword);
    // Trying the whole registration again meets the taken name.
    assert_eq!(register(&service, &mut store, "rosa", "one"), RegistrationVerdict::TakenAtCheck);
}

#[test]
fn colliding_password_is_accepted() {
    // A password that repeats another one's key is the same password to the
    // hash, and so to the login.
    let service = HashingService::standard();
    let mut store = MemoryStore::new();
    assert_eq!(register(&service, &mut store, "sam", "a"), RegistrationVerdict::Registered);
    assert_eq!(log_in(&service, &store, "sam", "aPEPPERa"), LoginVerdict::Authenticated);
    assert_eq!(log_in(&service, &store, "sam", "aPEPPER"), LoginVerdict::WrongPassword);
}
