//! The flows run against a model of the credential store.
//!
//! The model is a store that always answers: a map from usernames to
//! records, read by name, and extended by a creation that takes effect only
//! where the name is free, in one indivisible step. What is proved of runs
//! against it is what the service owes its callers whenever the real store
//! keeps that contract.

use crate::hashing::HashingParams;
use crate::login::{verdict_on, LoginOutcome, LoginVerdictView};
use crate::registration::{
    next, record_for, RegistrationEventView, RegistrationStateView, Rejection,
};
use crate::store::{item_of, ReadView, RecordView, WriteResult};
use vstd::prelude::*;

verus! {

/// The store's contents: at most one record for each username.
pub struct StoreModel {
    pub records: Map<Seq<char>, RecordView>,
}

impl StoreModel {
    /// Whether a record exists for the username.
    pub open spec fn holds(self, username: Seq<char>) -> bool {
        self.records.dom().contains(username)
    }

    /// What a read of the username returns.
    pub open spec fn read(self, username: Seq<char>) -> ReadView {
        if self.holds(username) {
            ReadView::Found(item_of(self.records[username]))
        } else {
            ReadView::Absent
        }
    }

    /// The conditional creation: the store afterwards, and its answer. A
    /// taken name leaves the store as it was.
    pub open spec fn create_if_absent(self, username: Seq<char>, record: RecordView) -> (
        StoreModel,
        WriteResult,
    ) {
        if self.holds(username) {
            (self, WriteResult::AlreadyExists)
        } else {
            (StoreModel { records: self.records.insert(username, record) }, WriteResult::Created)
        }
    }
}

/// One registration under way: where it stands, and the salt it draws.
pub struct Attempt {
    pub state: RegistrationStateView,
    pub salt: Seq<u8>,
}

/// What befalls one operation on the store.
pub enum Fault {
    /// The operation takes place and is answered.
    Fair,
    /// The operation does not take place, and the caller is told that it
    /// failed.
    Lost,
    /// The operation takes place, and the caller is told that it failed.
    Unanswered,
}

/// What a read of the username returns under a fault.
pub open spec fn read_under(store: StoreModel, username: Seq<char>, fault: Fault) -> ReadView {
    match fault {
        Fault::Fair => store.read(username),
        _ => ReadView::Unavailable(Seq::empty()),
    }
}

/// The conditional creation under a fault: the store afterwards, and the
/// answer that reaches the caller.
pub open spec fn create_under(
    store: StoreModel,
    username: Seq<char>,
    record: RecordView,
    fault: Fault,
) -> (StoreModel, WriteResult) {
    match fault {
        Fault::Fair => store.create_if_absent(username, record),
        Fault::Lost => (store, WriteResult::Unavailable),
        Fault::Unanswered => (store.create_if_absent(username, record).0, WriteResult::Unavailable),
    }
}

/// One move of a registration against the store: the store operation that
/// the flow is waiting for takes place, under the fault given, and the flow
/// takes its answer. A flow that has ended does not move.
pub open spec fn act(params: HashingParams, store: StoreModel, attempt: Attempt, fault: Fault) -> (
    StoreModel,
    Attempt,
) {
    match attempt.state {
        RegistrationStateView::Start { username, password } => {
            let event = RegistrationEventView::Read(read_under(store, username, fault));
            (store, Attempt { state: next(params, attempt.state, event, attempt.salt).0, ..attempt })
        },
        RegistrationStateView::Hashed { username, record } => {
            let (after, answer) = create_under(store, username, record, fault);
            let event = RegistrationEventView::Written(answer);
            (after, Attempt { state: next(params, attempt.state, event, attempt.salt).0, ..attempt })
        },
        _ => (store, attempt),
    }
}

/// A registration run from its start to its end with nothing in between
/// and no fault: the look-up, then the creation.
pub open spec fn register(
    params: HashingParams,
    store: StoreModel,
    username: Seq<char>,
    password: Seq<char>,
    salt: Seq<u8>,
) -> (StoreModel, Attempt) {
    let start = Attempt { state: RegistrationStateView::Start { username, password }, salt };
    let (checked, hashed) = act(params, store, start, Fault::Fair);
    act(params, checked, hashed, Fault::Fair)
}

/// The outcome of a login against the store.
pub open spec fn login(
    params: HashingParams,
    store: StoreModel,
    username: Seq<char>,
    password: Seq<char>,
) -> LoginOutcome {
    verdict_on(params, password, store.read(username)).outcome()
}

/// Two registrations that share one store.
pub struct Race {
    pub store: StoreModel,
    pub first: Attempt,
    pub second: Attempt,
}

/// One turn of a race: who moves, and what befalls the store operation.
pub struct Turn {
    pub first_moves: bool,
    pub fault: Fault,
}

/// One turn of a race: the first registration moves, or the second.
pub open spec fn turn(params: HashingParams, race: Race, turn: Turn) -> Race {
    if turn.first_moves {
        let (store, first) = act(params, race.store, race.first, turn.fault);
        Race { store, first, ..race }
    } else {
        let (store, second) = act(params, race.store, race.second, turn.fault);
        Race { store, second, ..race }
    }
}

/// A race run through a schedule, which says turn by turn who moves and
/// what befalls the move.
pub open spec fn run(params: HashingParams, race: Race, schedule: Seq<Turn>) -> Race
    decreases schedule.len(),
{
    if schedule.len() == 0 {
        race
    } else {
        run(params, turn(params, race, schedule[0]), schedule.drop_first())
    }
}

/// A schedule without faults.
pub open spec fn calm(schedule: Seq<Turn>) -> bool {
    forall|i: int| 0 <= i < schedule.len() ==> (#[trigger] schedule[i]).fault is Fair
}

/// Two registrations of one username at their start, on a store.
pub open spec fn contest(
    store: StoreModel,
    username: Seq<char>,
    first_password: Seq<char>,
    first_salt: Seq<u8>,
    second_password: Seq<char>,
    second_salt: Seq<u8>,
) -> Race {
    Race {
        store,
        first: Attempt {
            state: RegistrationStateView::Start { username, password: first_password },
            salt: first_salt,
        },
        second: Attempt {
            state: RegistrationStateView::Start { username, password: second_password },
            salt: second_salt,
        },
    }
}

/// Where one of two contestants for `username` can stand: at its start,
/// with its own record ready to be written, committed, or rejected for a
/// conflict or for a failure of the store.
spec fn in_contest(
    params: HashingParams,
    attempt: Attempt,
    username: Seq<char>,
    password: Seq<char>,
) -> bool {
    match attempt.state {
        RegistrationStateView::Start { username: name, password: word } => name == username && word
            == password,
        RegistrationStateView::Hashed { username: name, record } => name == username && record
            == record_for(params, attempt.salt, password),
        RegistrationStateView::Committed => true,
        RegistrationStateView::Rejected(rejection) => rejection != Rejection::Internal,
    }
}

/// Every name but one is in `store` as it is in `origin`.
pub open spec fn others_untouched(origin: StoreModel, store: StoreModel, username: Seq<char>) -> bool {
    forall|other: Seq<char>|
        #![trigger store.records.dom().contains(other)]
        #![trigger origin.records.dom().contains(other)]
        other != username ==> (store.records.dom().contains(other)
            <==> origin.records.dom().contains(other)) && (origin.records.dom().contains(other)
            ==> store.records[other] == origin.records[other])
}

/// What holds throughout a race for a name that was free at its start,
/// whatever the faults.
spec fn safe(
    params: HashingParams,
    origin: StoreModel,
    race: Race,
    username: Seq<char>,
    first_password: Seq<char>,
    second_password: Seq<char>,
) -> bool {
    let first_record = record_for(params, race.first.salt, first_password);
    let second_record = record_for(params, race.second.salt, second_password);
    &&& in_contest(params, race.first, username, first_password)
    &&& in_contest(params, race.second, username, second_password)
    &&& !(race.first.state is Committed && race.second.state is Committed)
    &&& race.first.state == RegistrationStateView::Rejected(Rejection::Conflict)
        ==> race.store.holds(username)
    &&& race.second.state == RegistrationStateView::Rejected(Rejection::Conflict)
        ==> race.store.holds(username)
    &&& race.first.state is Committed ==> race.store.holds(username)
        && race.store.records[username] == first_record
    &&& race.second.state is Committed ==> race.store.holds(username)
        && race.store.records[username] == second_record
    &&& race.store.holds(username) ==> race.store.records[username] == first_record
        || race.store.records[username] == second_record
    &&& others_untouched(origin, race.store, username)
}

/// What holds in addition while no fault occurs: the name is taken only by
/// a contestant that has committed, and no contestant was told of a failure.
spec fn unfailed(race: Race, username: Seq<char>) -> bool {
    &&& race.store.holds(username) ==> race.first.state is Committed || race.second.state
        is Committed
    &&& race.first.state != RegistrationStateView::Rejected(Rejection::Transient)
    &&& race.second.state != RegistrationStateView::Rejected(Rejection::Transient)
}

proof fn lemma_turn_is_safe(
    params: HashingParams,
    origin: StoreModel,
    race: Race,
    username: Seq<char>,
    first_password: Seq<char>,
    second_password: Seq<char>,
    next_turn: Turn,
)
    requires
        params.can_hash(first_password),
        params.can_hash(second_password),
        safe(params, origin, race, username, first_password, second_password),
    ensures
        safe(
            params,
            origin,
            turn(params, race, next_turn),
            username,
            first_password,
            second_password,
        ),
        turn(params, race, next_turn).first.salt == race.first.salt,
        turn(params, race, next_turn).second.salt == race.second.salt,
        next_turn.fault is Fair && unfailed(race, username) ==> unfailed(
            turn(params, race, next_turn),
            username,
        ),
{
}

proof fn lemma_run_is_safe(
    params: HashingParams,
    origin: StoreModel,
    race: Race,
    username: Seq<char>,
    first_password: Seq<char>,
    second_password: Seq<char>,
    schedule: Seq<Turn>,
)
    requires
        params.can_hash(first_password),
        params.can_hash(second_password),
        safe(params, origin, race, username, first_password, second_password),
    ensures
        safe(
            params,
            origin,
            run(params, race, schedule),
            username,
            first_password,
            second_password,
        ),
        run(params, race, schedule).first.salt == race.first.salt,
        run(params, race, schedule).second.salt == race.second.salt,
        calm(schedule) && unfailed(race, username) ==> unfailed(run(params, race, schedule), username),
    decreases schedule.len(),
{
    if schedule.len() > 0 {
        let rest = schedule.drop_first();
        lemma_turn_is_safe(
            params,
            origin,
            race,
            username,
            first_password,
            second_password,
            schedule[0],
        );
        lemma_run_is_safe(
            params,
            origin,
            turn(params, race, schedule[0]),
            username,
            first_password,
            second_password,
            rest,
        );
        if calm(schedule) {
            assert forall|i: int| 0 <= i < rest.len() implies (#[trigger] rest[i]).fault is Fair by {
                assert(rest[i] == schedule[i + 1]);
            }
        }
    }
}

/// Two registrations of one free username that share the store never both
/// succeed, however their moves interleave and whichever store operations
/// fail. A contestant that succeeded has its record in the store; one that
/// was refused with a conflict found the name taken; whatever the store
/// holds for the name is the whole record of one of the two, salt and
/// verifier both; and every other name is as it was.
pub proof fn lemma_at_most_one_registration_wins(
    params: HashingParams,
    store: StoreModel,
    username: Seq<char>,
    first_password: Seq<char>,
    first_salt: Seq<u8>,
    second_password: Seq<char>,
    second_salt: Seq<u8>,
    schedule: Seq<Turn>,
)
    requires
        !store.holds(username),
        params.can_hash(first_password),
        params.can_hash(second_password),
    ensures
        ({
            let end = run(
                params,
                contest(store, username, first_password, first_salt, second_password, second_salt),
                schedule,
            );
            let first_record = record_for(params, first_salt, first_password);
            let second_record = record_for(params, second_salt, second_password);
            &&& !(end.first.state is Committed && end.second.state is Committed)
            &&& end.first.state is Committed ==> end.store.holds(username)
                && end.store.records[username] == first_record
            &&& end.second.state is Committed ==> end.store.holds(username)
                && end.store.records[username] == second_record
            &&& end.first.state == RegistrationStateView::Rejected(Rejection::Conflict)
                ==> end.store.holds(username)
            &&& end.second.state == RegistrationStateView::Rejected(Rejection::Conflict)
                ==> end.store.holds(username)
            &&& end.store.holds(username) ==> end.store.records[username] == first_record
                || end.store.records[username] == second_record
            &&& others_untouched(store, end.store, username)
        }),
{
    let start = contest(store, username, first_password, first_salt, second_password, second_salt);
    lemma_run_is_safe(params, store, start, username, first_password, second_password, schedule);
}

/// Of two registrations of one free username that share the store, however
/// their moves interleave, once both have ended without a fault exactly one
/// has succeeded and the other was refused with a conflict. The store then
/// holds the winner's record for the name.
pub proof fn lemma_one_registration_wins(
    params: HashingParams,
    store: StoreModel,
    username: Seq<char>,
    first_password: Seq<char>,
    first_salt: Seq<u8>,
    second_password: Seq<char>,
    second_salt: Seq<u8>,
    schedule: Seq<Turn>,
)
    requires
        !store.holds(username),
        params.can_hash(first_password),
        params.can_hash(second_password),
        calm(schedule),
        ({
            let end = run(
                params,
                contest(store, username, first_password, first_salt, second_password, second_salt),
                schedule,
            );
            end.first.state.is_final() && end.second.state.is_final()
        }),
    ensures
        ({
            let end = run(
                params,
                contest(store, username, first_password, first_salt, second_password, second_salt),
                schedule,
            );
            let conflict = RegistrationStateView::Rejected(Rejection::Conflict);
            &&& end.store.holds(username)
            &&& (end.first.state is Committed && end.second.state == conflict
                && end.store.records[username] == record_for(params, first_salt, first_password))
                || (end.second.state is Committed && end.first.state == conflict
                && end.store.records[username] == record_for(
                params,
                second_salt,
                second_password,
            ))
        }),
{
    let start = contest(store, username, first_password, first_salt, second_password, second_salt);
    lemma_run_is_safe(params, store, start, username, first_password, second_password, schedule);
}

/// A registration ends after two moves of its own, whatever happened to
/// the store between them and whatever befell the moves.
pub proof fn lemma_two_moves_end_a_registration(
    params: HashingParams,
    store: StoreModel,
    later: StoreModel,
    attempt: Attempt,
    fault: Fault,
    later_fault: Fault,
)
    ensures
        act(params, later, act(params, store, attempt, fault).1, later_fault).1.state.is_final(),
{
}

/// A registration of a free username, run alone, succeeds and leaves the
/// record for its salt and password under the name. A login with the same
/// password then succeeds. A login with another text succeeds if that text
/// has the same verifier under the stored salt, and is turned down as
/// invalid credentials if it has not.
pub proof fn lemma_login_after_registration(
    params: HashingParams,
    store: StoreModel,
    username: Seq<char>,
    password: Seq<char>,
    salt: Seq<u8>,
    attempt: Seq<char>,
)
    requires
        !store.holds(username),
        params.can_hash(password),
        salt.len() == 16,
    ensures
        ({
            let (after, done) = register(params, store, username, password, salt);
            let same = params.can_hash(attempt) && params.verifier_of(salt, attempt)
                == params.verifier_of(salt, password);
            &&& done.state is Committed
            &&& after.holds(username)
            &&& after.records[username] == record_for(params, salt, password)
            &&& login(params, after, username, password) == LoginOutcome::Success
            &&& same ==> login(params, after, username, attempt) == LoginOutcome::Success
            &&& !same ==> login(params, after, username, attempt)
                == LoginOutcome::InvalidCredentials
        }),
{
}

/// A registration of a username that is taken ends in a conflict and
/// leaves the store as it was.
pub proof fn lemma_taken_name_is_refused(
    params: HashingParams,
    store: StoreModel,
    username: Seq<char>,
    password: Seq<char>,
    salt: Seq<u8>,
)
    requires
        store.holds(username),
    ensures
        ({
            let (after, done) = register(params, store, username, password, salt);
            &&& done.state == RegistrationStateView::Rejected(Rejection::Conflict)
            &&& after == store
        }),
{
}

/// A login for a username without a record is turned down as invalid
/// credentials, whatever the password.
pub proof fn lemma_unknown_user_is_denied(
    params: HashingParams,
    store: StoreModel,
    username: Seq<char>,
    password: Seq<char>,
)
    requires
        !store.holds(username),
    ensures
        verdict_on(params, password, store.read(username)) == LoginVerdictView::UnknownUser,
        login(params, store, username, password) == LoginOutcome::InvalidCredentials,
{
}

} // verus!
