//! Properties of sequences of operations, proved from the operations'
//! contracts.

use vstd::prelude::*;
use crate::hashing::sha256_of;
use crate::pallet::{
    change_password_outcome, link_outcome, login_outcome, login_result, logout_outcome,
    register_outcome, session_result, set_access_outcome, set_referal_outcome, Pallet,
};
use crate::types::{Error, Event, Referral};

verus! {

/// Registering an email a second time is refused as already claimed,
/// whatever the accounts and credentials, for an email within its limit
/// and limits that admit a record.
pub proof fn registering_twice_is_refused(
    a: Pallet,
    b: Pallet,
    c: Pallet,
    caller1: u64,
    caller2: u64,
    email: Seq<u8>,
    password1: Seq<u8>,
    password2: Seq<u8>,
    r1: Result<Event, Error>,
    r2: Result<Event, Error>,
)
    requires
        email.len() <= a.limits().max_emailsize,
        a.limits().max_additional_fields >= 2,
        register_outcome(a, b, caller1, email, password1, r1),
        register_outcome(b, c, caller2, email, password2, r2),
    ensures
        r2 == Err::<Event, Error>(Error::IdentityAlreadyClaimed),
{
}

/// After a successful registration, a credential is accepted for the email
/// exactly when it is the registered one (barring a digest collision).
pub proof fn registered_credential_is_the_one_accepted(
    a: Pallet,
    b: Pallet,
    caller: u64,
    email: Seq<u8>,
    password: Seq<u8>,
    r: Result<Event, Error>,
    candidate: Seq<u8>,
)
    requires
        register_outcome(a, b, caller, email, password, r),
        r.is_ok(),
        candidate == password || sha256_of(candidate) != sha256_of(password),
    ensures
        (login_result(b, email, candidate) == Ok::<(), Error>(())) <==> candidate == password,
        candidate != password ==> login_result(b, email, candidate) == Err::<(), Error>(Error::LoginFailed),
{
}

/// After a successful credential change, a credential is accepted for the
/// email exactly when it is the new one (barring a digest collision).
pub proof fn changed_credential_is_the_one_accepted(
    a: Pallet,
    b: Pallet,
    caller: u64,
    email: Seq<u8>,
    password: Seq<u8>,
    r: Result<Event, Error>,
    candidate: Seq<u8>,
)
    requires
        change_password_outcome(a, b, caller, email, password, r),
        r.is_ok(),
        candidate == password || sha256_of(candidate) != sha256_of(password),
    ensures
        (login_result(b, email, candidate) == Ok::<(), Error>(())) <==> candidate == password,
        candidate != password ==> login_result(b, email, candidate) == Err::<(), Error>(Error::LoginFailed),
{
}

/// When the owner changes the credential from `old_password` to
/// `new_password`, the new one is accepted and the old one refused (when
/// their digests differ).
pub proof fn rotation_replaces_credential(
    a: Pallet,
    b: Pallet,
    caller: u64,
    email: Seq<u8>,
    old_password: Seq<u8>,
    new_password: Seq<u8>,
    r: Result<Event, Error>,
)
    requires
        a.records().contains_key(email),
        a.records()[email].owner == caller,
        login_result(a, email, old_password) == Ok::<(), Error>(()),
        sha256_of(old_password) != sha256_of(new_password),
        change_password_outcome(a, b, caller, email, new_password, r),
    ensures
        r.is_ok(),
        login_result(b, email, new_password) == Ok::<(), Error>(()),
        login_result(b, email, old_password) == Err::<(), Error>(Error::LoginFailed),
{
}

/// Setting a referral leaves every credential check as it was.
pub proof fn referral_keeps_credentials(
    a: Pallet,
    b: Pallet,
    caller: u64,
    email: Seq<u8>,
    referal: Seq<u8>,
    r: Result<Event, Error>,
    any_email: Seq<u8>,
    candidate: Seq<u8>,
)
    requires
        set_referal_outcome(a, b, caller, email, referal, r),
    ensures
        login_result(b, any_email, candidate) == login_result(a, any_email, candidate),
{
}

/// Linking an account leaves every credential check as it was.
pub proof fn link_keeps_credentials(
    a: Pallet,
    b: Pallet,
    email: Seq<u8>,
    idtolink: u64,
    secret: Seq<u8>,
    r: Result<Event, Error>,
    any_email: Seq<u8>,
    candidate: Seq<u8>,
)
    requires
        link_outcome(a, b, email, idtolink, secret, r),
    ensures
        login_result(b, any_email, candidate) == login_result(a, any_email, candidate),
{
}

/// Opening a session leaves every credential check as it was.
pub proof fn session_keeps_credentials(
    a: Pallet,
    b: Pallet,
    caller: u64,
    challenge: Seq<u8>,
    r: Result<Event, Error>,
    any_email: Seq<u8>,
    candidate: Seq<u8>,
)
    requires
        login_outcome(a, b, caller, challenge, r),
    ensures
        login_result(b, any_email, candidate) == login_result(a, any_email, candidate),
{
}

/// Setting an access service leaves every credential check as it was.
pub proof fn access_service_keeps_credentials(
    a: Pallet,
    b: Pallet,
    caller: u64,
    idtoaccess: u64,
    service: Seq<u8>,
    r: Result<Event, Error>,
    any_email: Seq<u8>,
    candidate: Seq<u8>,
)
    requires
        set_access_outcome(a, b, caller, idtoaccess, service, r),
    ensures
        login_result(b, any_email, candidate) == login_result(a, any_email, candidate),
{
}

/// Closing a session leaves every credential check as it was.
pub proof fn logout_keeps_credentials(
    a: Pallet,
    b: Pallet,
    caller: u64,
    r: Result<Event, Error>,
    any_email: Seq<u8>,
    candidate: Seq<u8>,
)
    requires
        logout_outcome(a, b, caller, r),
    ensures
        login_result(b, any_email, candidate) == login_result(a, any_email, candidate),
{
}

/// A referral secret just set lets the record be linked with that secret.
pub proof fn referral_enables_link(
    a: Pallet,
    b: Pallet,
    c: Pallet,
    caller: u64,
    email: Seq<u8>,
    secret: Seq<u8>,
    idtolink: u64,
    r1: Result<Event, Error>,
    r2: Result<Event, Error>,
)
    requires
        set_referal_outcome(a, b, caller, email, secret, r1),
        r1.is_ok(),
        link_outcome(b, c, email, idtolink, secret, r2),
    ensures
        r2.is_ok(),
        c.records()[email].owner == idtolink,
        c.index()[idtolink]@ == email,
{
}

/// Once a record has been linked, linking it again fails, with the same
/// secret or any other, until a new referral is set.
pub proof fn referral_links_once(
    a: Pallet,
    b: Pallet,
    c: Pallet,
    email: Seq<u8>,
    idtolink1: u64,
    secret1: Seq<u8>,
    idtolink2: u64,
    secret2: Seq<u8>,
    r1: Result<Event, Error>,
    r2: Result<Event, Error>,
)
    requires
        link_outcome(a, b, email, idtolink1, secret1, r1),
        r1.is_ok(),
        link_outcome(b, c, email, idtolink2, secret2, r2),
    ensures
        r2 == Err::<Event, Error>(Error::ReferalFailed),
        c == b,
{
}

/// Opening a session stores a token of the caller under its id, whoever
/// held that id before.
pub proof fn session_token_goes_to_last_login(
    a: Pallet,
    b: Pallet,
    caller: u64,
    challenge: Seq<u8>,
    r: Result<Event, Error>,
)
    requires
        login_outcome(a, b, caller, challenge, r),
        r.is_ok(),
    ensures
        session_result(b, challenge) == Ok::<u64, Error>(caller),
{
}

/// After a session is opened with a token id and then closed, the token id
/// is no longer accepted, and the record holds no token id.
pub proof fn logout_revokes_token(
    a: Pallet,
    b: Pallet,
    c: Pallet,
    caller: u64,
    challenge: Seq<u8>,
    r1: Result<Event, Error>,
    r2: Result<Event, Error>,
)
    requires
        login_outcome(a, b, caller, challenge, r1),
        r1.is_ok(),
        logout_outcome(b, c, caller, r2),
        r2.is_ok(),
    ensures
        session_result(c, challenge) == Err::<u64, Error>(Error::LoginFailed),
        c.linked_record(caller).access_token@.len() == 0,
{
}

/// Closing a session a second time right after a successful close
/// succeeds and changes nothing.
pub proof fn second_logout_changes_nothing(
    a: Pallet,
    b: Pallet,
    c: Pallet,
    caller: u64,
    r1: Result<Event, Error>,
    r2: Result<Event, Error>,
)
    requires
        logout_outcome(a, b, caller, r1),
        r1.is_ok(),
        logout_outcome(b, c, caller, r2),
    ensures
        r2 == Ok::<Event, Error>(Event::UserWeb3logout { who: caller }),
        c == b,
{
}

/// One state-changing operation with its arguments.
pub ghost enum Operation {
    Register { caller: u64, email: Seq<u8>, password: Seq<u8> },
    ChangePassword { caller: u64, email: Seq<u8>, password: Seq<u8> },
    SetReferal { caller: u64, email: Seq<u8>, referal: Seq<u8> },
    Link { email: Seq<u8>, idtolink: u64, secret: Seq<u8> },
    Login { caller: u64, challenge: Seq<u8> },
    SetAccess { caller: u64, idtoaccess: u64, service: Seq<u8> },
    Logout { caller: u64 },
}

/// Whether performing `op` on registry `a` gives registry `b` and result `r`.
pub open spec fn performs(a: Pallet, b: Pallet, op: Operation, r: Result<Event, Error>) -> bool {
    match op {
        Operation::Register { caller, email, password } => register_outcome(a, b, caller, email, password, r),
        Operation::ChangePassword { caller, email, password } => change_password_outcome(
            a,
            b,
            caller,
            email,
            password,
            r,
        ),
        Operation::SetReferal { caller, email, referal } => set_referal_outcome(a, b, caller, email, referal, r),
        Operation::Link { email, idtolink, secret } => link_outcome(a, b, email, idtolink, secret, r),
        Operation::Login { caller, challenge } => login_outcome(a, b, caller, challenge, r),
        Operation::SetAccess { caller, idtoaccess, service } => set_access_outcome(
            a,
            b,
            caller,
            idtoaccess,
            service,
            r,
        ),
        Operation::Logout { caller } => logout_outcome(a, b, caller, r),
    }
}

/// Whether `states` are the registries that performing `ops` one after the
/// other goes through, with results `rs`.
pub open spec fn is_run(states: Seq<Pallet>, ops: Seq<Operation>, rs: Seq<Result<Event, Error>>) -> bool {
    &&& states.len() == ops.len() + 1
    &&& rs.len() == ops.len()
    &&& forall|i: int| 0 <= i < ops.len() ==> #[trigger] performs(states[i], states[i + 1], ops[i], rs[i])
}

/// Whether `op`, with result `r`, successfully set a credential of `email`.
pub open spec fn sets_credential(op: Operation, r: Result<Event, Error>, email: Seq<u8>) -> bool {
    r.is_ok() && match op {
        Operation::Register { email: e, .. } => e == email,
        Operation::ChangePassword { email: e, .. } => e == email,
        _ => false,
    }
}

/// The credential that `op` sets.
pub open spec fn credential_set(op: Operation) -> Seq<u8> {
    match op {
        Operation::Register { password, .. } => password,
        Operation::ChangePassword { password, .. } => password,
        _ => Seq::empty(),
    }
}

proof fn lemma_credential_kept(
    states: Seq<Pallet>,
    ops: Seq<Operation>,
    rs: Seq<Result<Event, Error>>,
    email: Seq<u8>,
    password: Seq<u8>,
    k: int,
)
    requires
        is_run(states, ops, rs),
        ops.len() >= 1,
        sets_credential(ops[0], rs[0], email),
        credential_set(ops[0]) == password,
        forall|i: int| 1 <= i < ops.len() ==> !sets_credential(#[trigger] ops[i], rs[i], email),
        1 <= k <= ops.len(),
    ensures
        states[k].records().contains_key(email),
        states[k].records()[email].credential_hash@ == sha256_of(password),
    decreases k,
{
    let j = k - 1;
    assert(performs(states[j], states[j + 1], ops[j], rs[j]));
    if k > 1 {
        lemma_credential_kept(states, ops, rs, email, password, k - 1);
        assert(!sets_credential(ops[k - 1], rs[k - 1], email));
    }
}

/// After a credential of an email is set, by registration or by a change,
/// and whatever operations follow that set none again, a credential is
/// accepted for the email exactly when it is that one (barring a digest
/// collision).
pub proof fn latest_credential_is_the_one_accepted(
    states: Seq<Pallet>,
    ops: Seq<Operation>,
    rs: Seq<Result<Event, Error>>,
    email: Seq<u8>,
    password: Seq<u8>,
    candidate: Seq<u8>,
)
    requires
        is_run(states, ops, rs),
        ops.len() >= 1,
        sets_credential(ops[0], rs[0], email),
        credential_set(ops[0]) == password,
        forall|i: int| 1 <= i < ops.len() ==> !sets_credential(#[trigger] ops[i], rs[i], email),
        candidate == password || sha256_of(candidate) != sha256_of(password),
    ensures
        (login_result(states.last(), email, candidate) == Ok::<(), Error>(())) <==> candidate == password,
        candidate != password ==> login_result(states.last(), email, candidate) == Err::<(), Error>(
            Error::LoginFailed,
        ),
{
    lemma_credential_kept(states, ops, rs, email, password, ops.len() as int);
}

/// Whether `op`, with result `r`, successfully set a referral of `email`.
pub open spec fn sets_referral(op: Operation, r: Result<Event, Error>, email: Seq<u8>) -> bool {
    r.is_ok() && match op {
        Operation::SetReferal { email: e, .. } => e == email,
        _ => false,
    }
}

/// Whether `op` links `email`.
pub open spec fn links(op: Operation, email: Seq<u8>) -> bool {
    match op {
        Operation::Link { email: e, .. } => e == email,
        _ => false,
    }
}

proof fn lemma_referral_stays_consumed(
    states: Seq<Pallet>,
    ops: Seq<Operation>,
    rs: Seq<Result<Event, Error>>,
    email: Seq<u8>,
    k: int,
)
    requires
        is_run(states, ops, rs),
        ops.len() >= 1,
        links(ops[0], email),
        rs[0].is_ok(),
        forall|i: int| 1 <= i < ops.len() ==> !sets_referral(#[trigger] ops[i], rs[i], email),
        1 <= k <= ops.len(),
    ensures
        states[k].records().contains_key(email),
        states[k].records()[email].referral == Referral::Consumed,
    decreases k,
{
    let j = k - 1;
    assert(performs(states[j], states[j + 1], ops[j], rs[j]));
    if k > 1 {
        lemma_referral_stays_consumed(states, ops, rs, email, k - 1);
        assert(!sets_referral(ops[k - 1], rs[k - 1], email));
    }
}

/// After a successful link of an email, every later attempt to link it,
/// with any secret, by any account, is refused and changes nothing, as long
/// as no new referral is set for it.
pub proof fn used_referral_refuses_later_links(
    states: Seq<Pallet>,
    ops: Seq<Operation>,
    rs: Seq<Result<Event, Error>>,
    email: Seq<u8>,
)
    requires
        is_run(states, ops, rs),
        ops.len() >= 1,
        links(ops[0], email),
        rs[0].is_ok(),
        forall|i: int| 1 <= i < ops.len() ==> !sets_referral(#[trigger] ops[i], rs[i], email),
    ensures
        forall|i: int|
            1 <= i < ops.len() && #[trigger] links(ops[i], email) ==> rs[i] == Err::<Event, Error>(
                Error::ReferalFailed,
            ) && states[i + 1] == states[i],
{
    assert forall|i: int| 1 <= i < ops.len() && #[trigger] links(ops[i], email) implies rs[i]
        == Err::<Event, Error>(Error::ReferalFailed) && states[i + 1] == states[i] by {
        lemma_referral_stays_consumed(states, ops, rs, email, i);
        assert(performs(states[i], states[i + 1], ops[i], rs[i]));
    }
}

} // verus!
