//! The registry: identities by email, the account to email index, and
//! session tokens by token id.

use std::collections::HashMap;
use vstd::prelude::*;
use crate::hashing::{sha256_of, sha2_256};
use crate::table::{copy_bytes, ByteMap};
use crate::types::{
    is_new_record, is_session_token, new_record, referral_matches, session_token, token_metadata,
    Config, Error, Event, IdentityRecord, Referral, TokenInfo, MAX_RAW_LEN,
};

verus! {

broadcast use vstd::std_specs::hash::group_hash_axioms;

/// The identity registry.
pub struct Pallet {
    config: Config,
    identities: ByteMap<IdentityRecord>,
    email_of: HashMap<u64, Vec<u8>>,
    tokens: ByteMap<TokenInfo>,
}

/// Whether `now` keeps the descriptive fields of `was`.
pub open spec fn same_profile(now: IdentityRecord, was: IdentityRecord) -> bool {
    &&& now.display == was.display
    &&& now.legal == was.legal
    &&& now.additional == was.additional
}

/// What registering `email` for `caller` with credential `password` does,
/// from registry `a` to registry `b` with result `r`: an email over its limit
/// is refused, then one that has a record, then any when a record cannot
/// hold the default additional fields; otherwise a new record is stored.
pub open spec fn register_outcome(
    a: Pallet,
    b: Pallet,
    caller: u64,
    email: Seq<u8>,
    password: Seq<u8>,
    r: Result<Event, Error>,
) -> bool {
    &&& b.wf()
    &&& email.len() > a.limits().max_emailsize ==> r == Err::<Event, Error>(Error::FieldTooLarge)
    &&& email.len() <= a.limits().max_emailsize && a.records().contains_key(email)
        ==> r == Err::<Event, Error>(Error::IdentityAlreadyClaimed)
    &&& email.len() <= a.limits().max_emailsize && !a.records().contains_key(email)
        && a.limits().max_additional_fields < 2 ==> r == Err::<Event, Error>(Error::TooManyFields)
    &&& r.is_err() ==> b == a
    &&& r.is_ok() <==> (email.len() <= a.limits().max_emailsize && !a.records().contains_key(email)
        && a.limits().max_additional_fields >= 2)
    &&& r.is_ok() ==> {
        &&& r matches Ok(Event::UserRegistered { who }) && who@ == email
        &&& b.records().contains_key(email)
        &&& is_new_record(b.records()[email], caller, sha256_of(password))
        &&& b.records() == a.records().insert(email, b.records()[email])
        &&& b.index() == a.index()
        &&& b.sessions() == a.sessions()
        &&& b.limits() == a.limits()
    }
}

/// The result of checking credential `password` against the record of
/// `email` in registry `a`.
pub open spec fn login_result(a: Pallet, email: Seq<u8>, password: Seq<u8>) -> Result<(), Error> {
    if !a.records().contains_key(email) {
        Err(Error::NoIdentity)
    } else if a.records()[email].credential_hash@ == sha256_of(password) {
        Ok(())
    } else {
        Err(Error::LoginFailed)
    }
}

/// What replacing the credential of `email` with `password` on behalf of
/// `caller` does, from `a` to `b` with result `r`: only the record's owner
/// may; the credential digest is replaced and the linked service cleared.
pub open spec fn change_password_outcome(
    a: Pallet,
    b: Pallet,
    caller: u64,
    email: Seq<u8>,
    password: Seq<u8>,
    r: Result<Event, Error>,
) -> bool {
    &&& b.wf()
    &&& r == if !a.records().contains_key(email) {
        Err(Error::NoIdentity)
    } else if a.records()[email].owner != caller {
        Err(Error::LoginFailed)
    } else {
        Ok(Event::IdentitySet { who: caller })
    }
    &&& r.is_err() ==> b == a
    &&& r.is_ok() ==> {
        let was = a.records()[email];
        let now = b.records()[email];
        &&& b.records().contains_key(email)
        &&& b.records() == a.records().insert(email, now)
        &&& now.credential_hash@ == sha256_of(password)
        &&& now.linked_service@.len() == 0
        &&& now.owner == was.owner
        &&& now.referral == was.referral
        &&& now.access_token == was.access_token
        &&& same_profile(now, was)
        &&& b.index() == a.index()
        &&& b.sessions() == a.sessions()
        &&& b.limits() == a.limits()
    }
}

/// What setting the referral secret of `email` to `referal` does, from `a`
/// to `b` with result `r`: the record's referral becomes pending with the
/// secret's digest, whatever it was before.
pub open spec fn set_referal_outcome(
    a: Pallet,
    b: Pallet,
    caller: u64,
    email: Seq<u8>,
    referal: Seq<u8>,
    r: Result<Event, Error>,
) -> bool {
    &&& b.wf()
    &&& r == if !a.records().contains_key(email) {
        Err(Error::NoIdentity)
    } else {
        Ok(Event::IdentitySet { who: caller })
    }
    &&& r.is_err() ==> b == a
    &&& r.is_ok() ==> {
        let was = a.records()[email];
        let now = b.records()[email];
        &&& b.records().contains_key(email)
        &&& b.records() == a.records().insert(email, now)
        &&& referral_matches(now.referral, sha256_of(referal))
        &&& now.owner == was.owner
        &&& now.credential_hash == was.credential_hash
        &&& now.access_token == was.access_token
        &&& now.linked_service == was.linked_service
        &&& same_profile(now, was)
        &&& b.index() == a.index()
        &&& b.sessions() == a.sessions()
        &&& b.limits() == a.limits()
    }
}

/// What linking `email` to account `idtolink` with referral secret
/// `secret` does, from `a` to `b` with result `r`: the secret must match the
/// record's pending referral, which is then consumed; the record passes to
/// `idtolink`, and `idtolink` is linked to `email`.
pub open spec fn link_outcome(
    a: Pallet,
    b: Pallet,
    email: Seq<u8>,
    idtolink: u64,
    secret: Seq<u8>,
    r: Result<Event, Error>,
) -> bool {
    &&& b.wf()
    &&& !a.records().contains_key(email) ==> r == Err::<Event, Error>(Error::NoIdentity)
    &&& a.records().contains_key(email) && !referral_matches(a.records()[email].referral, sha256_of(secret))
        ==> r == Err::<Event, Error>(Error::ReferalFailed)
    &&& r.is_err() ==> b == a
    &&& a.records().contains_key(email) && referral_matches(a.records()[email].referral, sha256_of(secret)) ==> {
        let was = a.records()[email];
        let now = b.records()[email];
        &&& r matches Ok(Event::UserWeb3registered { who }) && who@ == email
        &&& b.records().contains_key(email)
        &&& b.records() == a.records().insert(email, now)
        &&& now.owner == idtolink
        &&& now.referral == Referral::Consumed
        &&& now.credential_hash == was.credential_hash
        &&& now.access_token == was.access_token
        &&& now.linked_service == was.linked_service
        &&& same_profile(now, was)
        &&& b.index().contains_key(idtolink)
        &&& b.index()[idtolink]@ == email
        &&& b.index() == a.index().insert(idtolink, b.index()[idtolink])
        &&& b.sessions() == a.sessions()
        &&& b.limits() == a.limits()
    }
}

/// What opening a session with token id `challenge` for `caller` does, from
/// `a` to `b` with result `r`: the caller must be linked to a record; the
/// id must be non-empty and fit its limits, and the token metadata its own; the record takes
/// the id, and a token of the caller is stored under it, replacing any.
pub open spec fn login_outcome(
    a: Pallet,
    b: Pallet,
    caller: u64,
    challenge: Seq<u8>,
    r: Result<Event, Error>,
) -> bool {
    &&& b.wf()
    &&& !a.has_linked_record(caller) ==> r == Err::<Event, Error>(Error::NoIdentity)
    &&& a.has_linked_record(caller) && challenge.len() == 0 ==> r == Err::<Event, Error>(
        Error::InvalidTokenid,
    )
    &&& a.has_linked_record(caller) && (challenge.len() > MAX_RAW_LEN || challenge.len()
        > a.limits().max_tokenid) ==> r == Err::<Event, Error>(Error::FieldTooLarge)
    &&& a.has_linked_record(caller) && 0 < challenge.len() <= MAX_RAW_LEN && challenge.len()
        <= a.limits().max_tokenid && a.limits().max_access_token_metadata < token_metadata().len()
        ==> r == Err::<Event, Error>(Error::MaxMetadataExceeded)
    &&& r.is_err() ==> b == a
    &&& r.is_ok() <==> (a.has_linked_record(caller) && 0 < challenge.len() <= MAX_RAW_LEN
        && challenge.len() <= a.limits().max_tokenid
        && a.limits().max_access_token_metadata >= token_metadata().len())
    &&& r.is_ok() ==> {
        let e = a.index()[caller]@;
        let was = a.records()[e];
        let now = b.records()[e];
        &&& r matches Ok(Event::UserWeb3loginsuccess { who, blocksession }) && who@ == e
            && blocksession@ == challenge
        &&& b.records().contains_key(e)
        &&& b.records() == a.records().insert(e, now)
        &&& now.access_token@ == challenge
        &&& now.owner == was.owner
        &&& now.credential_hash == was.credential_hash
        &&& now.referral == was.referral
        &&& now.linked_service == was.linked_service
        &&& same_profile(now, was)
        &&& b.index() == a.index()
        &&& b.sessions().contains_key(challenge)
        &&& is_session_token(b.sessions()[challenge], caller)
        &&& b.sessions() == a.sessions().insert(challenge, b.sessions()[challenge])
        &&& b.limits() == a.limits()
    }
}

/// What setting `service` on the record linked to `idtoaccess` on behalf of
/// `caller` does, from `a` to `b` with result `r`: only the record's owner
/// may, with a service name within its limit.
pub open spec fn set_access_outcome(
    a: Pallet,
    b: Pallet,
    caller: u64,
    idtoaccess: u64,
    service: Seq<u8>,
    r: Result<Event, Error>,
) -> bool {
    &&& b.wf()
    &&& r == if !a.has_linked_record(idtoaccess) {
        Err(Error::NoIdentity)
    } else if a.linked_record(idtoaccess).owner != caller {
        Err(Error::LoginFailed)
    } else if service.len() > MAX_RAW_LEN {
        Err(Error::FieldTooLarge)
    } else {
        Ok(Event::IdentitySet { who: idtoaccess })
    }
    &&& r.is_err() ==> b == a
    &&& r.is_ok() ==> {
        let e = a.index()[idtoaccess]@;
        let was = a.records()[e];
        let now = b.records()[e];
        &&& b.records().contains_key(e)
        &&& b.records() == a.records().insert(e, now)
        &&& now.linked_service@ == service
        &&& now.owner == was.owner
        &&& now.credential_hash == was.credential_hash
        &&& now.referral == was.referral
        &&& now.access_token == was.access_token
        &&& same_profile(now, was)
        &&& b.index() == a.index()
        &&& b.sessions() == a.sessions()
        &&& b.limits() == a.limits()
    }
}

/// The result of checking that the record linked to `caller` in `a` may
/// access `service`: its linked service must hold exactly those bytes.
pub open spec fn access_result(a: Pallet, caller: u64, service: Seq<u8>) -> Result<(), Error> {
    if !a.has_linked_record(caller) {
        Err(Error::NoIdentity)
    } else if a.linked_record(caller).linked_service@ == service {
        Ok(())
    } else {
        Err(Error::ServiceAccessFailed)
    }
}

/// The result of looking up session token id `token` in `a`: the account
/// that holds the session, or a failure when none does.
pub open spec fn session_result(a: Pallet, token: Seq<u8>) -> Result<u64, Error> {
    if a.sessions().contains_key(token) {
        Ok(a.sessions()[token].owner)
    } else {
        Err(Error::LoginFailed)
    }
}

/// What closing the session of `caller` does, from `a` to `b` with result
/// `r`: only the owner of the record linked to the caller may. A record
/// without a token id is left as it is. Otherwise the id is cleared, and the
/// token stored under it is removed when it is the caller's; a token that a
/// later login of another account put under the same id stays.
pub open spec fn logout_outcome(a: Pallet, b: Pallet, caller: u64, r: Result<Event, Error>) -> bool {
    &&& b.wf()
    &&& r == if !a.has_linked_record(caller) {
        Err(Error::NoIdentity)
    } else if a.linked_record(caller).owner != caller {
        Err(Error::LoginFailed)
    } else {
        Ok(Event::UserWeb3logout { who: caller })
    }
    &&& r.is_err() ==> b == a
    &&& r.is_ok() && a.linked_record(caller).access_token@.len() == 0 ==> b == a
    &&& r.is_ok() && a.linked_record(caller).access_token@.len() > 0 ==> {
        let e = a.index()[caller]@;
        let was = a.records()[e];
        let now = b.records()[e];
        let tok = was.access_token@;
        &&& b.records().contains_key(e)
        &&& b.records() == a.records().insert(e, now)
        &&& now.access_token@.len() == 0
        &&& now.owner == was.owner
        &&& now.credential_hash == was.credential_hash
        &&& now.referral == was.referral
        &&& now.linked_service == was.linked_service
        &&& same_profile(now, was)
        &&& b.index() == a.index()
        &&& b.sessions() == if a.sessions().contains_key(tok) && a.sessions()[tok].owner == caller {
            a.sessions().remove(tok)
        } else {
            a.sessions()
        }
        &&& b.limits() == a.limits()
    }
}

impl Pallet {
    /// The size limits.
    pub closed spec fn limits(&self) -> Config {
        self.config
    }

    /// The identity records, by email.
    pub closed spec fn records(&self) -> Map<Seq<u8>, IdentityRecord> {
        self.identities.view()
    }

    /// The email linked to each account.
    pub closed spec fn index(&self) -> Map<u64, Vec<u8>> {
        self.email_of@
    }

    /// The session tokens, by token id.
    pub closed spec fn sessions(&self) -> Map<Seq<u8>, TokenInfo> {
        self.tokens.view()
    }

    /// The registry's internal tables are well formed.
    pub closed spec fn wf(&self) -> bool {
        self.identities.wf() && self.tokens.wf()
    }

    /// Whether account `who` is linked to an email that has a record.
    pub open spec fn has_linked_record(&self, who: u64) -> bool {
        self.index().contains_key(who) && self.records().contains_key(self.index()[who]@)
    }

    /// The record of the email linked to account `who`.
    pub open spec fn linked_record(&self, who: u64) -> IdentityRecord {
        self.records()[self.index()[who]@]
    }

    /// An empty registry with the given limits.
    pub fn new(config: Config) -> (r: Pallet)
        ensures
            r.wf(),
            r.limits() == config,
            r.records() == Map::<Seq<u8>, IdentityRecord>::empty(),
            r.index() == Map::<u64, Vec<u8>>::empty(),
            r.sessions() == Map::<Seq<u8>, TokenInfo>::empty(),
    {
        Pallet {
            config,
            identities: ByteMap::new(),
            email_of: HashMap::new(),
            tokens: ByteMap::new(),
        }
    }

    /// The size limits.
    pub fn config(&self) -> (r: Config)
        ensures
            r == self.limits(),
    {
        self.config
    }

    /// Registers `email` for the calling account with the digest of `password`.
    pub fn request_registration_sel11(&mut self, caller: u64, email: Vec<u8>, password: Vec<u8>) -> (r: Result<Event, Error>)
        requires
            old(self).wf(),
        ensures
            register_outcome(*old(self), *final(self), caller, email@, password@, r),
    {
        if email.len() > self.config.max_emailsize as usize {
            return Err(Error::FieldTooLarge);
        }
        if self.identities.contains_key(email.as_slice()) {
            return Err(Error::IdentityAlreadyClaimed);
        }
        if self.config.max_additional_fields < 2 {
            return Err(Error::TooManyFields);
        }
        let hash = sha2_256(password.as_slice());
        let rec = new_record(caller, hash);
        let who = copy_bytes(&email);
        self.identities.insert(email, rec);
        Ok(Event::UserRegistered { who })
    }

    /// Checks `password` against the credential of the record of `email`.
    pub fn login_access_sel12(&self, email: &Vec<u8>, password: &Vec<u8>) -> (r: Result<(), Error>)
        requires
            self.wf(),
        ensures
            r == login_result(*self, email@, password@),
    {
        match self.identities.get(email.as_slice()) {
            None => Err(Error::NoIdentity),
            Some(rec) => {
                let hash = sha2_256(password.as_slice());
                if crate::table::bytes_eq(rec.credential_hash.as_slice(), hash.as_slice()) {
                    Ok(())
                } else {
                    Err(Error::LoginFailed)
                }
            },
        }
    }

    /// Replaces the credential of the record of `email`, which the caller
    /// must own, and clears the record's linked service.
    pub fn change_password_sel13(&mut self, caller: u64, email: &Vec<u8>, password: &Vec<u8>) -> (r: Result<Event, Error>)
        requires
            old(self).wf(),
        ensures
            change_password_outcome(*old(self), *final(self), caller, email@, password@, r),
    {
        match self.identities.get(email.as_slice()) {
            None => {
                return Err(Error::NoIdentity);
            },
            Some(rec) => {
                if rec.owner != caller {
                    return Err(Error::LoginFailed);
                }
            },
        }
        let hash = sha2_256(password.as_slice());
        match self.identities.take(email.as_slice()) {
            None => Err(Error::NoIdentity),
            Some((key, mut rec)) => {
                rec.credential_hash = hash;
                rec.linked_service = Vec::new();
                self.identities.insert(key, rec);
                assert(self.records() =~= old(self).records().insert(email@, self.records()[email@]));
                Ok(Event::IdentitySet { who: caller })
            },
        }
    }

    /// Sets the pending referral of the record of `email` to the digest of
    /// `referal`, replacing any earlier one.
    pub fn set_referal_sel12(&mut self, caller: u64, email: &Vec<u8>, referal: &Vec<u8>) -> (r: Result<Event, Error>)
        requires
            old(self).wf(),
        ensures
            set_referal_outcome(*old(self), *final(self), caller, email@, referal@, r),
    {
        if !self.identities.contains_key(email.as_slice()) {
            return Err(Error::NoIdentity);
        }
        match self.identities.take(email.as_slice()) {
            None => Err(Error::NoIdentity),
            Some((key, mut rec)) => {
                rec.referral = Referral::Pending(sha2_256(referal.as_slice()));
                self.identities.insert(key, rec);
                assert(self.records() =~= old(self).records().insert(email@, self.records()[email@]));
                Ok(Event::IdentitySet { who: caller })
            },
        }
    }

    /// Links the record of `email` to account `idtolink`, consuming the
    /// record's pending referral, which `referal` must match. Holding the
    /// secret is what authorizes the link, whoever the caller is.
    pub fn create_web3link_sel15(&mut self, _caller: u64, email: Vec<u8>, idtolink: u64, referal: &Vec<u8>) -> (r: Result<Event, Error>)
        requires
            old(self).wf(),
        ensures
            link_outcome(*old(self), *final(self), email@, idtolink, referal@, r),
    {
        let hash = sha2_256(referal.as_slice());
        match self.identities.get(email.as_slice()) {
            None => {
                return Err(Error::NoIdentity);
            },
            Some(rec) => {
                let ok = match &rec.referral {
                    Referral::Pending(d) => crate::table::bytes_eq(d.as_slice(), hash.as_slice()),
                    _ => false,
                };
                if !ok {
                    return Err(Error::ReferalFailed);
                }
            },
        }
        match self.identities.take(email.as_slice()) {
            None => Err(Error::NoIdentity),
            Some((key, mut rec)) => {
                rec.referral = Referral::Consumed;
                rec.owner = idtolink;
                self.identities.insert(key, rec);
                assert(self.records() =~= old(self).records().insert(email@, self.records()[email@]));
                let who = copy_bytes(&email);
                self.email_of.insert(idtolink, email);
                Ok(Event::UserWeb3registered { who })
            },
        }
    }

    /// Links the record of `email` to account `idtolink`; the same as
    /// `create_web3link_sel15`.
    pub fn create_web3link_sel(&mut self, _caller: u64, email: Vec<u8>, idtolink: u64, referal: &Vec<u8>) -> (r: Result<Event, Error>)
        requires
            old(self).wf(),
        ensures
            link_outcome(*old(self), *final(self), email@, idtolink, referal@, r),
    {
        self.create_web3link_sel15(_caller, email, idtolink, referal)
    }

    /// Links the record of `email` to account `idtolink`; the same as
    /// `create_web3link_sel15`.
    pub fn create_weblink_sel(&mut self, _caller: u64, email: Vec<u8>, idtolink: u64, referal: &Vec<u8>) -> (r: Result<Event, Error>)
        requires
            old(self).wf(),
        ensures
            link_outcome(*old(self), *final(self), email@, idtolink, referal@, r),
    {
        self.create_web3link_sel15(_caller, email, idtolink, referal)
    }

    /// Opens a session with token id `challenge`, which must not be empty,
    /// for the record linked to the caller. A token already stored under that
    /// id is replaced.
    pub fn login_web3_sel16(&mut self, caller: u64, challenge: Vec<u8>) -> (r: Result<Event, Error>)
        requires
            old(self).wf(),
        ensures
            login_outcome(*old(self), *final(self), caller, challenge@, r),
    {
        let email = match self.email_of.get(&caller) {
            None => {
                return Err(Error::NoIdentity);
            },
            Some(e) => copy_bytes(e),
        };
        if !self.identities.contains_key(email.as_slice()) {
            return Err(Error::NoIdentity);
        }
        if challenge.len() == 0 {
            return Err(Error::InvalidTokenid);
        }
        if challenge.len() > MAX_RAW_LEN || challenge.len() > self.config.max_tokenid as usize {
            return Err(Error::FieldTooLarge);
        }
        let token = session_token(caller);
        if token.metadata.len() > self.config.max_access_token_metadata as usize {
            return Err(Error::MaxMetadataExceeded);
        }
        match self.identities.take(email.as_slice()) {
            None => Err(Error::NoIdentity),
            Some((key, mut rec)) => {
                rec.access_token = copy_bytes(&challenge);
                self.identities.insert(key, rec);
                assert(self.records() =~= old(self).records().insert(email@, self.records()[email@]));
                let blocksession = copy_bytes(&challenge);
                self.tokens.insert(challenge, token);
                Ok(Event::UserWeb3loginsuccess { who: email, blocksession })
            },
        }
    }

    /// Sets the service that the record linked to account `idtoaccess` may
    /// access. Only the record's owner may do so.
    pub fn set_accessservice_sel17(&mut self, caller: u64, idtoaccess: u64, service: Vec<u8>) -> (r: Result<Event, Error>)
        requires
            old(self).wf(),
        ensures
            set_access_outcome(*old(self), *final(self), caller, idtoaccess, service@, r),
    {
        let email = match self.email_of.get(&idtoaccess) {
            None => {
                return Err(Error::NoIdentity);
            },
            Some(e) => copy_bytes(e),
        };
        match self.identities.get(email.as_slice()) {
            None => {
                return Err(Error::NoIdentity);
            },
            Some(rec) => {
                if rec.owner != caller {
                    return Err(Error::LoginFailed);
                }
            },
        }
        if service.len() > MAX_RAW_LEN {
            return Err(Error::FieldTooLarge);
        }
        match self.identities.take(email.as_slice()) {
            None => Err(Error::NoIdentity),
            Some((key, mut rec)) => {
                rec.linked_service = service;
                self.identities.insert(key, rec);
                assert(self.records() =~= old(self).records().insert(email@, self.records()[email@]));
                Ok(Event::IdentitySet { who: idtoaccess })
            },
        }
    }

    /// Checks that the record linked to the caller may access `service`.
    pub fn check_web3access_sel18(&self, caller: u64, service: &Vec<u8>) -> (r: Result<(), Error>)
        requires
            self.wf(),
        ensures
            r == access_result(*self, caller, service@),
    {
        match self.email_of.get(&caller) {
            None => Err(Error::NoIdentity),
            Some(email) => match self.identities.get(email.as_slice()) {
                None => Err(Error::NoIdentity),
                Some(rec) => {
                    if crate::table::bytes_eq(rec.linked_service.as_slice(), service.as_slice()) {
                        Ok(())
                    } else {
                        Err(Error::ServiceAccessFailed)
                    }
                },
            },
        }
    }

    /// The account whose session token has id `token`; fails when no
    /// session holds that id.
    pub fn check_session(&self, token: &Vec<u8>) -> (r: Result<u64, Error>)
        requires
            self.wf(),
        ensures
            r == session_result(*self, token@),
    {
        match self.tokens.get(token.as_slice()) {
            None => Err(Error::LoginFailed),
            Some(t) => Ok(t.owner),
        }
    }

    /// Closes the session of the caller's record, which the caller must own:
    /// the record's token id is cleared, and the caller's token stored under
    /// it removed. Without a token id this changes nothing.
    pub fn logout_web3_sel19(&mut self, caller: u64) -> (r: Result<Event, Error>)
        requires
            old(self).wf(),
        ensures
            logout_outcome(*old(self), *final(self), caller, r),
    {
        let email = match self.email_of.get(&caller) {
            None => {
                return Err(Error::NoIdentity);
            },
            Some(e) => copy_bytes(e),
        };
        match self.identities.get(email.as_slice()) {
            None => {
                return Err(Error::NoIdentity);
            },
            Some(rec) => {
                if rec.owner != caller {
                    return Err(Error::LoginFailed);
                }
                if rec.access_token.len() == 0 {
                    return Ok(Event::UserWeb3logout { who: caller });
                }
            },
        }
        match self.identities.take(email.as_slice()) {
            None => Err(Error::NoIdentity),
            Some((key, mut rec)) => {
                let owned = match self.tokens.get(rec.access_token.as_slice()) {
                    Some(t) => t.owner == caller,
                    None => false,
                };
                if owned {
                    self.tokens.remove(rec.access_token.as_slice());
                }
                rec.access_token = Vec::new();
                self.identities.insert(key, rec);
                assert(self.records() =~= old(self).records().insert(email@, self.records()[email@]));
                Ok(Event::UserWeb3logout { who: caller })
            },
        }
    }

    /// The record of `email`, if any.
    pub fn studentidof(&self, email: &Vec<u8>) -> (r: Option<&IdentityRecord>)
        requires
            self.wf(),
        ensures
            match r {
                Some(rec) => self.records().contains_key(email@) && *rec == self.records()[email@],
                None => !self.records().contains_key(email@),
            },
    {
        self.identities.get(email.as_slice())
    }

    /// The email linked to account `who`, if any.
    pub fn emailid(&self, who: u64) -> (r: Option<&Vec<u8>>)
        ensures
            match r {
                Some(e) => self.index().contains_key(who) && *e == self.index()[who],
                None => !self.index().contains_key(who),
            },
    {
        self.email_of.get(&who)
    }

    /// The session token with id `token`, if any.
    pub fn tokens(&self, token: &Vec<u8>) -> (r: Option<&TokenInfo>)
        requires
            self.wf(),
        ensures
            match r {
                Some(t) => self.sessions().contains_key(token@) && *t == self.sessions()[token@],
                None => !self.sessions().contains_key(token@),
            },
    {
        self.tokens.get(token.as_slice())
    }
}

} // verus!
