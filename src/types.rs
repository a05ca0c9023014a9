//! The records that the registry keeps, and what its operations report.

use vstd::prelude::*;
use crate::hashing::le_bytes;

verus! {

/// Largest length of a raw byte field held on a record or a token.
pub const MAX_RAW_LEN: usize = 32;

/// Size limits of a registry.
#[derive(Clone, Copy, Debug)]
pub struct Config {
    /// Largest length of an email.
    pub max_emailsize: u32,
    /// Largest length of a session token id.
    pub max_tokenid: u32,
    /// Largest length of a token's metadata.
    pub max_access_token_metadata: u32,
    /// Largest number of additional fields on a record.
    pub max_additional_fields: u32,
}

/// Why an operation was refused.
#[derive(Clone, Copy, Debug, PartialEq, Eq, Structural)]
pub enum Error {
    /// A record already exists for the email.
    IdentityAlreadyClaimed,
    /// The referral secret does not match the record's pending referral.
    ReferalFailed,
    /// The credential does not match, or the caller may not act on the record.
    LoginFailed,
    /// The token metadata exceeds its limit.
    MaxMetadataExceeded,
    /// The record is not linked to the service.
    ServiceAccessFailed,
    /// No record, or no account link, was found.
    NoIdentity,
    /// A record would hold more additional fields than allowed.
    TooManyFields,
    /// A byte field exceeds its limit.
    FieldTooLarge,
    /// A session token id is empty.
    InvalidTokenid,
}

/// The notification that a successful operation hands back.
#[derive(Clone, Debug, PartialEq, Eq)]
pub enum Event {
    /// A record was created for the email.
    UserRegistered { who: Vec<u8> },
    /// A record was updated on behalf of the account.
    IdentitySet { who: u64 },
    /// The email's record was linked to a new account.
    UserWeb3registered { who: Vec<u8> },
    /// A session was opened for the email with the token id.
    UserWeb3loginsuccess { who: Vec<u8>, blocksession: Vec<u8> },
    /// The account's session was closed.
    UserWeb3logout { who: u64 },
}

/// The referral state of a record.
#[derive(Clone, Debug, PartialEq, Eq)]
pub enum Referral {
    /// No referral was ever set.
    Unset,
    /// The digest of a referral secret that may still be used once.
    Pending(Vec<u8>),
    /// The referral was used.
    Consumed,
}

/// Whether `r` is a pending referral with digest `h`.
pub open spec fn referral_matches(r: Referral, h: Seq<u8>) -> bool {
    match r {
        Referral::Pending(d) => d@ == h,
        _ => false,
    }
}

/// A session token.
#[derive(Clone, Debug)]
pub struct TokenInfo {
    /// Token metadata.
    pub metadata: Vec<u8>,
    /// The account that opened the session.
    pub owner: u64,
    /// Token properties.
    pub data: Vec<u8>,
}

/// The identity stored under one email.
#[derive(Clone, Debug)]
pub struct IdentityRecord {
    /// The account that owns the identity.
    pub owner: u64,
    /// Digest of the credential.
    pub credential_hash: Vec<u8>,
    /// Referral state.
    pub referral: Referral,
    /// Id of the current session token; empty when none.
    pub access_token: Vec<u8>,
    /// The service that the identity may access; empty when none.
    pub linked_service: Vec<u8>,
    /// Display name.
    pub display: Vec<u8>,
    /// Legal name.
    pub legal: Vec<u8>,
    /// Additional key and value pairs.
    pub additional: Vec<(Vec<u8>, Vec<u8>)>,
}

/// The bytes of "ten", the display name of a new record.
pub open spec fn default_display() -> Seq<u8> {
    seq![116u8, 101u8, 110u8]
}

/// The bytes of "number".
pub open spec fn number_key() -> Seq<u8> {
    seq![110u8, 117u8, 109u8, 98u8, 101u8, 114u8]
}

/// The bytes of "text".
pub open spec fn text_key() -> Seq<u8> {
    seq![116u8, 101u8, 120u8, 116u8]
}

/// The bytes of "10".
pub open spec fn ten_text() -> Seq<u8> {
    seq![49u8, 48u8]
}

/// The additional fields of a new record: "number" holding 10 encoded as
/// four bytes, and "text" holding "10".
pub open spec fn default_additional() -> Seq<(Seq<u8>, Seq<u8>)> {
    seq![(number_key(), le_bytes(10)), (text_key(), ten_text())]
}

/// The bytes of a list of additional fields.
pub open spec fn fields_view(f: Seq<(Vec<u8>, Vec<u8>)>) -> Seq<(Seq<u8>, Seq<u8>)> {
    f.map_values(|p: (Vec<u8>, Vec<u8>)| (p.0@, p.1@))
}

/// Whether `rec` is a new record of `owner` with credential digest `hash`.
pub open spec fn is_new_record(rec: IdentityRecord, owner: u64, hash: Seq<u8>) -> bool {
    &&& rec.owner == owner
    &&& rec.credential_hash@ == hash
    &&& rec.referral == Referral::Unset
    &&& rec.access_token@.len() == 0
    &&& rec.linked_service@.len() == 0
    &&& rec.display@ == default_display()
    &&& rec.legal@.len() == 0
    &&& fields_view(rec.additional@) == default_additional()
}

/// The bytes of "wordpress", the metadata of a session token.
pub open spec fn token_metadata() -> Seq<u8> {
    seq![119u8, 111u8, 114u8, 100u8, 112u8, 114u8, 101u8, 115u8, 115u8]
}

/// The bytes of "allowed", the data of a session token.
pub open spec fn token_data() -> Seq<u8> {
    seq![97u8, 108u8, 108u8, 111u8, 119u8, 101u8, 100u8]
}

/// Whether `t` is the token of a session opened by `owner`.
pub open spec fn is_session_token(t: TokenInfo, owner: u64) -> bool {
    &&& t.owner == owner
    &&& t.metadata@ == token_metadata()
    &&& t.data@ == token_data()
}

/// A new record of `owner` with credential digest `hash`.
pub fn new_record(owner: u64, hash: Vec<u8>) -> (rec: IdentityRecord)
    ensures
        is_new_record(rec, owner, hash@),
{
    let mut additional: Vec<(Vec<u8>, Vec<u8>)> = Vec::new();
    additional.push((vec![110u8, 117u8, 109u8, 98u8, 101u8, 114u8], crate::hashing::encode_u32(10)));
    additional.push((vec![116u8, 101u8, 120u8, 116u8], vec![49u8, 48u8]));
    let rec = IdentityRecord {
        owner,
        credential_hash: hash,
        referral: Referral::Unset,
        access_token: Vec::new(),
        linked_service: Vec::new(),
        display: vec![116u8, 101u8, 110u8],
        legal: Vec::new(),
        additional,
    };
    assert(fields_view(rec.additional@) =~= default_additional());
    rec
}

/// The token of a session opened by `owner`.
pub fn session_token(owner: u64) -> (t: TokenInfo)
    ensures
        is_session_token(t, owner),
{
    let t = TokenInfo {
        metadata: vec![119u8, 111u8, 114u8, 100u8, 112u8, 114u8, 101u8, 115u8, 115u8],
        owner,
        data: vec![97u8, 108u8, 108u8, 111u8, 119u8, 101u8, 100u8],
    };
    assert(t.metadata@ =~= token_metadata());
    assert(t.data@ =~= token_data());
    t
}

} // verus!
