//! Transport encoding of protocol values: the canonical compressed byte
//! encoding from `ark-serialize`, wrapped in text-safe base64. Importing
//! rejects anything that does not decode, with `MalformedInput`; exporting a
//! value and importing the result always gives the value back (the round-trip
//! laws at the end of this module).

use vstd::prelude::*;

use crate::errors::PokerError;
use crate::DECK_SIZE;

verus! {

// ---------------------------------------------------------------------------
// Names for the canonical encodings, and the trusted calls that realize them.
// ---------------------------------------------------------------------------

/// The canonical compressed encoding of a secret key.
pub uninterp spec fn sk_bytes(v: ziffle::SecretKey) -> Seq<u8>;

/// What deserializing bytes as a secret key yields.
pub uninterp spec fn sk_of_bytes(b: Seq<u8>) -> Option<ziffle::SecretKey>;

/// The canonical compressed encoding of a public key.
pub uninterp spec fn pk_bytes(v: ziffle::PublicKey) -> Seq<u8>;

/// What deserializing bytes as a public key yields.
pub uninterp spec fn pk_of_bytes(b: Seq<u8>) -> Option<ziffle::PublicKey>;

/// The canonical compressed encoding of an ownership proof.
pub uninterp spec fn own_bytes(v: ziffle::OwnershipProof) -> Seq<u8>;

/// What deserializing bytes as an ownership proof yields.
pub uninterp spec fn own_of_bytes(b: Seq<u8>) -> Option<ziffle::OwnershipProof>;

/// The canonical compressed encoding of a masked deck.
pub uninterp spec fn deck_bytes(v: ziffle::MaskedDeck<DECK_SIZE>) -> Seq<u8>;

/// What deserializing bytes as a masked deck yields.
pub uninterp spec fn deck_of_bytes(b: Seq<u8>) -> Option<ziffle::MaskedDeck<DECK_SIZE>>;

/// The canonical compressed encoding of a shuffle proof.
pub uninterp spec fn sproof_bytes(v: ziffle::ShuffleProof<DECK_SIZE>) -> Seq<u8>;

/// What deserializing bytes as a shuffle proof yields.
pub uninterp spec fn sproof_of_bytes(b: Seq<u8>) -> Option<ziffle::ShuffleProof<DECK_SIZE>>;

/// The canonical compressed encoding of a reveal token.
pub uninterp spec fn token_bytes(v: ziffle::RevealToken) -> Seq<u8>;

/// What deserializing bytes as a reveal token yields.
pub uninterp spec fn token_of_bytes(b: Seq<u8>) -> Option<ziffle::RevealToken>;

/// The canonical compressed encoding of a reveal-token proof.
pub uninterp spec fn tproof_bytes(v: ziffle::RevealTokenProof) -> Seq<u8>;

/// What deserializing bytes as a reveal-token proof yields.
pub uninterp spec fn tproof_of_bytes(b: Seq<u8>) -> Option<ziffle::RevealTokenProof>;

/// The standard padded base64 encoding of a byte string.
pub uninterp spec fn b64_of(b: Seq<u8>) -> Seq<char>;

/// What strict standard-alphabet base64 decoding yields for a string.
pub uninterp spec fn b64_decoded(s: Seq<char>) -> Option<Seq<u8>>;

/// Relies on base64's STANDARD engine encode: a deterministic, padded
/// encoding over the standard alphabet.
#[verifier::external_body]
fn b64_encode(b: &Vec<u8>) -> (r: String)
    ensures
        r@ == b64_of(b@),
{
    base64::engine::Engine::encode(&base64::engine::general_purpose::STANDARD, b)
}

/// Relies on base64's STANDARD engine decode: deterministic, and it inverts
/// the encode — a string produced by encoding decodes to the encoded bytes.
#[verifier::external_body]
fn b64_decode(s: &str) -> (r: Option<Vec<u8>>)
    ensures
        r is Some <==> b64_decoded(s@) is Some,
        r is Some ==> r->0@ == b64_decoded(s@)->0,
        forall|b: Seq<u8>| s@ == b64_of(b) ==> (r is Some && r->0@ == b),
{
    base64::engine::Engine::decode(&base64::engine::general_purpose::STANDARD, s).ok()
}

// Serialization into an in-memory buffer cannot fail for these types: their
// writers never error, which ziffle itself leans on when it serializes with
// expect("infallible serialization").

/// Relies on ark_serialize::CanonicalSerialize::serialize_compressed for
/// ziffle::SecretKey.
#[verifier::external_body]
fn ser_sk(v: &ziffle::SecretKey) -> (r: Vec<u8>)
    ensures
        r@ == sk_bytes(*v),
{
    let mut buf = Vec::new();
    ark_serialize::CanonicalSerialize::serialize_compressed(v, &mut buf)
        .expect("infallible serialization");
    buf
}

/// Relies on ark_serialize::CanonicalDeserialize::deserialize_compressed for
/// ziffle::SecretKey: deterministic, and it inverts the canonical encoding.
#[verifier::external_body]
fn deser_sk(b: &[u8]) -> (r: Option<ziffle::SecretKey>)
    ensures
        r == sk_of_bytes(b@),
        forall|v: ziffle::SecretKey| sk_bytes(v) == b@ ==> r == Some(v),
{
    ark_serialize::CanonicalDeserialize::deserialize_compressed(b).ok()
}

/// Relies on ark_serialize::CanonicalSerialize::serialize_compressed for
/// ziffle::PublicKey.
#[verifier::external_body]
fn ser_pk(v: &ziffle::PublicKey) -> (r: Vec<u8>)
    ensures
        r@ == pk_bytes(*v),
{
    let mut buf = Vec::new();
    ark_serialize::CanonicalSerialize::serialize_compressed(v, &mut buf)
        .expect("infallible serialization");
    buf
}

/// Relies on ark_serialize::CanonicalDeserialize::deserialize_compressed for
/// ziffle::PublicKey: deterministic, and it inverts the canonical encoding.
#[verifier::external_body]
fn deser_pk(b: &[u8]) -> (r: Option<ziffle::PublicKey>)
    ensures
        r == pk_of_bytes(b@),
        forall|v: ziffle::PublicKey| pk_bytes(v) == b@ ==> r == Some(v),
{
    ark_serialize::CanonicalDeserialize::deserialize_compressed(b).ok()
}

/// Relies on ark_serialize::CanonicalSerialize::serialize_compressed for
/// ziffle::OwnershipProof.
#[verifier::external_body]
fn ser_own(v: &ziffle::OwnershipProof) -> (r: Vec<u8>)
    ensures
        r@ == own_bytes(*v),
{
    let mut buf = Vec::new();
    ark_serialize::CanonicalSerialize::serialize_compressed(v, &mut buf)
        .expect("infallible serialization");
    buf
}

/// Relies on ark_serialize::CanonicalDeserialize::deserialize_compressed for
/// ziffle::OwnershipProof: deterministic, and it inverts the canonical
/// encoding.
#[verifier::external_body]
fn deser_own(b: &[u8]) -> (r: Option<ziffle::OwnershipProof>)
    ensures
        r == own_of_bytes(b@),
        forall|v: ziffle::OwnershipProof| own_bytes(v) == b@ ==> r == Some(v),
{
    ark_serialize::CanonicalDeserialize::deserialize_compressed(b).ok()
}

/// Relies on ark_serialize::CanonicalSerialize::serialize_compressed for
/// ziffle::MaskedDeck.
#[verifier::external_body]
fn ser_deck(v: &ziffle::MaskedDeck<DECK_SIZE>) -> (r: Vec<u8>)
    ensures
        r@ == deck_bytes(*v),
{
    let mut buf = Vec::new();
    ark_serialize::CanonicalSerialize::serialize_compressed(v, &mut buf)
        .expect("infallible serialization");
    buf
}

/// Relies on ark_serialize::CanonicalDeserialize::deserialize_compressed for
/// ziffle::MaskedDeck: deterministic, and it inverts the canonical encoding.
#[verifier::external_body]
fn deser_deck(b: &[u8]) -> (r: Option<ziffle::MaskedDeck<DECK_SIZE>>)
    ensures
        r == deck_of_bytes(b@),
        forall|v: ziffle::MaskedDeck<DECK_SIZE>| deck_bytes(v) == b@ ==> r == Some(v),
{
    ark_serialize::CanonicalDeserialize::deserialize_compressed(b).ok()
}

/// Relies on ark_serialize::CanonicalSerialize::serialize_compressed for
/// ziffle::ShuffleProof.
#[verifier::external_body]
fn ser_sproof(v: &ziffle::ShuffleProof<DECK_SIZE>) -> (r: Vec<u8>)
    ensures
        r@ == sproof_bytes(*v),
{
    let mut buf = Vec::new();
    ark_serialize::CanonicalSerialize::serialize_compressed(v, &mut buf)
        .expect("infallible serialization");
    buf
}

/// Relies on ark_serialize::CanonicalDeserialize::deserialize_compressed for
/// ziffle::ShuffleProof: deterministic, and it inverts the canonical
/// encoding.
#[verifier::external_body]
fn deser_sproof(b: &[u8]) -> (r: Option<ziffle::ShuffleProof<DECK_SIZE>>)
    ensures
        r == sproof_of_bytes(b@),
        forall|v: ziffle::ShuffleProof<DECK_SIZE>| sproof_bytes(v) == b@ ==> r == Some(v),
{
    ark_serialize::CanonicalDeserialize::deserialize_compressed(b).ok()
}

/// Relies on ark_serialize::CanonicalSerialize::serialize_compressed for
/// ziffle::RevealToken.
#[verifier::external_body]
fn ser_token(v: &ziffle::RevealToken) -> (r: Vec<u8>)
    ensures
        r@ == token_bytes(*v),
{
    let mut buf = Vec::new();
    ark_serialize::CanonicalSerialize::serialize_compressed(v, &mut buf)
        .expect("infallible serialization");
    buf
}

/// Relies on ark_serialize::CanonicalDeserialize::deserialize_compressed for
/// ziffle::RevealToken: deterministic, and it inverts the canonical encoding.
#[verifier::external_body]
fn deser_token(b: &[u8]) -> (r: Option<ziffle::RevealToken>)
    ensures
        r == token_of_bytes(b@),
        forall|v: ziffle::RevealToken| token_bytes(v) == b@ ==> r == Some(v),
{
    ark_serialize::CanonicalDeserialize::deserialize_compressed(b).ok()
}

/// Relies on ark_serialize::CanonicalSerialize::serialize_compressed for
/// ziffle::RevealTokenProof.
#[verifier::external_body]
fn ser_tproof(v: &ziffle::RevealTokenProof) -> (r: Vec<u8>)
    ensures
        r@ == tproof_bytes(*v),
{
    let mut buf = Vec::new();
    ark_serialize::CanonicalSerialize::serialize_compressed(v, &mut buf)
        .expect("infallible serialization");
    buf
}

/// Relies on ark_serialize::CanonicalDeserialize::deserialize_compressed for
/// ziffle::RevealTokenProof: deterministic, and it inverts the canonical
/// encoding.
#[verifier::external_body]
fn deser_tproof(b: &[u8]) -> (r: Option<ziffle::RevealTokenProof>)
    ensures
        r == tproof_of_bytes(b@),
        forall|v: ziffle::RevealTokenProof| tproof_bytes(v) == b@ ==> r == Some(v),
{
    ark_serialize::CanonicalDeserialize::deserialize_compressed(b).ok()
}

// ---------------------------------------------------------------------------
// The verified transport layer: base64 around the canonical bytes.
// ---------------------------------------------------------------------------

/// The secret key a transport string denotes, if it decodes.
pub open spec fn spec_import_sk(s: Seq<char>) -> Option<ziffle::SecretKey> {
    match b64_decoded(s) {
        Some(b) => sk_of_bytes(b),
        None => None,
    }
}

/// The public key a transport string denotes, if it decodes.
pub open spec fn spec_import_pk(s: Seq<char>) -> Option<ziffle::PublicKey> {
    match b64_decoded(s) {
        Some(b) => pk_of_bytes(b),
        None => None,
    }
}

/// The ownership proof a transport string denotes, if it decodes.
pub open spec fn spec_import_own(s: Seq<char>) -> Option<ziffle::OwnershipProof> {
    match b64_decoded(s) {
        Some(b) => own_of_bytes(b),
        None => None,
    }
}

/// The masked deck a transport string denotes, if it decodes.
pub open spec fn spec_import_deck(s: Seq<char>) -> Option<ziffle::MaskedDeck<DECK_SIZE>> {
    match b64_decoded(s) {
        Some(b) => deck_of_bytes(b),
        None => None,
    }
}

/// The shuffle proof a transport string denotes, if it decodes.
pub open spec fn spec_import_sproof(s: Seq<char>) -> Option<ziffle::ShuffleProof<DECK_SIZE>> {
    match b64_decoded(s) {
        Some(b) => sproof_of_bytes(b),
        None => None,
    }
}

/// The reveal token a transport string denotes, if it decodes.
pub open spec fn spec_import_token(s: Seq<char>) -> Option<ziffle::RevealToken> {
    match b64_decoded(s) {
        Some(b) => token_of_bytes(b),
        None => None,
    }
}

/// The reveal-token proof a transport string denotes, if it decodes.
pub open spec fn spec_import_tproof(s: Seq<char>) -> Option<ziffle::RevealTokenProof> {
    match b64_decoded(s) {
        Some(b) => tproof_of_bytes(b),
        None => None,
    }
}

/// Exports a secret key in transport encoding.
pub fn export_sk(v: &ziffle::SecretKey) -> (r: String)
    ensures
        r@ == b64_of(sk_bytes(*v)),
{
    b64_encode(&ser_sk(v))
}

/// Imports a secret key, failing with `MalformedInput` exactly when the
/// string does not decode.
pub fn import_sk(s: &str) -> (r: Result<ziffle::SecretKey, PokerError>)
    ensures
        r matches Ok(v) ==> spec_import_sk(s@) == Some(v),
        r is Err <==> spec_import_sk(s@) is None,
        r is Err ==> r->Err_0 == PokerError::MalformedInput,
        forall|v: ziffle::SecretKey| s@ == b64_of(sk_bytes(v)) ==> r == Ok::<_, PokerError>(v),
{
    match b64_decode(s) {
        Some(b) => match deser_sk(b.as_slice()) {
            Some(v) => Ok(v),
            None => Err(PokerError::MalformedInput),
        },
        None => Err(PokerError::MalformedInput),
    }
}

/// Exports a public key in transport encoding.
pub fn export_pk(v: &ziffle::PublicKey) -> (r: String)
    ensures
        r@ == b64_of(pk_bytes(*v)),
{
    b64_encode(&ser_pk(v))
}

/// Imports a public key, failing with `MalformedInput` exactly when the
/// string does not decode.
pub fn import_pk(s: &str) -> (r: Result<ziffle::PublicKey, PokerError>)
    ensures
        r matches Ok(v) ==> spec_import_pk(s@) == Some(v),
        r is Err <==> spec_import_pk(s@) is None,
        r is Err ==> r->Err_0 == PokerError::MalformedInput,
        forall|v: ziffle::PublicKey| s@ == b64_of(pk_bytes(v)) ==> r == Ok::<_, PokerError>(v),
{
    match b64_decode(s) {
        Some(b) => match deser_pk(b.as_slice()) {
            Some(v) => Ok(v),
            None => Err(PokerError::MalformedInput),
        },
        None => Err(PokerError::MalformedInput),
    }
}

/// Exports an ownership proof in transport encoding.
pub fn export_own(v: &ziffle::OwnershipProof) -> (r: String)
    ensures
        r@ == b64_of(own_bytes(*v)),
{
    b64_encode(&ser_own(v))
}

/// Imports an ownership proof, failing with `MalformedInput` exactly when the
/// string does not decode.
pub fn import_own(s: &str) -> (r: Result<ziffle::OwnershipProof, PokerError>)
    ensures
        r matches Ok(v) ==> spec_import_own(s@) == Some(v),
        r is Err <==> spec_import_own(s@) is None,
        r is Err ==> r->Err_0 == PokerError::MalformedInput,
        forall|v: ziffle::OwnershipProof| s@ == b64_of(own_bytes(v)) ==> r == Ok::<_, PokerError>(
            v,
        ),
{
    match b64_decode(s) {
        Some(b) => match deser_own(b.as_slice()) {
            Some(v) => Ok(v),
            None => Err(PokerError::MalformedInput),
        },
        None => Err(PokerError::MalformedInput),
    }
}

/// Exports a masked deck in transport encoding.
pub fn export_deck(v: &ziffle::MaskedDeck<DECK_SIZE>) -> (r: String)
    ensures
        r@ == b64_of(deck_bytes(*v)),
{
    b64_encode(&ser_deck(v))
}

/// Imports a masked deck, failing with `MalformedInput` exactly when the
/// string does not decode.
pub fn import_deck(s: &str) -> (r: Result<ziffle::MaskedDeck<DECK_SIZE>, PokerError>)
    ensures
        r matches Ok(v) ==> spec_import_deck(s@) == Some(v),
        r is Err <==> spec_import_deck(s@) is None,
        r is Err ==> r->Err_0 == PokerError::MalformedInput,
        forall|v: ziffle::MaskedDeck<DECK_SIZE>| s@ == b64_of(deck_bytes(v)) ==> r == Ok::<
            _,
            PokerError,
        >(v),
{
    match b64_decode(s) {
        Some(b) => match deser_deck(b.as_slice()) {
            Some(v) => Ok(v),
            None => Err(PokerError::MalformedInput),
        },
        None => Err(PokerError::MalformedInput),
    }
}

/// Exports a shuffle proof in transport encoding.
pub fn export_sproof(v: &ziffle::ShuffleProof<DECK_SIZE>) -> (r: String)
    ensures
        r@ == b64_of(sproof_bytes(*v)),
{
    b64_encode(&ser_sproof(v))
}

/// Imports a shuffle proof, failing with `MalformedInput` exactly when the
/// string does not decode.
pub fn import_sproof(s: &str) -> (r: Result<ziffle::ShuffleProof<DECK_SIZE>, PokerError>)
    ensures
        r matches Ok(v) ==> spec_import_sproof(s@) == Some(v),
        r is Err <==> spec_import_sproof(s@) is None,
        r is Err ==> r->Err_0 == PokerError::MalformedInput,
        forall|v: ziffle::ShuffleProof<DECK_SIZE>| s@ == b64_of(sproof_bytes(v)) ==> r == Ok::<
            _,
            PokerError,
        >(v),
{
    match b64_decode(s) {
        Some(b) => match deser_sproof(b.as_slice()) {
            Some(v) => Ok(v),
            None => Err(PokerError::MalformedInput),
        },
        None => Err(PokerError::MalformedInput),
    }
}

/// Exports a reveal token in transport encoding.
pub fn export_token(v: &ziffle::RevealToken) -> (r: String)
    ensures
        r@ == b64_of(token_bytes(*v)),
{
    b64_encode(&ser_token(v))
}

/// Imports a reveal token, failing with `MalformedInput` exactly when the
/// string does not decode.
pub fn import_token(s: &str) -> (r: Result<ziffle::RevealToken, PokerError>)
    ensures
        r matches Ok(v) ==> spec_import_token(s@) == Some(v),
        r is Err <==> spec_import_token(s@) is None,
        r is Err ==> r->Err_0 == PokerError::MalformedInput,
        forall|v: ziffle::RevealToken| s@ == b64_of(token_bytes(v)) ==> r == Ok::<_, PokerError>(
            v,
        ),
{
    match b64_decode(s) {
        Some(b) => match deser_token(b.as_slice()) {
            Some(v) => Ok(v),
            None => Err(PokerError::MalformedInput),
        },
        None => Err(PokerError::MalformedInput),
    }
}

/// Exports a reveal-token proof in transport encoding.
pub fn export_tproof(v: &ziffle::RevealTokenProof) -> (r: String)
    ensures
        r@ == b64_of(tproof_bytes(*v)),
{
    b64_encode(&ser_tproof(v))
}

/// Imports a reveal-token proof, failing with `MalformedInput` exactly when
/// the string does not decode.
pub fn import_tproof(s: &str) -> (r: Result<ziffle::RevealTokenProof, PokerError>)
    ensures
        r matches Ok(v) ==> spec_import_tproof(s@) == Some(v),
        r is Err <==> spec_import_tproof(s@) is None,
        r is Err ==> r->Err_0 == PokerError::MalformedInput,
        forall|v: ziffle::RevealTokenProof| s@ == b64_of(tproof_bytes(v)) ==> r == Ok::<
            _,
            PokerError,
        >(v),
{
    match b64_decode(s) {
        Some(b) => match deser_tproof(b.as_slice()) {
            Some(v) => Ok(v),
            None => Err(PokerError::MalformedInput),
        },
        None => Err(PokerError::MalformedInput),
    }
}

// ---------------------------------------------------------------------------
// Round-trip laws: the transport encoding is deterministic and importing an
// exported value gives the value back, for every value.
// ---------------------------------------------------------------------------

/// Round trip: exporting a public key and importing the result returns the
/// same key.
pub fn pk_round_trip(v: &ziffle::PublicKey) -> (r: Result<ziffle::PublicKey, PokerError>)
    ensures
        r == Ok::<_, PokerError>(*v),
{
    let s = export_pk(v);
    import_pk(s.as_str())
}

/// Round trip: exporting a masked deck and importing the result returns the
/// same deck.
pub fn deck_round_trip(v: &ziffle::MaskedDeck<DECK_SIZE>) -> (r: Result<
    ziffle::MaskedDeck<DECK_SIZE>,
    PokerError,
>)
    ensures
        r == Ok::<_, PokerError>(*v),
{
    let s = export_deck(v);
    import_deck(s.as_str())
}

/// Round trip: exporting a shuffle proof and importing the result returns the
/// same proof.
pub fn sproof_round_trip(v: &ziffle::ShuffleProof<DECK_SIZE>) -> (r: Result<
    ziffle::ShuffleProof<DECK_SIZE>,
    PokerError,
>)
    ensures
        r == Ok::<_, PokerError>(*v),
{
    let s = export_sproof(v);
    import_sproof(s.as_str())
}

/// Round trip: exporting a reveal token and importing the result returns the
/// same token.
pub fn token_round_trip(v: &ziffle::RevealToken) -> (r: Result<ziffle::RevealToken, PokerError>)
    ensures
        r == Ok::<_, PokerError>(*v),
{
    let s = export_token(v);
    import_token(s.as_str())
}

} // verus!
