//! Trusted declarations for the outside crates the protocol engine calls:
//! `ziffle` for the cryptography, `ark-serialize` and `base64` for the
//! transport encoding, and `getrandom`/`rand` for entropy. Every contract
//! here is believed, not proved; each doc comment names the outside function
//! relied on and what is assumed of it.

use vstd::multiset::Multiset;
use vstd::prelude::*;

use crate::errors::PokerError;
use crate::DECK_SIZE;

verus! {

// ---------------------------------------------------------------------------
// Outside types, declared so they can stand in signatures and fields.
// ---------------------------------------------------------------------------

#[verifier::external_type_specification]
#[verifier::external_body]
pub struct ExSecretKey(ziffle::SecretKey);

#[verifier::external_type_specification]
#[verifier::external_body]
pub struct ExPublicKey(ziffle::PublicKey);

#[verifier::external_type_specification]
#[verifier::external_body]
pub struct ExOwnershipProof(ziffle::OwnershipProof);

#[verifier::external_type_specification]
#[verifier::external_body]
pub struct ExAggregatePublicKey(ziffle::AggregatePublicKey);

#[verifier::external_type_specification]
#[verifier::external_body]
pub struct ExMaskedCard(ziffle::MaskedCard);

#[verifier::external_type_specification]
#[verifier::external_body]
pub struct ExMaskedDeck<const N: usize>(ziffle::MaskedDeck<N>);

#[verifier::external_type_specification]
#[verifier::external_body]
pub struct ExShuffleProof<const N: usize>(ziffle::ShuffleProof<N>);

#[verifier::external_type_specification]
#[verifier::external_body]
pub struct ExRevealToken(ziffle::RevealToken);

#[verifier::external_type_specification]
#[verifier::external_body]
pub struct ExRevealTokenProof(ziffle::RevealTokenProof);

#[verifier::external_type_specification]
#[verifier::external_body]
pub struct ExAggregateRevealToken(ziffle::AggregateRevealToken);

#[verifier::external_type_specification]
#[verifier::external_body]
#[verifier::reject_recursive_types(T)]
pub struct ExVerified<T>(ziffle::Verified<T>);

#[verifier::external_type_specification]
#[verifier::external_body]
pub struct ExStdRng(rand::rngs::StdRng);

// ---------------------------------------------------------------------------
// Names for what the outside calls return. Each is a fixed function of its
// arguments alone; the wrappers below say what is known of it.
// ---------------------------------------------------------------------------

/// The public key the group generator yields for a secret key.
pub uninterp spec fn pk_of_sk(sk: ziffle::SecretKey) -> ziffle::PublicKey;

/// Whether an ownership proof passes its verification equation for a public
/// key under a session context.
pub uninterp spec fn ownership_check(
    pk: ziffle::PublicKey,
    pf: ziffle::OwnershipProof,
    ctx: Seq<u8>,
) -> bool;

/// The key a verified-key capability wraps.
pub uninterp spec fn vpk_value(v: ziffle::Verified<ziffle::PublicKey>) -> ziffle::PublicKey;

/// The deck a verified-deck capability wraps.
pub uninterp spec fn vdeck_value(
    v: ziffle::Verified<ziffle::MaskedDeck<DECK_SIZE>>,
) -> ziffle::MaskedDeck<DECK_SIZE>;

/// The token a verified-token capability wraps.
pub uninterp spec fn vtoken_value(v: ziffle::Verified<ziffle::RevealToken>) -> ziffle::RevealToken;

/// The aggregate of a multiset of public keys (the group sum; order-free).
pub uninterp spec fn agg_key_of(
    keys: Multiset<ziffle::PublicKey>,
) -> ziffle::AggregatePublicKey;

/// The aggregate of a multiset of reveal tokens (the group sum; order-free).
pub uninterp spec fn agg_token_of(
    tokens: Multiset<ziffle::RevealToken>,
) -> ziffle::AggregateRevealToken;

/// Whether a shuffle proof passes its check for the initial shuffle: from the
/// canonical deck to `next`, under `apk` and `ctx`.
pub uninterp spec fn initial_shuffle_check(
    apk: ziffle::AggregatePublicKey,
    next: ziffle::MaskedDeck<DECK_SIZE>,
    pf: ziffle::ShuffleProof<DECK_SIZE>,
    ctx: Seq<u8>,
) -> bool;

/// Whether a shuffle proof passes its check for a chained shuffle: from the
/// previously verified deck `prev` to `next`, under `apk` and `ctx`.
pub uninterp spec fn chained_shuffle_check(
    apk: ziffle::AggregatePublicKey,
    prev: ziffle::MaskedDeck<DECK_SIZE>,
    next: ziffle::MaskedDeck<DECK_SIZE>,
    pf: ziffle::ShuffleProof<DECK_SIZE>,
    ctx: Seq<u8>,
) -> bool;

/// The card a masked deck holds at a position.
pub uninterp spec fn deck_card_at(deck: ziffle::MaskedDeck<DECK_SIZE>, i: int) -> ziffle::MaskedCard;

/// Whether a reveal-token proof passes its check for a key, token and card
/// under a session context.
pub uninterp spec fn token_check(
    pk: ziffle::PublicKey,
    token: ziffle::RevealToken,
    card: ziffle::MaskedCard,
    pf: ziffle::RevealTokenProof,
    ctx: Seq<u8>,
) -> bool;

/// What decrypting a card with an aggregate reveal token yields: the index of
/// the canonical card the plaintext matches, if any.
pub uninterp spec fn reveal_outcome(
    art: ziffle::AggregateRevealToken,
    card: ziffle::MaskedCard,
) -> Option<usize>;

// ---------------------------------------------------------------------------
// Entropy.
// ---------------------------------------------------------------------------

/// Relies on getrandom::fill: fills the buffer from the operating system's
/// entropy source, or reports that entropy is unavailable. Nothing is assumed
/// of the bytes themselves.
#[verifier::external_body]
fn os_random_seed() -> (r: Result<[u8; 32], PokerError>)
    ensures
        r is Err ==> r->Err_0 == PokerError::RandomnessFailure,
{
    let mut seed = [0u8; 32];
    match getrandom::fill(&mut seed) {
        Ok(()) => Ok(seed),
        Err(_) => Err(PokerError::RandomnessFailure),
    }
}

/// Relies on rand::rngs::StdRng::from_seed (SeedableRng): constructs a
/// generator from a seed. Nothing is assumed of what it generates.
#[verifier::external_body]
fn rng_from_seed(seed: [u8; 32]) -> (r: rand::rngs::StdRng) {
    <rand::rngs::StdRng as rand::SeedableRng>::from_seed(seed)
}

/// Acquires a fresh generator seeded from the operating system: the single
/// entry point for entropy in this crate.
pub fn fresh_rng() -> (r: Result<rand::rngs::StdRng, PokerError>)
    ensures
        r is Err ==> r->Err_0 == PokerError::RandomnessFailure,
{
    match os_random_seed() {
        Ok(seed) => Ok(rng_from_seed(seed)),
        Err(e) => Err(e),
    }
}

// ---------------------------------------------------------------------------
// Protocol calls.
// ---------------------------------------------------------------------------

/// Relies on ziffle::Shuffle::keygen: samples a secret scalar, derives the
/// public key from the group generator, and builds a Schnorr ownership proof
/// whose Fiat–Shamir challenge is bound to `ctx`. The key pair always
/// matches, and the proof construction satisfies the verification equation
/// for every random choice (perfect completeness of the sigma protocol).
#[verifier::external_body]
pub(crate) fn keygen_raw(rng: &mut rand::rngs::StdRng, ctx: &[u8]) -> (r: (
    ziffle::SecretKey,
    ziffle::PublicKey,
    ziffle::OwnershipProof,
))
    ensures
        r.1 == pk_of_sk(r.0),
        ownership_check(r.1, r.2, ctx@),
{
    let shuffle = ziffle::Shuffle::<DECK_SIZE>::default();
    shuffle.keygen(rng, ctx)
}

/// Relies on ziffle::OwnershipProof::verify: recomputes the challenge from
/// the key and context and checks the Schnorr equation; deterministic, and on
/// success the returned capability wraps exactly the key that was checked.
#[verifier::external_body]
pub(crate) fn verify_ownership_raw(
    pk: &ziffle::PublicKey,
    pf: &ziffle::OwnershipProof,
    ctx: &[u8],
) -> (r: Option<ziffle::Verified<ziffle::PublicKey>>)
    ensures
        r is Some <==> ownership_check(*pk, *pf, ctx@),
        r is Some ==> vpk_value(r->0) == *pk,
{
    pf.verify(*pk, ctx)
}

/// Relies on ziffle::AggregatePublicKey::new: sums the wrapped keys in the
/// curve group. Group addition is commutative and associative, so the result
/// depends only on the multiset of the keys.
#[verifier::external_body]
pub(crate) fn aggregate_keys_raw(keys: &Vec<ziffle::Verified<ziffle::PublicKey>>) -> (r:
    ziffle::AggregatePublicKey)
    ensures
        r == agg_key_of(
            keys@.map_values(|v: ziffle::Verified<ziffle::PublicKey>| vpk_value(v)).to_multiset(),
        ),
{
    ziffle::AggregatePublicKey::new(keys.as_slice())
}

/// Relies on ziffle::AggregateRevealToken::new: sums the wrapped tokens in
/// the curve group; as for keys, the result depends only on the multiset.
#[verifier::external_body]
pub(crate) fn aggregate_tokens_raw(tokens: &Vec<ziffle::Verified<ziffle::RevealToken>>) -> (r:
    ziffle::AggregateRevealToken)
    ensures
        r == agg_token_of(
            tokens@.map_values(
                |v: ziffle::Verified<ziffle::RevealToken>| vtoken_value(v),
            ).to_multiset(),
        ),
{
    ziffle::AggregateRevealToken::new(tokens.as_slice())
}

/// Relies on ziffle::Shuffle::shuffle_initial_deck with the default parameter
/// set (Shuffle::default() derives its commitment key and card table from
/// fixed seeds, so it is one deterministic value): permutes and masks the
/// canonical deck under `apk` and proves it. The produced proof passes
/// the initial-shuffle check for the produced deck for every random choice
/// (perfect completeness of the shuffle argument).
#[verifier::external_body]
pub(crate) fn shuffle_initial_raw(
    rng: &mut rand::rngs::StdRng,
    apk: &ziffle::AggregatePublicKey,
    ctx: &[u8],
) -> (r: (ziffle::MaskedDeck<DECK_SIZE>, ziffle::ShuffleProof<DECK_SIZE>))
    ensures
        initial_shuffle_check(*apk, r.0, r.1, ctx@),
{
    let shuffle = ziffle::Shuffle::<DECK_SIZE>::default();
    shuffle.shuffle_initial_deck(rng, *apk, ctx)
}

/// Relies on ziffle::Shuffle::shuffle_deck (default parameter set, as above):
/// permutes and re-masks the previously verified deck under `apk` and proves
/// it; the proof passes the chained check from that deck for every random
/// choice.
#[verifier::external_body]
pub(crate) fn shuffle_next_raw(
    rng: &mut rand::rngs::StdRng,
    apk: &ziffle::AggregatePublicKey,
    prev: &ziffle::Verified<ziffle::MaskedDeck<DECK_SIZE>>,
    ctx: &[u8],
) -> (r: (ziffle::MaskedDeck<DECK_SIZE>, ziffle::ShuffleProof<DECK_SIZE>))
    ensures
        chained_shuffle_check(*apk, vdeck_value(*prev), r.0, r.1, ctx@),
{
    let shuffle = ziffle::Shuffle::<DECK_SIZE>::default();
    shuffle.shuffle_deck(rng, *apk, prev, ctx)
}

/// Relies on ziffle::Shuffle::verify_initial_shuffle (default parameter set,
/// as above): checks the proof against the canonical deck, `next`, `apk` and
/// `ctx`; deterministic, and on success the capability wraps exactly `next`.
#[verifier::external_body]
pub(crate) fn verify_initial_shuffle_raw(
    apk: &ziffle::AggregatePublicKey,
    next: &ziffle::MaskedDeck<DECK_SIZE>,
    pf: &ziffle::ShuffleProof<DECK_SIZE>,
    ctx: &[u8],
) -> (r: Option<ziffle::Verified<ziffle::MaskedDeck<DECK_SIZE>>>)
    ensures
        r is Some <==> initial_shuffle_check(*apk, *next, *pf, ctx@),
        r is Some ==> vdeck_value(r->0) == *next,
{
    let shuffle = ziffle::Shuffle::<DECK_SIZE>::default();
    shuffle.verify_initial_shuffle(*apk, *next, *pf, ctx)
}

/// Relies on ziffle::Shuffle::verify_shuffle (default parameter set, as
/// above): checks the proof against the deck wrapped by the verified `prev`,
/// `next`, `apk` and `ctx`; deterministic, and on success the capability
/// wraps exactly `next`.
#[verifier::external_body]
pub(crate) fn verify_shuffle_raw(
    apk: &ziffle::AggregatePublicKey,
    prev: &ziffle::Verified<ziffle::MaskedDeck<DECK_SIZE>>,
    next: &ziffle::MaskedDeck<DECK_SIZE>,
    pf: &ziffle::ShuffleProof<DECK_SIZE>,
    ctx: &[u8],
) -> (r: Option<ziffle::Verified<ziffle::MaskedDeck<DECK_SIZE>>>)
    ensures
        r is Some <==> chained_shuffle_check(*apk, vdeck_value(*prev), *next, *pf, ctx@),
        r is Some ==> vdeck_value(r->0) == *next,
{
    let shuffle = ziffle::Shuffle::<DECK_SIZE>::default();
    shuffle.verify_shuffle(*apk, prev, *next, *pf, ctx)
}

/// Relies on ziffle::Verified::<MaskedDeck>::get: position lookup in the
/// wrapped deck; Some exactly below the deck size, and the card returned is
/// the deck's card at that position.
#[verifier::external_body]
pub(crate) fn deck_get_raw(
    deck: &ziffle::Verified<ziffle::MaskedDeck<DECK_SIZE>>,
    idx: usize,
) -> (r: Option<ziffle::MaskedCard>)
    ensures
        r is Some <==> idx < DECK_SIZE,
        r is Some ==> r->0 == deck_card_at(vdeck_value(*deck), idx as int),
{
    deck.get(idx)
}

/// Relies on ziffle::MaskedCard::reveal_token: computes the player's
/// decryption share for the card and a Chaum–Pedersen proof that the share is
/// consistent with the player's key, bound to `ctx`. When the public key is
/// the one derived from the secret key, the proof construction passes the
/// check for every random choice (perfect completeness).
#[verifier::external_body]
pub(crate) fn reveal_token_raw(
    rng: &mut rand::rngs::StdRng,
    sk: &ziffle::SecretKey,
    pk: &ziffle::PublicKey,
    card: &ziffle::MaskedCard,
    ctx: &[u8],
) -> (r: (ziffle::RevealToken, ziffle::RevealTokenProof))
    ensures
        *pk == pk_of_sk(*sk) ==> token_check(*pk, r.0, *card, r.1, ctx@),
{
    card.reveal_token(rng, sk, *pk, ctx)
}

/// Relies on ziffle::RevealTokenProof::verify: recomputes the challenge and
/// checks both Chaum–Pedersen equations against the key wrapped by the
/// verified `pk`; deterministic, and on success the capability wraps exactly
/// the token that was checked.
#[verifier::external_body]
pub(crate) fn verify_reveal_token_raw(
    vpk: &ziffle::Verified<ziffle::PublicKey>,
    token: &ziffle::RevealToken,
    pf: &ziffle::RevealTokenProof,
    card: &ziffle::MaskedCard,
    ctx: &[u8],
) -> (r: Option<ziffle::Verified<ziffle::RevealToken>>)
    ensures
        r is Some <==> token_check(vpk_value(*vpk), *token, *card, *pf, ctx@),
        r is Some ==> vtoken_value(r->0) == *token,
{
    pf.verify(*vpk, *token, *card, ctx)
}

/// Relies on ziffle::Shuffle::reveal_card (default parameter set, as above):
/// subtracts the aggregate share from the card's second component and looks
/// the plaintext up in the fixed canonical card table; deterministic, and any
/// index found is a position in that table, so below the deck size.
#[verifier::external_body]
pub(crate) fn reveal_card_raw(
    art: &ziffle::AggregateRevealToken,
    card: &ziffle::MaskedCard,
) -> (r: Option<usize>)
    ensures
        r == reveal_outcome(*art, *card),
        r is Some ==> r->0 < DECK_SIZE,
{
    let shuffle = ziffle::Shuffle::<DECK_SIZE>::default();
    shuffle.reveal_card(*art, *card)
}

} // verus!
