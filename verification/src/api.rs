//! The protocol surface a host drives. Every cryptographic value a host may
//! only use after verification lives in a handle table inside
//! [`ProtocolStore`]; hosts address such values by `u32` handles and exchange
//! unverified values only in transport encoding, so a raw value can never be
//! passed where a verified one is required.

use vstd::multiset::Multiset;
use vstd::prelude::*;
use vstd::string::StringSliceAdditionalSpecFns;

use crate::arena::Arena;
use crate::bridge::{
    agg_key_of, agg_token_of, aggregate_keys_raw, aggregate_tokens_raw, chained_shuffle_check,
    deck_card_at, deck_get_raw, fresh_rng, initial_shuffle_check, keygen_raw, ownership_check,
    pk_of_sk, reveal_card_raw, reveal_outcome, reveal_token_raw, shuffle_initial_raw,
    shuffle_next_raw, token_check, vdeck_value, verify_initial_shuffle_raw, verify_ownership_raw,
    verify_reveal_token_raw, verify_shuffle_raw, vpk_value, vtoken_value,
};
use crate::codec::{
    b64_of, deck_bytes, export_deck, export_own, export_pk, export_sk, export_sproof,
    export_token, export_tproof, import_deck, import_own, import_pk, import_sk, import_sproof,
    import_token, import_tproof, own_bytes, pk_bytes, sk_bytes, spec_import_deck,
    spec_import_own, spec_import_pk, spec_import_sk, spec_import_sproof, spec_import_token,
    spec_import_tproof, sproof_bytes, token_bytes, tproof_bytes,
};
use crate::errors::PokerError;
use crate::DECK_SIZE;

verus! {

/// Outcome of key generation, in transport encoding: the player's secret
/// key, public key and ownership proof.
#[derive(Debug)]
pub struct KeygenOut {
    pub sk_b64: String,
    pub pk_b64: String,
    pub proof_b64: String,
}

/// Outcome of a shuffle, in transport encoding: the new masked deck and the
/// proof that it permutes and re-masks its predecessor.
#[derive(Debug)]
pub struct ShuffleOut {
    pub deck_b64: String,
    pub proof_b64: String,
}

/// Outcome of a partial reveal, in transport encoding: the player's reveal
/// token for one card and the proof that it was derived correctly.
#[derive(Debug)]
pub struct RevealOut {
    pub token_b64: String,
    pub proof_b64: String,
}

/// Generates a fresh key pair and an ownership proof bound to `context`, so
/// the proof convinces nobody in any other session. The only failure is the
/// entropy source.
pub fn keygen(context: &str) -> (r: Result<KeygenOut, PokerError>)
    ensures
        r matches Err(e) ==> e == PokerError::RandomnessFailure,
        r matches Ok(out) ==> exists|sk: ziffle::SecretKey, pf: ziffle::OwnershipProof|
            {
                &&& #[trigger] ownership_check(pk_of_sk(sk), pf, context.spec_bytes())
                &&& out.sk_b64@ == b64_of(sk_bytes(sk))
                &&& out.pk_b64@ == b64_of(pk_bytes(pk_of_sk(sk)))
                &&& out.proof_b64@ == b64_of(own_bytes(pf))
            },
{
    let mut rng = match fresh_rng() {
        Ok(rng) => rng,
        Err(e) => {
            return Err(e);
        },
    };
    let (sk, pk, pf) = keygen_raw(&mut rng, context.as_bytes());
    let out = KeygenOut {
        sk_b64: export_sk(&sk),
        pk_b64: export_pk(&pk),
        proof_b64: export_own(&pf),
    };
    proof {
        assert(ownership_check(pk_of_sk(sk), pf, context.spec_bytes()));
    }
    Ok(out)
}

/// Key generation convinces its verifier: for every context, a key pair and
/// ownership proof from key generation pass the ownership check under that
/// same context. The only failure is the entropy source; the proof check
/// itself can never fail on freshly generated material.
pub fn keygen_self_check(context: &str) -> (r: Result<bool, PokerError>)
    ensures
        r matches Ok(b) ==> b,
        r matches Err(e) ==> e == PokerError::RandomnessFailure,
{
    let mut rng = match fresh_rng() {
        Ok(rng) => rng,
        Err(e) => {
            return Err(e);
        },
    };
    let (_sk, pk, pf) = keygen_raw(&mut rng, context.as_bytes());
    let verified = verify_ownership_raw(&pk, &pf, context.as_bytes());
    Ok(verified.is_some())
}

/// An initial shuffle convinces its verifier: for every aggregate key and
/// context, the deck and proof it produces pass the initial-shuffle check.
/// The only failure is the entropy source.
pub fn initial_shuffle_self_check(apk: &ziffle::AggregatePublicKey, context: &str) -> (r: Result<
    bool,
    PokerError,
>)
    ensures
        r matches Ok(b) ==> b,
        r matches Err(e) ==> e == PokerError::RandomnessFailure,
{
    let mut rng = match fresh_rng() {
        Ok(rng) => rng,
        Err(e) => {
            return Err(e);
        },
    };
    let (deck, pf) = shuffle_initial_raw(&mut rng, apk, context.as_bytes());
    let verified = verify_initial_shuffle_raw(apk, &deck, &pf, context.as_bytes());
    Ok(verified.is_some())
}

/// A chained shuffle convinces its verifier against exactly the verified deck
/// it extended: for every aggregate key, verified predecessor and context,
/// the deck and proof it produces pass the chained-shuffle check. The only
/// failure is the entropy source.
pub fn chained_shuffle_self_check(
    apk: &ziffle::AggregatePublicKey,
    prev: &ziffle::Verified<ziffle::MaskedDeck<DECK_SIZE>>,
    context: &str,
) -> (r: Result<bool, PokerError>)
    ensures
        r matches Ok(b) ==> b,
        r matches Err(e) ==> e == PokerError::RandomnessFailure,
{
    let mut rng = match fresh_rng() {
        Ok(rng) => rng,
        Err(e) => {
            return Err(e);
        },
    };
    let (deck, pf) = shuffle_next_raw(&mut rng, apk, prev, context.as_bytes());
    let verified = verify_shuffle_raw(apk, prev, &deck, &pf, context.as_bytes());
    Ok(verified.is_some())
}

/// The whole reveal path convinces its verifier: a fresh key pair's reveal
/// token for any card passes the token check against that key, once the key
/// itself has been verified. The only failure is the entropy source.
pub fn reveal_token_self_check(card: &ziffle::MaskedCard, context: &str) -> (r: Result<
    bool,
    PokerError,
>)
    ensures
        r matches Ok(b) ==> b,
        r matches Err(e) ==> e == PokerError::RandomnessFailure,
{
    let mut rng = match fresh_rng() {
        Ok(rng) => rng,
        Err(e) => {
            return Err(e);
        },
    };
    let (sk, pk, pf) = keygen_raw(&mut rng, context.as_bytes());
    let vpk = verify_ownership_raw(&pk, &pf, context.as_bytes()).unwrap();
    let (token, tpf) = reveal_token_raw(&mut rng, &sk, &pk, card, context.as_bytes());
    let verified = verify_reveal_token_raw(&vpk, &token, &tpf, card, context.as_bytes());
    Ok(verified.is_some())
}

/// Whether every handle in `hs` is live in the table `m`.
pub open spec fn handles_present<T>(m: Map<u32, T>, hs: Seq<u32>) -> bool {
    forall|i: int| 0 <= i < hs.len() ==> m.dom().contains(#[trigger] hs[i])
}

/// The multiset of keys the handles in `hs` name in the table `m`.
pub open spec fn keys_named(
    m: Map<u32, ziffle::Verified<ziffle::PublicKey>>,
    hs: Seq<u32>,
) -> Multiset<ziffle::PublicKey> {
    hs.map_values(|h: u32| vpk_value(m[h])).to_multiset()
}

/// The multiset of reveal tokens the handles in `hs` name in the table `m`.
pub open spec fn tokens_named(
    m: Map<u32, ziffle::Verified<ziffle::RevealToken>>,
    hs: Seq<u32>,
) -> Multiset<ziffle::RevealToken> {
    hs.map_values(|h: u32| vtoken_value(m[h])).to_multiset()
}

/// Aggregation is order-insensitive: two handle lists that name the same keys
/// as a multiset — in any order — aggregate to the same key.
pub proof fn lemma_aggregate_order_insensitive(
    m: Map<u32, ziffle::Verified<ziffle::PublicKey>>,
    hs1: Seq<u32>,
    hs2: Seq<u32>,
)
    requires
        keys_named(m, hs1) == keys_named(m, hs2),
    ensures
        agg_key_of(keys_named(m, hs1)) == agg_key_of(keys_named(m, hs2)),
{
}

/// The handle tables of one process: every verified value, and every opaque
/// value a host must not see raw, keyed by the handle it was issued.
///
/// All six tables draw their handles from one shared, monotonically
/// increasing counter, so a handle is unique across the whole store: it is
/// never reused after it is freed, and a handle issued for one kind of value
/// is never live in another table — passing it there fails with
/// `MissingHandle`.
pub struct ProtocolStore {
    vpks: Arena<ziffle::Verified<ziffle::PublicKey>>,
    vdecks: Arena<ziffle::Verified<ziffle::MaskedDeck<DECK_SIZE>>>,
    vtokens: Arena<ziffle::Verified<ziffle::RevealToken>>,
    apks: Arena<ziffle::AggregatePublicKey>,
    cards: Arena<ziffle::MaskedCard>,
    arts: Arena<ziffle::AggregateRevealToken>,
    next_id: u32,
}

impl ProtocolStore {
    /// The verified public keys, by handle.
    pub closed spec fn vpk_table(&self) -> Map<u32, ziffle::Verified<ziffle::PublicKey>> {
        self.vpks.contents()
    }

    /// The verified masked decks, by handle.
    pub closed spec fn vdeck_table(&self) -> Map<
        u32,
        ziffle::Verified<ziffle::MaskedDeck<DECK_SIZE>>,
    > {
        self.vdecks.contents()
    }

    /// The verified reveal tokens, by handle.
    pub closed spec fn vtoken_table(&self) -> Map<u32, ziffle::Verified<ziffle::RevealToken>> {
        self.vtokens.contents()
    }

    /// The aggregate public keys, by handle.
    pub closed spec fn apk_table(&self) -> Map<u32, ziffle::AggregatePublicKey> {
        self.apks.contents()
    }

    /// The stored masked cards, by handle.
    pub closed spec fn card_table(&self) -> Map<u32, ziffle::MaskedCard> {
        self.cards.contents()
    }

    /// The aggregate reveal tokens, by handle.
    pub closed spec fn art_table(&self) -> Map<u32, ziffle::AggregateRevealToken> {
        self.arts.contents()
    }

    /// The handle the shared counter will issue next.
    pub closed spec fn next_handle(&self) -> u32 {
        self.next_id
    }

    /// Well-formedness: the shared counter has issued every handle any table
    /// stores under, so it lies strictly above all of them.
    pub closed spec fn wf(&self) -> bool {
        &&& 1 <= self.next_id
        &&& self.vpks.top() < self.next_id
        &&& self.vdecks.top() < self.next_id
        &&& self.vtokens.top() < self.next_id
        &&& self.apks.top() < self.next_id
        &&& self.cards.top() < self.next_id
        &&& self.arts.top() < self.next_id
    }

    /// Whether `h` is live in no table at all: what the shared counter
    /// guarantees of every handle it issues.
    pub open spec fn fresh_handle(&self, h: u32) -> bool {
        &&& !self.vpk_table().dom().contains(h)
        &&& !self.vdeck_table().dom().contains(h)
        &&& !self.vtoken_table().dom().contains(h)
        &&& !self.apk_table().dom().contains(h)
        &&& !self.card_table().dom().contains(h)
        &&& !self.art_table().dom().contains(h)
    }

    /// Every handle any table holds lies below the shared counter, so the
    /// counter's next handle is fresh across the whole store.
    proof fn lemma_next_handle_fresh(&self)
        requires
            self.wf(),
        ensures
            self.fresh_handle(self.next_handle()),
    {
        self.vpks.lemma_keys_bounded();
        self.vdecks.lemma_keys_bounded();
        self.vtokens.lemma_keys_bounded();
        self.apks.lemma_keys_bounded();
        self.cards.lemma_keys_bounded();
        self.arts.lemma_keys_bounded();
    }

    /// Whether another handle can still be issued: the shared counter is
    /// below its bound. Unverified callers test this before any operation
    /// that stores a value.
    pub fn can_issue(&self) -> (r: bool)
        ensures
            r == (self.next_handle() < u32::MAX),
    {
        self.next_id < u32::MAX
    }
    pub fn new() -> (r: Self)
        ensures
            r.wf(),
            r.next_handle() == 1,
            r.vpk_table() == Map::<u32, ziffle::Verified<ziffle::PublicKey>>::empty(),
            r.vdeck_table() == Map::<
                u32,
                ziffle::Verified<ziffle::MaskedDeck<DECK_SIZE>>,
            >::empty(),
            r.vtoken_table() == Map::<u32, ziffle::Verified<ziffle::RevealToken>>::empty(),
            r.apk_table() == Map::<u32, ziffle::AggregatePublicKey>::empty(),
            r.card_table() == Map::<u32, ziffle::MaskedCard>::empty(),
            r.art_table() == Map::<u32, ziffle::AggregateRevealToken>::empty(),
    {
        ProtocolStore {
            vpks: Arena::new(),
            vdecks: Arena::new(),
            vtokens: Arena::new(),
            apks: Arena::new(),
            cards: Arena::new(),
            arts: Arena::new(),
            next_id: 1,
        }
    }

    /// Checks an ownership proof against a public key and `context`, both
    /// given in transport encoding; on success the key becomes a verified key
    /// under a fresh handle. Fails with `MalformedInput` exactly when a
    /// string does not decode, and with `InvalidProof` exactly when the
    /// decoded proof fails its equation.
    pub fn verify_public_key(&mut self, pk_b64: &str, proof_b64: &str, context: &str) -> (r:
        Result<u32, PokerError>)
        requires
            old(self).wf(),
            old(self).next_handle() < u32::MAX,
        ensures
            r == Err::<u32, PokerError>(PokerError::MalformedInput) <==> (spec_import_pk(pk_b64@)
                is None || spec_import_own(proof_b64@) is None),
            r == Err::<u32, PokerError>(PokerError::InvalidProof) <==> (spec_import_pk(pk_b64@)
                is Some && spec_import_own(proof_b64@) is Some && !ownership_check(
                spec_import_pk(pk_b64@)->0,
                spec_import_own(proof_b64@)->0,
                context.spec_bytes(),
            )),
            r matches Err(e) ==> (e == PokerError::MalformedInput || e
                == PokerError::InvalidProof),
            r is Err ==> *final(self) == *old(self),
            final(self).wf(),
            r matches Ok(h) ==> ({
                let pk = spec_import_pk(pk_b64@)->0;
                &&& spec_import_pk(pk_b64@) is Some
                &&& spec_import_own(proof_b64@) is Some
                &&& ownership_check(pk, spec_import_own(proof_b64@)->0, context.spec_bytes())
                &&& h == old(self).next_handle()
                &&& old(self).fresh_handle(h)
                &&& final(self).vpk_table() == old(self).vpk_table().insert(
                    h,
                    final(self).vpk_table()[h],
                )
                &&& vpk_value(final(self).vpk_table()[h]) == pk
                &&& final(self).next_handle() == old(self).next_handle() + 1
                &&& final(self).vdeck_table() == old(self).vdeck_table()
                &&& final(self).vtoken_table() == old(self).vtoken_table()
                &&& final(self).apk_table() == old(self).apk_table()
                &&& final(self).card_table() == old(self).card_table()
                &&& final(self).art_table() == old(self).art_table()
            }),
    {
        let pk = match import_pk(pk_b64) {
            Ok(v) => v,
            Err(e) => {
                return Err(e);
            },
        };
        let pf = match import_own(proof_b64) {
            Ok(v) => v,
            Err(e) => {
                return Err(e);
            },
        };
        match verify_ownership_raw(&pk, &pf, context.as_bytes()) {
            Some(v) => {
                proof {
                    self.lemma_next_handle_fresh();
                }
                let h = self.next_id;
                self.vpks.insert(h, v);
                self.next_id = h + 1;
                Ok(h)
            },
            None => Err(PokerError::InvalidProof),
        }
    }

    /// Aggregates the verified keys the handles name into one aggregate
    /// public key under a fresh handle. Fails with `EmptyAggregation` exactly
    /// when no handle is given, and with `MissingHandle` exactly when one of
    /// them is not live.
    pub fn aggregate_public_keys(&mut self, handles: &Vec<u32>) -> (r: Result<u32, PokerError>)
        requires
            old(self).wf(),
            old(self).next_handle() < u32::MAX,
        ensures
            r == Err::<u32, PokerError>(PokerError::EmptyAggregation) <==> handles@.len() == 0,
            r == Err::<u32, PokerError>(PokerError::MissingHandle) <==> (handles@.len() > 0
                && !handles_present(old(self).vpk_table(), handles@)),
            r matches Err(e) ==> (e == PokerError::EmptyAggregation || e
                == PokerError::MissingHandle),
            r is Err ==> *final(self) == *old(self),
            final(self).wf(),
            r matches Ok(h) ==> ({
                &&& handles@.len() > 0
                &&& handles_present(old(self).vpk_table(), handles@)
                &&& h == old(self).next_handle()
                &&& old(self).fresh_handle(h)
                &&& final(self).apk_table() == old(self).apk_table().insert(
                    h,
                    agg_key_of(keys_named(old(self).vpk_table(), handles@)),
                )
                &&& final(self).next_handle() == old(self).next_handle() + 1
                &&& final(self).vpk_table() == old(self).vpk_table()
                &&& final(self).vdeck_table() == old(self).vdeck_table()
                &&& final(self).vtoken_table() == old(self).vtoken_table()
                &&& final(self).card_table() == old(self).card_table()
                &&& final(self).art_table() == old(self).art_table()
            }),
    {
        if handles.len() == 0 {
            return Err(PokerError::EmptyAggregation);
        }
        let mut keys: Vec<ziffle::Verified<ziffle::PublicKey>> = Vec::new();
        let n = handles.len();
        let mut i: usize = 0;
        while i < n
            invariant
                n == handles@.len(),
                0 <= i <= n,
                keys@.len() == i,
                old(self).wf(),
                *self == *old(self),
                forall|j: int| 0 <= j < i ==> old(self).vpk_table().dom().contains(
                    #[trigger] handles@[j],
                ),
                forall|j: int| 0 <= j < i ==> keys@[j] == old(self).vpk_table()[
                    #[trigger] handles@[j]],
            decreases n - i,
        {
            let h = handles[i];
            match self.vpks.get(h) {
                Ok(v) => keys.push(*v),
                Err(_) => {
                    return Err(PokerError::MissingHandle);
                },
            }
            i += 1;
        }
        let apk = aggregate_keys_raw(&keys);
        proof {
            assert(keys@.map_values(|v: ziffle::Verified<ziffle::PublicKey>| vpk_value(v))
                =~= handles@.map_values(|h: u32| vpk_value(old(self).vpk_table()[h])));
        }
        proof {
            self.lemma_next_handle_fresh();
        }
        let h = self.next_id;
        self.apks.insert(h, apk);
        self.next_id = h + 1;
        Ok(h)
    }

    /// Shuffles the canonical deck: permutes and masks it under the aggregate
    /// key the handle names, with a proof bound to `context`. Fails with
    /// `MissingHandle` exactly when the handle is not live; otherwise only
    /// the entropy source can fail.
    pub fn shuffle_initial(&self, apk_handle: u32, context: &str) -> (r: Result<
        ShuffleOut,
        PokerError,
    >)
        ensures
            r == Err::<ShuffleOut, PokerError>(PokerError::MissingHandle)
                <==> !self.apk_table().dom().contains(apk_handle),
            r matches Err(e) ==> (e == PokerError::MissingHandle || e
                == PokerError::RandomnessFailure),
            r matches Ok(out) ==> exists|
                deck: ziffle::MaskedDeck<DECK_SIZE>,
                pf: ziffle::ShuffleProof<DECK_SIZE>,
            |
                {
                    &&& #[trigger] initial_shuffle_check(
                        self.apk_table()[apk_handle],
                        deck,
                        pf,
                        context.spec_bytes(),
                    )
                    &&& out.deck_b64@ == b64_of(deck_bytes(deck))
                    &&& out.proof_b64@ == b64_of(sproof_bytes(pf))
                },
    {
        let apk = match self.apks.get(apk_handle) {
            Ok(v) => *v,
            Err(e) => {
                return Err(e);
            },
        };
        let mut rng = match fresh_rng() {
            Ok(rng) => rng,
            Err(e) => {
                return Err(e);
            },
        };
        let (deck, pf) = shuffle_initial_raw(&mut rng, &apk, context.as_bytes());
        let out = ShuffleOut { deck_b64: export_deck(&deck), proof_b64: export_sproof(&pf) };
        proof {
            assert(initial_shuffle_check(
                self.apk_table()[apk_handle],
                deck,
                pf,
                context.spec_bytes(),
            ));
        }
        Ok(out)
    }

    /// Checks an initial-shuffle proof: the deck and proof arrive in
    /// transport encoding and are checked against the canonical deck, the
    /// aggregate key the handle names, and `context`. On success the deck
    /// becomes a verified deck under a fresh handle. Fails with
    /// `MissingHandle`, `MalformedInput` and `InvalidProof`, each exactly on
    /// its own condition.
    pub fn verify_initial_shuffle(
        &mut self,
        apk_handle: u32,
        deck_b64: &str,
        proof_b64: &str,
        context: &str,
    ) -> (r: Result<u32, PokerError>)
        requires
            old(self).wf(),
            old(self).next_handle() < u32::MAX,
        ensures
            r == Err::<u32, PokerError>(PokerError::MissingHandle) <==> !old(
                self,
            ).apk_table().dom().contains(apk_handle),
            r == Err::<u32, PokerError>(PokerError::MalformedInput) <==> (old(
                self,
            ).apk_table().dom().contains(apk_handle) && (spec_import_deck(deck_b64@) is None
                || spec_import_sproof(proof_b64@) is None)),
            r == Err::<u32, PokerError>(PokerError::InvalidProof) <==> (old(
                self,
            ).apk_table().dom().contains(apk_handle) && spec_import_deck(deck_b64@) is Some
                && spec_import_sproof(proof_b64@) is Some && !initial_shuffle_check(
                old(self).apk_table()[apk_handle],
                spec_import_deck(deck_b64@)->0,
                spec_import_sproof(proof_b64@)->0,
                context.spec_bytes(),
            )),
            r matches Err(e) ==> (e == PokerError::MissingHandle || e
                == PokerError::MalformedInput || e == PokerError::InvalidProof),
            r is Err ==> *final(self) == *old(self),
            final(self).wf(),
            r matches Ok(h) ==> ({
                let deck = spec_import_deck(deck_b64@)->0;
                &&& old(self).apk_table().dom().contains(apk_handle)
                &&& spec_import_deck(deck_b64@) is Some
                &&& spec_import_sproof(proof_b64@) is Some
                &&& initial_shuffle_check(
                    old(self).apk_table()[apk_handle],
                    deck,
                    spec_import_sproof(proof_b64@)->0,
                    context.spec_bytes(),
                )
                &&& h == old(self).next_handle()
                &&& old(self).fresh_handle(h)
                &&& final(self).vdeck_table() == old(self).vdeck_table().insert(
                    h,
                    final(self).vdeck_table()[h],
                )
                &&& vdeck_value(final(self).vdeck_table()[h]) == deck
                &&& final(self).next_handle() == old(self).next_handle() + 1
                &&& final(self).vpk_table() == old(self).vpk_table()
                &&& final(self).vtoken_table() == old(self).vtoken_table()
                &&& final(self).apk_table() == old(self).apk_table()
                &&& final(self).card_table() == old(self).card_table()
                &&& final(self).art_table() == old(self).art_table()
            }),
    {
        let apk = match self.apks.get(apk_handle) {
            Ok(v) => *v,
            Err(e) => {
                return Err(e);
            },
        };
        let deck = match import_deck(deck_b64) {
            Ok(v) => v,
            Err(e) => {
                return Err(e);
            },
        };
        let pf = match import_sproof(proof_b64) {
            Ok(v) => v,
            Err(e) => {
                return Err(e);
            },
        };
        match verify_initial_shuffle_raw(&apk, &deck, &pf, context.as_bytes()) {
            Some(v) => {
                proof {
                    self.lemma_next_handle_fresh();
                }
                let h = self.next_id;
                self.vdecks.insert(h, v);
                self.next_id = h + 1;
                Ok(h)
            },
            None => Err(PokerError::InvalidProof),
        }
    }

    /// The encoded shuffle path convinces its verifier end to end: the deck
    /// and proof that `shuffle_initial` hands out in transport encoding are
    /// accepted by `verify_initial_shuffle`, for every live aggregate-key
    /// handle and every context. Only the entropy source can fail once the
    /// handle is live.
    pub fn initial_shuffle_round(&mut self, apk_handle: u32, context: &str) -> (r: Result<
        u32,
        PokerError,
    >)
        requires
            old(self).wf(),
            old(self).next_handle() < u32::MAX,
        ensures
            r == Err::<u32, PokerError>(PokerError::MissingHandle) <==> !old(
                self,
            ).apk_table().dom().contains(apk_handle),
            r matches Err(e) ==> (e == PokerError::MissingHandle || e
                == PokerError::RandomnessFailure),
            r is Err ==> *final(self) == *old(self),
            final(self).wf(),
            r matches Ok(h) ==> final(self).vdeck_table().dom().contains(h),
    {
        let out = match self.shuffle_initial(apk_handle, context) {
            Ok(out) => out,
            Err(e) => {
                return Err(e);
            },
        };
        // These imports anchor the transport strings to the decoded values,
        // so the verifier's acceptance below follows from the round trip.
        let anchor_deck = import_deck(out.deck_b64.as_str());
        let anchor_pf = import_sproof(out.proof_b64.as_str());
        proof {
            let (deck, pf) = choose|
                deck: ziffle::MaskedDeck<DECK_SIZE>,
                pf: ziffle::ShuffleProof<DECK_SIZE>,
            |
                {
                    &&& #[trigger] initial_shuffle_check(
                        self.apk_table()[apk_handle],
                        deck,
                        pf,
                        context.spec_bytes(),
                    )
                    &&& out.deck_b64@ == b64_of(deck_bytes(deck))
                    &&& out.proof_b64@ == b64_of(sproof_bytes(pf))
                };
            assert(spec_import_deck(out.deck_b64@) == Some(deck));
            assert(spec_import_sproof(out.proof_b64@) == Some(pf));
        }
        match self.verify_initial_shuffle(
            apk_handle,
            out.deck_b64.as_str(),
            out.proof_b64.as_str(),
            context,
        ) {
            Ok(h) => Ok(h),
            Err(e) => {
                proof {
                    assert(false);
                }
                Err(e)
            },
        }
    }

    /// Shuffles on top of a previously verified deck: permutes and re-masks
    /// it under the aggregate key, with a proof bound to `context`. Building
    /// on a verified deck is the chain-of-custody invariant: a shuffle can
    /// only extend a deck state that already passed its check. Fails with
    /// `MissingHandle` exactly when a handle is not live; otherwise only the
    /// entropy source can fail.
    pub fn shuffle_next(&self, apk_handle: u32, prev_handle: u32, context: &str) -> (r: Result<
        ShuffleOut,
        PokerError,
    >)
        ensures
            r == Err::<ShuffleOut, PokerError>(PokerError::MissingHandle)
                <==> (!self.apk_table().dom().contains(apk_handle)
                || !self.vdeck_table().dom().contains(prev_handle)),
            r matches Err(e) ==> (e == PokerError::MissingHandle || e
                == PokerError::RandomnessFailure),
            r matches Ok(out) ==> exists|
                deck: ziffle::MaskedDeck<DECK_SIZE>,
                pf: ziffle::ShuffleProof<DECK_SIZE>,
            |
                {
                    &&& #[trigger] chained_shuffle_check(
                        self.apk_table()[apk_handle],
                        vdeck_value(self.vdeck_table()[prev_handle]),
                        deck,
                        pf,
                        context.spec_bytes(),
                    )
                    &&& out.deck_b64@ == b64_of(deck_bytes(deck))
                    &&& out.proof_b64@ == b64_of(sproof_bytes(pf))
                },
    {
        let apk = match self.apks.get(apk_handle) {
            Ok(v) => *v,
            Err(e) => {
                return Err(e);
            },
        };
        let prev = match self.vdecks.get(prev_handle) {
            Ok(v) => v,
            Err(e) => {
                return Err(e);
            },
        };
        let mut rng = match fresh_rng() {
            Ok(rng) => rng,
            Err(e) => {
                return Err(e);
            },
        };
        let (deck, pf) = shuffle_next_raw(&mut rng, &apk, prev, context.as_bytes());
        let out = ShuffleOut { deck_b64: export_deck(&deck), proof_b64: export_sproof(&pf) };
        proof {
            assert(chained_shuffle_check(
                self.apk_table()[apk_handle],
                vdeck_value(self.vdeck_table()[prev_handle]),
                deck,
                pf,
                context.spec_bytes(),
            ));
        }
        Ok(out)
    }

    /// Checks a chained-shuffle proof against the deck wrapped by the
    /// verified predecessor the handle names — not against any deck the
    /// submitter claims — so trust cannot be smuggled in from an unverified
    /// source. On success the new deck becomes a verified deck under a fresh
    /// handle. Fails with `MissingHandle`, `MalformedInput` and
    /// `InvalidProof`, each exactly on its own condition.
    pub fn verify_shuffle(
        &mut self,
        apk_handle: u32,
        prev_handle: u32,
        deck_b64: &str,
        proof_b64: &str,
        context: &str,
    ) -> (r: Result<u32, PokerError>)
        requires
            old(self).wf(),
            old(self).next_handle() < u32::MAX,
        ensures
            r == Err::<u32, PokerError>(PokerError::MissingHandle) <==> (!old(
                self,
            ).apk_table().dom().contains(apk_handle) || !old(
                self,
            ).vdeck_table().dom().contains(prev_handle)),
            r == Err::<u32, PokerError>(PokerError::MalformedInput) <==> (old(
                self,
            ).apk_table().dom().contains(apk_handle) && old(
                self,
            ).vdeck_table().dom().contains(prev_handle) && (spec_import_deck(deck_b64@)
                is None || spec_import_sproof(proof_b64@) is None)),
            r == Err::<u32, PokerError>(PokerError::InvalidProof) <==> (old(
                self,
            ).apk_table().dom().contains(apk_handle) && old(
                self,
            ).vdeck_table().dom().contains(prev_handle) && spec_import_deck(deck_b64@) is Some
                && spec_import_sproof(proof_b64@) is Some && !chained_shuffle_check(
                old(self).apk_table()[apk_handle],
                vdeck_value(old(self).vdeck_table()[prev_handle]),
                spec_import_deck(deck_b64@)->0,
                spec_import_sproof(proof_b64@)->0,
                context.spec_bytes(),
            )),
            r matches Err(e) ==> (e == PokerError::MissingHandle || e
                == PokerError::MalformedInput || e == PokerError::InvalidProof),
            r is Err ==> *final(self) == *old(self),
            final(self).wf(),
            r matches Ok(h) ==> ({
                let deck = spec_import_deck(deck_b64@)->0;
                &&& old(self).apk_table().dom().contains(apk_handle)
                &&& old(self).vdeck_table().dom().contains(prev_handle)
                &&& spec_import_deck(deck_b64@) is Some
                &&& spec_import_sproof(proof_b64@) is Some
                &&& chained_shuffle_check(
                    old(self).apk_table()[apk_handle],
                    vdeck_value(old(self).vdeck_table()[prev_handle]),
                    deck,
                    spec_import_sproof(proof_b64@)->0,
                    context.spec_bytes(),
                )
                &&& h == old(self).next_handle()
                &&& old(self).fresh_handle(h)
                &&& final(self).vdeck_table() == old(self).vdeck_table().insert(
                    h,
                    final(self).vdeck_table()[h],
                )
                &&& vdeck_value(final(self).vdeck_table()[h]) == deck
                &&& final(self).next_handle() == old(self).next_handle() + 1
                &&& final(self).vpk_table() == old(self).vpk_table()
                &&& final(self).vtoken_table() == old(self).vtoken_table()
                &&& final(self).apk_table() == old(self).apk_table()
                &&& final(self).card_table() == old(self).card_table()
                &&& final(self).art_table() == old(self).art_table()
            }),
    {
        let apk = match self.apks.get(apk_handle) {
            Ok(v) => *v,
            Err(e) => {
                return Err(e);
            },
        };
        let has_prev = match self.vdecks.get(prev_handle) {
            Ok(_) => true,
            Err(_) => false,
        };
        if !has_prev {
            return Err(PokerError::MissingHandle);
        }
        let deck = match import_deck(deck_b64) {
            Ok(v) => v,
            Err(e) => {
                return Err(e);
            },
        };
        let pf = match import_sproof(proof_b64) {
            Ok(v) => v,
            Err(e) => {
                return Err(e);
            },
        };
        let prev = match self.vdecks.get(prev_handle) {
            Ok(v) => v,
            Err(_) => {
                return Err(PokerError::MissingHandle);
            },
        };
        match verify_shuffle_raw(&apk, prev, &deck, &pf, context.as_bytes()) {
            Some(v) => {
                proof {
                    self.lemma_next_handle_fresh();
                }
                let h = self.next_id;
                self.vdecks.insert(h, v);
                self.next_id = h + 1;
                Ok(h)
            },
            None => Err(PokerError::InvalidProof),
        }
    }

    /// Reads one masked card out of a verified deck and stores it under a
    /// fresh handle. Fails with `MissingHandle` exactly when the deck handle
    /// is not live, and with `IndexOutOfRange` exactly when `index` is at or
    /// past the deck size.
    pub fn deck_get_card(&mut self, verified_handle: u32, index: u32) -> (r: Result<
        u32,
        PokerError,
    >)
        requires
            old(self).wf(),
            old(self).next_handle() < u32::MAX,
        ensures
            r == Err::<u32, PokerError>(PokerError::MissingHandle) <==> !old(
                self,
            ).vdeck_table().dom().contains(verified_handle),
            r == Err::<u32, PokerError>(PokerError::IndexOutOfRange) <==> (old(
                self,
            ).vdeck_table().dom().contains(verified_handle) && index >= DECK_SIZE),
            r matches Err(e) ==> (e == PokerError::MissingHandle || e
                == PokerError::IndexOutOfRange),
            r is Err ==> *final(self) == *old(self),
            final(self).wf(),
            r matches Ok(h) ==> ({
                &&& old(self).vdeck_table().dom().contains(verified_handle)
                &&& index < DECK_SIZE
                &&& h == old(self).next_handle()
                &&& old(self).fresh_handle(h)
                &&& final(self).card_table() == old(self).card_table().insert(
                    h,
                    deck_card_at(
                        vdeck_value(old(self).vdeck_table()[verified_handle]),
                        index as int,
                    ),
                )
                &&& final(self).next_handle() == old(self).next_handle() + 1
                &&& final(self).vpk_table() == old(self).vpk_table()
                &&& final(self).vdeck_table() == old(self).vdeck_table()
                &&& final(self).vtoken_table() == old(self).vtoken_table()
                &&& final(self).apk_table() == old(self).apk_table()
                &&& final(self).art_table() == old(self).art_table()
            }),
    {
        let deck = match self.vdecks.get(verified_handle) {
            Ok(v) => v,
            Err(e) => {
                return Err(e);
            },
        };
        match deck_get_raw(deck, index as usize) {
            Some(card) => {
                proof {
                    self.lemma_next_handle_fresh();
                }
                let h = self.next_id;
                self.cards.insert(h, card);
                self.next_id = h + 1;
                Ok(h)
            },
            None => Err(PokerError::IndexOutOfRange),
        }
    }

    /// Computes this player's reveal token for one stored card — the partial
    /// decryption only the matching secret key can produce — and a proof of
    /// correct derivation bound to `context`. Fails with `MalformedInput`
    /// exactly when a key string does not decode, and with `MissingHandle`
    /// exactly when the card handle is not live; otherwise only the entropy
    /// source can fail.
    pub fn reveal_token(&self, sk_b64: &str, pk_b64: &str, card_handle: u32, context: &str) -> (r:
        Result<RevealOut, PokerError>)
        ensures
            r == Err::<RevealOut, PokerError>(PokerError::MalformedInput) <==> (spec_import_sk(
                sk_b64@,
            ) is None || spec_import_pk(pk_b64@) is None),
            r == Err::<RevealOut, PokerError>(PokerError::MissingHandle) <==> (spec_import_sk(
                sk_b64@,
            ) is Some && spec_import_pk(pk_b64@) is Some && !self.card_table().dom().contains(
                card_handle,
            )),
            r matches Err(e) ==> (e == PokerError::MalformedInput || e == PokerError::MissingHandle
                || e == PokerError::RandomnessFailure),
            r matches Ok(out) ==> ({
                let sk = spec_import_sk(sk_b64@)->0;
                let pk = spec_import_pk(pk_b64@)->0;
                let card = self.card_table()[card_handle];
                &&& spec_import_sk(sk_b64@) is Some
                &&& spec_import_pk(pk_b64@) is Some
                &&& self.card_table().dom().contains(card_handle)
                &&& exists|token: ziffle::RevealToken, tpf: ziffle::RevealTokenProof|
                    {
                        &&& out.token_b64@ == b64_of(#[trigger] token_bytes(token))
                        &&& out.proof_b64@ == b64_of(#[trigger] tproof_bytes(tpf))
                        &&& (pk == pk_of_sk(sk) ==> token_check(
                            pk,
                            token,
                            card,
                            tpf,
                            context.spec_bytes(),
                        ))
                    }
            }),
    {
        let sk = match import_sk(sk_b64) {
            Ok(v) => v,
            Err(e) => {
                return Err(e);
            },
        };
        let pk = match import_pk(pk_b64) {
            Ok(v) => v,
            Err(e) => {
                return Err(e);
            },
        };
        let card = match self.cards.get(card_handle) {
            Ok(v) => *v,
            Err(e) => {
                return Err(e);
            },
        };
        let mut rng = match fresh_rng() {
            Ok(rng) => rng,
            Err(e) => {
                return Err(e);
            },
        };
        let (token, tpf) = reveal_token_raw(&mut rng, &sk, &pk, &card, context.as_bytes());
        let out = RevealOut { token_b64: export_token(&token), proof_b64: export_tproof(&tpf) };
        proof {
            assert(out.token_b64@ == b64_of(token_bytes(token)));
            assert(out.proof_b64@ == b64_of(tproof_bytes(tpf)));
        }
        Ok(out)
    }

    /// Checks a reveal-token proof against the verified key the handle names,
    /// the token (in transport encoding) and the stored card, under
    /// `context`; on success the token becomes a verified token under a
    /// fresh handle. Fails with `MissingHandle`, `MalformedInput` and
    /// `InvalidProof`, each exactly on its own condition.
    pub fn verify_reveal_token(
        &mut self,
        vpk_handle: u32,
        token_b64: &str,
        proof_b64: &str,
        card_handle: u32,
        context: &str,
    ) -> (r: Result<u32, PokerError>)
        requires
            old(self).wf(),
            old(self).next_handle() < u32::MAX,
        ensures
            r == Err::<u32, PokerError>(PokerError::MissingHandle) <==> (!old(
                self,
            ).vpk_table().dom().contains(vpk_handle) || !old(
                self,
            ).card_table().dom().contains(card_handle)),
            r == Err::<u32, PokerError>(PokerError::MalformedInput) <==> (old(
                self,
            ).vpk_table().dom().contains(vpk_handle) && old(
                self,
            ).card_table().dom().contains(card_handle) && (spec_import_token(token_b64@)
                is None || spec_import_tproof(proof_b64@) is None)),
            r == Err::<u32, PokerError>(PokerError::InvalidProof) <==> (old(
                self,
            ).vpk_table().dom().contains(vpk_handle) && old(
                self,
            ).card_table().dom().contains(card_handle) && spec_import_token(token_b64@)
                is Some && spec_import_tproof(proof_b64@) is Some && !token_check(
                vpk_value(old(self).vpk_table()[vpk_handle]),
                spec_import_token(token_b64@)->0,
                old(self).card_table()[card_handle],
                spec_import_tproof(proof_b64@)->0,
                context.spec_bytes(),
            )),
            r matches Err(e) ==> (e == PokerError::MissingHandle || e
                == PokerError::MalformedInput || e == PokerError::InvalidProof),
            r is Err ==> *final(self) == *old(self),
            final(self).wf(),
            r matches Ok(h) ==> ({
                let token = spec_import_token(token_b64@)->0;
                &&& old(self).vpk_table().dom().contains(vpk_handle)
                &&& old(self).card_table().dom().contains(card_handle)
                &&& spec_import_token(token_b64@) is Some
                &&& spec_import_tproof(proof_b64@) is Some
                &&& token_check(
                    vpk_value(old(self).vpk_table()[vpk_handle]),
                    token,
                    old(self).card_table()[card_handle],
                    spec_import_tproof(proof_b64@)->0,
                    context.spec_bytes(),
                )
                &&& h == old(self).next_handle()
                &&& old(self).fresh_handle(h)
                &&& final(self).vtoken_table() == old(self).vtoken_table().insert(
                    h,
                    final(self).vtoken_table()[h],
                )
                &&& vtoken_value(final(self).vtoken_table()[h]) == token
                &&& final(self).next_handle() == old(self).next_handle() + 1
                &&& final(self).vpk_table() == old(self).vpk_table()
                &&& final(self).vdeck_table() == old(self).vdeck_table()
                &&& final(self).apk_table() == old(self).apk_table()
                &&& final(self).card_table() == old(self).card_table()
                &&& final(self).art_table() == old(self).art_table()
            }),
    {
        let has_vpk = match self.vpks.get(vpk_handle) {
            Ok(_) => true,
            Err(_) => false,
        };
        if !has_vpk {
            return Err(PokerError::MissingHandle);
        }
        let card = match self.cards.get(card_handle) {
            Ok(v) => *v,
            Err(e) => {
                return Err(e);
            },
        };
        let token = match import_token(token_b64) {
            Ok(v) => v,
            Err(e) => {
                return Err(e);
            },
        };
        let tpf = match import_tproof(proof_b64) {
            Ok(v) => v,
            Err(e) => {
                return Err(e);
            },
        };
        let vpk = match self.vpks.get(vpk_handle) {
            Ok(v) => v,
            Err(_) => {
                return Err(PokerError::MissingHandle);
            },
        };
        match verify_reveal_token_raw(vpk, &token, &tpf, &card, context.as_bytes()) {
            Some(v) => {
                proof {
                    self.lemma_next_handle_fresh();
                }
                let h = self.next_id;
                self.vtokens.insert(h, v);
                self.next_id = h + 1;
                Ok(h)
            },
            None => Err(PokerError::InvalidProof),
        }
    }

    /// Aggregates the verified reveal tokens the handles name — one per
    /// key-holder, all for the same card — into one aggregate reveal token
    /// under a fresh handle. Fails with `EmptyAggregation` exactly when no
    /// handle is given, and with `MissingHandle` exactly when one of them is
    /// not live.
    pub fn aggregate_reveal_tokens(&mut self, handles: &Vec<u32>) -> (r: Result<u32, PokerError>)
        requires
            old(self).wf(),
            old(self).next_handle() < u32::MAX,
        ensures
            r == Err::<u32, PokerError>(PokerError::EmptyAggregation) <==> handles@.len() == 0,
            r == Err::<u32, PokerError>(PokerError::MissingHandle) <==> (handles@.len() > 0
                && !handles_present(old(self).vtoken_table(), handles@)),
            r matches Err(e) ==> (e == PokerError::EmptyAggregation || e
                == PokerError::MissingHandle),
            r is Err ==> *final(self) == *old(self),
            final(self).wf(),
            r matches Ok(h) ==> ({
                &&& handles@.len() > 0
                &&& handles_present(old(self).vtoken_table(), handles@)
                &&& h == old(self).next_handle()
                &&& old(self).fresh_handle(h)
                &&& final(self).art_table() == old(self).art_table().insert(
                    h,
                    agg_token_of(tokens_named(old(self).vtoken_table(), handles@)),
                )
                &&& final(self).next_handle() == old(self).next_handle() + 1
                &&& final(self).vpk_table() == old(self).vpk_table()
                &&& final(self).vdeck_table() == old(self).vdeck_table()
                &&& final(self).vtoken_table() == old(self).vtoken_table()
                &&& final(self).apk_table() == old(self).apk_table()
                &&& final(self).card_table() == old(self).card_table()
            }),
    {
        if handles.len() == 0 {
            return Err(PokerError::EmptyAggregation);
        }
        let mut tokens: Vec<ziffle::Verified<ziffle::RevealToken>> = Vec::new();
        let n = handles.len();
        let mut i: usize = 0;
        while i < n
            invariant
                n == handles@.len(),
                0 <= i <= n,
                tokens@.len() == i,
                old(self).wf(),
                *self == *old(self),
                forall|j: int| 0 <= j < i ==> old(self).vtoken_table().dom().contains(
                    #[trigger] handles@[j],
                ),
                forall|j: int| 0 <= j < i ==> tokens@[j] == old(self).vtoken_table()[
                    #[trigger] handles@[j]],
            decreases n - i,
        {
            let h = handles[i];
            match self.vtokens.get(h) {
                Ok(v) => tokens.push(*v),
                Err(_) => {
                    return Err(PokerError::MissingHandle);
                },
            }
            i += 1;
        }
        let art = aggregate_tokens_raw(&tokens);
        proof {
            assert(tokens@.map_values(|v: ziffle::Verified<ziffle::RevealToken>| vtoken_value(v))
                =~= handles@.map_values(|h: u32| vtoken_value(old(self).vtoken_table()[h])));
        }
        proof {
            self.lemma_next_handle_fresh();
        }
        let h = self.next_id;
        self.arts.insert(h, art);
        self.next_id = h + 1;
        Ok(h)
    }

    /// Decrypts one stored card with a fully aggregated reveal token and
    /// returns the canonical card index, always below the deck size. Fails
    /// with `MissingHandle` exactly when a handle is not live, and with
    /// `RevealMismatch` exactly when the plaintext matches no canonical card
    /// — an incomplete, mismatched or tampered token set.
    pub fn reveal_card(&self, art_handle: u32, card_handle: u32) -> (r: Result<u32, PokerError>)
        ensures
            r == Err::<u32, PokerError>(PokerError::MissingHandle)
                <==> (!self.art_table().dom().contains(art_handle)
                || !self.card_table().dom().contains(card_handle)),
            r == Err::<u32, PokerError>(PokerError::RevealMismatch)
                <==> (self.art_table().dom().contains(art_handle)
                && self.card_table().dom().contains(card_handle) && reveal_outcome(
                self.art_table()[art_handle],
                self.card_table()[card_handle],
            ) is None),
            r matches Err(e) ==> (e == PokerError::MissingHandle || e
                == PokerError::RevealMismatch),
            r matches Ok(idx) ==> ({
                &&& self.art_table().dom().contains(art_handle)
                &&& self.card_table().dom().contains(card_handle)
                &&& reveal_outcome(
                    self.art_table()[art_handle],
                    self.card_table()[card_handle],
                ) == Some(idx as usize)
                &&& idx < DECK_SIZE
            }),
    {
        let art = match self.arts.get(art_handle) {
            Ok(v) => *v,
            Err(e) => {
                return Err(e);
            },
        };
        let card = match self.cards.get(card_handle) {
            Ok(v) => *v,
            Err(e) => {
                return Err(e);
            },
        };
        match reveal_card_raw(&art, &card) {
            Some(idx) => Ok(idx as u32),
            None => Err(PokerError::RevealMismatch),
        }
    }

    /// Frees a verified-key handle; the handle is never reissued.
    pub fn free_verified_pk(&mut self, handle: u32)
        ensures
            final(self).vpk_table() == old(self).vpk_table().remove(handle),
            final(self).next_handle() == old(self).next_handle(),
            old(self).wf() ==> final(self).wf(),
            final(self).vdeck_table() == old(self).vdeck_table(),
            final(self).vtoken_table() == old(self).vtoken_table(),
            final(self).apk_table() == old(self).apk_table(),
            final(self).card_table() == old(self).card_table(),
            final(self).art_table() == old(self).art_table(),
    {
        self.vpks.free(handle);
    }

    /// Frees a verified-deck handle; the handle is never reissued.
    pub fn free_verified_deck(&mut self, handle: u32)
        ensures
            final(self).vdeck_table() == old(self).vdeck_table().remove(handle),
            final(self).next_handle() == old(self).next_handle(),
            old(self).wf() ==> final(self).wf(),
            final(self).vpk_table() == old(self).vpk_table(),
            final(self).vtoken_table() == old(self).vtoken_table(),
            final(self).apk_table() == old(self).apk_table(),
            final(self).card_table() == old(self).card_table(),
            final(self).art_table() == old(self).art_table(),
    {
        self.vdecks.free(handle);
    }

    /// Frees a verified-token handle; the handle is never reissued.
    pub fn free_verified_token(&mut self, handle: u32)
        ensures
            final(self).vtoken_table() == old(self).vtoken_table().remove(handle),
            final(self).next_handle() == old(self).next_handle(),
            old(self).wf() ==> final(self).wf(),
            final(self).vpk_table() == old(self).vpk_table(),
            final(self).vdeck_table() == old(self).vdeck_table(),
            final(self).apk_table() == old(self).apk_table(),
            final(self).card_table() == old(self).card_table(),
            final(self).art_table() == old(self).art_table(),
    {
        self.vtokens.free(handle);
    }

    /// Frees an aggregate-key handle; the handle is never reissued.
    pub fn free_apk(&mut self, handle: u32)
        ensures
            final(self).apk_table() == old(self).apk_table().remove(handle),
            final(self).next_handle() == old(self).next_handle(),
            old(self).wf() ==> final(self).wf(),
            final(self).vpk_table() == old(self).vpk_table(),
            final(self).vdeck_table() == old(self).vdeck_table(),
            final(self).vtoken_table() == old(self).vtoken_table(),
            final(self).card_table() == old(self).card_table(),
            final(self).art_table() == old(self).art_table(),
    {
        self.apks.free(handle);
    }

    /// Frees a stored-card handle; the handle is never reissued.
    pub fn free_card(&mut self, handle: u32)
        ensures
            final(self).card_table() == old(self).card_table().remove(handle),
            final(self).next_handle() == old(self).next_handle(),
            old(self).wf() ==> final(self).wf(),
            final(self).vpk_table() == old(self).vpk_table(),
            final(self).vdeck_table() == old(self).vdeck_table(),
            final(self).vtoken_table() == old(self).vtoken_table(),
            final(self).apk_table() == old(self).apk_table(),
            final(self).art_table() == old(self).art_table(),
    {
        self.cards.free(handle);
    }

    /// Frees an aggregate-reveal-token handle; the handle is never reissued.
    pub fn free_art(&mut self, handle: u32)
        ensures
            final(self).art_table() == old(self).art_table().remove(handle),
            final(self).next_handle() == old(self).next_handle(),
            old(self).wf() ==> final(self).wf(),
            final(self).vpk_table() == old(self).vpk_table(),
            final(self).vdeck_table() == old(self).vdeck_table(),
            final(self).vtoken_table() == old(self).vtoken_table(),
            final(self).apk_table() == old(self).apk_table(),
            final(self).card_table() == old(self).card_table(),
    {
        self.arts.free(handle);
    }
}

} // verus!
