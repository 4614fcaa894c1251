use mental_poker::api::{keygen, keygen_self_check, ProtocolStore};
use mental_poker::codec::{
    export_deck, export_pk, export_sproof, export_token, import_deck, import_pk, import_sproof,
    import_token,
};
use mental_poker::errors::PokerError;
use mental_poker::DECK_SIZE;

/// Runs the key-exchange phase for two players and returns
/// (store, keygen outputs, verified-key handles, aggregate-key handle).
fn two_player_setup(
    ctx: &str,
) -> (
    ProtocolStore,
    mental_poker::api::KeygenOut,
    mental_poker::api::KeygenOut,
    u32,
    u32,
    u32,
) {
    let mut store = ProtocolStore::new();
    let k1 = keygen(ctx).unwrap();
    let k2 = keygen(ctx).unwrap();
    let v1 = store.verify_public_key(&k1.pk_b64, &k1.proof_b64, ctx).unwrap();
    let v2 = store.verify_public_key(&k2.pk_b64, &k2.proof_b64, ctx).unwrap();
    let apk = store.aggregate_public_keys(&vec![v1, v2]).unwrap();
    (store, k1, k2, v1, v2, apk)
}

#[test]
fn keygen_output_verifies() {
    let mut store = ProtocolStore::new();
    let k = keygen("game-1").unwrap();
    let r = store.verify_public_key(&k.pk_b64, &k.proof_b64, "game-1");
    assert!(r.is_ok());
}

#[test]
fn keygen_self_check_holds() {
    assert_eq!(keygen_self_check("any-context"), Ok(true));
}

#[test]
fn keygen_wrong_context_fails() {
    let mut store = ProtocolStore::new();
    let k = keygen("game-1").unwrap();
    let r = store.verify_public_key(&k.pk_b64, &k.proof_b64, "game-2");
    assert_eq!(r, Err(PokerError::InvalidProof));
}

#[test]
fn verify_public_key_rejects_garbage() {
    let mut store = ProtocolStore::new();
    let k = keygen("game-1").unwrap();
    let r = store.verify_public_key("!!!not base64!!!", &k.proof_b64, "game-1");
    assert_eq!(r, Err(PokerError::MalformedInput));
    let r = store.verify_public_key(&k.pk_b64, "AAAA", "game-1");
    assert_eq!(r, Err(PokerError::MalformedInput));
}

#[test]
fn aggregate_is_order_insensitive() {
    // The two aggregates are equal exactly when a shuffle proof generated
    // under one verifies under the other: the aggregate key is hashed into
    // the proof's challenge.
    let ctx = "game-agg";
    let (mut store, _k1, _k2, v1, v2, _apk) = two_player_setup(ctx);
    let apk_a = store.aggregate_public_keys(&vec![v1, v2]).unwrap();
    let apk_b = store.aggregate_public_keys(&vec![v2, v1]).unwrap();
    let out = store.shuffle_initial(apk_a, ctx).unwrap();
    let r = store.verify_initial_shuffle(apk_b, &out.deck_b64, &out.proof_b64, ctx);
    assert!(r.is_ok());
}

#[test]
fn aggregate_empty_fails() {
    let mut store = ProtocolStore::new();
    assert_eq!(
        store.aggregate_public_keys(&vec![]),
        Err(PokerError::EmptyAggregation)
    );
    assert_eq!(
        store.aggregate_reveal_tokens(&vec![]),
        Err(PokerError::EmptyAggregation)
    );
}

#[test]
fn aggregate_missing_handle_fails() {
    let ctx = "game-agg2";
    let (mut store, _k1, _k2, v1, _v2, _apk) = two_player_setup(ctx);
    assert_eq!(
        store.aggregate_public_keys(&vec![v1, 999]),
        Err(PokerError::MissingHandle)
    );
}

#[test]
fn roundtrip_deck_and_proof() {
    let ctx = "game-rt";
    let (store, _k1, _k2, _v1, _v2, apk) = two_player_setup(ctx);
    let out = store.shuffle_initial(apk, ctx).unwrap();
    let deck = import_deck(&out.deck_b64).unwrap();
    assert_eq!(export_deck(&deck), out.deck_b64);
    let pf = import_sproof(&out.proof_b64).unwrap();
    assert_eq!(export_sproof(&pf), out.proof_b64);
}

#[test]
fn roundtrip_pk() {
    let k = keygen("game-rt2").unwrap();
    let pk = import_pk(&k.pk_b64).unwrap();
    assert_eq!(export_pk(&pk), k.pk_b64);
}

#[test]
fn roundtrip_token() {
    let ctx = "game-rt3";
    let (mut store, k1, _k2, _v1, _v2, apk) = two_player_setup(ctx);
    let out = store.shuffle_initial(apk, ctx).unwrap();
    let d = store
        .verify_initial_shuffle(apk, &out.deck_b64, &out.proof_b64, ctx)
        .unwrap();
    let card = store.deck_get_card(d, 0).unwrap();
    let rt = store.reveal_token(&k1.sk_b64, &k1.pk_b64, card, ctx).unwrap();
    let token = import_token(&rt.token_b64).unwrap();
    assert_eq!(export_token(&token), rt.token_b64);
}

#[test]
fn verify_shuffle_against_replaced_prev_fails() {
    // A chained shuffle proof is bound to the exact verified deck it extends:
    // against any other previously verified deck it must fail.
    let ctx = "game-chain";
    let (mut store, _k1, _k2, _v1, _v2, apk) = two_player_setup(ctx);
    let first = store.shuffle_initial(apk, ctx).unwrap();
    let prev = store
        .verify_initial_shuffle(apk, &first.deck_b64, &first.proof_b64, ctx)
        .unwrap();
    let other_first = store.shuffle_initial(apk, ctx).unwrap();
    let other_prev = store
        .verify_initial_shuffle(apk, &other_first.deck_b64, &other_first.proof_b64, ctx)
        .unwrap();
    let next = store.shuffle_next(apk, prev, ctx).unwrap();
    // Against the deck it was generated from: accepted.
    let ok = store.verify_shuffle(apk, prev, &next.deck_b64, &next.proof_b64, ctx);
    assert!(ok.is_ok());
    // Against a different verified deck: rejected.
    let bad = store.verify_shuffle(apk, other_prev, &next.deck_b64, &next.proof_b64, ctx);
    assert_eq!(bad, Err(PokerError::InvalidProof));
}

#[test]
fn tampered_shuffle_proof_fails() {
    let ctx = "game-tamper";
    let (mut store, _k1, _k2, _v1, _v2, apk) = two_player_setup(ctx);
    let out = store.shuffle_initial(apk, ctx).unwrap();
    // Flip one byte of the proof before verification.
    let engine = &base64::engine::general_purpose::STANDARD;
    let mut raw = base64::engine::Engine::decode(engine, &out.proof_b64).unwrap();
    let last = raw.len() - 1;
    raw[last] ^= 0x01;
    let tampered = base64::engine::Engine::encode(engine, &raw);
    let r = store.verify_initial_shuffle(apk, &out.deck_b64, &tampered, ctx);
    assert!(r.is_err());
    // The untampered proof still verifies.
    let r = store.verify_initial_shuffle(apk, &out.deck_b64, &out.proof_b64, ctx);
    assert!(r.is_ok());
}

#[test]
fn deck_get_bounds() {
    let ctx = "game-bounds";
    let (mut store, _k1, _k2, _v1, _v2, apk) = two_player_setup(ctx);
    let out = store.shuffle_initial(apk, ctx).unwrap();
    let d = store
        .verify_initial_shuffle(apk, &out.deck_b64, &out.proof_b64, ctx)
        .unwrap();
    assert!(store.deck_get_card(d, (DECK_SIZE - 1) as u32).is_ok());
    assert_eq!(
        store.deck_get_card(d, DECK_SIZE as u32),
        Err(PokerError::IndexOutOfRange)
    );
    assert_eq!(
        store.deck_get_card(d, 100_000),
        Err(PokerError::IndexOutOfRange)
    );
}

#[test]
fn incomplete_reveal_fails_with_mismatch() {
    // Only one of the two required players contributes a token: the aggregate
    // cannot decode to any canonical card.
    let ctx = "game-partial";
    let (mut store, k1, _k2, v1, _v2, apk) = two_player_setup(ctx);
    let out = store.shuffle_initial(apk, ctx).unwrap();
    let d = store
        .verify_initial_shuffle(apk, &out.deck_b64, &out.proof_b64, ctx)
        .unwrap();
    let card = store.deck_get_card(d, 0).unwrap();
    let rt1 = store.reveal_token(&k1.sk_b64, &k1.pk_b64, card, ctx).unwrap();
    let t1 = store
        .verify_reveal_token(v1, &rt1.token_b64, &rt1.proof_b64, card, ctx)
        .unwrap();
    let art = store.aggregate_reveal_tokens(&vec![t1]).unwrap();
    assert_eq!(
        store.reveal_card(art, card),
        Err(PokerError::RevealMismatch)
    );
}

#[test]
fn two_player_end_to_end() {
    let ctx = "game-1";
    let (mut store, k1, k2, v1, v2, apk) = two_player_setup(ctx);
    // Player 1 shuffles the canonical deck; both players verify.
    let s1 = store.shuffle_initial(apk, ctx).unwrap();
    let d1 = store
        .verify_initial_shuffle(apk, &s1.deck_b64, &s1.proof_b64, ctx)
        .unwrap();
    // Player 2 shuffles on top of the verified deck; both players verify.
    let s2 = store.shuffle_next(apk, d1, ctx).unwrap();
    let d2 = store
        .verify_shuffle(apk, d1, &s2.deck_b64, &s2.proof_b64, ctx)
        .unwrap();
    // Draw a card and have both players reveal it.
    let card = store.deck_get_card(d2, 0).unwrap();
    let rt1 = store.reveal_token(&k1.sk_b64, &k1.pk_b64, card, ctx).unwrap();
    let rt2 = store.reveal_token(&k2.sk_b64, &k2.pk_b64, card, ctx).unwrap();
    let t1 = store
        .verify_reveal_token(v1, &rt1.token_b64, &rt1.proof_b64, card, ctx)
        .unwrap();
    let t2 = store
        .verify_reveal_token(v2, &rt2.token_b64, &rt2.proof_b64, card, ctx)
        .unwrap();
    let art = store.aggregate_reveal_tokens(&vec![t1, t2]).unwrap();
    let idx = store.reveal_card(art, card).unwrap();
    assert!((idx as usize) < DECK_SIZE);
}

#[test]
fn reveal_token_wrong_key_fails_verification() {
    // A reveal token made with player 1's secret key cannot pass the check
    // against player 2's verified public key.
    let ctx = "game-wrongkey";
    let (mut store, k1, _k2, _v1, v2, apk) = two_player_setup(ctx);
    let out = store.shuffle_initial(apk, ctx).unwrap();
    let d = store
        .verify_initial_shuffle(apk, &out.deck_b64, &out.proof_b64, ctx)
        .unwrap();
    let card = store.deck_get_card(d, 0).unwrap();
    let rt1 = store.reveal_token(&k1.sk_b64, &k1.pk_b64, card, ctx).unwrap();
    let r = store.verify_reveal_token(v2, &rt1.token_b64, &rt1.proof_b64, card, ctx);
    assert_eq!(r, Err(PokerError::InvalidProof));
}

#[test]
fn freed_handles_are_missing() {
    let ctx = "game-free";
    let (mut store, _k1, _k2, v1, v2, apk) = two_player_setup(ctx);
    store.free_verified_pk(v1);
    assert_eq!(
        store.aggregate_public_keys(&vec![v1, v2]),
        Err(PokerError::MissingHandle)
    );
    store.free_apk(apk);
    assert_eq!(
        store.shuffle_initial(apk, ctx).unwrap_err(),
        PokerError::MissingHandle
    );
}

#[test]
fn unknown_handles_are_missing() {
    let mut store = ProtocolStore::new();
    assert_eq!(
        store.shuffle_initial(1, "g").unwrap_err(),
        PokerError::MissingHandle
    );
    assert_eq!(
        store.deck_get_card(7, 0).unwrap_err(),
        PokerError::MissingHandle
    );
    assert_eq!(
        store.reveal_card(3, 4).unwrap_err(),
        PokerError::MissingHandle
    );
}

#[test]
fn handles_are_unique_across_tables() {
    // All tables draw from one shared counter: a verified-key handle and an
    // aggregate-key handle are never the same number.
    let ctx = "game-unique";
    let mut store = ProtocolStore::new();
    let k = keygen(ctx).unwrap();
    let v = store.verify_public_key(&k.pk_b64, &k.proof_b64, ctx).unwrap();
    let apk = store.aggregate_public_keys(&vec![v]).unwrap();
    assert_ne!(v, apk);
    // The aggregate-key handle is not live in the verified-key table either:
    // freeing the key and looking the aggregate handle up there still misses.
    store.free_verified_pk(v);
    assert_eq!(
        store.aggregate_public_keys(&vec![apk]),
        Err(PokerError::MissingHandle)
    );
}

#[test]
fn handles_are_fresh_and_monotonic() {
    let ctx = "game-handles";
    let mut store = ProtocolStore::new();
    let k1 = keygen(ctx).unwrap();
    let k2 = keygen(ctx).unwrap();
    let v1 = store.verify_public_key(&k1.pk_b64, &k1.proof_b64, ctx).unwrap();
    let v2 = store.verify_public_key(&k2.pk_b64, &k2.proof_b64, ctx).unwrap();
    assert_eq!(v1, 1);
    assert_eq!(v2, 2);
    // Freeing does not make the handle reusable: the next insert still gets
    // a fresh one.
    store.free_verified_pk(v1);
    let k3 = keygen(ctx).unwrap();
    let v3 = store.verify_public_key(&k3.pk_b64, &k3.proof_b64, ctx).unwrap();
    assert_eq!(v3, 3);
}

#[test]
fn initial_shuffle_round_accepts() {
    let ctx = "game-round";
    let (mut store, _k1, _k2, _v1, _v2, apk) = two_player_setup(ctx);
    let h = store.initial_shuffle_round(apk, ctx).unwrap();
    // The new verified-deck handle is live: a card can be drawn from it.
    assert!(store.deck_get_card(h, 0).is_ok());
}

/// Builds a one-player aggregate key and a verified initial deck directly
/// through ziffle, for exercising the value-level laws.
fn ziffle_setup(
    ctx: &[u8],
) -> (
    ziffle::AggregatePublicKey,
    ziffle::Verified<ziffle::MaskedDeck<{ DECK_SIZE }>>,
) {
    let mut rng: rand::rngs::StdRng = rand::SeedableRng::from_seed([7u8; 32]);
    let shuffle = ziffle::Shuffle::<{ DECK_SIZE }>::default();
    let (_sk, pk, proof) = shuffle.keygen(&mut rng, ctx);
    let vpk = proof.verify(pk, ctx).unwrap();
    let apk = ziffle::AggregatePublicKey::new(&[vpk]);
    let (deck, sproof) = shuffle.shuffle_initial_deck(&mut rng, apk, ctx);
    let vdeck = shuffle.verify_initial_shuffle(apk, deck, sproof, ctx).unwrap();
    (apk, vdeck)
}

#[test]
fn initial_shuffle_self_check_holds() {
    let (apk, _vdeck) = ziffle_setup(b"law-shuffle");
    assert_eq!(
        mental_poker::api::initial_shuffle_self_check(&apk, "law-shuffle"),
        Ok(true)
    );
}

#[test]
fn chained_shuffle_self_check_holds() {
    let (apk, vdeck) = ziffle_setup(b"law-chain");
    assert_eq!(
        mental_poker::api::chained_shuffle_self_check(&apk, &vdeck, "law-chain"),
        Ok(true)
    );
}

#[test]
fn reveal_token_self_check_holds() {
    let (_apk, vdeck) = ziffle_setup(b"law-reveal");
    let card = vdeck.get(0).unwrap();
    assert_eq!(
        mental_poker::api::reveal_token_self_check(&card, "law-reveal"),
        Ok(true)
    );
}

#[test]
fn error_descriptions_are_distinct() {
    let all = [
        PokerError::MalformedInput,
        PokerError::InvalidProof,
        PokerError::MissingHandle,
        PokerError::IndexOutOfRange,
        PokerError::EmptyAggregation,
        PokerError::RevealMismatch,
        PokerError::RandomnessFailure,
    ];
    for (i, a) in all.iter().enumerate() {
        assert!(!a.describe().is_empty());
        for (j, b) in all.iter().enumerate() {
            if i != j {
                assert_ne!(a.describe(), b.describe());
            }
        }
    }
}
