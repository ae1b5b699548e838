use std::time::{SystemTime, UNIX_EPOCH};

use spin_pot::contract::{
    cash_out, handle, handle_spin, init, query, query_creator, query_expiration, query_pot,
    query_round, spin, spin_response, Error, HandleOutcome, QueryAnswer, State,
};
use spin_pot::expiration::Expiration;
use spin_pot::msg::{Coin, HandleMsg, InitMsg, QueryMsg};
use spin_pot::rand::sha_256;

fn uscrt(amount: u128) -> Coin {
    Coin { denom: "uscrt".to_string(), amount }
}

fn fresh_state(pot: u128, current_round: u8) -> State {
    State {
        pot,
        owner: b"creator".to_vec(),
        prng_seed: [0u8; 32],
        current_round,
        expiration: Expiration::Never,
    }
}

#[test]
fn proper_initialization() {
    let msg = InitMsg { entropy: "awdada".to_string(), creator: None, expiration: None };
    let state = init(msg, b"creator".to_vec(), &vec![uscrt(1000)]).unwrap();
    assert_eq!(state.pot, 1000);
    assert_eq!(state.current_round, 0);
    assert_eq!(state.owner, b"creator".to_vec());
    assert_eq!(state.expiration, Expiration::Never);
}

#[test]
fn test_spin() {
    let msg = InitMsg { entropy: "awdadae".to_string(), creator: None, expiration: None };
    let state = init(msg, b"creator".to_vec(), &vec![uscrt(1000)]).unwrap();
    let time = SystemTime::now().duration_since(UNIX_EPOCH).unwrap().as_secs();
    let (new_state, outcome) = handle_spin(&state, 1332, time, &vec![uscrt(2)]).unwrap();
    assert!(outcome.drawn_value < 6);
    if outcome.won {
        assert_eq!(new_state.pot, 996);
        assert_eq!(new_state.current_round, 1);
        assert_eq!(outcome.payout, Some(4));
    } else {
        assert_eq!(new_state.pot, 1002);
        assert_eq!(new_state.current_round, 0);
        assert_eq!(outcome.payout, None);
    }
}

#[test]
fn losing_spin_absorbs_stake() {
    let state = fresh_state(1000, 0);
    let (new_state, outcome) = spin(&state, 5, 5, 2, 0).unwrap();
    assert!(!outcome.won);
    assert_eq!(outcome.drawn_value, 0);
    assert_eq!(outcome.payout, None);
    assert_eq!(new_state.pot, 1002);
    assert_eq!(new_state.current_round, 0);
}

#[test]
fn winning_spin_pays_double() {
    let state = fresh_state(1000, 0);
    let (new_state, outcome) = spin(&state, 5, 5, 2, 3).unwrap();
    assert!(outcome.won);
    assert_eq!(outcome.drawn_value, 3);
    assert_eq!(outcome.payout, Some(4));
    assert_eq!(new_state.pot, 996);
    assert_eq!(new_state.current_round, 1);
}

#[test]
fn insufficient_pot_rejects() {
    let state = fresh_state(3, 0);
    let err = spin(&state, 5, 5, 2, 3).unwrap_err();
    assert_eq!(err, Error::InsufficientPot);
    assert_eq!(err.message(), "Not enough funds in pot");
    assert_eq!(state.pot, 3);
    assert_eq!(state.current_round, 0);
}

#[test]
fn round_wraps_after_five() {
    let state = fresh_state(1000, 5);
    let (new_state, outcome) = spin(&state, 5, 5, 2, 0).unwrap();
    assert!(outcome.won);
    assert_eq!(new_state.current_round, 0);
    assert_eq!(new_state.pot, 996);
}

#[test]
fn expired_game_rejects_spins() {
    let mut state = fresh_state(1000, 0);
    state.expiration = Expiration::AtHeight(1000);
    let err = handle_spin(&state, 1000, 5, &vec![uscrt(2)]).unwrap_err();
    assert_eq!(err, Error::GameClosed);
    assert_eq!(err.message(), "Expired. This game has been closed.");
    let err_later = handle_spin(&state, 5000, 5, &vec![uscrt(500)]).unwrap_err();
    assert_eq!(err_later, Error::GameClosed);
}

#[test]
fn zero_stake_rejects() {
    let state = fresh_state(1000, 0);
    let err = handle_spin(&state, 5, 5, &vec![]).unwrap_err();
    assert_eq!(err, Error::NoCoinsSent);
    assert_eq!(err.message(), "No coins sent");
    let err_zero = handle_spin(&state, 5, 5, &vec![uscrt(0)]).unwrap_err();
    assert_eq!(err_zero, Error::NoCoinsSent);
}

#[test]
fn foreign_denomination_rejects() {
    let state = fresh_state(1000, 0);
    let funds = vec![Coin { denom: "uatom".to_string(), amount: 2 }];
    let err = handle_spin(&state, 5, 5, &funds).unwrap_err();
    assert_eq!(err, Error::InvalidToken);
    assert_eq!(err.message(), "Only uscrt is supported. Invalid token sent. ");
    let init_msg = InitMsg { entropy: "seed".to_string(), creator: None, expiration: None };
    let init_err = init(init_msg, b"creator".to_vec(), &funds).unwrap_err();
    assert_eq!(init_err, Error::InvalidToken);
}

#[test]
fn pot_overflow_is_fatal() {
    let state = fresh_state(u128::MAX, 0);
    let err = spin(&state, 5, 5, 1, 0).unwrap_err();
    assert_eq!(err, Error::Overflow);
    assert_eq!(err.message(), "Pot arithmetic overflow");
}

#[test]
fn spin_is_deterministic_per_block() {
    let msg = InitMsg { entropy: "awdada".to_string(), creator: None, expiration: None };
    let state = init(msg, b"creator".to_vec(), &vec![uscrt(1000)]).unwrap();
    let (first_state, first) = handle_spin(&state, 1332, 777, &vec![uscrt(2)]).unwrap();
    let (second_state, second) = handle_spin(&state, 1332, 777, &vec![uscrt(2)]).unwrap();
    assert_eq!(first.drawn_value, second.drawn_value);
    assert_eq!(first.won, second.won);
    assert_eq!(first.payout, second.payout);
    assert_eq!(first_state.pot, second_state.pot);
    assert_eq!(first_state.current_round, second_state.current_round);
}

#[test]
fn spin_draw_follows_block_data() {
    let msg = InitMsg { entropy: "awdada".to_string(), creator: None, expiration: None };
    let state = init(msg, b"creator".to_vec(), &vec![uscrt(1_000_000)]).unwrap();
    let mut saw_difference = false;
    let (_, base) = handle_spin(&state, 0, 0, &vec![uscrt(2)]).unwrap();
    for height in 1..40u64 {
        let (_, outcome) = handle_spin(&state, height, 0, &vec![uscrt(2)]).unwrap();
        if outcome.drawn_value != base.drawn_value {
            saw_difference = true;
        }
    }
    assert!(saw_difference);
}

#[test]
fn init_seed_hashes_encoded_entropy() {
    // "awdada" base64-encodes to "YXdkYWRh"; the stored seed is the digest
    // of that encoding.
    let msg = InitMsg { entropy: "awdada".to_string(), creator: None, expiration: None };
    let state = init(msg, b"creator".to_vec(), &vec![]).unwrap();
    assert_eq!(state.pot, 0);
    assert_eq!(state.prng_seed, sha_256(b"YXdkYWRh"));
}

#[test]
fn init_honors_explicit_creator_and_expiration() {
    let msg = InitMsg {
        entropy: "awdada".to_string(),
        creator: Some(b"boss".to_vec()),
        expiration: Some(Expiration::AtTime(9000)),
    };
    let state = init(msg, b"creator".to_vec(), &vec![uscrt(5)]).unwrap();
    assert_eq!(state.owner, b"boss".to_vec());
    assert_eq!(state.expiration, Expiration::AtTime(9000));
    assert_eq!(state.pot, 5);
}

#[test]
fn init_sums_multiple_coins() {
    let msg = InitMsg { entropy: "awdada".to_string(), creator: None, expiration: None };
    let state = init(msg, b"creator".to_vec(), &vec![uscrt(600), uscrt(400)]).unwrap();
    assert_eq!(state.pot, 1000);
}

#[test]
fn cash_out_partial() {
    let state = fresh_state(1000, 3);
    let (new_state, transfer) = cash_out(&state, Some(400));
    assert_eq!(transfer, 400);
    assert_eq!(new_state.pot, 600);
    assert_eq!(new_state.current_round, 3);
    assert_eq!(new_state.owner, state.owner);
}

#[test]
fn cash_out_defaults_to_whole_pot() {
    let state = fresh_state(1000, 0);
    let (new_state, transfer) = cash_out(&state, None);
    assert_eq!(transfer, 1000);
    assert_eq!(new_state.pot, 0);
}

#[test]
fn handle_dispatches() {
    let state = fresh_state(1000, 0);
    let (after_cash, outcome) =
        handle(&state, 5, 5, &vec![], HandleMsg::CashOut { quantity: Some(250) }).unwrap();
    assert!(matches!(outcome, HandleOutcome::CashedOut(250)));
    assert_eq!(after_cash.pot, 750);
    let (after_spin, spin_outcome) =
        handle(&state, 5, 5, &vec![uscrt(2)], HandleMsg::Spin {}).unwrap();
    match spin_outcome {
        HandleOutcome::Spun(o) => {
            assert!(o.drawn_value < 6);
            if o.won {
                assert_eq!(after_spin.pot, 996);
            } else {
                assert_eq!(after_spin.pot, 1002);
            }
        }
        HandleOutcome::CashedOut(_) => panic!("spin reported a cash-out"),
    }
}

#[test]
fn queries_read_the_record() {
    let mut state = fresh_state(123, 4);
    state.expiration = Expiration::AtHeight(77);
    assert_eq!(query_pot(&state).quantity, 123);
    assert_eq!(query_creator(&state).creator, b"creator".to_vec());
    assert_eq!(query_round(&state).round, 4);
    assert_eq!(query_expiration(&state).expiration, Expiration::AtHeight(77));
    match query(&state, QueryMsg::Pot {}) {
        QueryAnswer::Pot(p) => assert_eq!(p.quantity, 123),
        _ => panic!("wrong answer variant"),
    }
    match query(&state, QueryMsg::Round {}) {
        QueryAnswer::Round(r) => assert_eq!(r.round, 4),
        _ => panic!("wrong answer variant"),
    }
}

#[test]
fn spin_response_texts() {
    let state = fresh_state(1000, 0);
    let (_, won) = spin(&state, 5, 5, 2, 3).unwrap();
    let response = spin_response(&won);
    assert_eq!(response.result, "Congrats! You just won some money.");
    assert_eq!(response.winnings, Some(4));
    let (_, lost) = spin(&state, 5, 5, 2, 0).unwrap();
    let response = spin_response(&lost);
    assert_eq!(response.result, "You just died. You lost all your money.");
    assert_eq!(response.winnings, None);
}
