//! The round/pot state machine and its entry points.
//!
//! The persisted game record is an explicit [`State`] value: every operation
//! reads one, validates, and either returns a rejection with the state
//! untouched or a fully rewritten successor. A spin mixes the secret seed
//! with the block data, draws a value in `[0, 6)`, and compares it with the
//! rotating round counter: equality loses the stake to the pot and resets
//! the round; anything else wins twice the stake out of the pot and advances
//! the round. A solvency guard rejects any spin whose predicted winnings the
//! pot could not cover.

use vstd::prelude::*;

use crate::expiration::Expiration;
use crate::msg::{
    Coin, CreatorResponse, ExpirationResponse, HandleMsg, InitMsg, PotResponse, QueryMsg,
    RoundResponse, SpinResponse,
};
use crate::rand::{
    chacha_bytes_of, draw, draw_of, flat_blocks, new_entropy, sha256_of, sha_256, u64_be_bytes,
    u64_be_bytes_of,
};
use vstd::slice::slice_to_vec;
use vstd::string::StringExecFns;

verus! {

/// The standard base64 encoding (padded, standard alphabet) of a byte
/// string, as ASCII bytes.
pub uninterp spec fn base64_of(data: Seq<u8>) -> Seq<u8>;

/// Relies on base64's `encode`: the standard-alphabet, padded encoding,
/// determined by the input bytes alone. The length bound keeps the output
/// size computation inside `usize`.
#[verifier::external_body]
fn base64_encode(data: &[u8]) -> (r: Vec<u8>)
    requires
        data@.len() <= usize::MAX / 2,
    ensures
        r@ == base64_of(data@),
{
    base64::encode(data).into_bytes()
}

/// The persisted game record: one instance per deployment, created at
/// initialization and rewritten by each accepted spin or cash-out.
#[derive(Debug)]
pub struct State {
    /// Balance available for payout; never negative.
    pub pot: u128,
    /// Canonical identity of the creator, fixed at initialization.
    pub owner: Vec<u8>,
    /// Secret 32-byte seed derived once from creator-supplied entropy text.
    pub prng_seed: [u8; 32],
    /// Consecutive non-losing spins since the last loss; also the losing
    /// threshold for the next draw. Always in `[0, 6)`.
    pub current_round: u8,
    /// Deadline after which spins are rejected; fixed at initialization.
    pub expiration: Expiration,
}

impl State {
    /// The record's invariant: the round counter stays inside the wheel.
    pub open spec fn wf(self) -> bool {
        self.current_round < 6
    }
}

/// Why a call was rejected. No rejection mutates state.
#[derive(Clone, Copy, Debug, PartialEq, Eq, Structural)]
pub enum Error {
    /// The stored deadline has passed.
    GameClosed,
    /// A coin of an unsupported denomination was attached.
    InvalidToken,
    /// A spin was requested with no stake attached.
    NoCoinsSent,
    /// The predicted winnings exceed the pot.
    InsufficientPot,
    /// Pot arithmetic would leave the token range: a fatal invariant
    /// violation, surfaced without committing anything.
    Overflow,
}

impl Error {
    /// The caller-facing description of each rejection.
    pub open spec fn spec_message(self) -> Seq<char> {
        match self {
            Error::GameClosed => "Expired. This game has been closed."@,
            Error::InvalidToken => "Only uscrt is supported. Invalid token sent. "@,
            Error::NoCoinsSent => "No coins sent"@,
            Error::InsufficientPot => "Not enough funds in pot"@,
            Error::Overflow => "Pot arithmetic overflow"@,
        }
    }

    pub fn message(&self) -> (r: &'static str)
        ensures
            r@ == self.spec_message(),
    {
        match self {
            Error::GameClosed => "Expired. This game has been closed.",
            Error::InvalidToken => "Only uscrt is supported. Invalid token sent. ",
            Error::NoCoinsSent => "No coins sent",
            Error::InsufficientPot => "Not enough funds in pot",
            Error::Overflow => "Pot arithmetic overflow",
        }
    }
}

/// What one spin produced: the drawn value, whether it won, and the payout
/// owed on a win. Ephemeral; never persisted.
#[derive(Clone, Copy, Debug)]
pub struct SpinOutcome {
    pub drawn_value: u8,
    pub won: bool,
    pub payout: Option<u128>,
}

/// Duplicate a byte vector.
fn clone_bytes(v: &Vec<u8>) -> (r: Vec<u8>)
    ensures
        r@ == v@,
{
    slice_to_vec(v.as_slice())
}

/// The total of the attached funds, walked left to right: the first coin of
/// a foreign denomination rejects the call, and a sum leaving the token
/// range is the fatal overflow.
pub open spec fn tally_spec(funds: Seq<Coin>, acc: u128) -> Result<u128, Error>
    decreases funds.len(),
{
    if funds.len() == 0 {
        Ok(acc)
    } else if funds[0].denom@ != "uscrt"@ {
        Err(Error::InvalidToken)
    } else if acc + funds[0].amount > u128::MAX {
        Err(Error::Overflow)
    } else {
        tally_spec(funds.drop_first(), (acc + funds[0].amount) as u128)
    }
}

/// Sum the attached funds, insisting on the single supported denomination.
pub fn tally_funds(funds: &Vec<Coin>) -> (r: Result<u128, Error>)
    ensures
        r == tally_spec(funds@, 0),
{
    let uscrt = String::from_str("uscrt");
    let mut total: u128 = 0;
    let mut i: usize = 0;
    proof {
        assert(funds@.subrange(0, funds@.len() as int) =~= funds@);
    }
    while i < funds.len()
        invariant
            i <= funds@.len(),
            uscrt@ == "uscrt"@,
            tally_spec(funds@, 0) == tally_spec(
                funds@.subrange(i as int, funds@.len() as int),
                total,
            ),
        decreases funds@.len() - i,
    {
        proof {
            let rest = funds@.subrange(i as int, funds@.len() as int);
            assert(rest[0] == funds@[i as int]);
            assert(rest.drop_first() =~= funds@.subrange(i + 1, funds@.len() as int));
        }
        let coin = &funds[i];
        if coin.denom != uscrt {
            return Err(Error::InvalidToken);
        }
        total = match total.checked_add(coin.amount) {
            Some(t) => t,
            None => {
                return Err(Error::Overflow);
            },
        };
        i = i + 1;
    }
    proof {
        assert(funds@.subrange(funds@.len() as int, funds@.len() as int) =~= Seq::<Coin>::empty());
    }
    Ok(total)
}

/// A draw loses exactly when it equals the current round counter.
pub open spec fn loses(state: State, drawn: u8) -> bool {
    drawn == state.current_round
}

/// Every precondition of a spin holds: the game is open, a stake was sent,
/// and the pot covers the predicted winnings of twice the stake.
pub open spec fn spin_allowed(state: State, height: u64, time: u64, stake: u128) -> bool {
    &&& !state.expiration.spec_is_expired(height, time)
    &&& stake > 0
    &&& 2 * stake <= state.pot
}

/// A spin commits: it is allowed, and on a loss absorbing the stake stays
/// inside the token range.
pub open spec fn spin_accepts(state: State, height: u64, time: u64, stake: u128, drawn: u8) -> bool {
    &&& spin_allowed(state, height, time, stake)
    &&& (loses(state, drawn) ==> state.pot + stake <= u128::MAX)
}

/// The rejection a refused spin reports: the first failed check wins.
pub open spec fn spin_error(state: State, height: u64, time: u64, stake: u128, drawn: u8) -> Error {
    if state.expiration.spec_is_expired(height, time) {
        Error::GameClosed
    } else if stake == 0 {
        Error::NoCoinsSent
    } else if 2 * stake > state.pot {
        Error::InsufficientPot
    } else {
        Error::Overflow
    }
}

/// The pot after an accepted spin: a loss absorbs the stake, a win pays
/// twice the stake out.
pub open spec fn next_pot(state: State, stake: u128, drawn: u8) -> int {
    if loses(state, drawn) {
        state.pot + stake
    } else {
        state.pot - 2 * stake
    }
}

/// The round counter after an accepted spin: a loss resets it, a win
/// advances it around the six-round wheel.
pub open spec fn next_round(state: State, drawn: u8) -> int {
    if loses(state, drawn) {
        0
    } else {
        (state.current_round + 1) % 6
    }
}

/// The payout an accepted spin owes the caller: nothing on a loss, twice
/// the stake on a win.
pub open spec fn spin_payout(state: State, stake: u128, drawn: u8) -> Option<u128> {
    if loses(state, drawn) {
        None
    } else {
        Some((2 * stake) as u128)
    }
}

/// How an accepted spin rewrites the record: pot and round move as the draw
/// decides; owner, seed and deadline are kept.
pub open spec fn spin_transition(pre: State, post: State, stake: u128, drawn: u8) -> bool {
    &&& post.pot == next_pot(pre, stake, drawn)
    &&& post.current_round == next_round(pre, drawn)
    &&& post.owner@ == pre.owner@
    &&& post.prng_seed == pre.prng_seed
    &&& post.expiration == pre.expiration
}

/// What the outcome record of an accepted spin reports.
pub open spec fn spin_outcome_ok(pre: State, o: SpinOutcome, stake: u128, drawn: u8) -> bool {
    &&& o.drawn_value == drawn
    &&& o.won == !loses(pre, drawn)
    &&& o.payout == spin_payout(pre, stake, drawn)
}

/// Comparing a stake against half the pot is the overflow-free form of
/// comparing twice the stake against the pot.
proof fn lemma_stake_against_half(pot: u128, stake: u128)
    ensures
        (stake > pot / 2) <==> (2 * stake > pot),
{
    vstd::arithmetic::div_mod::lemma_fundamental_div_mod(pot as int, 2);
}

/// Resolve one spin of `stake` against `drawn`. Checks run in order — the
/// deadline, the stake, the solvency guard — and the first failure rejects
/// the call with no new state. An accepted spin returns the rewritten
/// record and the outcome.
pub fn spin(state: &State, height: u64, time: u64, stake: u128, drawn: u8) -> (r: Result<
    (State, SpinOutcome),
    Error,
>)
    requires
        state.wf(),
        drawn < 6,
    ensures
        (r is Ok) == spin_accepts(*state, height, time, stake, drawn),
        r matches Err(e) ==> e == spin_error(*state, height, time, stake, drawn),
        r matches Ok(p) ==> spin_transition(*state, p.0, stake, drawn) && spin_outcome_ok(
            *state,
            p.1,
            stake,
            drawn,
        ) && p.0.wf(),
{
    if state.expiration.is_expired(height, time) {
        return Err(Error::GameClosed);
    }
    if stake == 0 {
        return Err(Error::NoCoinsSent);
    }
    proof {
        lemma_stake_against_half(state.pot, stake);
    }
    if stake > state.pot / 2 {
        return Err(Error::InsufficientPot);
    }
    if drawn == state.current_round {
        let new_pot = match state.pot.checked_add(stake) {
            Some(p) => p,
            None => {
                return Err(Error::Overflow);
            },
        };
        let new_state = State {
            pot: new_pot,
            owner: clone_bytes(&state.owner),
            prng_seed: state.prng_seed,
            current_round: 0,
            expiration: state.expiration,
        };
        let outcome = SpinOutcome { drawn_value: drawn, won: false, payout: None };
        Ok((new_state, outcome))
    } else {
        let winnings = 2 * stake;
        let new_state = State {
            pot: state.pot - winnings,
            owner: clone_bytes(&state.owner),
            prng_seed: state.prng_seed,
            current_round: (state.current_round + 1) % 6,
            expiration: state.expiration,
        };
        let outcome = SpinOutcome { drawn_value: drawn, won: true, payout: Some(winnings) };
        Ok((new_state, outcome))
    }
}

/// The 32-byte per-spin seed: the persistent seed and the big-endian block
/// height and time, hashed together and expanded through ChaCha20.
pub open spec fn spin_seed(prng_seed: Seq<u8>, height: u64, time: u64) -> Seq<u8> {
    chacha_bytes_of(sha256_of(prng_seed + u64_be_bytes_of(height) + u64_be_bytes_of(time)))
}

/// The draw one spin makes: a function of the persistent seed and the block
/// data alone.
pub open spec fn spin_draw(prng_seed: Seq<u8>, height: u64, time: u64) -> u8 {
    draw_of(spin_seed(prng_seed, height, time))
}

/// Everything `handle_spin` promises of its result.
pub open spec fn spin_call_post(
    state: State,
    height: u64,
    time: u64,
    funds: Seq<Coin>,
    r: Result<(State, SpinOutcome), Error>,
) -> bool {
    let drawn = spin_draw(state.prng_seed@, height, time);
    let expired = state.expiration.spec_is_expired(height, time);
    &&& (expired ==> (r matches Err(e) && e == Error::GameClosed))
    &&& (!expired ==> match tally_spec(funds, 0) {
        Result::Err(e) => (r matches Err(e2) && e2 == e),
        Result::Ok(stake) => {
            &&& ((r is Ok) == spin_accepts(state, height, time, stake, drawn))
            &&& (r matches Err(e) ==> e == spin_error(state, height, time, stake, drawn))
            &&& (r matches Ok(p) ==> spin_transition(state, p.0, stake, drawn)
                && spin_outcome_ok(state, p.1, stake, drawn) && p.0.wf())
        },
    })
}

/// One full spin call: check the deadline, tally the attached stake, derive
/// the per-spin seed from the block data, draw, and resolve.
pub fn handle_spin(state: &State, height: u64, time: u64, funds: &Vec<Coin>) -> (r: Result<
    (State, SpinOutcome),
    Error,
>)
    requires
        state.wf(),
    ensures
        spin_call_post(*state, height, time, funds@, r),
{
    if state.expiration.is_expired(height, time) {
        return Err(Error::GameClosed);
    }
    let total_coins_sent = match tally_funds(funds) {
        Ok(t) => t,
        Err(e) => {
            return Err(e);
        },
    };
    let h_bytes = u64_be_bytes(height);
    let t_bytes = u64_be_bytes(time);
    let mut entropies: Vec<[u8; 8]> = Vec::new();
    entropies.push(h_bytes);
    entropies.push(t_bytes);
    let rand_seed = new_entropy(entropies.as_slice(), state.prng_seed.as_slice());
    proof {
        let blocks = entropies@;
        let empty_blocks = Seq::<[u8; 8]>::empty();
        let one = seq![h_bytes];
        assert(blocks =~= seq![h_bytes, t_bytes]);
        assert(blocks.drop_last() =~= one);
        assert(one.drop_last() =~= empty_blocks);
        assert(flat_blocks(empty_blocks) == Seq::<u8>::empty());
        assert(one.last() == h_bytes);
        assert(flat_blocks(one) == flat_blocks(one.drop_last()) + one.last()@);
        assert(flat_blocks(one) == Seq::<u8>::empty() + h_bytes@);
        assert(blocks.last() == t_bytes);
        assert(flat_blocks(blocks) == flat_blocks(blocks.drop_last()) + blocks.last()@);
        assert(flat_blocks(blocks) == (Seq::<u8>::empty() + h_bytes@) + t_bytes@);
        assert(state.prng_seed@ + flat_blocks(blocks) =~= state.prng_seed@ + u64_be_bytes_of(
            height,
        ) + u64_be_bytes_of(time));
        assert(rand_seed@ == spin_seed(state.prng_seed@, height, time));
    }
    let rand_num = draw(&rand_seed);
    spin(state, height, time, total_coins_sent, rand_num)
}

/// Everything `cash_out` promises: the amount defaults to the whole pot and
/// leaves it exactly; the rest of the record is kept.
pub open spec fn cash_out_post(pre: State, quantity: Option<u128>, post: State, amount: u128) -> bool {
    &&& amount == (match quantity {
        Some(q) => q,
        None => pre.pot,
    })
    &&& post.pot == pre.pot - amount
    &&& post.owner@ == pre.owner@
    &&& post.prng_seed == pre.prng_seed
    &&& post.current_round == pre.current_round
    &&& post.expiration == pre.expiration
}

/// Withdraw `quantity` from the pot — the whole pot when unspecified — and
/// report the amount to transfer to the caller. Asking for more than the
/// pot holds is a precondition violation, to be prevented by the caller's
/// input validation, not a recoverable error.
pub fn cash_out(state: &State, quantity: Option<u128>) -> (r: (State, u128))
    requires
        state.wf(),
        quantity matches Some(q) ==> q <= state.pot,
    ensures
        cash_out_post(*state, quantity, r.0, r.1),
        r.0.wf(),
{
    let amount = match quantity {
        Some(q) => q,
        None => state.pot,
    };
    let new_state = State {
        pot: state.pot - amount,
        owner: clone_bytes(&state.owner),
        prng_seed: state.prng_seed,
        current_round: state.current_round,
        expiration: state.expiration,
    };
    (new_state, amount)
}

/// What an accepted state-mutating call produced: a spin outcome, or the
/// amount a cash-out withdrew.
#[derive(Clone, Copy, Debug)]
pub enum HandleOutcome {
    Spun(SpinOutcome),
    CashedOut(u128),
}

/// Dispatch one state-mutating call.
pub fn handle(state: &State, height: u64, time: u64, funds: &Vec<Coin>, msg: HandleMsg) -> (r:
    Result<(State, HandleOutcome), Error>)
    requires
        state.wf(),
        msg matches HandleMsg::CashOut { quantity: Some(q) } ==> q <= state.pot,
    ensures
        msg matches HandleMsg::Spin {  } ==> {
            &&& (r matches Err(e) ==> spin_call_post(*state, height, time, funds@, Err(e)))
            &&& (r matches Ok(p) ==> p.1 matches HandleOutcome::Spun(o) && spin_call_post(
                *state,
                height,
                time,
                funds@,
                Ok((p.0, o)),
            ) && p.0.wf())
        },
        msg matches HandleMsg::CashOut { quantity } ==> (r matches Ok(p)
            && p.1 matches HandleOutcome::CashedOut(a) && cash_out_post(*state, quantity, p.0, a)
            && p.0.wf()),
{
    match msg {
        HandleMsg::Spin {  } => {
            match handle_spin(state, height, time, funds) {
                Ok(p) => Ok((p.0, HandleOutcome::Spun(p.1))),
                Err(e) => Err(e),
            }
        },
        HandleMsg::CashOut { quantity } => {
            let p = cash_out(state, quantity);
            Ok((p.0, HandleOutcome::CashedOut(p.1)))
        },
    }
}

/// Create the game record: the owner defaults to the calling principal, the
/// secret seed is the hash of the base64-encoded entropy text, the pot is
/// seeded from the attached funds, and the round counter starts at zero.
pub fn init(msg: InitMsg, sender: Vec<u8>, funds: &Vec<Coin>) -> (r: Result<State, Error>)
    requires
        vstd::utf8::encode_utf8(msg.entropy@).len() <= usize::MAX / 2,
    ensures
        (r is Ok) == (tally_spec(funds@, 0) is Ok),
        r matches Err(e) ==> (tally_spec(funds@, 0) matches Err(e2) && e == e2),
        r matches Ok(s) ==> {
            &&& tally_spec(funds@, 0) matches Ok(pot) && s.pot == pot
            &&& s.owner@ == (match msg.creator {
                Some(c) => c@,
                None => sender@,
            })
            &&& s.prng_seed@ == sha256_of(base64_of(vstd::utf8::encode_utf8(msg.entropy@)))
            &&& s.current_round == 0
            &&& s.expiration == (match msg.expiration {
                Some(e) => e,
                None => Expiration::Never,
            })
            &&& s.wf()
        },
{
    let owner = match msg.creator {
        Some(c) => c,
        None => sender,
    };
    let entropy_bytes = msg.entropy.as_str().as_bytes();
    let encoded = base64_encode(entropy_bytes);
    let prng_seed = sha_256(encoded.as_slice());
    let expiration = match msg.expiration {
        Some(e) => e,
        None => Expiration::default(),
    };
    let pot = match tally_funds(funds) {
        Ok(p) => p,
        Err(e) => {
            return Err(e);
        },
    };
    Ok(State { pot, owner, prng_seed, current_round: 0, expiration })
}

/// The response payload for one outcome: the fixed result texts, with the
/// winnings on a win.
pub fn spin_response(outcome: &SpinOutcome) -> (r: SpinResponse)
    ensures
        r.winnings == outcome.payout,
        outcome.won ==> r.result@ == "Congrats! You just won some money."@,
        !outcome.won ==> r.result@ == "You just died. You lost all your money."@,
{
    if outcome.won {
        SpinResponse {
            result: String::from_str("Congrats! You just won some money."),
            winnings: outcome.payout,
        }
    } else {
        SpinResponse {
            result: String::from_str("You just died. You lost all your money."),
            winnings: outcome.payout,
        }
    }
}

/// Read the pot balance.
pub fn query_pot(state: &State) -> (r: PotResponse)
    ensures
        r.quantity == state.pot,
{
    PotResponse { quantity: state.pot }
}

/// Read the creator's canonical address bytes.
pub fn query_creator(state: &State) -> (r: CreatorResponse)
    ensures
        r.creator@ == state.owner@,
{
    CreatorResponse { creator: clone_bytes(&state.owner) }
}

/// Read the round counter.
pub fn query_round(state: &State) -> (r: RoundResponse)
    ensures
        r.round == state.current_round,
{
    RoundResponse { round: state.current_round }
}

/// Read the stored deadline.
pub fn query_expiration(state: &State) -> (r: ExpirationResponse)
    ensures
        r.expiration == state.expiration,
{
    ExpirationResponse { expiration: state.expiration }
}

/// Answer one read-only query against the record. No query mutates state.
pub fn query(state: &State, msg: QueryMsg) -> (r: QueryAnswer)
    ensures
        (msg matches QueryMsg::Pot {  }) ==> (r matches QueryAnswer::Pot(p) && p.quantity
            == state.pot),
        (msg matches QueryMsg::Creator {  }) ==> (r matches QueryAnswer::Creator(c) && c.creator@
            == state.owner@),
        (msg matches QueryMsg::Round {  }) ==> (r matches QueryAnswer::Round(q) && q.round
            == state.current_round),
        (msg matches QueryMsg::Expiration {  }) ==> (r matches QueryAnswer::Expiration(x)
            && x.expiration == state.expiration),
{
    match msg {
        QueryMsg::Pot {  } => QueryAnswer::Pot(query_pot(state)),
        QueryMsg::Creator {  } => QueryAnswer::Creator(query_creator(state)),
        QueryMsg::Round {  } => QueryAnswer::Round(query_round(state)),
        QueryMsg::Expiration {  } => QueryAnswer::Expiration(query_expiration(state)),
    }
}

/// The typed answer to a query; the host owns its wire encoding.
#[derive(Debug)]
pub enum QueryAnswer {
    Pot(PotResponse),
    Creator(CreatorResponse),
    Round(RoundResponse),
    Expiration(ExpirationResponse),
}

/// Conservation: an accepted losing spin absorbs the whole stake into the
/// pot; an accepted winning spin pays twice the stake out of it; the pot is
/// an unsigned amount and never negative. Over a sequence of spins with no
/// cash-out the claim composes, since each spin's new record is the next
/// one's input.
pub proof fn lemma_conservation(pre: State, post: State, stake: u128, drawn: u8)
    requires
        spin_transition(pre, post, stake, drawn),
    ensures
        loses(pre, drawn) ==> post.pot == pre.pot + stake,
        !loses(pre, drawn) ==> post.pot == pre.pot - 2 * stake,
        post.pot >= 0,
{
}

/// The pot movement one accepted spin causes: a loss adds the stake, a win
/// removes twice the stake.
pub open spec fn pot_delta(pre: State, stake: u128, drawn: u8) -> int {
    if loses(pre, drawn) {
        stake as int
    } else {
        -2 * (stake as int)
    }
}

/// The pot movement of the first `n` spins of a chain.
pub open spec fn chain_delta(states: Seq<State>, stakes: Seq<u128>, draws: Seq<u8>, n: int) -> int
    decreases n,
{
    if n <= 0 {
        0
    } else {
        chain_delta(states, stakes, draws, n - 1) + pot_delta(
            states[n - 1],
            stakes[n - 1],
            draws[n - 1],
        )
    }
}

/// Conservation over any sequence of spins with no cash-out: after `n`
/// accepted spins the pot is the starting balance plus each loss's stake and
/// minus twice each win's stake — and, being an unsigned amount, it is never
/// negative at any point of the chain.
pub proof fn lemma_sequence_conservation(
    states: Seq<State>,
    stakes: Seq<u128>,
    draws: Seq<u8>,
    n: int,
)
    requires
        0 <= n <= stakes.len(),
        states.len() == stakes.len() + 1,
        draws.len() == stakes.len(),
        forall|i: int| #![trigger states[i + 1]]
            0 <= i < stakes.len() ==> spin_transition(states[i], states[i + 1], stakes[i], draws[i]),
    ensures
        states[n].pot == states[0].pot + chain_delta(states, stakes, draws, n),
        forall|i: int| 0 <= i <= n ==> states[i].pot >= 0,
    decreases n,
{
    if n > 0 {
        lemma_sequence_conservation(states, stakes, draws, n - 1);
        assert(spin_transition(states[n - 1], states[n - 1 + 1], stakes[n - 1], draws[n - 1]));
    }
}

/// Round cycling: an accepted non-losing spin advances the round counter by
/// one around the six-round wheel; a losing spin resets it to zero. The
/// counter therefore stays in `[0, 6)`.
pub proof fn lemma_round_cycling(pre: State, post: State, stake: u128, drawn: u8)
    requires
        spin_transition(pre, post, stake, drawn),
    ensures
        !loses(pre, drawn) ==> post.current_round == (pre.current_round + 1) % 6,
        loses(pre, drawn) ==> post.current_round == 0,
        post.current_round < 6,
{
}

/// Solvency guard: whenever the predicted winnings of twice the stake
/// exceed the pot, the spin is rejected whatever was drawn — and a rejected
/// spin returns no new record, so the caller's state is exactly as before.
pub proof fn lemma_solvency_guard(state: State, height: u64, time: u64, stake: u128, drawn: u8)
    requires
        2 * stake > state.pot,
    ensures
        !spin_accepts(state, height, time, stake, drawn),
{
}

/// Expiration gate: once the stored deadline has passed, every spin at any
/// later block is rejected as game-closed, whatever the stake or the drawn
/// value. No spin changes the stored deadline, so a closed game stays
/// closed for the rest of the deployment.
pub proof fn lemma_expiration_gate(
    state: State,
    height: u64,
    time: u64,
    later_height: u64,
    later_time: u64,
    stake: u128,
    drawn: u8,
)
    requires
        state.expiration.spec_is_expired(height, time),
        height <= later_height,
        time <= later_time,
    ensures
        !spin_accepts(state, later_height, later_time, stake, drawn),
        spin_error(state, later_height, later_time, stake, drawn) == Error::GameClosed,
{
    crate::expiration::lemma_expiration_monotonic(
        state.expiration,
        height,
        time,
        later_height,
        later_time,
    );
}

/// Determinism: the draw is a function of the persistent seed and the block
/// data alone, and always lies in `[0, 6)` — equal inputs give equal draws.
pub proof fn lemma_draw_deterministic(
    seed_a: Seq<u8>,
    height_a: u64,
    time_a: u64,
    seed_b: Seq<u8>,
    height_b: u64,
    time_b: u64,
)
    requires
        seed_a == seed_b,
        height_a == height_b,
        time_a == time_b,
    ensures
        spin_draw(seed_a, height_a, time_a) == spin_draw(seed_b, height_b, time_b),
        spin_draw(seed_a, height_a, time_a) < 6,
{
}

} // verus!
