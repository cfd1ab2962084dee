//! Coin-flip bets: who may bet what, how a flip settles the balances, and
//! the texts that report it.

use vstd::prelude::*;
use rand::rngs::SmallRng;
use crate::commands::{spec_create_time_text};
use crate::random::random_bool;
use crate::text::{decimal, push_decimal, push_signed_decimal, replace, replace_all, str_eq};

verus! {

/// The largest amount one may bet against the bot in a gamble.
pub const MAX_COIN_FLIP_AMOUNT: u64 = 10_000;

/// How long, in seconds, a challenged player has to answer.
pub const OPPONENT_ACCEPT_TIMEOUT: i64 = 60;

/// The id of the button that accepts a challenge.
pub const ACCEPT_ID: &'static str = "a";

/// The id of the button that denies a challenge.
pub const DENY_ID: &'static str = "d";

/// A side of the coin.
#[derive(Clone, Copy, PartialEq, Eq, Structural, Debug)]
pub enum CoinFlipResult {
    Heads,
    Tails,
}

impl CoinFlipResult {
    /// The side's name in small letters.
    pub open spec fn spec_name(self) -> Seq<char> {
        match self {
            CoinFlipResult::Heads => "heads"@,
            CoinFlipResult::Tails => "tails"@,
        }
    }

    /// The side's name in small letters, "heads" or "tails".
    pub fn to_string(&self) -> (r: String)
        ensures
            r@ == self.spec_name(),
            r@ == match self {
                CoinFlipResult::Heads => "heads"@,
                CoinFlipResult::Tails => "tails"@,
            },
    {
        match self {
            CoinFlipResult::Heads => String::from_str("heads"),
            CoinFlipResult::Tails => String::from_str("tails"),
        }
    }
}

/// Why a bet against the bot is refused.
#[derive(Clone, Copy, PartialEq, Eq, Structural, Debug)]
pub enum GambleRefusal {
    ZeroBet,
    AboveMaximum,
    InsufficientBalance,
}

/// Checks a bet of `amount` by a player holding `balance`: nothing may be
/// bet, nor more than the maximum, nor more than the balance; the checks
/// are made in that order.
pub fn check_gamble(amount: u64, balance: u64) -> (r: Result<(), GambleRefusal>)
    ensures
        r == if amount == 0 {
            Err(GambleRefusal::ZeroBet)
        } else if amount > MAX_COIN_FLIP_AMOUNT {
            Err(GambleRefusal::AboveMaximum)
        } else if balance < amount {
            Err(GambleRefusal::InsufficientBalance)
        } else {
            Ok(())
        },
{
    if amount == 0 {
        Err(GambleRefusal::ZeroBet)
    } else if amount > MAX_COIN_FLIP_AMOUNT {
        Err(GambleRefusal::AboveMaximum)
    } else if balance < amount {
        Err(GambleRefusal::InsufficientBalance)
    } else {
        Ok(())
    }
}

/// Flips a coin: `true` for heads. Which side comes is random.
pub fn flip_coin(rng: &mut SmallRng) -> bool {
    random_bool(rng)
}

/// The side a player bets on: the one chosen, or a random one when none is.
pub fn choose_bet(chosen: Option<CoinFlipResult>, rng: &mut SmallRng) -> (r: CoinFlipResult)
    ensures
        chosen matches Some(side) ==> r == side,
{
    match chosen {
        Some(side) => side,
        None => {
            if random_bool(rng) {
                CoinFlipResult::Heads
            } else {
                CoinFlipResult::Tails
            }
        },
    }
}

/// Whether a bet against the bot is won: only a bet on heads wins, and only
/// when the coin shows heads.
pub fn gamble_won(bet: CoinFlipResult, is_heads: bool) -> (r: bool)
    ensures
        r == (is_heads && bet == CoinFlipResult::Heads),
{
    is_heads && match bet {
        CoinFlipResult::Heads => true,
        CoinFlipResult::Tails => false,
    }
}

/// The balance after a flip: the stake is added when won and taken when lost.
pub fn settle_flip(balance: u64, amount: u64, won: bool) -> (r: u64)
    requires
        won ==> balance + amount <= u64::MAX,
        !won ==> amount <= balance,
    ensures
        won ==> r == balance + amount,
        !won ==> r == balance - amount,
{
    if won {
        balance + amount
    } else {
        balance - amount
    }
}

/// Whether a balance covers a stake.
pub fn can_cover(balance: u64, amount: u64) -> (r: bool)
    ensures
        r == (amount <= balance),
{
    !(balance < amount)
}

/// Why a challenge between two players is refused.
#[derive(Clone, Copy, PartialEq, Eq, Structural, Debug)]
pub enum DuelRefusal {
    ChallengerCannotCover,
    SelfBet,
    OpponentCannotCover,
}

/// The checks made before the opponent's balance is read: the challenger
/// must cover the stake, and may not challenge themself.
pub fn check_challenge(challenger_balance: u64, amount: u64, challenger_id: u64, opponent_id: Option<u64>)
    -> (r: Result<(), DuelRefusal>)
    ensures
        r == if challenger_balance < amount {
            Err(DuelRefusal::ChallengerCannotCover)
        } else if opponent_id == Some(challenger_id) {
            Err(DuelRefusal::SelfBet)
        } else {
            Ok(())
        },
{
    if challenger_balance < amount {
        return Err(DuelRefusal::ChallengerCannotCover);
    }
    match opponent_id {
        Some(id) => {
            if id == challenger_id {
                Err(DuelRefusal::SelfBet)
            } else {
                Ok(())
            }
        },
        None => Ok(()),
    }
}

/// The check made once the opponent's balance is read.
pub fn check_opponent(opponent_balance: u64, amount: u64) -> (r: Result<(), DuelRefusal>)
    ensures
        r == if opponent_balance < amount { Err(DuelRefusal::OpponentCannotCover) } else { Ok(()) },
{
    if opponent_balance < amount {
        Err(DuelRefusal::OpponentCannotCover)
    } else {
        Ok(())
    }
}

/// How a challenged player answered.
#[derive(Clone, Copy, PartialEq, Eq, Structural, Debug)]
pub enum DuelAnswer {
    Accepted,
    Denied,
    TimedOut,
}

/// The answer given by the id of the button pressed, or `None` when no
/// button was pressed in time: only the accept button accepts.
pub fn duel_answer(button_id: Option<&str>) -> (r: DuelAnswer)
    ensures
        r == match button_id {
            None => DuelAnswer::TimedOut,
            Some(id) => if id@ == ACCEPT_ID@ { DuelAnswer::Accepted } else { DuelAnswer::Denied },
        },
{
    match button_id {
        None => DuelAnswer::TimedOut,
        Some(id) => {
            if str_eq(id, ACCEPT_ID) {
                DuelAnswer::Accepted
            } else {
                DuelAnswer::Denied
            }
        },
    }
}

/// The balances of winner and loser after a duel: the stake passes from the
/// loser to the winner.
pub fn settle_duel(winner_balance: u64, loser_balance: u64, amount: u64) -> (r: (u64, u64))
    requires
        amount <= loser_balance,
        winner_balance + amount <= u64::MAX,
    ensures
        r.0 == winner_balance + amount,
        r.1 == loser_balance - amount,
{
    (winner_balance + amount, loser_balance - amount)
}

/// A duel moves money between the two players and creates none: the sum of
/// their balances is the same after it as before.
pub proof fn lemma_duel_conserves_money(winner_balance: u64, loser_balance: u64, amount: u64)
    requires
        amount <= loser_balance,
        winner_balance + amount <= u64::MAX,
    ensures
        (winner_balance + amount) + (loser_balance - amount) == winner_balance + loser_balance,
{
}

/// A flip that is won and then lost with the same stake leaves the balance
/// as it was.
pub proof fn lemma_win_then_lose_restores(balance: u64, amount: u64)
    requires
        balance + amount <= u64::MAX,
    ensures
        (balance + amount) - amount == balance,
{
}

/// The text that reports a flip against the bot, before its placeholders are filled.
pub open spec fn flip_template(won: bool) -> Seq<char> {
    if won {
        "You won the coin flip and just got $amt!\nYour balance is now $bal"@
    } else {
        "You lost the coin flip and $amt :(\nYour balance is now $bal"@
    }
}

/// The report of a flip against the bot: `$amt` is replaced by the stake
/// and `$bal` by the new balance, each written after a dollar sign.
pub open spec fn spec_flip_message(won: bool, amount: u64, balance: u64) -> Seq<char> {
    replace_all(
        replace_all(flip_template(won), "$amt"@, "$"@ + decimal(amount as nat)),
        "$bal"@,
        "$"@ + decimal(balance as nat),
    )
}

/// The report of a flip against the bot.
pub fn flip_message(won: bool, amount: u64, balance: u64) -> (r: String)
    ensures
        r@ == spec_flip_message(won, amount, balance),
{
    let template = if won {
        "You won the coin flip and just got $amt!\nYour balance is now $bal"
    } else {
        "You lost the coin flip and $amt :(\nYour balance is now $bal"
    };
    let mut amount_text = String::from_str("$");
    push_decimal(&mut amount_text, amount);
    let mut balance_text = String::from_str("$");
    push_decimal(&mut balance_text, balance);
    let first = replace(template, "$amt", amount_text.as_str());
    replace(first.as_str(), "$bal", balance_text.as_str())
}

/// The announcement of a bet: "You bet AMOUNT on SIDE".
pub fn bet_message(amount: u64, bet: CoinFlipResult) -> (r: String)
    ensures
        r@ == "You bet "@ + decimal(amount as nat) + " on "@ + bet.spec_name(),
{
    let mut r = String::from_str("You bet ");
    push_decimal(&mut r, amount);
    r.append(" on ");
    let side = bet.to_string();
    r.append(side.as_str());
    r
}

/// The refusal of a bet larger than the balance.
pub fn insufficient_balance_message(balance: u64) -> (r: String)
    ensures
        r@ == "You don't have enough balance to cover this! Your balance is: "@ + decimal(balance as nat),
{
    let mut r = String::from_str("You don't have enough balance to cover this! Your balance is: ");
    push_decimal(&mut r, balance);
    r
}

/// The refusal of a bet above the maximum.
pub fn maximum_bet_message() -> (r: String)
    ensures
        r@ == "The maximum amount you can bet is: "@ + decimal(MAX_COIN_FLIP_AMOUNT as nat),
{
    let mut r = String::from_str("The maximum amount you can bet is: ");
    push_decimal(&mut r, MAX_COIN_FLIP_AMOUNT);
    r
}

/// The challenge sent to an opponent, naming the stake and the time by
/// which to answer.
pub fn challenge_message(challenger: &str, amount: u64, opponent: &str, deadline_secs: i64) -> (r: String)
    ensures
        r@ == challenger@ + " would like to coin flip $"@ + decimal(amount as nat) + " against "@ + opponent@
            + ".They may accept before the timer ends ("@ + spec_create_time_text(deadline_secs) + ")"@,
{
    let mut r = String::from_str(challenger);
    r.append(" would like to coin flip $");
    push_decimal(&mut r, amount);
    r.append(" against ");
    r.append(opponent);
    r.append(".They may accept before the timer ends (<t:");
    push_signed_decimal(&mut r, deadline_secs);
    r.append(":R>)");
    proof {
        reveal_strlit(".They may accept before the timer ends (<t:");
        reveal_strlit(".They may accept before the timer ends (");
        reveal_strlit("<t:");
        reveal_strlit(":R>)");
        reveal_strlit(":R>");
        reveal_strlit(")");
        assert(r@ =~= challenger@ + " would like to coin flip $"@ + decimal(amount as nat) + " against "@ + opponent@
            + ".They may accept before the timer ends ("@ + spec_create_time_text(deadline_secs) + ")"@);
    }
    r
}

/// The report of a duel: who won and both new balances.
pub fn duel_result_message(winner: &str, loser: &str, winner_balance: u64, loser_balance: u64) -> (r: String)
    ensures
        r@ == winner@ + " won the coin flip!!\n"@ + winner@ + "'s new balance is: "@ + decimal(winner_balance as nat)
            + "\n"@ + loser@ + "'s balance is "@ + decimal(loser_balance as nat),
{
    let mut r = String::from_str(winner);
    r.append(" won the coin flip!!\n");
    r.append(winner);
    r.append("'s new balance is: ");
    push_decimal(&mut r, winner_balance);
    r.append("\n");
    r.append(loser);
    r.append("'s balance is ");
    push_decimal(&mut r, loser_balance);
    r
}


/// The refusal of a challenge against oneself.
pub const SELF_BET_MESSAGE: &'static str =
    "C'mon man you can't bet against yourself :(\nI almost didn't catch this bug lol";

/// The refusal of a challenge: the challenger's balance when they cannot
/// cover the stake, the self-bet refusal, or the opponent's shortfall.
pub fn duel_refusal_message(refusal: DuelRefusal, challenger_balance: u64, opponent: &str) -> (r: String)
    ensures
        r@ == match refusal {
            DuelRefusal::ChallengerCannotCover =>
                "You don't have enough balance to cover this! Your balance is: "@ + decimal(challenger_balance as nat),
            DuelRefusal::SelfBet => SELF_BET_MESSAGE@,
            DuelRefusal::OpponentCannotCover => opponent@ + " doesn't have enough balance to cover the coin flip!"@,
        },
{
    match refusal {
        DuelRefusal::ChallengerCannotCover => insufficient_balance_message(challenger_balance),
        DuelRefusal::SelfBet => String::from_str(SELF_BET_MESSAGE),
        DuelRefusal::OpponentCannotCover => {
            let mut r = String::from_str(opponent);
            r.append(" doesn't have enough balance to cover the coin flip!");
            r
        },
    }
}

/// What is said about a challenge's answer: that it timed out or was
/// denied, naming the opponent; nothing when it was accepted.
pub fn duel_answer_message(answer: DuelAnswer, opponent: &str) -> (r: Option<String>)
    ensures
        r matches Some(m) ==> m@ == match answer {
            DuelAnswer::TimedOut => opponent@ + " did not respond in time"@,
            _ => opponent@ + " denied the coin flip"@,
        },
        r is None <==> answer == DuelAnswer::Accepted,
{
    match answer {
        DuelAnswer::Accepted => None,
        DuelAnswer::TimedOut => {
            let mut r = String::from_str(opponent);
            r.append(" did not respond in time");
            Some(r)
        },
        DuelAnswer::Denied => {
            let mut r = String::from_str(opponent);
            r.append(" denied the coin flip");
            Some(r)
        },
    }
}

/// The message sent while a duel's coin is in the air.
pub const FLIPPING_MESSAGE: &'static str = "Flipping!";

/// The refusal of a bet against the bot.
pub fn gamble_refusal_message(refusal: GambleRefusal, balance: u64) -> (r: String)
    ensures
        r@ == match refusal {
            GambleRefusal::ZeroBet => "You can't bet $0!"@,
            GambleRefusal::AboveMaximum => "The maximum amount you can bet is: "@ + decimal(MAX_COIN_FLIP_AMOUNT as nat),
            GambleRefusal::InsufficientBalance =>
                "You don't have enough balance to cover this! Your balance is: "@ + decimal(balance as nat),
        },
{
    match refusal {
        GambleRefusal::ZeroBet => String::from_str("You can't bet $0!"),
        GambleRefusal::AboveMaximum => maximum_bet_message(),
        GambleRefusal::InsufficientBalance => insufficient_balance_message(balance),
    }
}

} // verus!
