use vstd::prelude::*;

verus! {

/// A request to the backend to spin a slot machine.
#[derive(Clone, Copy, Debug)]
pub struct ReqSlotSpin {
    /// The game's level.
    pub game_level_id: i32,
    /// The game server's id.
    pub game_id: u32,
    /// The stake.
    pub in_money: i64,
    /// The amount hoped for.
    pub hope_get: i64,
    /// What a win adds at once.
    pub immediate_money: i64,
    /// The kind of coin staked: 0 ordinary, 1 bound.
    pub money_type: u32,
    /// Whether the spin feeds the jackpots of the game server.
    pub need_change_lottery: bool,
    /// Whether money is to be returned.
    pub need_refund: bool,
    /// The jackpot played for, or 0 for none; read only without a refund.
    pub lottery_id: i32,
    /// The kind of spin: 0 plain, 1 free, 2 landed, and so on.
    pub spin_type: u32,
}

/// A request to the backend to return a stake.
#[derive(Clone, Copy, Debug)]
pub struct ReqSlotRefund {
    /// The game's level.
    pub game_level_id: i32,
    /// The game server's id.
    pub game_id: u32,
    /// The stake.
    pub in_money: i64,
    /// The amount to return.
    pub refund_get: i64,
    /// The jackpot that the refund is drawn from, or 0 for none.
    pub lottery_id: i32,
}

/// What the backend reports of one jackpot.
#[derive(Debug, Clone)]
pub struct LotteryInfo {
    /// The jackpot's id.
    pub lottery_id: i32,
    /// How the lobby shows it: 0 not at all, 1 plainly, 101 to 103 themed.
    pub hall_show: i32,
    /// The kind of jackpot: 0 regular, 1 to 5 prizes of rising size.
    pub lottery_type: i32,
    /// Whether the value is a multiplier (0) or money (1).
    pub bet_or_money: i32,
    /// The current value or multiplier.
    pub lottery_real: i64,
    /// The least multiplier, for a jackpot of multipliers.
    pub lottery_min_bet: i64,
    /// The greatest multiplier, for a jackpot of multipliers.
    pub lottery_max_bet: i64,
    /// The least stake that moves the jackpot.
    pub coin_min: i64,
    /// The step by which clients let the value grow on screen.
    pub lottery_real_increment: i32,
    /// The games that feed the jackpot.
    pub game_ids: Vec<u32>,
}

} // verus!
