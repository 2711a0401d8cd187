//! Sizing of perpetual orders: rounding a requested amount to the market's order step,
//! signing it by the position side, and the order that closes an open position.
use vstd::prelude::*;
use vstd::string::*;
use crate::markets::{PerpMarket, PositionSide, market_name};

verus! {

/// Why an order cannot be built.
#[derive(Debug, Clone, Copy, PartialEq, Eq, Structural)]
pub enum OrderError {
    /// The requested amount (in native units) is below the market's minimum order size.
    BelowMinOrderSize { requested: u64, min: u64 },
    /// The amount to open does not fit in a signed 64-bit base asset amount.
    AmountTooLarge,
    /// There is no perpetual position on the market to close.
    NoPosition { market: PerpMarket },
    /// The position on the market has a zero base asset amount.
    AlreadyFlat,
    /// The position's size does not fit in a signed 64-bit order amount.
    PositionTooLarge,
}

/// The step that order amounts are rounded to: the market's step size, at least 1.
pub open spec fn effective_step(order_step_size: u64) -> u64 {
    if order_step_size == 0 {
        1
    } else {
        order_step_size
    }
}

/// `amount` rounded up to the next multiple of the step, saturating at `u64::MAX`.
pub open spec fn round_up_to_step(amount: u64, order_step_size: u64) -> u64 {
    let step = effective_step(order_step_size);
    let rem = amount % step;
    if rem == 0 {
        amount
    } else if amount + (step - rem) > u64::MAX {
        u64::MAX
    } else {
        (amount + (step - rem)) as u64
    }
}

/// What normalizing a requested amount yields for a market with the given limits.
pub open spec fn normalized_amount(native_amount: u64, min_order_size: u64, order_step_size: u64)
    -> Result<u64, OrderError>
{
    if native_amount < min_order_size {
        Err(OrderError::BelowMinOrderSize { requested: native_amount, min: min_order_size })
    } else {
        Ok(round_up_to_step(native_amount, order_step_size))
    }
}

/// The signed base asset amount of an order that opens a position of `amount` native units.
pub open spec fn signed_amount(amount: u64, side: PositionSide) -> Result<i64, OrderError> {
    if amount > i64::MAX {
        Err(OrderError::AmountTooLarge)
    } else {
        match side {
            PositionSide::Long => Ok(amount as i64),
            PositionSide::Short => Ok((-(amount as int)) as i64),
        }
    }
}

/// The signed amount of the reduce-only order that closes the position on `market` whose
/// base asset amount is `position` (`None` when there is no position).
pub open spec fn close_amount(market: PerpMarket, position: Option<i64>) -> Result<i64, OrderError> {
    match position {
        None => Err(OrderError::NoPosition { market }),
        Some(base) => if base == 0 {
            Err(OrderError::AlreadyFlat)
        } else if base == i64::MIN {
            Err(OrderError::PositionTooLarge)
        } else {
            Ok((-base) as i64)
        },
    }
}

/// Checks a requested amount (in native units) against the market's minimum order size
/// and rounds it up to the market's order step size (a step of 0 counts as 1); the
/// rounding saturates at `u64::MAX`.
pub fn normalize_open_amount(native_amount: u64, min_order_size: u64, order_step_size: u64) -> (r:
    Result<u64, OrderError>)
    ensures
        r == normalized_amount(native_amount, min_order_size, order_step_size),
        native_amount < min_order_size ==> r == Err::<u64, OrderError>(
            OrderError::BelowMinOrderSize { requested: native_amount, min: min_order_size },
        ),
        native_amount >= min_order_size ==> r is Ok,
        r is Ok ==> native_amount <= r->Ok_0 && r->Ok_0 - native_amount < effective_step(
            order_step_size,
        ) && (r->Ok_0 % effective_step(order_step_size) == 0 || r->Ok_0 == u64::MAX),
{
    if native_amount < min_order_size {
        return Err(OrderError::BelowMinOrderSize { requested: native_amount, min: min_order_size });
    }
    let step = if order_step_size > 1 {
        order_step_size
    } else {
        1
    };
    let rem = native_amount % step;
    let mut amount = native_amount;
    if rem != 0 {
        amount = amount.saturating_add(step - rem);
    }
    proof {
        normalized_amount_bounds(native_amount, min_order_size, order_step_size);
    }
    Ok(amount)
}

/// The signed base asset amount of the market order that opens a position: positive for
/// a long, negative for a short. Fails when the amount exceeds `i64::MAX`.
pub fn signed_open_amount(amount: u64, side: PositionSide) -> (r: Result<i64, OrderError>)
    ensures
        r == signed_amount(amount, side),
{
    if amount > i64::MAX as u64 {
        return Err(OrderError::AmountTooLarge);
    }
    let signed = amount as i64;
    match side {
        PositionSide::Long => Ok(signed),
        PositionSide::Short => Ok(-signed),
    }
}

/// The signed amount of the reduce-only market order that closes the position on `market`:
/// the opposite of the position's base asset amount. Fails when there is no position, when
/// it is already flat, or when its size does not fit in an `i64` order amount.
pub fn close_order_amount(market: PerpMarket, position: Option<i64>) -> (r: Result<i64, OrderError>)
    ensures
        r == close_amount(market, position),
{
    match position {
        None => Err(OrderError::NoPosition { market }),
        Some(base) => {
            if base == 0 {
                return Err(OrderError::AlreadyFlat);
            }
            let size: u64 = if base > 0 {
                base as u64
            } else {
                (-(base as i128)) as u64
            };
            if size > i64::MAX as u64 {
                return Err(OrderError::PositionTooLarge);
            }
            let size = size as i64;
            if base > 0 {
                Ok(-size)
            } else {
                Ok(size)
            }
        },
    }
}

/// A perpetual position is open: there is one and its base asset amount is nonzero.
pub open spec fn position_open(position: Option<i64>) -> bool {
    position is Some && position->0 != 0
}

/// Whether a perpetual position is open: there is one and its base asset amount is
/// nonzero. Only an open position has a PnL.
pub fn is_open_position(position: Option<i64>) -> (r: bool)
    ensures
        r == position_open(position),
{
    match position {
        Some(base) => base != 0,
        None => false,
    }
}

/// Rounding an amount never lowers it and raises it by less than one step; the result is
/// a multiple of the step unless it saturated at `u64::MAX`.
pub proof fn normalized_amount_bounds(native_amount: u64, min_order_size: u64, order_step_size: u64)
    requires
        native_amount >= min_order_size,
    ensures
        ({
            let r = round_up_to_step(native_amount, order_step_size);
            let step = effective_step(order_step_size);
            &&& normalized_amount(native_amount, min_order_size, order_step_size) == Ok::<
                u64,
                OrderError,
            >(r)
            &&& native_amount <= r
            &&& r - native_amount < step
            &&& (r % step == 0 || r == u64::MAX)
        }),
{
    let step = effective_step(order_step_size);
    let rem = native_amount % step;
    if rem != 0 && native_amount + (step - rem) <= u64::MAX {
        assert((native_amount + (step - rem)) % (step as int) == 0) by {
            vstd::arithmetic::div_mod::lemma_fundamental_div_mod(native_amount as int, step as int);
            vstd::arithmetic::div_mod::lemma_mod_multiples_basic(
                native_amount as int / step as int + 1,
                step as int,
            );
            assert(native_amount + (step - rem) == (native_amount as int / step as int + 1) * step)
                by (nonlinear_arith)
                requires
                    native_amount == step * (native_amount as int / step as int) + rem,
            ;
        }
    }
}

/// An amount below the market's minimum order size is refused, naming the amount and the
/// minimum, whatever the step; an amount at or above it is accepted.
pub proof fn below_minimum_is_refused(native_amount: u64, min_order_size: u64, order_step_size: u64)
    ensures
        native_amount < min_order_size ==> normalized_amount(
            native_amount,
            min_order_size,
            order_step_size,
        ) == Err::<u64, OrderError>(
            OrderError::BelowMinOrderSize { requested: native_amount, min: min_order_size },
        ),
        native_amount >= min_order_size ==> normalized_amount(
            native_amount,
            min_order_size,
            order_step_size,
        ) is Ok,
{
}

/// Normalizing is idempotent: an amount that came out of normalization comes out again
/// unchanged.
pub proof fn normalize_is_idempotent(native_amount: u64, min_order_size: u64, order_step_size: u64)
    requires
        native_amount >= min_order_size,
    ensures
        ({
            let r = round_up_to_step(native_amount, order_step_size);
            normalized_amount(r, min_order_size, order_step_size) == Ok::<u64, OrderError>(r)
        }),
{
    normalized_amount_bounds(native_amount, min_order_size, order_step_size);
    let r = round_up_to_step(native_amount, order_step_size);
    let step = effective_step(order_step_size);
    if r % step != 0 {
        assert(r == u64::MAX);
    }
}

/// Opening and closing are symmetric: a short carries the negated amount of a long, and
/// the order that closes a position opened with a nonzero amount is its exact negation,
/// so the two together leave the account flat: the position is open after the opening
/// order fills and no longer open once the closing order fills too.
pub proof fn close_undoes_open(market: PerpMarket, amount: u64, side: PositionSide)
    requires
        0 < amount <= i64::MAX,
    ensures
        signed_amount(amount, PositionSide::Short) == Ok::<i64, OrderError>(
            (-(amount as int)) as i64,
        ),
        signed_amount(amount, PositionSide::Long) == Ok::<i64, OrderError>(amount as i64),
        ({
            let opened = signed_amount(amount, side)->Ok_0;
            &&& position_open(Some(opened))
            &&& close_amount(market, Some(opened)) is Ok
            &&& opened + close_amount(market, Some(opened))->Ok_0 == 0
            &&& !position_open(Some((opened + close_amount(market, Some(opened))->Ok_0) as i64))
        }),
{
}

/// The character of a decimal digit.
pub open spec fn digit_char(d: nat) -> char {
    (48 + d) as char
}

/// The decimal notation of a number, without leading zeros.
pub open spec fn decimal(n: nat) -> Seq<char>
    decreases n,
{
    if n < 10 {
        seq![digit_char(n)]
    } else {
        decimal(n / 10).push(digit_char(n % 10))
    }
}

fn digit_str(d: u64) -> (r: &'static str)
    requires
        d < 10,
    ensures
        r@ == seq![digit_char(d as nat)],
{
    proof {
        reveal_strlit("0");
        reveal_strlit("1");
        reveal_strlit("2");
        reveal_strlit("3");
        reveal_strlit("4");
        reveal_strlit("5");
        reveal_strlit("6");
        reveal_strlit("7");
        reveal_strlit("8");
        reveal_strlit("9");
    }
    match d {
        0 => "0",
        1 => "1",
        2 => "2",
        3 => "3",
        4 => "4",
        5 => "5",
        6 => "6",
        7 => "7",
        8 => "8",
        _ => "9",
    }
}

fn append_decimal(s: &mut String, n: u64)
    ensures
        final(s)@ == old(s)@ + decimal(n as nat),
    decreases n,
{
    if n >= 10 {
        append_decimal(s, n / 10);
    }
    s.append(digit_str(n % 10));
    proof {
        if n >= 10 {
            assert(final(s)@ =~= old(s)@ + decimal(n as nat));
        } else {
            assert(final(s)@ =~= old(s)@ + decimal(n as nat));
        }
    }
}

/// The message an order error is reported with.
pub open spec fn order_error_text(e: OrderError) -> Seq<char> {
    match e {
        OrderError::BelowMinOrderSize { requested, min } => "requested amount is lower than min_order_size, "@
            + decimal(requested as nat) + " < "@ + decimal(min as nat),
        OrderError::AmountTooLarge => "base_asset_amount too large"@,
        OrderError::NoPosition { market } => "no perp position for market "@ + market_name(market),
        OrderError::AlreadyFlat => "position is already flat"@,
        OrderError::PositionTooLarge => "position size too large"@,
    }
}

/// The message an order error is reported with, naming the amounts or the market.
pub fn order_error_message(e: &OrderError) -> (r: String)
    ensures
        r@ == order_error_text(*e),
{
    match e {
        OrderError::BelowMinOrderSize { requested, min } => {
            let mut msg = String::from_str("requested amount is lower than min_order_size, ");
            append_decimal(&mut msg, *requested);
            msg.append(" < ");
            append_decimal(&mut msg, *min);
            msg
        },
        OrderError::AmountTooLarge => String::from_str("base_asset_amount too large"),
        OrderError::NoPosition { market } => {
            let mut msg = String::from_str("no perp position for market ");
            msg.append(market.name());
            msg
        },
        OrderError::AlreadyFlat => String::from_str("position is already flat"),
        OrderError::PositionTooLarge => String::from_str("position size too large"),
    }
}

} // verus!
