//! The decisions of the strategy engine. Each tick the engine takes the approved
//! strategies through the entry pass (fetch market data, evaluate the condition, open the
//! position, record the outcome) and the triggered ones through the stop-loss pass (read
//! the position's PnL, close it on a breach, record it as stopped). The outside work of
//! each step is done by the caller, which reports its outcome as an event; the functions
//! here decide the next action from the strategy and that event.
use vstd::prelude::*;
use vstd::string::*;
use crate::markets::{PerpMarket, PositionSide, Side, position_side_of, side_to_position_side};
use crate::symbols::{
    all_ascii, ascii_upper, market_of_symbol, market_of_upper_symbol, symbol_to_perp_market,
};

verus! {

/// The lifecycle status of a stored strategy.
#[derive(Debug, Clone, Copy, PartialEq, Eq, Structural)]
pub enum StrategyStatus {
    Waiting,
    Approved,
    Triggered,
    Stopped,
    Failed,
    Queued,
}

/// The outcome of the last step of the entry pass over an approved strategy.
#[derive(Debug, Clone, Copy, PartialEq, Eq, Structural)]
pub enum EntryEvent {
    /// The pass starts on the strategy.
    Started,
    /// Market data for the strategy's symbol was fetched, or fetching it failed.
    MarketData { fetched: bool },
    /// The condition was evaluated: `Some(holds)`, or `None` when evaluating it failed.
    ConditionChecked { outcome: Option<bool> },
    /// The order that opens the position was sent, or sending it failed.
    PositionOpened { opened: bool },
    /// The strategy was stored as triggered, or storing it failed.
    TriggeredRecorded { recorded: bool },
    /// The strategy was stored as failed (whether the write succeeded is not looked at).
    FailedRecorded,
}

/// What reading the unrealized PnL of a strategy's position gave.
#[derive(Debug, Clone, Copy, PartialEq, Eq, Structural)]
pub enum PnlReading {
    /// Reading the PnL failed.
    Unavailable,
    /// No position is open on the market.
    NoPosition,
    /// A position is open; `breached` tells whether its PnL percentage is at or below the
    /// negated stop-loss percentage.
    Open { breached: bool },
}

/// The outcome of the last step of the stop-loss pass over a triggered strategy.
#[derive(Debug, Clone, Copy, PartialEq, Eq, Structural)]
pub enum StopLossEvent {
    /// The pass starts on the strategy; `stop_loss_set` tells whether it has a nonzero
    /// stop-loss percentage.
    Started { stop_loss_set: bool },
    /// The position's PnL was read.
    PnlRead { reading: PnlReading },
    /// The order that closes the position was sent, or sending it failed.
    PositionClosed { closed: bool },
    /// The strategy was stored as stopped (whether the write succeeded is not looked at).
    StoppedRecorded,
}

/// What the engine asks its caller to do next for a strategy.
#[derive(Debug, Clone, Copy, PartialEq, Eq, Structural)]
pub enum EngineAction {
    /// Fetch market data for the strategy's symbol.
    FetchMarketData,
    /// Evaluate the strategy's condition on the fetched market data.
    EvaluateCondition,
    /// Open a position of the strategy's quantity on `market`.
    OpenPosition { market: PerpMarket, side: PositionSide },
    /// Store the strategy as triggered, with the current time as its execution time.
    RecordTriggered,
    /// Store the strategy as failed, for `reason`.
    RecordFailed { reason: FailureReason },
    /// Read the unrealized PnL of the position on `market`.
    ReadPnl { market: PerpMarket },
    /// Close the position on `market`.
    ClosePosition { market: PerpMarket },
    /// Store the strategy as stopped.
    RecordStopped,
    /// Nothing more to do for this strategy in this pass.
    Done,
}

/// Why the entry pass fails a strategy.
#[derive(Debug, Clone, Copy, PartialEq, Eq, Structural)]
pub enum FailureReason {
    /// Market data for the symbol could not be fetched.
    MarketDataUnavailable,
    /// The condition could not be evaluated.
    ConditionNotEvaluated,
    /// The condition holds but the symbol names no perpetual market.
    UnknownMarket,
    /// The order that opens the position could not be sent.
    OpenFailed,
    /// The strategy could not be stored as triggered.
    TriggerNotRecorded,
}

/// An event of either pass.
#[derive(Debug, Clone, Copy, PartialEq, Eq, Structural)]
pub enum EngineEvent {
    Entry(EntryEvent),
    StopLoss(StopLossEvent),
}

/// Open the position of the strategy if its symbol names a market; fail it otherwise.
pub open spec fn open_or_fail(symbol: Seq<char>, side: Side) -> EngineAction {
    match market_of_symbol(symbol) {
        Some(m) => EngineAction::OpenPosition { market: m, side: position_side_of(side) },
        None => EngineAction::RecordFailed { reason: FailureReason::UnknownMarket },
    }
}

/// The next action of the entry pass. An empty condition always holds.
pub open spec fn entry_next(symbol: Seq<char>, side: Side, condition_empty: bool, event: EntryEvent)
    -> EngineAction
{
    match event {
        EntryEvent::Started => EngineAction::FetchMarketData,
        EntryEvent::MarketData { fetched } => if !fetched {
            EngineAction::RecordFailed { reason: FailureReason::MarketDataUnavailable }
        } else if condition_empty {
            open_or_fail(symbol, side)
        } else {
            EngineAction::EvaluateCondition
        },
        EntryEvent::ConditionChecked { outcome } => match outcome {
            None => EngineAction::RecordFailed { reason: FailureReason::ConditionNotEvaluated },
            Some(holds) => if holds {
                open_or_fail(symbol, side)
            } else {
                EngineAction::Done
            },
        },
        EntryEvent::PositionOpened { opened } => if opened {
            EngineAction::RecordTriggered
        } else {
            EngineAction::RecordFailed { reason: FailureReason::OpenFailed }
        },
        EntryEvent::TriggeredRecorded { recorded } => if recorded {
            EngineAction::Done
        } else {
            EngineAction::RecordFailed { reason: FailureReason::TriggerNotRecorded }
        },
        EntryEvent::FailedRecorded => EngineAction::Done,
    }
}

/// The next action of the stop-loss pass. Strategies without a stop-loss, or whose symbol
/// names no market, are left alone; a position that is gone marks the strategy stopped.
pub open spec fn stop_loss_next(symbol: Seq<char>, event: StopLossEvent) -> EngineAction {
    match event {
        StopLossEvent::Started { stop_loss_set } => if !stop_loss_set {
            EngineAction::Done
        } else {
            match market_of_symbol(symbol) {
                Some(m) => EngineAction::ReadPnl { market: m },
                None => EngineAction::Done,
            }
        },
        StopLossEvent::PnlRead { reading } => match reading {
            PnlReading::Unavailable => EngineAction::Done,
            PnlReading::NoPosition => EngineAction::RecordStopped,
            PnlReading::Open { breached } => if !breached {
                EngineAction::Done
            } else {
                match market_of_symbol(symbol) {
                    Some(m) => EngineAction::ClosePosition { market: m },
                    None => EngineAction::Done,
                }
            },
        },
        StopLossEvent::PositionClosed { closed } => if closed {
            EngineAction::RecordStopped
        } else {
            EngineAction::Done
        },
        StopLossEvent::StoppedRecorded => EngineAction::Done,
    }
}

/// The status a strategy has once the action's write has been done.
pub open spec fn status_after(status: StrategyStatus, action: EngineAction) -> StrategyStatus {
    match action {
        EngineAction::RecordTriggered => StrategyStatus::Triggered,
        EngineAction::RecordFailed { .. } => StrategyStatus::Failed,
        EngineAction::RecordStopped => StrategyStatus::Stopped,
        _ => status,
    }
}

/// The engine as a whole: approved strategies go through the entry pass, triggered ones
/// through the stop-loss pass, and all others are not looked at.
pub open spec fn engine_next(
    status: StrategyStatus,
    symbol: Seq<char>,
    side: Side,
    condition_empty: bool,
    event: EngineEvent,
) -> EngineAction {
    match (status, event) {
        (StrategyStatus::Approved, EngineEvent::Entry(e)) => entry_next(
            symbol,
            side,
            condition_empty,
            e,
        ),
        (StrategyStatus::Triggered, EngineEvent::StopLoss(e)) => stop_loss_next(symbol, e),
        _ => EngineAction::Done,
    }
}

/// Whether the entry pass looks at a strategy with this status.
pub fn takes_entry_pass(status: StrategyStatus) -> (r: bool)
    ensures
        r == (status == StrategyStatus::Approved),
{
    match status {
        StrategyStatus::Approved => true,
        _ => false,
    }
}

/// Whether the stop-loss pass looks at a strategy with this status.
pub fn takes_stop_loss_pass(status: StrategyStatus) -> (r: bool)
    ensures
        r == (status == StrategyStatus::Triggered),
{
    match status {
        StrategyStatus::Triggered => true,
        _ => false,
    }
}

fn open_or_fail_exec(symbol: &str, side: Side) -> (r: EngineAction)
    ensures
        r == open_or_fail(symbol@, side),
{
    match symbol_to_perp_market(symbol) {
        Some(m) => EngineAction::OpenPosition { market: m, side: side_to_position_side(&side) },
        None => EngineAction::RecordFailed { reason: FailureReason::UnknownMarket },
    }
}

/// The next action of the entry pass over an approved strategy with this symbol, order
/// side and condition, after `event`.
pub fn entry_step(symbol: &str, side: Side, condition: &str, event: EntryEvent) -> (r:
    EngineAction)
    ensures
        r == entry_next(symbol@, side, condition@.len() == 0, event),
        event == EntryEvent::Started ==> r == EngineAction::FetchMarketData,
        event == (EntryEvent::MarketData { fetched: false }) ==> r == (EngineAction::RecordFailed {
            reason: FailureReason::MarketDataUnavailable,
        }),
        event == (EntryEvent::MarketData { fetched: true }) && condition@.len() != 0 ==> r
            == EngineAction::EvaluateCondition,
        event == (EntryEvent::ConditionChecked { outcome: None }) ==> r == (
        EngineAction::RecordFailed { reason: FailureReason::ConditionNotEvaluated }),
        event == (EntryEvent::ConditionChecked { outcome: Some(false) }) ==> r
            == EngineAction::Done,
        ((event == EntryEvent::MarketData { fetched: true } && condition@.len() == 0) || event
            == EntryEvent::ConditionChecked { outcome: Some(true) }) ==> match market_of_symbol(
            symbol@,
        ) {
            Some(m) => r == EngineAction::OpenPosition { market: m, side: position_side_of(side) },
            None => r == EngineAction::RecordFailed { reason: FailureReason::UnknownMarket },
        },
        event == (EntryEvent::PositionOpened { opened: true }) ==> r
            == EngineAction::RecordTriggered,
        event == (EntryEvent::PositionOpened { opened: false }) ==> r == (
        EngineAction::RecordFailed { reason: FailureReason::OpenFailed }),
        event == (EntryEvent::TriggeredRecorded { recorded: true }) ==> r == EngineAction::Done,
        event == (EntryEvent::TriggeredRecorded { recorded: false }) ==> r == (
        EngineAction::RecordFailed { reason: FailureReason::TriggerNotRecorded }),
        event == EntryEvent::FailedRecorded ==> r == EngineAction::Done,
{
    match event {
        EntryEvent::Started => EngineAction::FetchMarketData,
        EntryEvent::MarketData { fetched } => {
            if !fetched {
                EngineAction::RecordFailed { reason: FailureReason::MarketDataUnavailable }
            } else if condition.is_empty() {
                open_or_fail_exec(symbol, side)
            } else {
                EngineAction::EvaluateCondition
            }
        },
        EntryEvent::ConditionChecked { outcome } => match outcome {
            None => EngineAction::RecordFailed { reason: FailureReason::ConditionNotEvaluated },
            Some(holds) => {
                if holds {
                    open_or_fail_exec(symbol, side)
                } else {
                    EngineAction::Done
                }
            },
        },
        EntryEvent::PositionOpened { opened } => {
            if opened {
                EngineAction::RecordTriggered
            } else {
                EngineAction::RecordFailed { reason: FailureReason::OpenFailed }
            }
        },
        EntryEvent::TriggeredRecorded { recorded } => {
            if recorded {
                EngineAction::Done
            } else {
                EngineAction::RecordFailed { reason: FailureReason::TriggerNotRecorded }
            }
        },
        EntryEvent::FailedRecorded => EngineAction::Done,
    }
}

/// The next action of the stop-loss pass over a triggered strategy with this symbol,
/// after `event`.
pub fn stop_loss_step(symbol: &str, event: StopLossEvent) -> (r: EngineAction)
    ensures
        r == stop_loss_next(symbol@, event),
        event == (StopLossEvent::Started { stop_loss_set: false }) ==> r == EngineAction::Done,
        event == (StopLossEvent::Started { stop_loss_set: true }) ==> match market_of_symbol(
            symbol@,
        ) {
            Some(m) => r == EngineAction::ReadPnl { market: m },
            None => r == EngineAction::Done,
        },
        event == (StopLossEvent::Started { stop_loss_set: true }) && all_ascii(symbol@) ==> match
        market_of_upper_symbol(ascii_upper(symbol@)) {
            Some(m) => r == EngineAction::ReadPnl { market: m },
            None => r == EngineAction::Done,
        },
        event == (StopLossEvent::PnlRead { reading: PnlReading::Unavailable }) ==> r
            == EngineAction::Done,
        event == (StopLossEvent::PnlRead { reading: PnlReading::NoPosition }) ==> r
            == EngineAction::RecordStopped,
        event == (StopLossEvent::PnlRead { reading: PnlReading::Open { breached: false } }) ==> r
            == EngineAction::Done,
        event == (StopLossEvent::PnlRead { reading: PnlReading::Open { breached: true } })
            ==> match market_of_symbol(symbol@) {
            Some(m) => r == EngineAction::ClosePosition { market: m },
            None => r == EngineAction::Done,
        },
        event == (StopLossEvent::PositionClosed { closed: true }) ==> r
            == EngineAction::RecordStopped,
        event == (StopLossEvent::PositionClosed { closed: false }) ==> r == EngineAction::Done,
        event == StopLossEvent::StoppedRecorded ==> r == EngineAction::Done,
{
    match event {
        StopLossEvent::Started { stop_loss_set } => {
            if !stop_loss_set {
                EngineAction::Done
            } else {
                match symbol_to_perp_market(symbol) {
                    Some(m) => EngineAction::ReadPnl { market: m },
                    None => EngineAction::Done,
                }
            }
        },
        StopLossEvent::PnlRead { reading } => match reading {
            PnlReading::Unavailable => EngineAction::Done,
            PnlReading::NoPosition => EngineAction::RecordStopped,
            PnlReading::Open { breached } => {
                if !breached {
                    EngineAction::Done
                } else {
                    match symbol_to_perp_market(symbol) {
                        Some(m) => EngineAction::ClosePosition { market: m },
                        None => EngineAction::Done,
                    }
                }
            },
        },
        StopLossEvent::PositionClosed { closed } => {
            if closed {
                EngineAction::RecordStopped
            } else {
                EngineAction::Done
            }
        },
        StopLossEvent::StoppedRecorded => EngineAction::Done,
    }
}

/// The status to store for a strategy with status `status` once `action` is carried out.
pub fn status_after_action(status: StrategyStatus, action: EngineAction) -> (r: StrategyStatus)
    ensures
        r == status_after(status, action),
        action == EngineAction::RecordTriggered ==> r == StrategyStatus::Triggered,
        action is RecordFailed ==> r == StrategyStatus::Failed,
        action == EngineAction::RecordStopped ==> r == StrategyStatus::Stopped,
        !(action == EngineAction::RecordTriggered || action is RecordFailed || action
            == EngineAction::RecordStopped) ==> r == status,
{
    match action {
        EngineAction::RecordTriggered => StrategyStatus::Triggered,
        EngineAction::RecordFailed { .. } => StrategyStatus::Failed,
        EngineAction::RecordStopped => StrategyStatus::Stopped,
        _ => status,
    }
}

/// A position is opened only when the condition holds (an empty condition always holds,
/// once market data was fetched), on the market that the symbol names, on the side that
/// the strategy's order side gives.
pub proof fn entry_opens_only_when_condition_holds(
    symbol: Seq<char>,
    side: Side,
    condition_empty: bool,
    event: EntryEvent,
)
    ensures
        entry_next(symbol, side, condition_empty, event) is OpenPosition ==> {
            &&& (event == EntryEvent::MarketData { fetched: true } && condition_empty) || event
                == (EntryEvent::ConditionChecked { outcome: Some(true) })
            &&& market_of_symbol(symbol) == Some(
                entry_next(symbol, side, condition_empty, event)->OpenPosition_market,
            )
            &&& entry_next(symbol, side, condition_empty, event)->OpenPosition_side
                == position_side_of(side)
        },
{
}

/// A strategy is recorded as triggered exactly when its position was opened.
pub proof fn triggered_only_after_open(
    symbol: Seq<char>,
    side: Side,
    condition_empty: bool,
    event: EntryEvent,
)
    ensures
        entry_next(symbol, side, condition_empty, event) == EngineAction::RecordTriggered
            <==> event == (EntryEvent::PositionOpened { opened: true }),
{
}

/// The stop-loss pass closes a position only when its PnL breached the stop-loss, and
/// records a strategy as stopped only when its position was closed or is gone.
pub proof fn stop_loss_closes_only_on_breach(symbol: Seq<char>, event: StopLossEvent)
    ensures
        stop_loss_next(symbol, event) is ClosePosition ==> event == (StopLossEvent::PnlRead {
            reading: PnlReading::Open { breached: true },
        }) && market_of_symbol(symbol) == Some(stop_loss_next(symbol, event)->ClosePosition_market),
        stop_loss_next(symbol, event) == EngineAction::RecordStopped ==> event
            == (StopLossEvent::PositionClosed { closed: true }) || event == (StopLossEvent::PnlRead {
            reading: PnlReading::NoPosition,
        }),
{
}

/// The passes keep to their own work: the entry pass never reads PnL, closes a position
/// or stops a strategy; the stop-loss pass never fetches market data, opens a position,
/// triggers or fails a strategy.
pub proof fn passes_keep_to_their_work(
    symbol: Seq<char>,
    side: Side,
    condition_empty: bool,
    entry: EntryEvent,
    stop: StopLossEvent,
)
    ensures
        !(entry_next(symbol, side, condition_empty, entry) is ReadPnl),
        !(entry_next(symbol, side, condition_empty, entry) is ClosePosition),
        entry_next(symbol, side, condition_empty, entry) != EngineAction::RecordStopped,
        !(stop_loss_next(symbol, stop) is OpenPosition),
        stop_loss_next(symbol, stop) != EngineAction::FetchMarketData,
        stop_loss_next(symbol, stop) != EngineAction::EvaluateCondition,
        stop_loss_next(symbol, stop) != EngineAction::RecordTriggered,
        !(stop_loss_next(symbol, stop) is RecordFailed),
{
}

/// How far a status is along the lifecycle that the engine drives.
pub open spec fn lifecycle_rank(status: StrategyStatus) -> int {
    match status {
        StrategyStatus::Approved => 1,
        StrategyStatus::Triggered => 2,
        StrategyStatus::Stopped => 3,
        StrategyStatus::Failed => 3,
        _ => 0,
    }
}

/// The engine only moves a strategy forward: approved to triggered or failed, triggered
/// to stopped; every other status is left as it is.
pub proof fn engine_moves_forward(
    status: StrategyStatus,
    symbol: Seq<char>,
    side: Side,
    condition_empty: bool,
    event: EngineEvent,
)
    ensures
        ({
            let after = status_after(status, engine_next(status, symbol, side, condition_empty, event));
            &&& after == status || (status == StrategyStatus::Approved && (after
                == StrategyStatus::Triggered || after == StrategyStatus::Failed)) || (status
                == StrategyStatus::Triggered && after == StrategyStatus::Stopped)
            &&& lifecycle_rank(status) <= lifecycle_rank(after)
            &&& after == StrategyStatus::Approved ==> status == StrategyStatus::Approved
        }),
{
}

/// The statuses a strategy goes through as the engine handles `events` one after the
/// other, and whether any of those steps opened a position.
pub open spec fn run_opens(
    status: StrategyStatus,
    symbol: Seq<char>,
    side: Side,
    condition_empty: bool,
    events: Seq<EngineEvent>,
) -> bool
    decreases events.len(),
{
    if events.len() == 0 {
        false
    } else {
        let action = engine_next(status, symbol, side, condition_empty, events[0]);
        action is OpenPosition || run_opens(
            status_after(status, action),
            symbol,
            side,
            condition_empty,
            events.drop_first(),
        )
    }
}

/// Once a strategy is no longer approved, the engine never opens a position for it again,
/// whatever happens afterwards.
pub proof fn no_position_after_approval_ends(
    status: StrategyStatus,
    symbol: Seq<char>,
    side: Side,
    condition_empty: bool,
    events: Seq<EngineEvent>,
)
    requires
        status != StrategyStatus::Approved,
    ensures
        !run_opens(status, symbol, side, condition_empty, events),
    decreases events.len(),
{
    if events.len() > 0 {
        let action = engine_next(status, symbol, side, condition_empty, events[0]);
        engine_moves_forward(status, symbol, side, condition_empty, events[0]);
        passes_keep_to_their_work(
            symbol,
            side,
            condition_empty,
            EntryEvent::Started,
            match events[0] {
                EngineEvent::StopLoss(e) => e,
                _ => StopLossEvent::StoppedRecorded,
            },
        );
        no_position_after_approval_ends(
            status_after(status, action),
            symbol,
            side,
            condition_empty,
            events.drop_first(),
        );
    }
}

/// The message a strategy fails with when its condition holds but its symbol names no
/// perpetual market.
pub open spec fn unknown_market_message(symbol: Seq<char>) -> Seq<char> {
    "unknown perp market for symbol: "@ + symbol
}

/// Builds the message for a strategy whose symbol names no perpetual market.
pub fn unknown_market_error(symbol: &str) -> (r: String)
    ensures
        r@ == unknown_market_message(symbol@),
{
    let mut msg = String::from_str("unknown perp market for symbol: ");
    msg.append(symbol);
    msg
}

/// A strategy fails for an unknown market exactly when its condition holds (or is empty
/// once market data was fetched) and its symbol names no market; no position is opened then.
pub proof fn unknown_market_fails_without_opening(
    symbol: Seq<char>,
    side: Side,
    condition_empty: bool,
    event: EntryEvent,
)
    ensures
        entry_next(symbol, side, condition_empty, event) == (EngineAction::RecordFailed {
            reason: FailureReason::UnknownMarket,
        }) <==> market_of_symbol(symbol) is None && ((event == EntryEvent::MarketData {
            fetched: true,
        } && condition_empty) || event == (EntryEvent::ConditionChecked { outcome: Some(true) })),
        market_of_symbol(symbol) is None ==> !(entry_next(
            symbol,
            side,
            condition_empty,
            event,
        ) is OpenPosition),
{
}

/// The event of the entry pass that reports how `action` went.
pub open spec fn answers_entry(action: EngineAction, event: EntryEvent) -> bool {
    match action {
        EngineAction::FetchMarketData => event is MarketData,
        EngineAction::EvaluateCondition => event is ConditionChecked,
        EngineAction::OpenPosition { .. } => event is PositionOpened,
        EngineAction::RecordTriggered => event is TriggeredRecorded,
        EngineAction::RecordFailed { .. } => event is FailedRecorded,
        _ => false,
    }
}

/// How many steps of the entry pass are at most left after an event.
pub open spec fn entry_steps_left(event: EntryEvent) -> nat {
    match event {
        EntryEvent::Started => 6,
        EntryEvent::MarketData { .. } => 5,
        EntryEvent::ConditionChecked { .. } => 4,
        EntryEvent::PositionOpened { .. } => 3,
        EntryEvent::TriggeredRecorded { .. } => 2,
        EntryEvent::FailedRecorded => 1,
    }
}

/// The entry pass ends: every action it asks for other than `Done` is one that an entry
/// event answers, and whatever event answers it leaves fewer steps, so a pass that
/// answers each action with its own event reaches `Done` within six steps.
pub proof fn entry_pass_reaches_done(
    symbol: Seq<char>,
    side: Side,
    condition_empty: bool,
    event: EntryEvent,
    answer: EntryEvent,
)
    ensures
        ({
            let action = entry_next(symbol, side, condition_empty, event);
            &&& action == EngineAction::Done || action == EngineAction::FetchMarketData || action
                == EngineAction::EvaluateCondition || action is OpenPosition || action
                == EngineAction::RecordTriggered || action is RecordFailed
            &&& answers_entry(action, answer) ==> entry_steps_left(answer) < entry_steps_left(event)
        }),
{
}

/// The event of the stop-loss pass that reports how `action` went.
pub open spec fn answers_stop_loss(action: EngineAction, event: StopLossEvent) -> bool {
    match action {
        EngineAction::ReadPnl { .. } => event is PnlRead,
        EngineAction::ClosePosition { .. } => event is PositionClosed,
        EngineAction::RecordStopped => event is StoppedRecorded,
        _ => false,
    }
}

/// How many steps of the stop-loss pass are at most left after an event.
pub open spec fn stop_loss_steps_left(event: StopLossEvent) -> nat {
    match event {
        StopLossEvent::Started { .. } => 4,
        StopLossEvent::PnlRead { .. } => 3,
        StopLossEvent::PositionClosed { .. } => 2,
        StopLossEvent::StoppedRecorded => 1,
    }
}

/// The stop-loss pass ends: every action it asks for other than `Done` is one that a
/// stop-loss event answers, and whatever event answers it leaves fewer steps, so a pass
/// that answers each action with its own event reaches `Done` within four steps.
pub proof fn stop_loss_pass_reaches_done(symbol: Seq<char>, event: StopLossEvent, answer: StopLossEvent)
    ensures
        ({
            let action = stop_loss_next(symbol, event);
            &&& action == EngineAction::Done || action is ReadPnl || action is ClosePosition
                || action == EngineAction::RecordStopped
            &&& answers_stop_loss(action, answer) ==> stop_loss_steps_left(answer)
                < stop_loss_steps_left(event)
        }),
{
}

/// When fetching market data fails, the entry pass fails the strategy for that reason,
/// whatever its symbol, side and condition; when evaluating the condition fails, or sending
/// the opening order fails, or storing the trigger fails, it fails the strategy for that.
pub proof fn entry_failures_fail_the_strategy(symbol: Seq<char>, side: Side, condition_empty: bool)
    ensures
        entry_next(symbol, side, condition_empty, EntryEvent::MarketData { fetched: false })
            == (EngineAction::RecordFailed { reason: FailureReason::MarketDataUnavailable }),
        entry_next(symbol, side, condition_empty, EntryEvent::ConditionChecked { outcome: None })
            == (EngineAction::RecordFailed { reason: FailureReason::ConditionNotEvaluated }),
        entry_next(symbol, side, condition_empty, EntryEvent::PositionOpened { opened: false })
            == (EngineAction::RecordFailed { reason: FailureReason::OpenFailed }),
        entry_next(symbol, side, condition_empty, EntryEvent::TriggeredRecorded { recorded: false })
            == (EngineAction::RecordFailed { reason: FailureReason::TriggerNotRecorded }),
{
}

/// With a stop-loss set, the stop-loss pass starts by reading the PnL of the market that
/// the symbol names, in whatever case the symbol is written (for ASCII symbols, the market
/// of the upper-cased symbol); a symbol naming no market is left alone.
pub proof fn stop_loss_reads_pnl_of_symbol_market(symbol: Seq<char>)
    ensures
        market_of_symbol(symbol) is Some ==> stop_loss_next(
            symbol,
            StopLossEvent::Started { stop_loss_set: true },
        ) == (EngineAction::ReadPnl { market: market_of_symbol(symbol)->0 }),
        market_of_symbol(symbol) is None ==> stop_loss_next(
            symbol,
            StopLossEvent::Started { stop_loss_set: true },
        ) == EngineAction::Done,
        stop_loss_next(symbol, StopLossEvent::Started { stop_loss_set: false })
            == EngineAction::Done,
{
}

/// Only the three recording actions change a strategy's status: recording a trigger makes
/// it triggered, a failure failed, a stop stopped; every other action, opening a position
/// among them, leaves the status as it is.
pub proof fn only_recording_changes_status(status: StrategyStatus, action: EngineAction)
    ensures
        action == EngineAction::RecordTriggered ==> status_after(status, action)
            == StrategyStatus::Triggered,
        action is RecordFailed ==> status_after(status, action) == StrategyStatus::Failed,
        action == EngineAction::RecordStopped ==> status_after(status, action)
            == StrategyStatus::Stopped,
        !(action == EngineAction::RecordTriggered || action is RecordFailed || action
            == EngineAction::RecordStopped) ==> status_after(status, action) == status,
{
}

} // verus!
