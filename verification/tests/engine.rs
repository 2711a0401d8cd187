use backend::engine::{
    entry_step, status_after_action, unknown_market_error, FailureReason, stop_loss_step, takes_entry_pass, takes_stop_loss_pass,
    EngineAction, EntryEvent, PnlReading, StopLossEvent, StrategyStatus,
};
use backend::markets::{PerpMarket, PositionSide, Side};

#[test]
fn entry_pass_starts_by_fetching_market_data() {
    assert_eq!(entry_step("SOLUSDT", Side::Buy, "price < 120", EntryEvent::Started), EngineAction::FetchMarketData);
}

#[test]
fn empty_condition_executes_immediately() {
    assert_eq!(
        entry_step("SOLUSDT", Side::Buy, "", EntryEvent::MarketData { fetched: true }),
        EngineAction::OpenPosition { market: PerpMarket::SOL, side: PositionSide::Long }
    );
}

#[test]
fn condition_is_evaluated_when_present() {
    assert_eq!(
        entry_step("SOLUSDT", Side::Buy, "price < 120", EntryEvent::MarketData { fetched: true }),
        EngineAction::EvaluateCondition
    );
    assert_eq!(
        entry_step("ETHUSDT", Side::Sell, "price < 120", EntryEvent::ConditionChecked { outcome: Some(true) }),
        EngineAction::OpenPosition { market: PerpMarket::ETH, side: PositionSide::Short }
    );
    assert_eq!(
        entry_step("ETHUSDT", Side::Sell, "price < 120", EntryEvent::ConditionChecked { outcome: Some(false) }),
        EngineAction::Done
    );
}

#[test]
fn entry_failures_mark_the_strategy_failed() {
    assert_eq!(entry_step("SOLUSDT", Side::Buy, "", EntryEvent::MarketData { fetched: false }), EngineAction::RecordFailed { reason: FailureReason::MarketDataUnavailable });
    assert_eq!(
        entry_step("SOLUSDT", Side::Buy, "x", EntryEvent::ConditionChecked { outcome: None }),
        EngineAction::RecordFailed { reason: FailureReason::ConditionNotEvaluated }
    );
    assert_eq!(entry_step("ADAUSDT", Side::Buy, "", EntryEvent::MarketData { fetched: true }), EngineAction::RecordFailed { reason: FailureReason::UnknownMarket });
    assert_eq!(entry_step("SOLUSDT", Side::Buy, "", EntryEvent::PositionOpened { opened: false }), EngineAction::RecordFailed { reason: FailureReason::OpenFailed });
    assert_eq!(
        entry_step("SOLUSDT", Side::Buy, "", EntryEvent::TriggeredRecorded { recorded: false }),
        EngineAction::RecordFailed { reason: FailureReason::TriggerNotRecorded }
    );
    assert_eq!(entry_step("SOLUSDT", Side::Buy, "", EntryEvent::FailedRecorded), EngineAction::Done);
}

#[test]
fn opened_position_triggers_the_strategy() {
    assert_eq!(entry_step("SOLUSDT", Side::Buy, "", EntryEvent::PositionOpened { opened: true }), EngineAction::RecordTriggered);
    assert_eq!(entry_step("SOLUSDT", Side::Buy, "", EntryEvent::TriggeredRecorded { recorded: true }), EngineAction::Done);
}

#[test]
fn stop_loss_pass_skips_strategies_without_stop_or_market() {
    assert_eq!(stop_loss_step("SOLUSDT", StopLossEvent::Started { stop_loss_set: false }), EngineAction::Done);
    assert_eq!(stop_loss_step("ADAUSDT", StopLossEvent::Started { stop_loss_set: true }), EngineAction::Done);
    assert_eq!(
        stop_loss_step("SOLUSDT", StopLossEvent::Started { stop_loss_set: true }),
        EngineAction::ReadPnl { market: PerpMarket::SOL }
    );
}

#[test]
fn stop_loss_pass_closes_on_breach() {
    assert_eq!(
        stop_loss_step("SOLUSDT", StopLossEvent::PnlRead { reading: PnlReading::Open { breached: true } }),
        EngineAction::ClosePosition { market: PerpMarket::SOL }
    );
    assert_eq!(
        stop_loss_step("SOLUSDT", StopLossEvent::PnlRead { reading: PnlReading::Open { breached: false } }),
        EngineAction::Done
    );
    assert_eq!(stop_loss_step("SOLUSDT", StopLossEvent::PositionClosed { closed: true }), EngineAction::RecordStopped);
    assert_eq!(stop_loss_step("SOLUSDT", StopLossEvent::PositionClosed { closed: false }), EngineAction::Done);
    assert_eq!(stop_loss_step("SOLUSDT", StopLossEvent::StoppedRecorded), EngineAction::Done);
}

#[test]
fn vanished_position_stops_the_strategy() {
    assert_eq!(
        stop_loss_step("SOLUSDT", StopLossEvent::PnlRead { reading: PnlReading::NoPosition }),
        EngineAction::RecordStopped
    );
    assert_eq!(
        stop_loss_step("SOLUSDT", StopLossEvent::PnlRead { reading: PnlReading::Unavailable }),
        EngineAction::Done
    );
}

#[test]
fn recorded_statuses() {
    assert_eq!(status_after_action(StrategyStatus::Approved, EngineAction::RecordTriggered), StrategyStatus::Triggered);
    assert_eq!(status_after_action(StrategyStatus::Approved, EngineAction::RecordFailed { reason: FailureReason::UnknownMarket }), StrategyStatus::Failed);
    assert_eq!(status_after_action(StrategyStatus::Triggered, EngineAction::RecordStopped), StrategyStatus::Stopped);
    assert_eq!(status_after_action(StrategyStatus::Triggered, EngineAction::Done), StrategyStatus::Triggered);
}

#[test]
fn passes_select_by_status() {
    assert!(takes_entry_pass(StrategyStatus::Approved));
    assert!(!takes_entry_pass(StrategyStatus::Waiting));
    assert!(!takes_entry_pass(StrategyStatus::Triggered));
    assert!(takes_stop_loss_pass(StrategyStatus::Triggered));
    assert!(!takes_stop_loss_pass(StrategyStatus::Stopped));
    assert!(!takes_stop_loss_pass(StrategyStatus::Queued));
}

#[test]
fn full_entry_then_stop_loss_run() {
    let mut status = StrategyStatus::Approved;
    let events = [
        EntryEvent::Started,
        EntryEvent::MarketData { fetched: true },
        EntryEvent::ConditionChecked { outcome: Some(true) },
        EntryEvent::PositionOpened { opened: true },
    ];
    let mut opens = 0;
    for e in events {
        let a = entry_step("BTCUSDT", Side::Buy, "price > 1", e);
        if let EngineAction::OpenPosition { .. } = a {
            opens += 1;
        }
        status = status_after_action(status, a);
    }
    assert_eq!(opens, 1);
    assert_eq!(status, StrategyStatus::Triggered);
    assert!(!takes_entry_pass(status));
    let a = stop_loss_step("BTCUSDT", StopLossEvent::PositionClosed { closed: true });
    status = status_after_action(status, a);
    assert_eq!(status, StrategyStatus::Stopped);
}

#[test]
fn unknown_market_is_reported_with_its_symbol() {
    assert_eq!(
        entry_step("ADAUSDT", Side::Sell, "price > 1", EntryEvent::ConditionChecked { outcome: Some(true) }),
        EngineAction::RecordFailed { reason: FailureReason::UnknownMarket }
    );
    assert_eq!(unknown_market_error("ADAUSDT"), "unknown perp market for symbol: ADAUSDT");
}

#[test]
fn passes_end_when_each_action_is_answered() {
    // Every action answered with success still ends the entry pass.
    let mut event = EntryEvent::Started;
    let mut steps = 0;
    loop {
        let action = entry_step("SOLUSDT", Side::Buy, "x", event);
        steps += 1;
        event = match action {
            EngineAction::FetchMarketData => EntryEvent::MarketData { fetched: true },
            EngineAction::EvaluateCondition => EntryEvent::ConditionChecked { outcome: Some(true) },
            EngineAction::OpenPosition { .. } => EntryEvent::PositionOpened { opened: true },
            EngineAction::RecordTriggered => EntryEvent::TriggeredRecorded { recorded: true },
            EngineAction::RecordFailed { .. } => EntryEvent::FailedRecorded,
            _ => break,
        };
    }
    assert!(steps <= 6);
    let mut event = StopLossEvent::Started { stop_loss_set: true };
    let mut steps = 0;
    loop {
        let action = stop_loss_step("SOLUSDT", event);
        steps += 1;
        event = match action {
            EngineAction::ReadPnl { .. } => StopLossEvent::PnlRead { reading: PnlReading::Open { breached: true } },
            EngineAction::ClosePosition { .. } => StopLossEvent::PositionClosed { closed: true },
            EngineAction::RecordStopped => StopLossEvent::StoppedRecorded,
            _ => break,
        };
    }
    assert!(steps <= 4);
}
