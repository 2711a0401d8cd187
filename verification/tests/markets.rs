use backend::markets::{side_to_position_side, PerpMarket, PositionSide, Side};

#[test]
fn market_indices_follow_declaration_order() {
    assert_eq!(PerpMarket::SOL.market_index(), 0);
    assert_eq!(PerpMarket::BTC.market_index(), 1);
    assert_eq!(PerpMarket::BONK.market_index(), 4);
    assert_eq!(PerpMarket::JTO.market_index(), 20);
    assert_eq!(PerpMarket::NVDA.market_index(), 29);
}

#[test]
fn market_and_side_names() {
    assert_eq!(PerpMarket::SOL.name(), "SOL");
    assert_eq!(PerpMarket::TrumpWin2024.name(), "TrumpWin2024");
    assert_eq!(PerpMarket::KamalaPopularVote2024.name(), "KamalaPopularVote2024");
    assert_eq!(PositionSide::Long.name(), "Long");
    assert_eq!(PositionSide::Short.name(), "Short");
}

#[test]
fn names_match_debug_output() {
    assert_eq!(format!("{:?}", PerpMarket::Random2024), PerpMarket::Random2024.name());
    assert_eq!(format!("{:?}", PositionSide::Short), PositionSide::Short.name());
}

#[test]
fn buy_opens_long_and_sell_opens_short() {
    assert_eq!(side_to_position_side(&Side::Buy), PositionSide::Long);
    assert_eq!(side_to_position_side(&Side::Sell), PositionSide::Short);
}
