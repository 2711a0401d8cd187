use backend::markets::PerpMarket;
use backend::symbols::{perp_market_from_upper, symbol_to_perp_market};

#[test]
fn usdt_symbol_maps_to_its_market() {
    assert_eq!(symbol_to_perp_market("SOLUSDT"), Some(PerpMarket::SOL));
    assert_eq!(symbol_to_perp_market("BTCUSDT"), Some(PerpMarket::BTC));
    assert_eq!(symbol_to_perp_market("RENDERUSDT"), Some(PerpMarket::RENDER));
}

#[test]
fn other_quote_suffixes_are_stripped() {
    assert_eq!(symbol_to_perp_market("ETHUSD"), Some(PerpMarket::ETH));
    assert_eq!(symbol_to_perp_market("JTOPERP"), Some(PerpMarket::JTO));
    assert_eq!(symbol_to_perp_market("AVAX"), Some(PerpMarket::AVAX));
}

#[test]
fn lower_case_symbols_are_upper_cased() {
    assert_eq!(symbol_to_perp_market("solusdt"), Some(PerpMarket::SOL));
    assert_eq!(symbol_to_perp_market("Doge"), Some(PerpMarket::DOGE));
    assert_eq!(symbol_to_perp_market("linkperp"), Some(PerpMarket::LINK));
}

#[test]
fn unicode_upper_case_is_applied() {
    // U+017F LATIN SMALL LETTER LONG S upper-cases to 'S'.
    assert_eq!(symbol_to_perp_market("\u{17f}olusdt"), Some(PerpMarket::SOL));
}

#[test]
fn markets_outside_the_list_are_unknown() {
    assert_eq!(symbol_to_perp_market("POLUSDT"), None);
    assert_eq!(symbol_to_perp_market("HNT"), None);
    assert_eq!(symbol_to_perp_market("NVDAUSD"), None);
    assert_eq!(symbol_to_perp_market("ADAUSDT"), None);
}

#[test]
fn only_one_suffix_is_stripped() {
    assert_eq!(symbol_to_perp_market("SOLUSDTPERP"), None);
    assert_eq!(symbol_to_perp_market("SOLPERPUSDT"), None);
    assert_eq!(symbol_to_perp_market("USDT"), None);
    assert_eq!(symbol_to_perp_market(""), None);
}

#[test]
fn usdt_is_preferred_over_usd() {
    // "OPUSDT" ends with "USDT": the base is "OP", not "OPUSD" minus "T".
    assert_eq!(symbol_to_perp_market("OPUSDT"), Some(PerpMarket::OP));
    // "USDUSD" strips one "USD" and leaves "USD", which is no market.
    assert_eq!(symbol_to_perp_market("USDUSD"), None);
}

#[test]
fn upper_case_lookup_is_case_sensitive() {
    assert_eq!(perp_market_from_upper("SEIUSDT"), Some(PerpMarket::SEI));
    assert_eq!(perp_market_from_upper("seiusdt"), None);
}

#[test]
fn every_tradable_name_round_trips() {
    let tradable = [
        PerpMarket::SOL, PerpMarket::BTC, PerpMarket::ETH, PerpMarket::APT, PerpMarket::BONK,
        PerpMarket::DOGE, PerpMarket::BNB, PerpMarket::SUI, PerpMarket::PEPE, PerpMarket::XRP,
        PerpMarket::LINK, PerpMarket::AVAX, PerpMarket::ARB, PerpMarket::OP, PerpMarket::SEI,
        PerpMarket::INJ, PerpMarket::RENDER, PerpMarket::PYTH, PerpMarket::TIA, PerpMarket::JTO,
    ];
    for m in tradable {
        assert_eq!(symbol_to_perp_market(m.name()), Some(m));
        assert_eq!(symbol_to_perp_market(&format!("{}USDT", m.name())), Some(m));
        assert_eq!(symbol_to_perp_market(&format!("{}USD", m.name())), Some(m));
        assert_eq!(symbol_to_perp_market(&format!("{}PERP", m.name())), Some(m));
    }
    for m in [PerpMarket::POL, PerpMarket::HNT, PerpMarket::RLB, PerpMarket::W, PerpMarket::KMNO, PerpMarket::WEN, PerpMarket::NVDA] {
        assert_eq!(symbol_to_perp_market(m.name()), None);
    }
}
