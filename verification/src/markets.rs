//! Drift perpetual markets, position sides and the order side of a stored strategy.
use vstd::prelude::*;

verus! {

/// A Drift perpetual market, listed in the order of its on-chain market index.
#[derive(Debug, Clone, Copy, PartialEq, Eq, Structural)]
pub enum PerpMarket {
    SOL,
    BTC,
    ETH,
    APT,
    BONK,
    POL,
    ARB,
    DOGE,
    BNB,
    SUI,
    PEPE,
    OP,
    RENDER,
    XRP,
    HNT,
    INJ,
    LINK,
    RLB,
    PYTH,
    TIA,
    JTO,
    SEI,
    AVAX,
    W,
    KMNO,
    WEN,
    TrumpWin2024,
    KamalaPopularVote2024,
    Random2024,
    NVDA,
}

/// The direction of a perpetual position.
#[derive(Debug, Clone, Copy, PartialEq, Eq, Structural)]
pub enum PositionSide {
    Long,
    Short,
}

/// The order side a strategy was created with.
#[derive(Debug, Clone, Copy, PartialEq, Eq, Structural)]
pub enum Side {
    Buy,
    Sell,
}

/// The on-chain index of a market: its position in the declaration of `PerpMarket`.
pub open spec fn market_index_of(m: PerpMarket) -> u16 {
    match m {
        PerpMarket::SOL => 0,
        PerpMarket::BTC => 1,
        PerpMarket::ETH => 2,
        PerpMarket::APT => 3,
        PerpMarket::BONK => 4,
        PerpMarket::POL => 5,
        PerpMarket::ARB => 6,
        PerpMarket::DOGE => 7,
        PerpMarket::BNB => 8,
        PerpMarket::SUI => 9,
        PerpMarket::PEPE => 10,
        PerpMarket::OP => 11,
        PerpMarket::RENDER => 12,
        PerpMarket::XRP => 13,
        PerpMarket::HNT => 14,
        PerpMarket::INJ => 15,
        PerpMarket::LINK => 16,
        PerpMarket::RLB => 17,
        PerpMarket::PYTH => 18,
        PerpMarket::TIA => 19,
        PerpMarket::JTO => 20,
        PerpMarket::SEI => 21,
        PerpMarket::AVAX => 22,
        PerpMarket::W => 23,
        PerpMarket::KMNO => 24,
        PerpMarket::WEN => 25,
        PerpMarket::TrumpWin2024 => 26,
        PerpMarket::KamalaPopularVote2024 => 27,
        PerpMarket::Random2024 => 28,
        PerpMarket::NVDA => 29,
    }
}

/// The name of a market as its variant is spelled.
pub open spec fn market_name(m: PerpMarket) -> Seq<char> {
    match m {
        PerpMarket::SOL => "SOL"@,
        PerpMarket::BTC => "BTC"@,
        PerpMarket::ETH => "ETH"@,
        PerpMarket::APT => "APT"@,
        PerpMarket::BONK => "BONK"@,
        PerpMarket::POL => "POL"@,
        PerpMarket::ARB => "ARB"@,
        PerpMarket::DOGE => "DOGE"@,
        PerpMarket::BNB => "BNB"@,
        PerpMarket::SUI => "SUI"@,
        PerpMarket::PEPE => "PEPE"@,
        PerpMarket::OP => "OP"@,
        PerpMarket::RENDER => "RENDER"@,
        PerpMarket::XRP => "XRP"@,
        PerpMarket::HNT => "HNT"@,
        PerpMarket::INJ => "INJ"@,
        PerpMarket::LINK => "LINK"@,
        PerpMarket::RLB => "RLB"@,
        PerpMarket::PYTH => "PYTH"@,
        PerpMarket::TIA => "TIA"@,
        PerpMarket::JTO => "JTO"@,
        PerpMarket::SEI => "SEI"@,
        PerpMarket::AVAX => "AVAX"@,
        PerpMarket::W => "W"@,
        PerpMarket::KMNO => "KMNO"@,
        PerpMarket::WEN => "WEN"@,
        PerpMarket::TrumpWin2024 => "TrumpWin2024"@,
        PerpMarket::KamalaPopularVote2024 => "KamalaPopularVote2024"@,
        PerpMarket::Random2024 => "Random2024"@,
        PerpMarket::NVDA => "NVDA"@,
    }
}

/// The name of a position side as its variant is spelled.
pub open spec fn side_name(s: PositionSide) -> Seq<char> {
    match s {
        PositionSide::Long => "Long"@,
        PositionSide::Short => "Short"@,
    }
}

/// A buy opens a long position, a sell a short one.
pub open spec fn position_side_of(side: Side) -> PositionSide {
    match side {
        Side::Buy => PositionSide::Long,
        Side::Sell => PositionSide::Short,
    }
}

impl PerpMarket {
    /// The on-chain market index that orders for this market carry.
    pub fn market_index(&self) -> (r: u16)
        ensures
            r == market_index_of(*self),
            r < declared_markets().len(),
            declared_markets()[r as int] == *self,
    {
        match self {
            PerpMarket::SOL => 0,
            PerpMarket::BTC => 1,
            PerpMarket::ETH => 2,
            PerpMarket::APT => 3,
            PerpMarket::BONK => 4,
            PerpMarket::POL => 5,
            PerpMarket::ARB => 6,
            PerpMarket::DOGE => 7,
            PerpMarket::BNB => 8,
            PerpMarket::SUI => 9,
            PerpMarket::PEPE => 10,
            PerpMarket::OP => 11,
            PerpMarket::RENDER => 12,
            PerpMarket::XRP => 13,
            PerpMarket::HNT => 14,
            PerpMarket::INJ => 15,
            PerpMarket::LINK => 16,
            PerpMarket::RLB => 17,
            PerpMarket::PYTH => 18,
            PerpMarket::TIA => 19,
            PerpMarket::JTO => 20,
            PerpMarket::SEI => 21,
            PerpMarket::AVAX => 22,
            PerpMarket::W => 23,
            PerpMarket::KMNO => 24,
            PerpMarket::WEN => 25,
            PerpMarket::TrumpWin2024 => 26,
            PerpMarket::KamalaPopularVote2024 => 27,
            PerpMarket::Random2024 => 28,
            PerpMarket::NVDA => 29,
        }
    }

    /// The market's name, as it appears in signatures and messages.
    pub fn name(&self) -> (r: &'static str)
        ensures
            r@ == market_name(*self),
    {
        match self {
            PerpMarket::SOL => "SOL",
            PerpMarket::BTC => "BTC",
            PerpMarket::ETH => "ETH",
            PerpMarket::APT => "APT",
            PerpMarket::BONK => "BONK",
            PerpMarket::POL => "POL",
            PerpMarket::ARB => "ARB",
            PerpMarket::DOGE => "DOGE",
            PerpMarket::BNB => "BNB",
            PerpMarket::SUI => "SUI",
            PerpMarket::PEPE => "PEPE",
            PerpMarket::OP => "OP",
            PerpMarket::RENDER => "RENDER",
            PerpMarket::XRP => "XRP",
            PerpMarket::HNT => "HNT",
            PerpMarket::INJ => "INJ",
            PerpMarket::LINK => "LINK",
            PerpMarket::RLB => "RLB",
            PerpMarket::PYTH => "PYTH",
            PerpMarket::TIA => "TIA",
            PerpMarket::JTO => "JTO",
            PerpMarket::SEI => "SEI",
            PerpMarket::AVAX => "AVAX",
            PerpMarket::W => "W",
            PerpMarket::KMNO => "KMNO",
            PerpMarket::WEN => "WEN",
            PerpMarket::TrumpWin2024 => "TrumpWin2024",
            PerpMarket::KamalaPopularVote2024 => "KamalaPopularVote2024",
            PerpMarket::Random2024 => "Random2024",
            PerpMarket::NVDA => "NVDA",
        }
    }
}

impl PositionSide {
    /// The side's name, as it appears in signatures and messages.
    pub fn name(&self) -> (r: &'static str)
        ensures
            r@ == side_name(*self),
    {
        match self {
            PositionSide::Long => "Long",
            PositionSide::Short => "Short",
        }
    }
}

/// The position side that executing a strategy with order side `side` opens.
pub fn side_to_position_side(side: &Side) -> (r: PositionSide)
    ensures
        r == position_side_of(*side),
{
    match side {
        Side::Buy => PositionSide::Long,
        Side::Sell => PositionSide::Short,
    }
}

/// The markets in the order they are declared, which is the order of their on-chain
/// market indices.
pub open spec fn declared_markets() -> Seq<PerpMarket> {
    seq![
        PerpMarket::SOL,
        PerpMarket::BTC,
        PerpMarket::ETH,
        PerpMarket::APT,
        PerpMarket::BONK,
        PerpMarket::POL,
        PerpMarket::ARB,
        PerpMarket::DOGE,
        PerpMarket::BNB,
        PerpMarket::SUI,
        PerpMarket::PEPE,
        PerpMarket::OP,
        PerpMarket::RENDER,
        PerpMarket::XRP,
        PerpMarket::HNT,
        PerpMarket::INJ,
        PerpMarket::LINK,
        PerpMarket::RLB,
        PerpMarket::PYTH,
        PerpMarket::TIA,
        PerpMarket::JTO,
        PerpMarket::SEI,
        PerpMarket::AVAX,
        PerpMarket::W,
        PerpMarket::KMNO,
        PerpMarket::WEN,
        PerpMarket::TrumpWin2024,
        PerpMarket::KamalaPopularVote2024,
        PerpMarket::Random2024,
        PerpMarket::NVDA,
    ]
}

/// Each market's on-chain index is its position in the declaration: the market declared
/// at that position is the market itself.
pub proof fn market_index_follows_declaration(m: PerpMarket)
    ensures
        declared_markets().len() == 30,
        market_index_of(m) < declared_markets().len(),
        declared_markets()[market_index_of(m) as int] == m,
{
}

/// Distinct markets carry distinct on-chain indices, and every index is below thirty.
pub proof fn market_index_is_injective(a: PerpMarket, b: PerpMarket)
    ensures
        market_index_of(a) < 30,
        market_index_of(a) == market_index_of(b) <==> a == b,
{
}

} // verus!
