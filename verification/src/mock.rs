//! The stand-in Drift service used when no Solana connection is configured: it sends no
//! transaction and answers each order with a fixed signature naming what was asked.
use vstd::prelude::*;
use vstd::string::*;
use crate::markets::{PerpMarket, PositionSide, market_name, side_name};

verus! {

/// The stand-in Drift service.
pub struct MockDriftService;

impl MockDriftService {
    /// A new stand-in service.
    pub fn new() -> (r: Self) {
        MockDriftService
    }

    /// The signature answered for initializing the user account.
    pub fn initialize_user_pda(&self) -> (r: String)
        ensures
            r@ == "mock_signature_init_user_pda"@,
    {
        String::from_str("mock_signature_init_user_pda")
    }

    /// The signature answered for opening a position: it names the market and the side.
    pub fn open_perp_position(&self, market: PerpMarket, side: PositionSide) -> (r: String)
        ensures
            r@ == "mock_signature_open_"@ + market_name(market) + "_"@ + side_name(side),
    {
        let mut sig = String::from_str("mock_signature_open_");
        sig.append(market.name());
        sig.append("_");
        sig.append(side.name());
        sig
    }

    /// The signature answered for closing a position: it names the market.
    pub fn close_perp_position(&self, market: PerpMarket) -> (r: String)
        ensures
            r@ == "mock_signature_close_"@ + market_name(market),
    {
        let mut sig = String::from_str("mock_signature_close_");
        sig.append(market.name());
        sig
    }
}

} // verus!
