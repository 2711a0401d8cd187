use backend::strategy::check_symbol_exists;
use backend::llm::{ChatMessage, MockProvider};
use backend::markets::{PerpMarket, PositionSide};
use backend::mock::MockDriftService;
use backend::rpc::{devnet_rpc_url, drift_client_settings};

#[test]
fn mock_drift_signatures() {
    let service = MockDriftService::new();
    assert_eq!(service.initialize_user_pda(), "mock_signature_init_user_pda");
    assert_eq!(service.open_perp_position(PerpMarket::SOL, PositionSide::Long), "mock_signature_open_SOL_Long");
    assert_eq!(service.open_perp_position(PerpMarket::BTC, PositionSide::Short), "mock_signature_open_BTC_Short");
    assert_eq!(service.close_perp_position(PerpMarket::SOL), "mock_signature_close_SOL");
}

#[test]
fn mock_llm_reply() {
    let messages = vec![ChatMessage { role: "user".to_string(), content: "Create SOL strategy".to_string() }];
    let reply = MockProvider.chat(&messages);
    assert_eq!(reply.content, "LLM provider not configured.");
    assert_eq!(MockProvider.chat(&[]).content, "LLM provider not configured.");
}

#[test]
fn helius_devnet_url() {
    assert_eq!(devnet_rpc_url("abc123"), "https://devnet.helius-rpc.com/?api-key=abc123");
}

#[test]
fn unknown_symbol_is_refused() {
    assert_eq!(check_symbol_exists("SOLUSDT", true), Ok(()));
    assert_eq!(
        check_symbol_exists("FOOUSDT", false),
        Err("Could not create strategy - Symbol 'FOOUSDT' does not exist".to_string())
    );
}

#[test]
fn drift_client_settings_are_checked_in_order() {
    match drift_client_settings(None, None) {
        Err(msg) => assert_eq!(msg, "helius_api_key not set in config"),
        Ok(_) => panic!("missing key accepted"),
    }
    match drift_client_settings(None, Some("w")) {
        Err(msg) => assert_eq!(msg, "helius_api_key not set in config"),
        Ok(_) => panic!("missing key accepted"),
    }
    match drift_client_settings(Some("k"), None) {
        Err(msg) => assert_eq!(msg, "wallet_private_key not set in config"),
        Ok(_) => panic!("missing wallet accepted"),
    }
    match drift_client_settings(Some("k"), Some("w")) {
        Ok(s) => {
            assert_eq!(s.rpc_url, "https://devnet.helius-rpc.com/?api-key=k");
            assert_eq!(s.wallet_private_key, "w");
        }
        Err(msg) => panic!("{msg}"),
    }
}
