//! Where the Drift client connects.
use vstd::prelude::*;
use vstd::string::*;

verus! {

/// The Helius devnet RPC endpoint for an API key.
pub fn devnet_rpc_url(helius_api_key: &str) -> (r: String)
    ensures
        r@ == "https://devnet.helius-rpc.com/?api-key="@ + helius_api_key@,
{
    let mut url = String::from_str("https://devnet.helius-rpc.com/?api-key=");
    url.append(helius_api_key);
    url
}

/// What the Drift client is built from: the RPC endpoint and the wallet's private key.
pub struct DriftClientSettings {
    pub rpc_url: String,
    pub wallet_private_key: String,
}

/// Checks the configured settings in order, the Helius API key first and then the wallet's
/// private key, and fails with the message naming the first one that is missing; with
/// both present it gives the devnet endpoint for the key and the private key.
pub fn drift_client_settings(helius_api_key: Option<&str>, wallet_private_key: Option<&str>) -> (r:
    Result<DriftClientSettings, String>)
    ensures
        helius_api_key is None ==> r is Err && r->Err_0@ == "helius_api_key not set in config"@,
        helius_api_key is Some && wallet_private_key is None ==> r is Err && r->Err_0@
            == "wallet_private_key not set in config"@,
        helius_api_key is Some && wallet_private_key is Some ==> r is Ok && r->Ok_0.rpc_url@
            == "https://devnet.helius-rpc.com/?api-key="@ + helius_api_key->0@
            && r->Ok_0.wallet_private_key@ == wallet_private_key->0@,
{
    let key = match helius_api_key {
        Some(k) => k,
        None => return Err(String::from_str("helius_api_key not set in config")),
    };
    let rpc_url = devnet_rpc_url(key);
    let wallet = match wallet_private_key {
        Some(w) => w,
        None => return Err(String::from_str("wallet_private_key not set in config")),
    };
    Ok(DriftClientSettings { rpc_url, wallet_private_key: String::from_str(wallet) })
}

} // verus!
