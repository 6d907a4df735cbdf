use vstd::prelude::*;

verus! {

/// Textual network address of the test-network ETH ledger.
pub open spec fn eth_ledger_text() -> Seq<char> {
    "apia6-jaaaa-aaaar-qabma-cai"@
}

/// Textual network address of the test-network USDC ledger.
pub open spec fn usdc_ledger_text() -> Seq<char> {
    "yfumr-cyaaa-aaaar-qaela-cai"@
}

/// Textual network address of the test-network USDC index service.
pub open spec fn usdc_index_text() -> Seq<char> {
    "ycvkf-paaaa-aaaar-qaelq-cai"@
}

/// Textual network address of the test-network ETH minter.
pub open spec fn eth_minter_text() -> Seq<char> {
    "jzenf-aiaaa-aaaar-qaa7q-cai"@
}

/// Textual network address of the ledger-suite orchestrator (the registry).
pub open spec fn orchestrator_text() -> Seq<char> {
    "2s5qh-7aaaa-aaaar-qadya-cai"@
}

/// The fixed ETH ledger address.
pub fn eth_ledger_canister() -> (r: String)
    ensures
        r@ == eth_ledger_text(),
{
    "apia6-jaaaa-aaaar-qabma-cai".to_owned()
}

/// The fixed USDC ledger address.
pub fn usdc_ledger_canister() -> (r: String)
    ensures
        r@ == usdc_ledger_text(),
{
    "yfumr-cyaaa-aaaar-qaela-cai".to_owned()
}

/// The fixed USDC index address.
pub fn usdc_index_canister() -> (r: String)
    ensures
        r@ == usdc_index_text(),
{
    "ycvkf-paaaa-aaaar-qaelq-cai".to_owned()
}

/// The fixed ETH minter address.
pub fn eth_minter_canister() -> (r: String)
    ensures
        r@ == eth_minter_text(),
{
    "jzenf-aiaaa-aaaar-qaa7q-cai".to_owned()
}

/// The fixed registry/orchestrator address.
pub fn orchestrator_canister() -> (r: String)
    ensures
        r@ == orchestrator_text(),
{
    "2s5qh-7aaaa-aaaar-qadya-cai".to_owned()
}

} // verus!
