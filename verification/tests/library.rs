use cketh_starter_backend::canister_ids::{
    canister_ids_args, fold_registry_outcome, CanisterIdsResult, RegistryCallOutcome, RejectCode,
    Token, ETHEREUM_CHAIN_ID, SEPOLIA_CHAIN_ID,
};
use cketh_starter_backend::deposit::{canister_deposit_principal, derive_deposit_subaccount};
use cketh_starter_backend::identity::PrincipalId;
use cketh_starter_backend::operations::{
    approve_cketh_burning, approve_usdc_burning, check_ckusdc_balance,
    transfer_ckusdc_to_principal, withdraw_ckusdc_to_ethereum,
};

fn sample_identity() -> PrincipalId {
    PrincipalId { bytes: vec![0xAB, 0xCD] }
}

fn text_identity(text: &str) -> PrincipalId {
    let principal = candid::Principal::from_text(text).expect("valid principal text");
    PrincipalId { bytes: principal.as_slice().to_vec() }
}

#[test]
fn deposit_derivation_is_deterministic() {
    let id = text_identity("b7pqa-qqaaa-aaaap-abdva-cai");
    let first = canister_deposit_principal(&id);
    let second = canister_deposit_principal(&id);
    assert_eq!(first, second);
    assert_eq!(derive_deposit_subaccount(&id), derive_deposit_subaccount(&id));
}

#[test]
fn deposit_hex_has_prefix_and_64_digits() {
    let id = text_identity("b7pqa-qqaaa-aaaap-abdva-cai");
    let hex = canister_deposit_principal(&id);
    assert_eq!(hex.len(), 66);
    assert!(hex.starts_with("0x"));
    assert!(hex[2..].chars().all(|c| c.is_ascii_hexdigit()));
    assert!(hex[2..].chars().all(|c| !c.is_ascii_uppercase()));
}

#[test]
fn deposit_subaccount_layout() {
    let id = sample_identity();
    let subaccount = derive_deposit_subaccount(&id);
    let mut expected = vec![0x02u8, 0xAB, 0xCD];
    expected.extend(std::iter::repeat(0u8).take(29));
    assert_eq!(subaccount, expected);
}

#[test]
fn deposit_hex_known_value() {
    let id = sample_identity();
    let hex = canister_deposit_principal(&id);
    let expected = format!("0x02abcd{}", "0".repeat(58));
    assert_eq!(hex, expected);
}

#[test]
fn deposit_matches_underlying_derivation() {
    let principal = candid::Principal::from_text("b7pqa-qqaaa-aaaap-abdva-cai").unwrap();
    let id = PrincipalId { bytes: principal.as_slice().to_vec() };
    let subaccount = b3_utils::Subaccount::from(principal);
    let expected = b3_utils::vec_to_hex_string_with_0x(subaccount.to_bytes32().unwrap());
    assert_eq!(canister_deposit_principal(&id), expected);
}

#[test]
fn sepolia_selector_resolves_to_test_network_constants() {
    let token = Token::CkSepoliaUSDC;
    assert_eq!(token.get_chain_id(), 11155111);
    assert_eq!(token.get_address(), "0x1c7D4B196Cb0C7B01d743Fbc6116a902379C7238");
    let args = canister_ids_args(token);
    assert_eq!(args.chain_id, SEPOLIA_CHAIN_ID);
    assert_eq!(args.address, "0x1c7D4B196Cb0C7B01d743Fbc6116a902379C7238");
}

#[test]
fn mainnet_selector_resolves_to_main_network_constants() {
    let token = Token::CkUSDC;
    assert_eq!(token.get_chain_id(), 1);
    assert_eq!(token.get_address(), "0xA0b86991c6218b36c1d19D4a2e9Eb0cE3606eB48");
    let args = canister_ids_args(token);
    assert_eq!(args.chain_id, ETHEREUM_CHAIN_ID);
    assert_eq!(args.address, "0xA0b86991c6218b36c1d19D4a2e9Eb0cE3606eB48");
}

#[test]
fn registry_reply_with_registration_is_passed_through() {
    let result = CanisterIdsResult {
        ledger: Some(PrincipalId { bytes: vec![1, 2, 3] }),
        index: None,
        archives: vec![],
    };
    let folded = fold_registry_outcome(RegistryCallOutcome::Reply(Some(result.clone())));
    assert_eq!(folded, Ok(Some(result)));
}

#[test]
fn registry_reply_without_registration_is_absent_not_error() {
    let folded = fold_registry_outcome(RegistryCallOutcome::Reply(None));
    assert_eq!(folded, Ok(None));
}

#[test]
fn registry_canister_error_is_descriptive_string() {
    let folded = fold_registry_outcome(RegistryCallOutcome::CanisterError(
        RejectCode::CanisterReject,
        String::from("unknown token"),
    ));
    assert_eq!(folded, Err(String::from("Canister error: CanisterReject - unknown token")));
}

#[test]
fn registry_transport_error_is_descriptive_string() {
    let folded = fold_registry_outcome(RegistryCallOutcome::TransportError(
        RejectCode::SysTransient,
        String::from("timeout"),
    ));
    assert_eq!(folded, Err(String::from("InterCall error: SysTransient - timeout")));
}

#[test]
fn reject_code_names_match_host_classification() {
    let pairs = vec![
        (RejectCode::NoError, ic_cdk::api::call::RejectionCode::NoError),
        (RejectCode::SysFatal, ic_cdk::api::call::RejectionCode::SysFatal),
        (RejectCode::SysTransient, ic_cdk::api::call::RejectionCode::SysTransient),
        (RejectCode::DestinationInvalid, ic_cdk::api::call::RejectionCode::DestinationInvalid),
        (RejectCode::CanisterReject, ic_cdk::api::call::RejectionCode::CanisterReject),
        (RejectCode::CanisterError, ic_cdk::api::call::RejectionCode::CanisterError),
        (RejectCode::Unknown, ic_cdk::api::call::RejectionCode::Unknown),
    ];
    for (ours, host) in pairs {
        assert_eq!(ours.name(), format!("{:?}", host));
    }
}

#[test]
fn approval_leaves_every_optional_field_absent() {
    let user = sample_identity();
    let call = approve_cketh_burning(&user, 1_000_000);
    assert!(call.args.expected_allowance.is_none());
    assert!(call.args.expires_at.is_none());
    assert!(call.args.fee.is_none());
    assert!(call.args.created_at_time.is_none());
    assert!(call.args.memo.is_none());
    assert!(call.args.spender_subaccount.is_none());
    assert_eq!(call.args.amount, 1_000_000);
}

#[test]
fn approval_sources_from_derived_subaccount() {
    let user = sample_identity();
    let call = approve_cketh_burning(&user, 42);
    let mut expected = vec![0x02u8, 0xAB, 0xCD];
    expected.extend(std::iter::repeat(0u8).take(29));
    assert_eq!(call.args.from_subaccount, Some(expected));
    assert_eq!(call.ledger, "apia6-jaaaa-aaaar-qabma-cai");
    assert_eq!(call.args.spender, "jzenf-aiaaa-aaaar-qaa7q-cai");
}

#[test]
fn usdc_approval_targets_usdc_ledger_same_minter() {
    let user = text_identity("b7pqa-qqaaa-aaaap-abdva-cai");
    let call = approve_usdc_burning(&user, 7);
    assert_eq!(call.ledger, "yfumr-cyaaa-aaaar-qaela-cai");
    assert_eq!(call.args.spender, "jzenf-aiaaa-aaaar-qaa7q-cai");
    let expected = derive_deposit_subaccount(&user);
    assert_eq!(call.args.from_subaccount, Some(expected));
}

#[test]
fn withdrawal_ledger_is_fixed_constant() {
    let call = withdraw_ckusdc_to_ethereum(
        250_000,
        String::from("0x52908400098527886E0F7030069857D2E4169EE7"),
    );
    assert_eq!(call.minter, "jzenf-aiaaa-aaaar-qaa7q-cai");
    assert_eq!(call.args.ckerc20_ledger, "yfumr-cyaaa-aaaar-qaela-cai");
    assert_eq!(call.args.recipient, "0x52908400098527886E0F7030069857D2E4169EE7");
    assert_eq!(call.args.amount, 250_000);
}

#[test]
fn transfer_goes_to_given_owner_without_subaccount() {
    let to = text_identity("b7pqa-qqaaa-aaaap-abdva-cai");
    let call = transfer_ckusdc_to_principal(99, to.clone());
    assert_eq!(call.ledger, "yfumr-cyaaa-aaaar-qaela-cai");
    assert_eq!(call.args.amount, 99);
    assert_eq!(call.args.to_account.owner, to);
    assert!(call.args.to_account.subaccount.is_none());
}

#[test]
fn balance_query_uses_fixed_ledger_and_no_subaccount() {
    let owner = text_identity("b7pqa-qqaaa-aaaap-abdva-cai");
    let query = check_ckusdc_balance(owner.clone());
    assert_eq!(query.ledger, "yfumr-cyaaa-aaaar-qaela-cai");
    assert_eq!(query.account.owner, owner);
    assert!(query.account.subaccount.is_none());
}

#[test]
fn fixed_addresses_match_constants() {
    assert_eq!(cketh_starter_backend::addresses::eth_ledger_canister(), "apia6-jaaaa-aaaar-qabma-cai");
    assert_eq!(cketh_starter_backend::addresses::usdc_ledger_canister(), "yfumr-cyaaa-aaaar-qaela-cai");
    assert_eq!(cketh_starter_backend::addresses::usdc_index_canister(), "ycvkf-paaaa-aaaar-qaelq-cai");
    assert_eq!(cketh_starter_backend::addresses::eth_minter_canister(), "jzenf-aiaaa-aaaar-qaa7q-cai");
    assert_eq!(cketh_starter_backend::addresses::orchestrator_canister(), "2s5qh-7aaaa-aaaar-qadya-cai");
}

#[test]
fn deposit_derivation_at_identity_size_bounds() {
    let smallest = PrincipalId { bytes: vec![0x04] };
    let hex = canister_deposit_principal(&smallest);
    let expected = format!("0x0104{}", "0".repeat(60));
    assert_eq!(hex, expected);

    let largest = PrincipalId { bytes: vec![0x11; 29] };
    let hex = canister_deposit_principal(&largest);
    let expected = format!("0x1d{}{}", "11".repeat(29), "0".repeat(4));
    assert_eq!(hex, expected);

    let principal = candid::Principal::from_slice(&[0x11; 29]);
    let subaccount = b3_utils::Subaccount::from(principal);
    let from_host = b3_utils::vec_to_hex_string_with_0x(subaccount.to_bytes32().unwrap());
    assert_eq!(hex, from_host);
}
