use vstd::prelude::*;
use vstd::string::StringExecFns;

use crate::identity::PrincipalId;

verus! {

/// Numeric chain identifier of the test network.
pub const SEPOLIA_CHAIN_ID: u64 = 11155111;

/// Numeric chain identifier of the main network.
pub const ETHEREUM_CHAIN_ID: u64 = 1;

/// Contract address of the stablecoin on the test network.
pub open spec fn sepolia_usdc_address() -> Seq<char> {
    "0x1c7D4B196Cb0C7B01d743Fbc6116a902379C7238"@
}

/// Contract address of the stablecoin on the main network.
pub open spec fn ethereum_usdc_address() -> Seq<char> {
    "0xA0b86991c6218b36c1d19D4a2e9Eb0cE3606eB48"@
}

/// A logical token selector: the test-network or main-network stablecoin.
#[derive(Clone, Copy, Debug, PartialEq, Eq, Structural)]
pub enum Token {
    CkSepoliaUSDC,
    CkUSDC,
}

impl Token {
    /// The chain identifier this selector resolves to.
    pub open spec fn chain_id_spec(self) -> u64 {
        match self {
            Token::CkSepoliaUSDC => SEPOLIA_CHAIN_ID,
            Token::CkUSDC => ETHEREUM_CHAIN_ID,
        }
    }

    /// The contract address this selector resolves to.
    pub open spec fn address_spec(self) -> Seq<char> {
        match self {
            Token::CkSepoliaUSDC => sepolia_usdc_address(),
            Token::CkUSDC => ethereum_usdc_address(),
        }
    }

    /// The fixed numeric chain identifier for this selector.
    pub fn get_chain_id(&self) -> (r: u64)
        ensures
            r == self.chain_id_spec(),
    {
        match self {
            Token::CkSepoliaUSDC => SEPOLIA_CHAIN_ID,
            Token::CkUSDC => ETHEREUM_CHAIN_ID,
        }
    }

    /// The fixed contract address string for this selector.
    pub fn get_address(&self) -> (r: String)
        ensures
            r@ == self.address_spec(),
    {
        match self {
            Token::CkSepoliaUSDC => "0x1c7D4B196Cb0C7B01d743Fbc6116a902379C7238".to_owned(),
            Token::CkUSDC => "0xA0b86991c6218b36c1d19D4a2e9Eb0cE3606eB48".to_owned(),
        }
    }
}

/// The query record sent to the registry: a chain identifier and a contract
/// address.
#[derive(Clone, Debug, PartialEq, Eq)]
pub struct CanisterIdsArgs {
    pub chain_id: u64,
    pub address: String,
}

/// What the registry reports for a registered pair: the ledger and index
/// addresses, if registered, and any archive addresses. Each field may be
/// independently absent or empty.
#[derive(Clone, Debug, PartialEq, Eq)]
pub struct CanisterIdsResult {
    pub ledger: Option<PrincipalId>,
    pub index: Option<PrincipalId>,
    pub archives: Vec<PrincipalId>,
}

/// The registry query for a token selector, resolved from the fixed table.
pub fn canister_ids_args(token: Token) -> (args: CanisterIdsArgs)
    ensures
        args.chain_id == token.chain_id_spec(),
        args.address@ == token.address_spec(),
{
    CanisterIdsArgs { chain_id: token.get_chain_id(), address: token.get_address() }
}

/// Classification of a rejected outbound call, mirroring the host's
/// rejection codes.
#[derive(Clone, Copy, Debug, PartialEq, Eq, Structural)]
pub enum RejectCode {
    NoError,
    SysFatal,
    SysTransient,
    DestinationInvalid,
    CanisterReject,
    CanisterError,
    Unknown,
}

impl RejectCode {
    /// The classification's name, as it appears in error messages.
    pub open spec fn name_spec(self) -> Seq<char> {
        match self {
            RejectCode::NoError => "NoError"@,
            RejectCode::SysFatal => "SysFatal"@,
            RejectCode::SysTransient => "SysTransient"@,
            RejectCode::DestinationInvalid => "DestinationInvalid"@,
            RejectCode::CanisterReject => "CanisterReject"@,
            RejectCode::CanisterError => "CanisterError"@,
            RejectCode::Unknown => "Unknown"@,
        }
    }

    /// The classification's name as a string.
    pub fn name(&self) -> (r: String)
        ensures
            r@ == self.name_spec(),
    {
        match self {
            RejectCode::NoError => "NoError".to_owned(),
            RejectCode::SysFatal => "SysFatal".to_owned(),
            RejectCode::SysTransient => "SysTransient".to_owned(),
            RejectCode::DestinationInvalid => "DestinationInvalid".to_owned(),
            RejectCode::CanisterReject => "CanisterReject".to_owned(),
            RejectCode::CanisterError => "CanisterError".to_owned(),
            RejectCode::Unknown => "Unknown".to_owned(),
        }
    }
}

/// The three distinguishable outcomes of the remote registry call: a decoded
/// reply (which may carry no registration), an application-level error value
/// from the callee, or a transport-level rejection.
#[derive(Clone, Debug, PartialEq, Eq)]
pub enum RegistryCallOutcome {
    Reply(Option<CanisterIdsResult>),
    CanisterError(RejectCode, String),
    TransportError(RejectCode, String),
}

/// The message reported when the callee returned an application-level error.
pub open spec fn canister_error_message(code: RejectCode, message: Seq<char>) -> Seq<char> {
    "Canister error: "@ + code.name_spec() + " - "@ + message
}

/// The message reported when the call was rejected at the transport level.
pub open spec fn transport_error_message(code: RejectCode, message: Seq<char>) -> Seq<char> {
    "InterCall error: "@ + code.name_spec() + " - "@ + message
}

/// Folds the three outcomes of the registry call into the caller-visible
/// result: a decoded reply is handed through as-is — in particular, a reply
/// that carries no registration becomes an absent result, not an error — and
/// either error outcome becomes a descriptive message string that names the
/// classification and carries the callee's message.
pub fn fold_registry_outcome(outcome: RegistryCallOutcome) -> (r: Result<
    Option<CanisterIdsResult>,
    String,
>)
    ensures
        match outcome {
            RegistryCallOutcome::Reply(ids) => r matches Ok(out) && out == ids,
            RegistryCallOutcome::CanisterError(code, message) => r matches Err(m) && m@
                == canister_error_message(code, message@),
            RegistryCallOutcome::TransportError(code, message) => r matches Err(m) && m@
                == transport_error_message(code, message@),
        },
{
    match outcome {
        RegistryCallOutcome::Reply(ids) => Ok(ids),
        RegistryCallOutcome::CanisterError(code, message) => {
            let mut m = "Canister error: ".to_owned();
            let name = code.name();
            m.append(name.as_str());
            m.append(" - ");
            m.append(message.as_str());
            proof {
                assert(m@ =~= canister_error_message(code, message@));
            }
            Err(m)
        },
        RegistryCallOutcome::TransportError(code, message) => {
            let mut m = "InterCall error: ".to_owned();
            let name = code.name();
            m.append(name.as_str());
            m.append(" - ");
            m.append(message.as_str());
            proof {
                assert(m@ =~= transport_error_message(code, message@));
            }
            Err(m)
        },
    }
}

/// Law: an error outcome always folds to a message that embeds both the
/// classification's name and the callee's message in full.
pub proof fn lemma_error_messages_descriptive(code: RejectCode, message: Seq<char>)
    ensures
        exists|i: int, j: int|
            0 <= i <= j <= canister_error_message(code, message).len() && #[trigger] canister_error_message(
                code,
                message,
            ).subrange(i, j) == code.name_spec(),
        canister_error_message(code, message).subrange(
            canister_error_message(code, message).len() - message.len(),
            canister_error_message(code, message).len() as int,
        ) == message,
        exists|i: int, j: int|
            0 <= i <= j <= transport_error_message(code, message).len() && #[trigger] transport_error_message(
                code,
                message,
            ).subrange(i, j) == code.name_spec(),
        transport_error_message(code, message).subrange(
            transport_error_message(code, message).len() - message.len(),
            transport_error_message(code, message).len() as int,
        ) == message,
{
    let cp = "Canister error: "@;
    let tp = "InterCall error: "@;
    let name = code.name_spec();
    let sep = " - "@;
    let c = canister_error_message(code, message);
    let t = transport_error_message(code, message);
    assert(c.subrange(cp.len() as int, (cp.len() + name.len()) as int) =~= name);
    assert(c.subrange(c.len() - message.len(), c.len() as int) =~= message);
    assert(t.subrange(tp.len() as int, (tp.len() + name.len()) as int) =~= name);
    assert(t.subrange(t.len() - message.len(), t.len() as int) =~= message);
}

} // verus!
