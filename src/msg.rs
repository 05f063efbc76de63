use crate::abi::U256;
use crate::state::ChainSetting;
use vstd::prelude::*;

verus! {

/// Sets up the connector: the caller becomes the owner.
#[derive(Clone, Debug, PartialEq, Eq)]
pub struct InstantiateMsg {
    pub pusd_manager: String,
}

/// Re-stamps the version; changes no state.
#[derive(Clone, Debug, PartialEq, Eq)]
pub struct MigrateMsg {}

/// The administrative commands.
#[derive(Clone, Debug, PartialEq, Eq)]
pub enum ExecuteMsg {
    RegisterChain { chain_id: String, chain_setting: ChainSetting },
    SendPusd { chain_id: String, to: String, amount: u128, nonce: u128 },
    WithdrawPusd { chain_id: String, recipient: String, amount: u128 },
    ChangeConfig { owner: Option<String>, pusd_manager: Option<String> },
    UpdateWithdrawLimit { chain_id: String, new_withdraw_limit: U256 },
    SetPaloma { chain_id: String },
    UpdateRefundWallet { chain_id: String, new_refund_wallet: String },
    UpdateGasFee { chain_id: String, new_gas_fee: U256 },
    UpdateServiceFeeCollector { chain_id: String, new_service_fee_collector: String },
    UpdateServiceFee { chain_id: String, new_service_fee: U256 },
    UpdatePusd { chain_id: String, new_pusd: String },
    UpdatePusdManager { chain_id: String, new_pusd_manager: String },
}

/// The commands that the token manager accepts.
#[derive(Clone, Debug, PartialEq, Eq)]
pub enum ExternalExecuteMsg {
    Withdraw { chain_id: String, recipient: String },
    ReWithdraw { nonce: u64 },
    CancelWithdraw { nonce: u64 },
}

/// The read-only requests.
#[derive(Clone, Debug, PartialEq, Eq)]
pub enum QueryMsg {
    GetState {},
    GetChainSettings {},
}

/// The messages handed to the host chain's modules.
#[derive(Clone, Debug, PartialEq, Eq)]
pub enum PalomaMsg {
    /// A native token transfer to a remote chain.
    SkywayMsg { send_tx: Option<SendTx>, cancel_tx: Option<CancelTx> },
    /// A scheduled call on a remote chain.
    SchedulerMsg { execute_job: ExecuteJob },
}

/// A job envelope: the job that relays the call, and the call data.
#[derive(Clone, Debug, PartialEq, Eq)]
pub struct ExecuteJob {
    pub job_id: String,
    pub payload: Vec<u8>,
}

/// A transfer to an address on a remote chain.
#[derive(Clone, Debug, PartialEq, Eq)]
pub struct SendTx {
    pub remote_chain_destination_address: String,
    pub amount: String,
    pub chain_reference_id: String,
}

/// The cancellation of a pending transfer.
#[derive(Clone, Debug, PartialEq, Eq)]
pub struct CancelTx {
    pub transaction_id: u64,
}

} // verus!
