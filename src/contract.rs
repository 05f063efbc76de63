use crate::abi::{
    address_bytes, address_value, encode_call, head_word, is_address_text, selector_of, AbiType,
    AbiValue, U256,
};
use crate::msg::{
    ExecuteJob, ExecuteMsg, ExternalExecuteMsg, InstantiateMsg, MigrateMsg, PalomaMsg, QueryMsg,
    SendTx,
};
use crate::state::{ascending_keys, pairs_map, registered, route_pairs, ChainRegistry, ChainSetting, ChainSettingInfo, State};
use vstd::prelude::*;
use vstd::string::*;

verus! {

/// Why a command was refused.
#[derive(Clone, Copy, Debug, PartialEq, Eq, Structural)]
pub enum ContractError {
    /// The sender is not the owner.
    Unauthorized,
    /// The chain has no registered route.
    NotFound,
    /// An argument of a remote call is malformed.
    InvalidArgument,
}

/// Tokens attached to a message.
#[derive(Clone, Debug, PartialEq, Eq)]
pub struct Coin {
    pub denom: String,
    pub amount: u128,
}

/// An outbound message.
#[derive(Clone, Debug, PartialEq, Eq)]
pub enum CosmosMsg {
    /// A message to the host chain's modules.
    Custom(PalomaMsg),
    /// A call of another contract, with funds attached.
    WasmExecute { contract_addr: String, msg: ExternalExecuteMsg, funds: Vec<Coin> },
}

/// One key/value annotation of a response.
#[derive(Clone, Debug, PartialEq, Eq)]
pub struct Attribute {
    pub key: String,
    pub value: String,
}

/// What a successful command hands back: messages to emit and annotations.
#[derive(Clone, Debug, PartialEq, Eq)]
pub struct Response {
    pub messages: Vec<CosmosMsg>,
    pub attributes: Vec<Attribute>,
}

/// The persisted configuration: global settings and the chain registry.
pub struct ContractStore {
    pub state: State,
    pub chain_settings: ChainRegistry,
}

/// The answer to a query.
#[derive(Clone, Debug, PartialEq, Eq)]
pub enum QueryResponse {
    State(State),
    ChainSettings(Vec<ChainSettingInfo>),
}

/// The argument of a remote configuration call, as the command carries it.
#[derive(Clone, Debug, PartialEq, Eq)]
pub enum RemoteArg {
    NoArg,
    Uint(U256),
    AddressText(String),
}

impl ContractStore {
    /// The registry is well formed.
    pub open spec fn wf(&self) -> bool {
        self.chain_settings.wf()
    }
}

/// Only the owner may change anything.
pub open spec fn authorized(store: &ContractStore, sender: Seq<char>) -> bool {
    sender == store.state.owner@
}

/// The decimal digits of `n`, as `u128`'s `to_string` writes them.
pub open spec fn decimal(n: nat) -> Seq<char>
    decreases n,
{
    if n < 10 {
        seq![digit_char(n)]
    } else {
        decimal(n / 10) + seq![digit_char(n % 10)]
    }
}

/// The character of a decimal digit.
pub open spec fn digit_char(d: nat) -> char {
    (d + '0' as nat) as char
}

/// The bridged denomination that the token manager mints.
pub open spec fn pusd_denom(manager: Seq<char>) -> Seq<char> {
    "factory/"@ + manager + "/upusd"@
}

/// Whether an annotation holds `key` and `value`.
pub open spec fn attribute_is(a: Attribute, key: Seq<char>, value: Seq<char>) -> bool {
    a.key@ == key && a.value@ == value
}

/// Whether the argument can be encoded.
pub open spec fn arg_valid(arg: RemoteArg) -> bool {
    match arg {
        RemoteArg::AddressText(s) => is_address_text(s@),
        _ => true,
    }
}

/// The call data of the remote function `function` applied to `arg`.
pub open spec fn remote_payload(function: Seq<char>, arg: RemoteArg) -> Seq<u8> {
    match arg {
        RemoteArg::NoArg => selector_of(function, None),
        RemoteArg::Uint(n) => selector_of(function, Some(AbiType::Uint256)) + n.be_bytes@,
        RemoteArg::AddressText(s) => selector_of(function, Some(AbiType::Address)) + Seq::new(
            12,
            |i: int| 0u8,
        ) + address_bytes(s@),
    }
}

/// A response that emits exactly the job `job_id` with call data `payload`.
pub open spec fn is_job_response(r: Response, job_id: Seq<char>, payload: Seq<u8>, action: Seq<char>) -> bool {
    &&& r.messages@.len() == 1
    &&& r.messages@[0] matches CosmosMsg::Custom(PalomaMsg::SchedulerMsg { execute_job })
        && execute_job.job_id@ == job_id && execute_job.payload@ == payload
    &&& r.attributes@.len() == 1
    &&& attribute_is(r.attributes@[0], "action"@, action)
}

/// What a remote configuration command returns: refused for a stranger, for an unknown
/// chain, for a malformed argument, in that order; otherwise the job for the chain.
pub open spec fn remote_call_result(
    store: &ContractStore,
    sender: Seq<char>,
    chain_id: Seq<char>,
    function: Seq<char>,
    arg: RemoteArg,
    r: Result<Response, ContractError>,
) -> bool {
    if !authorized(store, sender) {
        r == Err::<Response, ContractError>(ContractError::Unauthorized)
    } else if !store.chain_settings@.contains_key(chain_id) {
        r == Err::<Response, ContractError>(ContractError::NotFound)
    } else if !arg_valid(arg) {
        r == Err::<Response, ContractError>(ContractError::InvalidArgument)
    } else {
        r matches Ok(resp) && is_job_response(
            resp,
            store.chain_settings@[chain_id],
            remote_payload(function, arg),
            function,
        )
    }
}

fn attribute(key: &str, value: String) -> (r: Attribute)
    ensures
        r.key@ == key@,
        r.value@ == value@,
{
    Attribute { key: String::from_str(key), value }
}

fn single_attribute(key: &str, value: String) -> (r: Vec<Attribute>)
    ensures
        r@.len() == 1,
        attribute_is(r@[0], key@, value@),
{
    let mut v: Vec<Attribute> = Vec::new();
    v.push(attribute(key, value));
    v
}

/// The response of a transfer: one transfer message of `amount` of the bridged token,
/// and its annotations.
pub open spec fn is_transfer_response(
    resp: Response,
    manager: Seq<char>,
    chain_id: Seq<char>,
    to: Seq<char>,
    amount: u128,
    nonce: u128,
) -> bool {
    let amount_text = decimal(amount as nat) + pusd_denom(manager);
    &&& resp.messages@.len() == 1
    &&& resp.messages@[0] matches CosmosMsg::Custom(
        PalomaMsg::SkywayMsg { send_tx: Some(tx), cancel_tx: None },
    ) && tx.remote_chain_destination_address@ == to && tx.amount@ == amount_text
        && tx.chain_reference_id@ == chain_id
    &&& resp.attributes@.len() == 5
    &&& attribute_is(resp.attributes@[0], "action"@, "send_pusd"@)
    &&& attribute_is(resp.attributes@[1], "chain_id"@, chain_id)
    &&& attribute_is(resp.attributes@[2], "to"@, to)
    &&& attribute_is(resp.attributes@[3], "amount"@, amount_text)
    &&& attribute_is(resp.attributes@[4], "nonce"@, decimal(nonce as nat))
}

/// The response of a withdrawal: one call of the token manager, carrying the tokens.
pub open spec fn is_withdraw_response(
    resp: Response,
    manager: Seq<char>,
    chain_id: Seq<char>,
    recipient: Seq<char>,
    amount: u128,
) -> bool {
    &&& resp.messages@.len() == 1
    &&& resp.messages@[0] matches CosmosMsg::WasmExecute { contract_addr, msg, funds }
        && contract_addr@ == manager
        && (msg matches ExternalExecuteMsg::Withdraw { chain_id: c, recipient: w }
        && c@ == chain_id && w@ == recipient)
        && funds@.len() == 1
        && funds@[0].denom@ == pusd_denom(manager)
        && funds@[0].amount == amount
    &&& resp.attributes@.len() == 1
    &&& attribute_is(resp.attributes@[0], "action"@, "withdraw_pusd"@)
}

/// Checks that `sender` is the owner.
pub fn require_owner(sender: &String, state: &State) -> (r: Result<(), ContractError>)
    ensures
        r is Ok <==> sender@ == state.owner@,
        r is Err ==> r == Err::<(), ContractError>(ContractError::Unauthorized),
{
    if *sender == state.owner {
        Ok(())
    } else {
        Err(ContractError::Unauthorized)
    }
}

/// Relies on `u128`'s `to_string`: the decimal digits of the number.
#[verifier::external_body]
fn decimal_string(n: u128) -> (r: String)
    ensures
        r@ == decimal(n as nat),
{
    n.to_string()
}

/// The bridged denomination of the token that `manager` mints.
pub fn denom_of(manager: &String) -> (r: String)
    ensures
        r@ == pusd_denom(manager@),
{
    let mut d = String::from_str("factory/");
    d.append(manager.as_str());
    d.append("/upusd");
    d
}

/// Encodes a remote call for the chain's job: checks the owner, the route and the
/// argument, in that order.
pub fn schedule_remote_call(
    deps: &ContractStore,
    sender: &String,
    chain_id: &String,
    function: &str,
    arg: RemoteArg,
) -> (r: Result<Response, ContractError>)
    requires
        deps.wf(),
    ensures
        remote_call_result(deps, sender@, chain_id@, function@, arg, r),
{
    if let Err(e) = require_owner(sender, &deps.state) {
        return Err(e);
    }
    let setting = match deps.chain_settings.lookup(chain_id) {
        Some(s) => s,
        None => return Err(ContractError::NotFound),
    };
    let value = match &arg {
        RemoteArg::NoArg => None,
        RemoteArg::Uint(n) => Some(AbiValue::Uint(*n)),
        RemoteArg::AddressText(s) => match address_value(s.as_str()) {
            Some(v) => Some(v),
            None => return Err(ContractError::InvalidArgument),
        },
    };
    let payload = encode_call(function, value);
    proof {
        assert(payload@ =~= remote_payload(function@, arg));
    }
    let mut messages: Vec<CosmosMsg> = Vec::new();
    messages.push(
        CosmosMsg::Custom(
            PalomaMsg::SchedulerMsg { execute_job: ExecuteJob { job_id: setting.job_id, payload } },
        ),
    );
    Ok(Response { messages, attributes: single_attribute("action", String::from_str(function)) })
}

/// Asks the chain's contract to record this connector as its caller: `set_paloma()`.
pub fn set_paloma(deps: &ContractStore, sender: &String, chain_id: String) -> (r: Result<Response, ContractError>)
    requires
        deps.wf(),
    ensures
        remote_call_result(deps, sender@, chain_id@, "set_paloma"@, RemoteArg::NoArg, r),
{
    schedule_remote_call(deps, sender, &chain_id, "set_paloma", RemoteArg::NoArg)
}

/// Sets the remote withdraw limit: `update_withdraw_limit(uint256)`.
pub fn update_withdraw_limit(deps: &ContractStore, sender: &String, chain_id: String, new_withdraw_limit: U256) -> (r: Result<Response, ContractError>)
    requires
        deps.wf(),
    ensures
        remote_call_result(deps, sender@, chain_id@, "update_withdraw_limit"@, RemoteArg::Uint(new_withdraw_limit), r),
{
    schedule_remote_call(deps, sender, &chain_id, "update_withdraw_limit", RemoteArg::Uint(new_withdraw_limit))
}

/// Sets the remote token address: `update_pusd(address)`.
pub fn update_pusd(deps: &ContractStore, sender: &String, chain_id: String, new_pusd: String) -> (r: Result<Response, ContractError>)
    requires
        deps.wf(),
    ensures
        remote_call_result(deps, sender@, chain_id@, "update_pusd"@, RemoteArg::AddressText(new_pusd), r),
{
    schedule_remote_call(deps, sender, &chain_id, "update_pusd", RemoteArg::AddressText(new_pusd))
}

/// Sets the remote token manager: `update_pusd_manager(address)`.
pub fn update_pusd_manager(deps: &ContractStore, sender: &String, chain_id: String, new_pusd_manager: String) -> (r: Result<Response, ContractError>)
    requires
        deps.wf(),
    ensures
        remote_call_result(deps, sender@, chain_id@, "update_pusd_manager"@, RemoteArg::AddressText(new_pusd_manager), r),
{
    schedule_remote_call(deps, sender, &chain_id, "update_pusd_manager", RemoteArg::AddressText(new_pusd_manager))
}

/// Sets the remote refund wallet: `update_refund_wallet(address)`.
pub fn update_refund_wallet(deps: &ContractStore, sender: &String, chain_id: String, new_refund_wallet: String) -> (r: Result<Response, ContractError>)
    requires
        deps.wf(),
    ensures
        remote_call_result(deps, sender@, chain_id@, "update_refund_wallet"@, RemoteArg::AddressText(new_refund_wallet), r),
{
    schedule_remote_call(deps, sender, &chain_id, "update_refund_wallet", RemoteArg::AddressText(new_refund_wallet))
}

/// Sets the remote gas fee: `update_gas_fee(uint256)`.
pub fn update_gas_fee(deps: &ContractStore, sender: &String, chain_id: String, new_gas_fee: U256) -> (r: Result<Response, ContractError>)
    requires
        deps.wf(),
    ensures
        remote_call_result(deps, sender@, chain_id@, "update_gas_fee"@, RemoteArg::Uint(new_gas_fee), r),
{
    schedule_remote_call(deps, sender, &chain_id, "update_gas_fee", RemoteArg::Uint(new_gas_fee))
}

/// Sets the remote service fee collector: `update_service_fee_collector(address)`.
pub fn update_service_fee_collector(deps: &ContractStore, sender: &String, chain_id: String, new_service_fee_collector: String) -> (r: Result<Response, ContractError>)
    requires
        deps.wf(),
    ensures
        remote_call_result(deps, sender@, chain_id@, "update_service_fee_collector"@, RemoteArg::AddressText(new_service_fee_collector), r),
{
    schedule_remote_call(deps, sender, &chain_id, "update_service_fee_collector", RemoteArg::AddressText(new_service_fee_collector))
}

/// Sets the remote service fee: `update_service_fee(uint256)`.
pub fn update_service_fee(deps: &ContractStore, sender: &String, chain_id: String, new_service_fee: U256) -> (r: Result<Response, ContractError>)
    requires
        deps.wf(),
    ensures
        remote_call_result(deps, sender@, chain_id@, "update_service_fee"@, RemoteArg::Uint(new_service_fee), r),
{
    schedule_remote_call(deps, sender, &chain_id, "update_service_fee", RemoteArg::Uint(new_service_fee))
}

/// Registers the route of `chain_id`, replacing an earlier one.
pub fn register_chain(
    deps: &mut ContractStore,
    sender: &String,
    chain_id: String,
    chain_setting: ChainSetting,
) -> (r: Result<Response, ContractError>)
    requires
        old(deps).wf(),
    ensures
        final(deps).wf(),
        final(deps).state == old(deps).state,
        authorized(old(deps), sender@) ==> {
            &&& registered(
                old(deps).chain_settings,
                final(deps).chain_settings,
                chain_id@,
                chain_setting.job_id@,
            )
            &&& r matches Ok(resp) && resp.messages@.len() == 0
                && resp.attributes@.len() == 2
                && attribute_is(resp.attributes@[0], "action"@, "register_chain"@)
                && attribute_is(resp.attributes@[1], "chain_id"@, chain_id@)
        },
        !authorized(old(deps), sender@) ==> r == Err::<Response, ContractError>(
            ContractError::Unauthorized,
        ) && *final(deps) == *old(deps),
{
    if let Err(e) = require_owner(sender, &deps.state) {
        return Err(e);
    }
    let id_attr = attribute("chain_id", chain_id.clone());
    deps.chain_settings.register(chain_id, chain_setting);
    let mut attributes = single_attribute("action", String::from_str("register_chain"));
    attributes.push(id_attr);
    Ok(Response { messages: Vec::new(), attributes })
}

/// Sends `amount` of the bridged token to `to` on `chain_id`, through the host's
/// transfer module. The nonce is only echoed.
pub fn send_pusd(
    deps: &ContractStore,
    sender: &String,
    chain_id: String,
    to: String,
    amount: u128,
    nonce: u128,
) -> (r: Result<Response, ContractError>)
    ensures
        !authorized(deps, sender@) ==> r == Err::<Response, ContractError>(
            ContractError::Unauthorized,
        ),
        authorized(deps, sender@) ==> (r matches Ok(resp) && is_transfer_response(
            resp,
            deps.state.pusd_manager@,
            chain_id@,
            to@,
            amount,
            nonce,
        )),
{
    if let Err(e) = require_owner(sender, &deps.state) {
        return Err(e);
    }
    let denom = denom_of(&deps.state.pusd_manager);
    let mut amount_text = decimal_string(amount);
    amount_text.append(denom.as_str());
    let mut attributes = single_attribute("action", String::from_str("send_pusd"));
    attributes.push(attribute("chain_id", chain_id.clone()));
    attributes.push(attribute("to", to.clone()));
    attributes.push(attribute("amount", amount_text.clone()));
    attributes.push(attribute("nonce", decimal_string(nonce)));
    let tx = SendTx {
        remote_chain_destination_address: to,
        amount: amount_text,
        chain_reference_id: chain_id,
    };
    let mut messages: Vec<CosmosMsg> = Vec::new();
    messages.push(CosmosMsg::Custom(PalomaMsg::SkywayMsg { send_tx: Some(tx), cancel_tx: None }));
    Ok(Response { messages, attributes })
}

/// Asks the token manager to withdraw `amount` of the bridged token to `recipient` on
/// `chain_id`; the tokens go along with the call.
pub fn withdraw_pusd(
    deps: &ContractStore,
    sender: &String,
    chain_id: String,
    recipient: String,
    amount: u128,
) -> (r: Result<Response, ContractError>)
    ensures
        !authorized(deps, sender@) ==> r == Err::<Response, ContractError>(
            ContractError::Unauthorized,
        ),
        authorized(deps, sender@) ==> (r matches Ok(resp) && is_withdraw_response(
            resp,
            deps.state.pusd_manager@,
            chain_id@,
            recipient@,
            amount,
        )),
{
    if let Err(e) = require_owner(sender, &deps.state) {
        return Err(e);
    }
    let denom = denom_of(&deps.state.pusd_manager);
    let mut funds: Vec<Coin> = Vec::new();
    funds.push(Coin { denom, amount });
    let mut messages: Vec<CosmosMsg> = Vec::new();
    messages.push(
        CosmosMsg::WasmExecute {
            contract_addr: deps.state.pusd_manager.clone(),
            msg: ExternalExecuteMsg::Withdraw { chain_id, recipient },
            funds,
        },
    );
    Ok(
        Response {
            messages,
            attributes: single_attribute("action", String::from_str("withdraw_pusd")),
        },
    )
}

/// The configuration after a change: each given field replaced, the others kept.
pub open spec fn changed_state(s: State, owner: Option<String>, pusd_manager: Option<String>) -> (
    Seq<char>,
    Seq<char>,
) {
    (
        match owner {
            Some(o) => o@,
            None => s.owner@,
        },
        match pusd_manager {
            Some(m) => m@,
            None => s.pusd_manager@,
        },
    )
}

/// Replaces the owner and the token manager where given.
pub fn change_config(
    deps: &mut ContractStore,
    sender: &String,
    owner: Option<String>,
    pusd_manager: Option<String>,
) -> (r: Result<Response, ContractError>)
    requires
        old(deps).wf(),
    ensures
        final(deps).wf(),
        final(deps).chain_settings == old(deps).chain_settings,
        authorized(old(deps), sender@) ==> {
            &&& (final(deps).state.owner@, final(deps).state.pusd_manager@) == changed_state(
                old(deps).state,
                owner,
                pusd_manager,
            )
            &&& r matches Ok(resp) && resp.messages@.len() == 0
                && attribute_is(resp.attributes@[0], "action"@, "change_config"@)
                && resp.attributes@.len() == 1 + (if owner is Some { 1int } else { 0int }) + (
                if pusd_manager is Some {
                    1int
                } else {
                    0int
                })
        },
        !authorized(old(deps), sender@) ==> r == Err::<Response, ContractError>(
            ContractError::Unauthorized,
        ) && *final(deps) == *old(deps),
{
    if let Err(e) = require_owner(sender, &deps.state) {
        return Err(e);
    }
    let mut attributes = single_attribute("action", String::from_str("change_config"));
    if let Some(o) = owner {
        attributes.push(attribute("new_owner", o.clone()));
        deps.state.owner = o;
    }
    if let Some(m) = pusd_manager {
        attributes.push(attribute("new_pusd_manager", m.clone()));
        deps.state.pusd_manager = m;
    }
    Ok(Response { messages: Vec::new(), attributes })
}

/// Sets up the connector: the sender becomes the owner, no chain is registered.
pub fn instantiate(sender: &String, msg: InstantiateMsg) -> (r: (ContractStore, Response))
    ensures
        r.0.wf(),
        r.0.state.owner@ == sender@,
        r.0.state.pusd_manager@ == msg.pusd_manager@,
        r.0.chain_settings@ == Map::<Seq<char>, Seq<char>>::empty(),
        r.0.chain_settings.routes().len() == 0,
        r.1.messages@.len() == 0,
        r.1.attributes@.len() == 3,
        attribute_is(r.1.attributes@[0], "method"@, "instantiate"@),
        attribute_is(r.1.attributes@[1], "owner"@, sender@),
        attribute_is(r.1.attributes@[2], "pusd_manager"@, msg.pusd_manager@),
{
    let mut attributes = single_attribute("method", String::from_str("instantiate"));
    attributes.push(attribute("owner", sender.clone()));
    attributes.push(attribute("pusd_manager", msg.pusd_manager.clone()));
    let store = ContractStore {
        state: State { owner: sender.clone(), pusd_manager: msg.pusd_manager },
        chain_settings: ChainRegistry::new(),
    };
    (store, Response { messages: Vec::new(), attributes })
}

/// A migration changes no state and emits nothing.
pub fn migrate(msg: MigrateMsg) -> (r: Response)
    ensures
        r.messages@.len() == 0,
        r.attributes@.len() == 0,
{
    Response { messages: Vec::new(), attributes: Vec::new() }
}

/// The dispatch table of the remote configuration commands: the chain, the remote
/// function and its argument.
pub open spec fn remote_command(msg: ExecuteMsg) -> Option<(Seq<char>, Seq<char>, RemoteArg)> {
    match msg {
        ExecuteMsg::SetPaloma { chain_id } => Some((chain_id@, "set_paloma"@, RemoteArg::NoArg)),
        ExecuteMsg::UpdateWithdrawLimit { chain_id, new_withdraw_limit } => Some(
            (chain_id@, "update_withdraw_limit"@, RemoteArg::Uint(new_withdraw_limit)),
        ),
        ExecuteMsg::UpdatePusd { chain_id, new_pusd } => Some(
            (chain_id@, "update_pusd"@, RemoteArg::AddressText(new_pusd)),
        ),
        ExecuteMsg::UpdatePusdManager { chain_id, new_pusd_manager } => Some(
            (chain_id@, "update_pusd_manager"@, RemoteArg::AddressText(new_pusd_manager)),
        ),
        ExecuteMsg::UpdateRefundWallet { chain_id, new_refund_wallet } => Some(
            (chain_id@, "update_refund_wallet"@, RemoteArg::AddressText(new_refund_wallet)),
        ),
        ExecuteMsg::UpdateGasFee { chain_id, new_gas_fee } => Some(
            (chain_id@, "update_gas_fee"@, RemoteArg::Uint(new_gas_fee)),
        ),
        ExecuteMsg::UpdateServiceFeeCollector { chain_id, new_service_fee_collector } => Some(
            (
                chain_id@,
                "update_service_fee_collector"@,
                RemoteArg::AddressText(new_service_fee_collector),
            ),
        ),
        ExecuteMsg::UpdateServiceFee { chain_id, new_service_fee } => Some(
            (chain_id@, "update_service_fee"@, RemoteArg::Uint(new_service_fee)),
        ),
        _ => None,
    }
}

/// What a command does to the store and returns, for an owner.
pub open spec fn owner_outcome(
    before: &ContractStore,
    after: &ContractStore,
    msg: ExecuteMsg,
    r: Result<Response, ContractError>,
) -> bool {
    match msg {
        ExecuteMsg::RegisterChain { chain_id, chain_setting } => {
            &&& after.state == before.state
            &&& registered(
                before.chain_settings,
                after.chain_settings,
                chain_id@,
                chain_setting.job_id@,
            )
            &&& r is Ok
        },
        ExecuteMsg::SendPusd { chain_id, to, amount, nonce } => {
            &&& *after == *before
            &&& r matches Ok(resp) && is_transfer_response(
                resp,
                before.state.pusd_manager@,
                chain_id@,
                to@,
                amount,
                nonce,
            )
        },
        ExecuteMsg::WithdrawPusd { chain_id, recipient, amount } => {
            &&& *after == *before
            &&& r matches Ok(resp) && is_withdraw_response(
                resp,
                before.state.pusd_manager@,
                chain_id@,
                recipient@,
                amount,
            )
        },
        ExecuteMsg::ChangeConfig { owner, pusd_manager } => {
            &&& after.chain_settings == before.chain_settings
            &&& (after.state.owner@, after.state.pusd_manager@) == changed_state(
                before.state,
                owner,
                pusd_manager,
            )
            &&& r is Ok
        },
        _ => *after == *before,
    }
}

/// Runs one administrative command. A stranger is refused and changes nothing; a
/// remote configuration command goes by the dispatch table.
pub fn execute(deps: &mut ContractStore, sender: &String, msg: ExecuteMsg) -> (r: Result<
    Response,
    ContractError,
>)
    requires
        old(deps).wf(),
    ensures
        final(deps).wf(),
        !authorized(old(deps), sender@) ==> r == Err::<Response, ContractError>(
            ContractError::Unauthorized,
        ) && *final(deps) == *old(deps),
        authorized(old(deps), sender@) ==> owner_outcome(old(deps), final(deps), msg, r),
        remote_command(msg) matches Some((chain_id, function, arg)) ==> remote_call_result(
            old(deps),
            sender@,
            chain_id,
            function,
            arg,
            r,
        ),
{
    match msg {
        ExecuteMsg::RegisterChain { chain_id, chain_setting } => register_chain(
            deps,
            sender,
            chain_id,
            chain_setting,
        ),
        ExecuteMsg::SendPusd { chain_id, to, amount, nonce } => send_pusd(
            deps,
            sender,
            chain_id,
            to,
            amount,
            nonce,
        ),
        ExecuteMsg::WithdrawPusd { chain_id, recipient, amount } => withdraw_pusd(
            deps,
            sender,
            chain_id,
            recipient,
            amount,
        ),
        ExecuteMsg::ChangeConfig { owner, pusd_manager } => change_config(
            deps,
            sender,
            owner,
            pusd_manager,
        ),
        ExecuteMsg::SetPaloma { chain_id } => set_paloma(deps, sender, chain_id),
        ExecuteMsg::UpdateWithdrawLimit { chain_id, new_withdraw_limit } => update_withdraw_limit(
            deps,
            sender,
            chain_id,
            new_withdraw_limit,
        ),
        ExecuteMsg::UpdatePusd { chain_id, new_pusd } => update_pusd(
            deps,
            sender,
            chain_id,
            new_pusd,
        ),
        ExecuteMsg::UpdatePusdManager { chain_id, new_pusd_manager } => update_pusd_manager(
            deps,
            sender,
            chain_id,
            new_pusd_manager,
        ),
        ExecuteMsg::UpdateRefundWallet { chain_id, new_refund_wallet } => update_refund_wallet(
            deps,
            sender,
            chain_id,
            new_refund_wallet,
        ),
        ExecuteMsg::UpdateGasFee { chain_id, new_gas_fee } => update_gas_fee(
            deps,
            sender,
            chain_id,
            new_gas_fee,
        ),
        ExecuteMsg::UpdateServiceFeeCollector { chain_id, new_service_fee_collector } =>
            update_service_fee_collector(deps, sender, chain_id, new_service_fee_collector),
        ExecuteMsg::UpdateServiceFee { chain_id, new_service_fee } => update_service_fee(
            deps,
            sender,
            chain_id,
            new_service_fee,
        ),
    }
}

/// Reads the configuration, or the registered routes in ascending order of chain.
pub fn query(deps: &ContractStore, msg: QueryMsg) -> (r: QueryResponse)
    requires
        deps.wf(),
    ensures
        msg is GetState ==> (r matches QueryResponse::State(s) && s.owner@ == deps.state.owner@
            && s.pusd_manager@ == deps.state.pusd_manager@),
        msg is GetChainSettings ==> (r matches QueryResponse::ChainSettings(v) && route_pairs(v@)
            == deps.chain_settings.routes() && ascending_keys(route_pairs(v@)) && pairs_map(
            route_pairs(v@),
        ) == deps.chain_settings@),
{
    match msg {
        QueryMsg::GetState {  } => QueryResponse::State(
            State { owner: deps.state.owner.clone(), pusd_manager: deps.state.pusd_manager.clone() },
        ),
        QueryMsg::GetChainSettings {  } => QueryResponse::ChainSettings(deps.chain_settings.list()),
    }
}

} // verus!
