use vstd::prelude::*;
use crate::decimal::{decimal_of, decimal_string};
use crate::fee::Coin;

verus! {

pub const STORE_CODE_TYPE_URL: &'static str = "/cosmwasm.wasm.v1.MsgStoreCode";
pub const INSTANTIATE_TYPE_URL: &'static str = "/cosmwasm.wasm.v1.MsgInstantiateContract";
pub const EXECUTE_TYPE_URL: &'static str = "/cosmwasm.wasm.v1.MsgExecuteContract";
pub const MIGRATE_TYPE_URL: &'static str = "/cosmwasm.wasm.v1.MsgMigrateContract";
pub const SMART_QUERY_PATH: &'static str = "/cosmwasm.wasm.v1.Query/SmartContractState";

/// A coin as the wire messages carry it: the amount written in decimal.
#[derive(Debug, Clone, PartialEq, Eq)]
pub struct ProtoCoin {
    pub denom: String,
    pub amount: String,
}

/// Who may instantiate a stored code.
#[derive(Debug, Clone, PartialEq, Eq)]
pub struct AccessConfig {
    pub permission: i32,
    pub addresses: Vec<String>,
}

#[derive(Debug, Clone, PartialEq, Eq)]
pub struct MsgStoreCode {
    pub sender: String,
    pub wasm_byte_code: Vec<u8>,
    pub instantiate_permission: Option<AccessConfig>,
}

#[derive(Debug, Clone, PartialEq, Eq)]
pub struct MsgInstantiateContract {
    pub sender: String,
    pub admin: String,
    pub code_id: u64,
    pub label: String,
    pub msg: Vec<u8>,
    pub funds: Vec<ProtoCoin>,
}

#[derive(Debug, Clone, PartialEq, Eq)]
pub struct MsgExecuteContract {
    pub sender: String,
    pub msg: Vec<u8>,
    pub funds: Vec<ProtoCoin>,
    pub contract: String,
}

#[derive(Debug, Clone, PartialEq, Eq)]
pub struct MsgMigrateContract {
    pub sender: String,
    pub contract: String,
    pub code_id: u64,
    pub msg: Vec<u8>,
}

#[derive(Debug, Clone, PartialEq, Eq)]
pub struct QuerySmartContractStateRequest {
    pub address: String,
    pub query_data: Vec<u8>,
}

/// The label that an instantiation carries: the runtime panics on an empty
/// one, so a missing or empty label becomes a single space.
pub open spec fn label_of(label: Option<Seq<char>>) -> Seq<char> {
    match label {
        Some(l) => if l.len() == 0 { seq![' '] } else { l },
        None => seq![' '],
    }
}

pub open spec fn opt_view(s: Option<&str>) -> Option<Seq<char>> {
    match s {
        Some(v) => Some(v@),
        None => None,
    }
}

/// The wire form of each coin, in order.
pub open spec fn proto_coins_match(coins: Seq<Coin>, out: Seq<ProtoCoin>) -> bool {
    &&& out.len() == coins.len()
    &&& forall|i: int| 0 <= i < coins.len() ==> {
        &&& #[trigger] out[i].denom@ == coins[i].denom@
        &&& out[i].amount@ == decimal_of(coins[i].amount as nat)
    }
}

pub fn resolve_label(label: Option<&str>) -> (r: String)
    ensures
        r@ == label_of(opt_view(label)),
{
    proof {
        reveal_strlit(" ");
    }
    match label {
        Some(l) => if l.is_empty() { String::from_str(" ") } else { l.to_owned() },
        None => String::from_str(" "),
    }
}

pub fn proto_coins(funds: &[Coin]) -> (r: Vec<ProtoCoin>)
    ensures
        proto_coins_match(funds@, r@),
{
    let mut out: Vec<ProtoCoin> = Vec::new();
    let mut i: usize = 0;
    while i < funds.len()
        invariant
            i <= funds@.len(),
            proto_coins_match(funds@.subrange(0, i as int), out@),
        decreases funds@.len() - i,
    {
        let c = &funds[i];
        out.push(ProtoCoin { denom: c.denom.clone(), amount: decimal_string(c.amount) });
        i = i + 1;
        assert(forall|j: int| 0 <= j < i - 1 ==> funds@.subrange(0, i as int)[j]
            == funds@.subrange(0, i - 1)[j]);
    }
    assert(funds@.subrange(0, funds@.len() as int) =~= funds@);
    out
}

/// Builds the messages of the contract module. The contract messages
/// themselves come already serialised as JSON.
pub struct Wasm;

impl Wasm {
    pub fn store_code(
        &self,
        wasm_byte_code: &[u8],
        instantiate_permission: Option<AccessConfig>,
        sender: &str,
    ) -> (r: MsgStoreCode)
        ensures
            r.sender@ == sender@,
            r.wasm_byte_code@ == wasm_byte_code@,
            r.instantiate_permission == instantiate_permission,
    {
        MsgStoreCode {
            sender: sender.to_owned(),
            wasm_byte_code: vstd::slice::slice_to_vec(wasm_byte_code),
            instantiate_permission,
        }
    }

    pub fn instantiate(
        &self,
        code_id: u64,
        msg: Vec<u8>,
        admin: Option<&str>,
        label: Option<&str>,
        funds: &[Coin],
        sender: &str,
    ) -> (r: MsgInstantiateContract)
        ensures
            r.sender@ == sender@,
            r.admin@ == (match admin {
                Some(a) => a@,
                None => Seq::<char>::empty(),
            }),
            r.code_id == code_id,
            r.label@ == label_of(opt_view(label)),
            r.msg == msg,
            proto_coins_match(funds@, r.funds@),
    {
        let admin = match admin {
            Some(a) => a.to_owned(),
            None => String::new(),
        };
        MsgInstantiateContract {
            sender: sender.to_owned(),
            admin,
            code_id,
            label: resolve_label(label),
            msg,
            funds: proto_coins(funds),
        }
    }

    pub fn execute(&self, contract: &str, msg: Vec<u8>, funds: &[Coin], sender: &str) -> (r:
        MsgExecuteContract)
        ensures
            r.sender@ == sender@,
            r.contract@ == contract@,
            r.msg == msg,
            proto_coins_match(funds@, r.funds@),
    {
        MsgExecuteContract {
            sender: sender.to_owned(),
            msg,
            funds: proto_coins(funds),
            contract: contract.to_owned(),
        }
    }

    pub fn migrate(&self, code_id: u64, contract: &str, msg: Vec<u8>, sender: &str) -> (r:
        MsgMigrateContract)
        ensures
            r.sender@ == sender@,
            r.contract@ == contract@,
            r.code_id == code_id,
            r.msg == msg,
    {
        MsgMigrateContract { sender: sender.to_owned(), contract: contract.to_owned(), code_id, msg }
    }

    pub fn query(&self, contract: &str, msg: Vec<u8>) -> (r: QuerySmartContractStateRequest)
        ensures
            r.address@ == contract@,
            r.query_data == msg,
    {
        QuerySmartContractStateRequest { address: contract.to_owned(), query_data: msg }
    }
}

} // verus!
