use vstd::prelude::*;
use crate::codec::{base64_decode, base64_decoded};
use crate::error::{DecodeError, EncodeError, RunnerError};
use crate::exec::{is_custom_fee, is_simulation_fee, start_phase, Action, Execution};
use crate::fee::{Coin, Fee, FeeSetting, GasAdjustment, INJECTIVE_MIN_GAS_PRICE};
use crate::signer::{
    create_signed_tx, msgs_view, secp256k1_key_accepted, signed_tx_of, valid_chain_id,
    valid_denom, AnyMsg, SigningAccount,
};

verus! {

/// Where a private key handed out by the runtime leads: an account, or the
/// error that the key text is not base64 or not a valid key.
pub open spec fn key_text_outcome(text: Seq<char>, r: Result<SigningAccount, RunnerError>) -> bool {
    match base64_decoded(text) {
        None => r matches Err(RunnerError::DecodeError(DecodeError::Base64DecodeError)),
        Some(b) => if secp256k1_key_accepted(b) {
            r matches Ok(a) && a.key_view() == b
        } else {
            r matches Err(RunnerError::DecodeError(DecodeError::SigningKeyDecodeError { .. }))
        },
    }
}

/// The settings of one chain instance of the runtime, named by its handle.
pub struct BaseApp {
    id: u64,
    fee_denom: String,
    chain_id: String,
    address_prefix: String,
    default_gas_adjustment: GasAdjustment,
}

impl BaseApp {
    pub closed spec fn id_view(&self) -> u64 {
        self.id
    }

    pub closed spec fn fee_denom_view(&self) -> Seq<char> {
        self.fee_denom@
    }

    pub closed spec fn prefix_view(&self) -> Seq<char> {
        self.address_prefix@
    }

    pub closed spec fn chain_id_view(&self) -> Seq<char> {
        self.chain_id@
    }

    pub closed spec fn adjustment_view(&self) -> GasAdjustment {
        self.default_gas_adjustment
    }

    /// Wraps the handle `id` that the runtime returned for a new chain instance.
    pub fn new(
        id: u64,
        fee_denom: &str,
        chain_id: &str,
        address_prefix: &str,
        default_gas_adjustment: GasAdjustment,
    ) -> (r: BaseApp)
        requires
            default_gas_adjustment.wf(),
        ensures
            r.wf(),
            r.id_view() == id,
            r.fee_denom_view() == fee_denom@,
            r.chain_id_view() == chain_id@,
            r.prefix_view() == address_prefix@,
            r.adjustment_view() == default_gas_adjustment,
    {
        BaseApp {
            id,
            fee_denom: fee_denom.to_owned(),
            chain_id: chain_id.to_owned(),
            address_prefix: address_prefix.to_owned(),
            default_gas_adjustment,
        }
    }

    pub closed spec fn wf(&self) -> bool {
        self.default_gas_adjustment.wf()
    }

    pub fn id(&self) -> (r: u64)
        ensures
            r == self.id_view(),
    {
        self.id
    }

    pub fn fee_denom(&self) -> (r: &str)
        ensures
            r@ == self.fee_denom_view(),
    {
        self.fee_denom.as_str()
    }

    /// The fee setting of a new account: estimated, at the least gas price
    /// in the chain's fee denomination, with the chain's default adjustment.
    pub fn default_fee_setting(&self) -> (r: FeeSetting)
        requires
            self.wf(),
        ensures
            r.wf(),
            r matches FeeSetting::Auto { gas_price, gas_adjustment } && gas_price.amount
                == INJECTIVE_MIN_GAS_PRICE && gas_price.denom@ == self.fee_denom_view()
                && gas_adjustment == self.adjustment_view(),
    {
        FeeSetting::Auto {
            gas_price: Coin { denom: self.fee_denom.clone(), amount: INJECTIVE_MIN_GAS_PRICE },
            gas_adjustment: self.default_gas_adjustment,
        }
    }

    /// The account for a private key that the runtime handed out as base64
    /// text, with the given prefix and fee setting.
    pub fn account_from_key_text(text: &str, prefix: &str, fee_setting: FeeSetting) -> (r: Result<
        SigningAccount,
        RunnerError,
    >)
        ensures
            key_text_outcome(text@, r),
            r matches Ok(a) ==> a.prefix_view() == prefix@ && a.fee_setting_view() == fee_setting,
    {
        let bytes = match base64_decode(text) {
            Some(b) => b,
            None => {
                return Err(RunnerError::DecodeError(DecodeError::Base64DecodeError));
            },
        };
        match SigningAccount::new(prefix.to_owned(), bytes, fee_setting) {
            Some(a) => Ok(a),
            None => Err(RunnerError::DecodeError(DecodeError::SigningKeyDecodeError {
                msg: String::from_str("invalid secp256k1 private key"),
            })),
        }
    }

    /// The account of a newly funded key: the chain's prefix and the
    /// default fee setting.
    pub fn init_account_from_key(&self, text: &str) -> (r: Result<SigningAccount, RunnerError>)
        requires
            self.wf(),
        ensures
            key_text_outcome(text@, r),
            r matches Ok(a) ==> (a.prefix_view() == self.prefix_view() && a.fee_setting_view().wf()
                && (a.fee_setting_view() matches FeeSetting::Auto { gas_price, gas_adjustment }
                && gas_price.amount == INJECTIVE_MIN_GAS_PRICE && gas_price.denom@
                == self.fee_denom_view() && gas_adjustment == self.adjustment_view())),
    {
        let setting = self.default_fee_setting();
        BaseApp::account_from_key_text(text, self.address_prefix.as_str(), setting)
    }

    /// The account of the first validator: prefix `inj`, estimated fees at
    /// the least gas price in `denom`, scaled by `gas_adjustment`.
    pub fn validator_account_from_key(text: &str, denom: String, gas_adjustment: GasAdjustment) -> (r:
        Result<SigningAccount, RunnerError>)
        ensures
            key_text_outcome(text@, r),
            r matches Ok(a) ==> a.prefix_view() == seq!['i', 'n', 'j'] && a.fee_setting_view()
                == (FeeSetting::Auto {
                gas_price: Coin { denom, amount: INJECTIVE_MIN_GAS_PRICE },
                gas_adjustment,
            }),
    {
        proof {
            reveal_strlit("inj");
        }
        let setting = FeeSetting::Auto {
            gas_price: Coin { denom, amount: INJECTIVE_MIN_GAS_PRICE },
            gas_adjustment,
        };
        BaseApp::account_from_key_text(text, "inj", setting)
    }

    /// Begins executing a transaction for `signer`, under its fee setting.
    pub fn start_execution(&self, signer: &SigningAccount) -> (r: (Execution, Action))
        requires
            signer.fee_setting_view().wf(),
        ensures
            r.0.wf(),
            r.0.setting.same_as(signer.fee_setting_view()),
            r.0.phase == start_phase(signer.fee_setting_view()),
            r.1 matches Action::Sign { fee } && (if signer.fee_setting_view().is_auto() {
                is_simulation_fee(fee, self.fee_denom_view())
            } else {
                is_custom_fee(fee, signer.fee_setting_view())
            }),
    {
        Execution::start(signer.fee_setting().copy(), self.fee_denom.as_str())
    }

    /// Signs `msgs` for `signer` on this chain, with an empty memo and no
    /// timeout height.
    pub fn create_signed_tx(
        &self,
        msgs: &Vec<AnyMsg>,
        signer: &SigningAccount,
        sequence: u64,
        account_number: u64,
        fee: &Fee,
    ) -> (r: Result<Vec<u8>, RunnerError>)
        ensures
            !valid_chain_id(self.chain_id_view()) ==> (r matches Err(
                RunnerError::EncodeError(EncodeError::InvalidChainId { id }),
            ) && id@ == self.chain_id_view()),
            valid_chain_id(self.chain_id_view()) && !valid_denom(fee.amount.denom@) ==> (r matches Err(
                RunnerError::EncodeError(EncodeError::InvalidDenom { denom }),
            ) && denom@ == fee.amount.denom@),
            valid_chain_id(self.chain_id_view()) && valid_denom(fee.amount.denom@) ==> (r matches Ok(b)
                && b@ == signed_tx_of(msgs_view(msgs@), Seq::empty(), 0, signer.key_view(), self.chain_id_view(),
                sequence, account_number, (fee.amount.denom@, fee.amount.amount, fee.gas_limit))),
    {
        create_signed_tx(msgs, signer, self.chain_id.as_str(), sequence, account_number, fee)
    }
}

} // verus!
