use vstd::prelude::*;
use crate::error::{EncodeError, RunnerError};
use crate::fee::{Fee, FeeSetting};

verus! {

#[verifier::external_type_specification]
#[verifier::external_body]
pub struct ExSigningKey(cosmrs::crypto::secp256k1::SigningKey);

/// One protocol message of a transaction: its type URL and its encoding.
#[derive(Debug, Clone, PartialEq, Eq)]
pub struct AnyMsg {
    pub type_url: String,
    pub value: Vec<u8>,
}

/// The order of the secp256k1 group.
pub open spec fn secp256k1_order() -> nat {
    0xFFFF_FFFF_FFFF_FFFF_FFFF_FFFF_FFFF_FFFE * (0x8000_0000_0000_0000_0000_0000_0000_0000 * 2)
        + 0xBAAE_DCE6_AF48_A03B_BFD2_5E8C_D036_4141
}

/// The big-endian value of some bytes.
pub open spec fn be_value(b: Seq<u8>) -> nat
    decreases b.len(),
{
    if b.len() == 0 {
        0
    } else {
        (be_value(b.drop_last()) * 256 + b.last()) as nat
    }
}

/// Whether these bytes are a secp256k1 private scalar: 24 to 32 bytes,
/// read big-endian after zero padding, between 1 and the group order less one.
pub open spec fn secp256k1_key_accepted(b: Seq<u8>) -> bool {
    24 <= b.len() <= 32 && 0 < be_value(b) < secp256k1_order()
}

/// A message as its type URL and encoding.
pub open spec fn any_view(m: AnyMsg) -> (Seq<char>, Seq<u8>) {
    (m.type_url@, m.value@)
}

pub open spec fn msgs_view(msgs: Seq<AnyMsg>) -> Seq<(Seq<char>, Seq<u8>)> {
    msgs.map_values(|m: AnyMsg| any_view(m))
}

/// The bytes of the signed transaction that cosmrs builds for these
/// messages, memo, timeout height, signer key, chain ID, sequence, account
/// number and fee (denomination, amount, gas limit). Signing is deterministic
/// (RFC 6979), so this depends on these values alone.
pub uninterp spec fn signed_tx_of(
    msgs: Seq<(Seq<char>, Seq<u8>)>,
    memo: Seq<char>,
    timeout_height: u32,
    key: Seq<u8>,
    chain_id: Seq<char>,
    sequence: u64,
    account_number: u64,
    fee: (Seq<char>, u128, u64),
) -> Seq<u8>;

/// The bech32 address that cosmrs derives from the public key of this
/// private scalar under this prefix.
pub uninterp spec fn address_of(key: Seq<u8>, prefix: Seq<char>) -> Seq<char>;

pub open spec fn lower_alnum(s: Seq<char>) -> bool {
    forall|i: int| 0 <= i < s.len() ==> (('a' <= #[trigger] s[i] && s[i] <= 'z') || ('0' <= s[i] && s[i] <= '9'))
}

/// What a chain ID may be: 1 to 50 characters of ASCII letters, digits, `-`, `_` and `.`.
pub open spec fn valid_chain_id(s: Seq<char>) -> bool {
    &&& 1 <= s.len() <= 50
    &&& forall|i: int| 0 <= i < s.len() ==> {
        let c = #[trigger] s[i];
        ('a' <= c && c <= 'z') || ('A' <= c && c <= 'Z') || ('0' <= c && c <= '9') || c == '-'
            || c == '_' || c == '.'
    }
}

/// What a denomination may be: 3 to 128 characters of ASCII letters,
/// digits, `/`, `:`, `.`, `_` and `-`.
pub open spec fn valid_denom(s: Seq<char>) -> bool {
    &&& 3 <= s.len() <= 128
    &&& forall|i: int| 0 <= i < s.len() ==> {
        let c = #[trigger] s[i];
        ('a' <= c && c <= 'z') || ('A' <= c && c <= 'Z') || ('0' <= c && c <= '9') || c == '/'
            || c == ':' || c == '.' || c == '_' || c == '-'
    }
}

/// Relies on cosmrs's `SigningKey::from_slice`, which hands the bytes to
/// `elliptic-curve`'s `SecretKey::from_slice`; an error comes back as its message.
#[verifier::external_body]
pub(crate) fn signing_key_from_bytes(b: &Vec<u8>) -> (r: Result<cosmrs::crypto::secp256k1::SigningKey, String>)
    ensures
        r is Ok <==> secp256k1_key_accepted(b@),
{
    cosmrs::crypto::secp256k1::SigningKey::from_slice(b.as_slice()).map_err(|e| e.to_string())
}

/// Relies on cosmrs's `SigningKey::public_key` and `PublicKey::account_id`,
/// rendered by its `Display`: for a secp256k1 key the 20-byte account ID is
/// bech32 text made of the prefix, the separator `1` and the encoded ID, and
/// it fails only for a prefix that is not lowercase alphanumeric.
#[verifier::external_body]
fn account_address(signer: &SigningAccount) -> (r: Option<String>)
    ensures
        r is Some <==> lower_alnum(signer.prefix_view()),
        r matches Some(s) ==> {
            &&& s@ == address_of(signer.key_view(), signer.prefix_view())
            &&& s@.len() > signer.prefix_view().len()
            &&& s@.subrange(0, signer.prefix_view().len() as int) == signer.prefix_view()
            &&& s@[signer.prefix_view().len() as int] == '1'
        },
{
    signer.signing_key.public_key().account_id(&signer.prefix).ok().map(|id| id.to_string())
}

/// Relies on tendermint's `chain::Id::from_str`, which checks length and characters.
#[verifier::external_body]
fn chain_id_accepted(s: &str) -> (r: bool)
    ensures
        r == valid_chain_id(s@),
{
    s.parse::<cosmrs::tendermint::chain::Id>().is_ok()
}

/// Relies on cosmrs's `Denom::from_str`, which checks length and characters.
#[verifier::external_body]
fn denom_accepted(s: &str) -> (r: bool)
    ensures
        r == valid_denom(s@),
{
    s.parse::<cosmrs::Denom>().is_ok()
}

/// Relies on cosmrs's transaction builder: `tx::Body::new` (the messages,
/// memo and timeout height), `Fee::from_amount_and_gas`,
/// `SignerInfo::single_direct` and `auth_info`, `SignDoc::new`, `SignDoc::sign`
/// and `Raw::to_bytes`. The parses cannot fail on the accepted chain ID and
/// denomination, encoding into a `Vec` cannot fail, and signing is RFC 6979.
#[verifier::external_body]
fn sign_tx(
    msgs: &Vec<AnyMsg>,
    memo: &str,
    timeout_height: u32,
    signer: &SigningAccount,
    chain_id: &str,
    sequence: u64,
    account_number: u64,
    fee: &Fee,
) -> (r: Option<Vec<u8>>)
    requires
        valid_chain_id(chain_id@),
        valid_denom(fee.amount.denom@),
    ensures
        r is Some,
        r matches Some(b) ==> b@ == signed_tx_of(msgs_view(msgs@), memo@, timeout_height, signer.key_view(), chain_id@, sequence, account_number, (fee.amount.denom@, fee.amount.amount, fee.gas_limit)),
{
    let anys = msgs.iter().map(|m| cosmrs::Any { type_url: m.type_url.clone(), value: m.value.clone() });
    let body = cosmrs::tx::Body::new(anys, memo, timeout_height);
    let coin = cosmrs::Coin { denom: fee.amount.denom.parse().ok()?, amount: fee.amount.amount };
    let info = cosmrs::tx::SignerInfo::single_direct(Some(signer.signing_key.public_key()), sequence);
    let auth = info.auth_info(cosmrs::tx::Fee::from_amount_and_gas(coin, fee.gas_limit));
    let doc = cosmrs::tx::SignDoc::new(&body, &auth, &chain_id.parse().ok()?, account_number).ok()?;
    doc.sign(&signer.signing_key).ok()?.to_bytes().ok()
}

/// An identity that signs transactions: an address prefix, a private key
/// and the fee setting of its transactions. It is never changed once built.
pub struct SigningAccount {
    prefix: String,
    key_bytes: Vec<u8>,
    signing_key: cosmrs::crypto::secp256k1::SigningKey,
    fee_setting: FeeSetting,
}

impl SigningAccount {
    pub closed spec fn prefix_view(&self) -> Seq<char> {
        self.prefix@
    }

    /// The private scalar that the key was made from.
    pub closed spec fn key_view(&self) -> Seq<u8> {
        self.key_bytes@
    }

    pub closed spec fn fee_setting_view(&self) -> FeeSetting {
        self.fee_setting
    }

    /// The account for a private scalar; `None` where the bytes are not one.
    pub fn new(prefix: String, key_bytes: Vec<u8>, fee_setting: FeeSetting) -> (r: Option<SigningAccount>)
        ensures
            r is Some <==> secp256k1_key_accepted(key_bytes@),
            r matches Some(a) ==> a.prefix_view() == prefix@ && a.key_view() == key_bytes@
                && a.fee_setting_view() == fee_setting,
    {
        match signing_key_from_bytes(&key_bytes) {
            Ok(signing_key) => Some(SigningAccount { prefix, key_bytes, signing_key, fee_setting }),
            Err(_) => None,
        }
    }

    pub fn prefix(&self) -> (r: &str)
        ensures
            r@ == self.prefix_view(),
    {
        self.prefix.as_str()
    }

    pub fn fee_setting(&self) -> (r: &FeeSetting)
        ensures
            *r == self.fee_setting_view(),
    {
        &self.fee_setting
    }

    pub fn signing_key(&self) -> &cosmrs::crypto::secp256k1::SigningKey {
        &self.signing_key
    }

    /// The account's bech32 address under its prefix; `None` exactly where
    /// the prefix is not lowercase alphanumeric.
    pub fn address(&self) -> (r: Option<String>)
        ensures
            r is Some <==> lower_alnum(self.prefix_view()),
            r matches Some(s) ==> {
                &&& s@ == address_of(self.key_view(), self.prefix_view())
                &&& s@.len() > self.prefix_view().len()
                &&& s@.subrange(0, self.prefix_view().len() as int) == self.prefix_view()
                &&& s@[self.prefix_view().len() as int] == '1'
            },
    {
        account_address(self)
    }
}

/// Builds, signs and encodes the transaction that carries `msgs` with `fee`,
/// an empty memo and no timeout height (0),
/// for the signer at `sequence` and `account_number` on chain `chain_id`.
/// Both numbers are to be read from the runtime right before the call.
pub fn create_signed_tx(
    msgs: &Vec<AnyMsg>,
    signer: &SigningAccount,
    chain_id: &str,
    sequence: u64,
    account_number: u64,
    fee: &Fee,
) -> (r: Result<Vec<u8>, RunnerError>)
    ensures
        !valid_chain_id(chain_id@) ==> (r matches Err(
            RunnerError::EncodeError(EncodeError::InvalidChainId { id }),
        ) && id@ == chain_id@),
        valid_chain_id(chain_id@) && !valid_denom(fee.amount.denom@) ==> (r matches Err(
            RunnerError::EncodeError(EncodeError::InvalidDenom { denom }),
        ) && denom@ == fee.amount.denom@),
        valid_chain_id(chain_id@) && valid_denom(fee.amount.denom@) ==> (r matches Ok(b) && b@
            == signed_tx_of(msgs_view(msgs@), Seq::empty(), 0, signer.key_view(), chain_id@, sequence,
            account_number, (fee.amount.denom@, fee.amount.amount, fee.gas_limit))),
{
    if !chain_id_accepted(chain_id) {
        return Err(RunnerError::EncodeError(EncodeError::InvalidChainId { id: chain_id.to_owned() }));
    }
    if !denom_accepted(fee.amount.denom.as_str()) {
        return Err(RunnerError::EncodeError(EncodeError::InvalidDenom { denom: fee.amount.denom.clone() }));
    }
    let memo = String::new();
    match sign_tx(msgs, memo.as_str(), 0, signer, chain_id, sequence, account_number, fee) {
        Some(bytes) => Ok(bytes),
        None => {
            proof {
                assert(false);
            }
            Ok(Vec::new())
        },
    }
}

} // verus!
