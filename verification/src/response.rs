//! The values a JSON RPC node answers with: a response and its context,
//! the per-method result types, and the few computations they carry.

use vstd::prelude::*;
use std::collections::HashMap;
use solana_account_decoder_client_types::token::UiTokenAmount;
use solana_account_decoder_client_types::UiAccount;
use solana_clock::{Epoch, Slot, UnixTimestamp};
use solana_fee_calculator::{FeeCalculator, FeeRateGovernor};
use solana_transaction_error::TransactionError;
use solana_transaction_status_client_types::{
    TransactionConfirmationStatus, UiConfirmedBlock, UiInnerInstructions, UiTransactionReturnData,
};
use crate::api_version::RpcApiVersion;
use crate::text::{all_white_space, decimal_text, first_word_or_all, is_first_word, push_decimal};

verus! {

#[verifier::external_type_specification]
#[verifier::external_body]
pub struct ExTransactionError(TransactionError);

#[verifier::external_type_specification]
#[verifier::external_body]
pub struct ExFeeCalculator(FeeCalculator);

#[verifier::external_type_specification]
#[verifier::external_body]
pub struct ExFeeRateGovernor(FeeRateGovernor);

#[verifier::external_type_specification]
#[verifier::external_body]
pub struct ExUiAccount(UiAccount);

#[verifier::external_type_specification]
#[verifier::external_body]
pub struct ExUiTokenAmount(UiTokenAmount);

#[verifier::external_type_specification]
#[verifier::external_body]
pub struct ExUiConfirmedBlock(UiConfirmedBlock);

#[verifier::external_type_specification]
#[verifier::external_body]
pub struct ExUiInnerInstructions(UiInnerInstructions);

#[verifier::external_type_specification]
#[verifier::external_body]
pub struct ExUiTransactionReturnData(UiTransactionReturnData);

#[verifier::external_type_specification]
#[verifier::external_body]
pub struct ExTransactionConfirmationStatus(TransactionConfirmationStatus);

/// `Clone` of `TransactionError`, which the outside crate derives: the clone is
/// claimed equal to the original.
pub assume_specification[ <TransactionError as Clone>::clone ](x: &TransactionError) -> (r: TransactionError)
    ensures
        r == *x,
;

/// `Clone` of `FeeCalculator`, which the outside crate derives: the clone is
/// claimed equal to the original.
pub assume_specification[ <FeeCalculator as Clone>::clone ](x: &FeeCalculator) -> (r: FeeCalculator)
    ensures
        r == *x,
;

/// `Clone` of `FeeRateGovernor`, which the outside crate derives: the clone is
/// claimed equal to the original.
pub assume_specification[ <FeeRateGovernor as Clone>::clone ](x: &FeeRateGovernor) -> (r: FeeRateGovernor)
    ensures
        r == *x,
;

/// `Clone` of `UiAccount`, which the outside crate derives: the clone is
/// claimed equal to the original.
pub assume_specification[ <UiAccount as Clone>::clone ](x: &UiAccount) -> (r: UiAccount)
    ensures
        r == *x,
;

/// `Clone` of `UiTokenAmount`, which the outside crate derives: the clone is
/// claimed equal to the original.
pub assume_specification[ <UiTokenAmount as Clone>::clone ](x: &UiTokenAmount) -> (r: UiTokenAmount)
    ensures
        r == *x,
;

/// `Clone` of `UiConfirmedBlock`, which the outside crate derives: the clone is
/// claimed equal to the original.
pub assume_specification[ <UiConfirmedBlock as Clone>::clone ](x: &UiConfirmedBlock) -> (r: UiConfirmedBlock)
    ensures
        r == *x,
;

/// `Clone` of `UiInnerInstructions`, which the outside crate derives: the clone is
/// claimed equal to the original.
pub assume_specification[ <UiInnerInstructions as Clone>::clone ](x: &UiInnerInstructions) -> (r: UiInnerInstructions)
    ensures
        r == *x,
;

/// `Clone` of `UiTransactionReturnData`, which the outside crate derives: the clone is
/// claimed equal to the original.
pub assume_specification[ <UiTransactionReturnData as Clone>::clone ](x: &UiTransactionReturnData) -> (r: UiTransactionReturnData)
    ensures
        r == *x,
;

/// `Clone` of `TransactionConfirmationStatus`, which the outside crate derives: the clone is
/// claimed equal to the original.
pub assume_specification[ <TransactionConfirmationStatus as Clone>::clone ](x: &TransactionConfirmationStatus) -> (r: TransactionConfirmationStatus)
    ensures
        r == *x,
;

/// `Clone` of `std::result::Result`: the clone is the same variant, its
/// payload a clone of the original payload.
pub assume_specification<T: Clone, E: Clone>[ <Result<T, E> as Clone>::clone ](
    x: &Result<T, E>,
) -> (r: Result<T, E>)
    ensures
        x is Ok <==> r is Ok,
        x is Ok ==> cloned::<T>(x->Ok_0, r->Ok_0),
        x is Err ==> cloned::<E>(x->Err_0, r->Err_0),
;

/// A result of a method that answers either with or without a context.
#[derive(Clone, PartialEq, Eq)]
pub enum OptionalContext<T> {
    Context(Response<T>),
    NoContext(T),
}

impl<T> OptionalContext<T> {
    /// The value, with the context dropped where there is one.
    pub fn parse_value(self) -> (v: T)
        ensures
            v == match self {
                OptionalContext::Context(response) => response.value,
                OptionalContext::NoContext(value) => value,
            },
    {
        match self {
            OptionalContext::Context(response) => response.value,
            OptionalContext::NoContext(value) => value,
        }
    }
}

/// The slot at which a request was answered and the API version that
/// answered it.
#[derive(Clone, PartialEq, Eq)]
pub struct RpcResponseContext {
    pub slot: Slot,
    pub api_version: Option<RpcApiVersion>,
}

impl RpcResponseContext {
    /// The context of an answer at `slot`, stamped with this node's API
    /// version.
    pub fn new(slot: Slot) -> (c: RpcResponseContext)
        ensures
            c.slot == slot,
            c.api_version matches Some(v) && v@.major == 2 && v@.minor == 3 && v@.patch == 13
                && v@.pre.len() == 0 && v@.build.len() == 0,
    {
        RpcResponseContext { slot, api_version: Some(RpcApiVersion::node_version()) }
    }
}

/// A value with the context it was answered in.
#[derive(Clone, PartialEq, Eq)]
pub struct Response<T> {
    pub context: RpcResponseContext,
    pub value: T,
}

#[derive(Debug, PartialEq, Eq, Clone)]
pub struct RpcBlockCommitment<T> {
    pub commitment: Option<T>,
    pub total_stake: u64,
}

#[derive(Clone, Debug, PartialEq, Eq)]
pub struct RpcBlockhashFeeCalculator {
    pub blockhash: String,
    pub fee_calculator: FeeCalculator,
}

#[derive(Clone, Debug, PartialEq, Eq)]
pub struct RpcBlockhash {
    pub blockhash: String,
    pub last_valid_block_height: u64,
}

#[derive(Clone, Debug, PartialEq, Eq)]
pub struct RpcFeeCalculator {
    pub fee_calculator: FeeCalculator,
}

#[derive(Clone, Debug, PartialEq, Eq)]
pub struct RpcFeeRateGovernor {
    pub fee_rate_governor: FeeRateGovernor,
}

#[derive(Clone, Debug, PartialEq, Eq)]
pub struct RpcKeyedAccount {
    pub pubkey: String,
    pub account: UiAccount,
}

#[derive(Clone, Copy, Debug, PartialEq, Eq)]
pub struct SlotInfo {
    pub slot: Slot,
    pub parent: Slot,
    pub root: Slot,
}

#[derive(Clone, Copy, Debug, PartialEq, Eq)]
pub struct SlotTransactionStats {
    pub num_transaction_entries: u64,
    pub num_successful_transactions: u64,
    pub num_failed_transactions: u64,
    pub max_transactions_per_entry: u64,
}

/// A step in the life of a slot on a node.
#[derive(Debug, PartialEq, Eq, Clone)]
pub enum SlotUpdate {
    FirstShredReceived { slot: Slot, timestamp: u64 },
    Completed { slot: Slot, timestamp: u64 },
    CreatedBank { slot: Slot, parent: Slot, timestamp: u64 },
    Frozen { slot: Slot, timestamp: u64, stats: SlotTransactionStats },
    Dead { slot: Slot, timestamp: u64, err: String },
    OptimisticConfirmation { slot: Slot, timestamp: u64 },
    Root { slot: Slot, timestamp: u64 },
}

impl SlotUpdate {
    /// The slot the update is about.
    pub fn slot(&self) -> (s: Slot)
        ensures
            s == match *self {
                SlotUpdate::FirstShredReceived { slot, .. } => slot,
                SlotUpdate::Completed { slot, .. } => slot,
                SlotUpdate::CreatedBank { slot, .. } => slot,
                SlotUpdate::Frozen { slot, .. } => slot,
                SlotUpdate::Dead { slot, .. } => slot,
                SlotUpdate::OptimisticConfirmation { slot, .. } => slot,
                SlotUpdate::Root { slot, .. } => slot,
            },
    {
        match self {
            SlotUpdate::FirstShredReceived { slot, .. } => *slot,
            SlotUpdate::Completed { slot, .. } => *slot,
            SlotUpdate::CreatedBank { slot, .. } => *slot,
            SlotUpdate::Frozen { slot, .. } => *slot,
            SlotUpdate::Dead { slot, .. } => *slot,
            SlotUpdate::OptimisticConfirmation { slot, .. } => *slot,
            SlotUpdate::Root { slot, .. } => *slot,
        }
    }
}


/// How a transaction's signature status was answered over a subscription.
#[derive(Clone, Debug, PartialEq, Eq)]
pub enum RpcSignatureResult {
    ProcessedSignature(ProcessedSignatureResult),
    ReceivedSignature(ReceivedSignatureResult),
}

#[derive(Clone, Debug, PartialEq, Eq)]
pub struct RpcLogsResponse {
    /// Signature as a base-58 string.
    pub signature: String,
    pub err: Option<TransactionError>,
    pub logs: Vec<String>,
}

#[derive(Clone, Debug, PartialEq, Eq)]
pub struct ProcessedSignatureResult {
    pub err: Option<TransactionError>,
}

#[derive(Clone, Debug, PartialEq, Eq)]
pub enum ReceivedSignatureResult {
    ReceivedSignature,
}

/// The client software a node runs.
#[derive(Clone, Copy, Debug, PartialEq, Eq)]
pub enum ClientId {
    SolanaLabs,
    JitoLabs,
    Firedancer,
    Agave,
    Unknown(u16),
}

/// A network socket address: an IPv4 address and port, or an IPv6
/// address, port, flow label and scope id.
#[allow(inconsistent_fields)]
#[derive(Clone, Copy, Debug, PartialEq, Eq)]
pub enum SocketAddress {
    V4 { ip: [u8; 4], port: u16 },
    V6 { ip: [u16; 8], port: u16, flowinfo: u32, scope_id: u32 },
}

/// What a node tells about itself in the cluster.
#[derive(Clone, Debug, PartialEq, Eq)]
pub struct RpcContactInfo {
    /// Pubkey of the node as a base-58 string
    pub pubkey: String,
    /// Gossip port
    pub gossip: Option<SocketAddress>,
    /// Tvu UDP port
    pub tvu: Option<SocketAddress>,
    /// Tpu UDP port
    pub tpu: Option<SocketAddress>,
    /// Tpu QUIC port
    pub tpu_quic: Option<SocketAddress>,
    /// Tpu UDP forwards port
    pub tpu_forwards: Option<SocketAddress>,
    /// Tpu QUIC forwards port
    pub tpu_forwards_quic: Option<SocketAddress>,
    /// Tpu UDP vote port
    pub tpu_vote: Option<SocketAddress>,
    /// Server repair UDP port
    pub serve_repair: Option<SocketAddress>,
    /// JSON RPC port
    pub rpc: Option<SocketAddress>,
    /// WebSocket PubSub port
    pub pubsub: Option<SocketAddress>,
    /// Software version
    pub version: Option<String>,
    /// First 4 bytes of the FeatureSet identifier
    pub feature_set: Option<u32>,
    /// Shred version
    pub shred_version: Option<u16>,
    /// First 4 bytes of the sha1 commit hash, sent as 8 hex digits
    pub commit: Option<u32>,
    /// Client id
    pub client_id: Option<ClientId>,
}

/// Map of leader base58 identity pubkeys to the slot indices relative to the first epoch slot
pub type RpcLeaderSchedule = HashMap<String, Vec<usize>>;

#[derive(Debug, Default, Clone, PartialEq, Eq)]
pub struct RpcBlockProductionRange {
    pub first_slot: Slot,
    pub last_slot: Slot,
}

#[derive(Clone, Debug, PartialEq, Eq)]
pub struct RpcBlockProduction {
    /// Map of leader base58 identity pubkeys to a tuple of `(number of leader slots, number of blocks produced)`
    pub by_identity: HashMap<String, (usize, usize)>,
    pub range: RpcBlockProductionRange,
}

/// The software version a node reports.
#[derive(Clone, PartialEq, Eq)]
pub struct RpcVersionInfo {
    /// The current version of solana-core
    pub solana_core: String,
    /// first 4 bytes of the FeatureSet identifier
    pub feature_set: Option<u32>,
    /// first 4 bytes of the sha1 commit hash, sent as 8 hex digits
    pub commit: Option<u32>,
    /// Client id
    pub client_id: Option<ClientId>,
}

impl RpcVersionInfo {
    /// The version for display: the first whitespace-separated word of
    /// `solana_core` (the semantic version), or all of it where it holds
    /// no word.
    pub fn to_string(&self) -> (s: String)
        ensures
            all_white_space(self.solana_core@) ==> s@ == self.solana_core@,
            !all_white_space(self.solana_core@) ==> exists|a: int, b: int|
                is_first_word(self.solana_core@, a, b) && s@ == self.solana_core@.subrange(a, b),
    {
        first_word_or_all(self.solana_core.as_str())
    }

    /// The version for debugging output: all of `solana_core`.
    pub fn debug_string(&self) -> (s: String)
        ensures
            s@ == self.solana_core@,
    {
        self.solana_core.clone()
    }
}

#[derive(Clone, Debug, PartialEq, Eq)]
pub struct RpcIdentity {
    /// The current node identity pubkey
    pub identity: String,
}

#[derive(Clone, Debug, PartialEq, Eq)]
pub struct RpcVote {
    /// Vote account address, as base-58 encoded string
    pub vote_pubkey: String,
    pub slots: Vec<Slot>,
    pub hash: String,
    pub timestamp: Option<UnixTimestamp>,
    pub signature: String,
}

#[derive(Clone, Debug, PartialEq, Eq)]
pub struct RpcVoteAccountStatus {
    pub current: Vec<RpcVoteAccountInfo>,
    pub delinquent: Vec<RpcVoteAccountInfo>,
}

#[derive(Clone, Debug, PartialEq, Eq)]
pub struct RpcVoteAccountInfo {
    /// Vote account address, as base-58 encoded string
    pub vote_pubkey: String,
    /// The validator identity, as base-58 encoded string
    pub node_pubkey: String,
    /// The current stake, in lamports, delegated to this vote account
    pub activated_stake: u64,
    /// An 8-bit integer used as a fraction (commission/MAX_U8) for rewards payout
    pub commission: u8,
    /// Whether this account is staked for the current epoch
    pub epoch_vote_account: bool,
    /// Latest history of earned credits, each tuple is (Epoch, credits, prev_credits)
    pub epoch_credits: Vec<(Epoch, u64, u64)>,
    /// Most recent slot voted on by this vote account (0 if no votes exist)
    pub last_vote: u64,
    /// Current root slot for this vote account (0 if no root slot exists)
    pub root_slot: Slot,
}

#[derive(Clone, Debug, PartialEq, Eq)]
pub struct RpcSignatureConfirmation {
    pub confirmations: usize,
    pub status: Result<(), TransactionError>,
}

#[derive(Clone, Debug, PartialEq, Eq)]
pub struct RpcSimulateTransactionResult {
    pub err: Option<TransactionError>,
    pub logs: Option<Vec<String>>,
    pub accounts: Option<Vec<Option<UiAccount>>>,
    pub units_consumed: Option<u64>,
    pub return_data: Option<UiTransactionReturnData>,
    pub inner_instructions: Option<Vec<UiInnerInstructions>>,
    pub replacement_blockhash: Option<RpcBlockhash>,
}

#[derive(Clone, Debug, PartialEq, Eq)]
pub struct RpcStorageTurn {
    pub blockhash: String,
    pub slot: Slot,
}

#[derive(Clone, Debug, PartialEq, Eq)]
pub struct RpcAccountBalance {
    pub address: String,
    pub lamports: u64,
}

#[derive(Clone, Debug, PartialEq, Eq)]
pub struct RpcSupply {
    pub total: u64,
    pub circulating: u64,
    pub non_circulating: u64,
    pub non_circulating_accounts: Vec<String>,
}

#[derive(Clone, Debug, PartialEq, Eq)]
pub enum StakeActivationState {
    Activating,
    Active,
    Deactivating,
    Inactive,
}

#[derive(Clone, Debug, PartialEq)]
pub struct RpcTokenAccountBalance {
    pub address: String,
    pub amount: UiTokenAmount,
}

/// The status of a confirmed transaction as the ledger keeps it, with the
/// transaction's 64 signature bytes.
#[derive(Clone, Debug, PartialEq, Eq)]
pub struct ConfirmedTransactionStatusWithSignature {
    pub signature: [u8; 64],
    pub slot: Slot,
    pub err: Option<TransactionError>,
    pub memo: Option<String>,
    pub block_time: Option<UnixTimestamp>,
}

/// The base-58 digit for a value below 58: `1`-`9`, `A`-`H`, `J`-`N`,
/// `P`-`Z`, `a`-`k`, `m`-`z`, in order of value.
pub open spec fn base58_digit_char(d: int) -> char {
    if d < 9 {
        (('1' as int) + d) as char
    } else if d < 17 {
        (('A' as int) + d - 9) as char
    } else if d < 22 {
        (('J' as int) + d - 17) as char
    } else if d < 33 {
        (('P' as int) + d - 22) as char
    } else if d < 44 {
        (('a' as int) + d - 33) as char
    } else {
        (('m' as int) + d - 44) as char
    }
}

/// The number that bytes denote, most significant first.
pub open spec fn big_endian_value(bytes: Seq<u8>) -> nat
    decreases bytes.len(),
{
    if bytes.len() == 0 {
        0
    } else {
        big_endian_value(bytes.drop_last()) * 256 + (bytes.last() as nat)
    }
}

/// The base-58 numeral of `n`, most significant digit first, with no digit
/// at all for 0.
pub open spec fn base58_digits(n: nat) -> Seq<char>
    decreases n,
{
    if n == 0 {
        Seq::empty()
    } else {
        base58_digits(n / 58).push(base58_digit_char((n % 58) as int))
    }
}

/// How many zero bytes open the sequence.
pub open spec fn leading_zero_bytes(bytes: Seq<u8>) -> nat
    decreases bytes.len(),
{
    if bytes.len() > 0 && bytes[0] == 0 {
        1 + leading_zero_bytes(bytes.drop_first())
    } else {
        0
    }
}

/// The base-58 text of bytes: a `1` for each leading zero byte, then the
/// base-58 numeral of the number the bytes denote.
pub open spec fn base58_text(bytes: Seq<u8>) -> Seq<char> {
    Seq::new(leading_zero_bytes(bytes), |i: int| '1') + base58_digits(big_endian_value(bytes))
}

/// Renders 64 signature bytes with `Display` of
/// `solana_signature::Signature`. Claimed, from its source: the text is the
/// base-58 encoding of the bytes.
#[verifier::external_body]
fn signature_to_string(bytes: &[u8; 64]) -> (s: String)
    ensures
        s@ == base58_text(bytes@),
{
    solana_signature::Signature::from(*bytes).to_string()
}

#[derive(Clone, Debug, PartialEq, Eq)]
pub struct RpcConfirmedTransactionStatusWithSignature {
    pub signature: String,
    pub slot: Slot,
    pub err: Option<TransactionError>,
    pub memo: Option<String>,
    pub block_time: Option<UnixTimestamp>,
    pub confirmation_status: Option<TransactionConfirmationStatus>,
}

impl RpcConfirmedTransactionStatusWithSignature {
    /// The RPC form of a ledger status: the signature as its base-58 text,
    /// the other fields as they are, and no confirmation status.
    pub fn from_status(value: ConfirmedTransactionStatusWithSignature) -> (r: Self)
        ensures
            r.signature@ == base58_text(value.signature@),
            r.slot == value.slot,
            r.err == value.err,
            r.memo == value.memo,
            r.block_time == value.block_time,
            r.confirmation_status is None,
    {
        let signature = signature_to_string(&value.signature);
        Self::with_signature_text(value, signature)
    }

    /// The RPC form of a ledger status whose signature was rendered as
    /// `signature`: that text, the other fields as they are, and no
    /// confirmation status.
    pub fn with_signature_text(value: ConfirmedTransactionStatusWithSignature, signature: String) -> (r: Self)
        ensures
            r.signature == signature,
            r.slot == value.slot,
            r.err == value.err,
            r.memo == value.memo,
            r.block_time == value.block_time,
            r.confirmation_status is None,
    {
        let ConfirmedTransactionStatusWithSignature { signature: _, slot, err, memo, block_time } = value;
        RpcConfirmedTransactionStatusWithSignature {
            signature,
            slot,
            err,
            memo,
            block_time,
            confirmation_status: None,
        }
    }
}

#[derive(Clone, Debug, PartialEq, Eq)]
pub struct RpcPerfSample {
    pub slot: Slot,
    pub num_transactions: u64,
    pub num_non_vote_transactions: Option<u64>,
    pub num_slots: u64,
    pub sample_period_secs: u16,
}

#[derive(Clone, Debug, PartialEq, Eq)]
pub struct RpcInflationReward {
    pub epoch: Epoch,
    pub effective_slot: Slot,
    /// lamports
    pub amount: u64,
    /// lamports
    pub post_balance: u64,
    /// Vote account commission when the reward was credited
    pub commission: Option<u8>,
}

/// Why a block could not be sent to a block subscriber.
#[derive(Clone, Debug, Eq, PartialEq)]
pub enum RpcBlockUpdateError {
    BlockStoreError,
    UnsupportedTransactionVersion(u8),
}

impl RpcBlockUpdateError {
    /// The message of the error.
    pub fn to_string(&self) -> (s: String)
        ensures
            s@ == match *self {
                RpcBlockUpdateError::BlockStoreError => "block store error"@,
                RpcBlockUpdateError::UnsupportedTransactionVersion(v) =>
                    "unsupported transaction version ("@ + decimal_text(v as nat) + ")"@,
            },
    {
        match self {
            RpcBlockUpdateError::BlockStoreError => "block store error".to_owned(),
            RpcBlockUpdateError::UnsupportedTransactionVersion(v) => {
                let mut s = "unsupported transaction version (".to_owned();
                push_decimal(&mut s, *v as u64);
                s.append(")");
                s
            },
        }
    }
}

#[derive(Debug, PartialEq, Clone)]
pub struct RpcBlockUpdate {
    pub slot: Slot,
    pub block: Option<UiConfirmedBlock>,
    pub err: Option<RpcBlockUpdateError>,
}

#[derive(Clone, Copy, Debug, PartialEq, Eq)]
pub struct RpcSnapshotSlotInfo {
    pub full: Slot,
    pub incremental: Option<Slot>,
}

#[derive(Clone, Copy, Debug, PartialEq, Eq)]
pub struct RpcPrioritizationFee {
    pub slot: Slot,
    pub prioritization_fee: u64,
}


proof fn lemma_base58_digit_char_injective(x: int, y: int)
    requires
        0 <= x < 58,
        0 <= y < 58,
        base58_digit_char(x) == base58_digit_char(y),
    ensures
        x == y,
{
    let cx = base58_digit_char(x);
    let cy = base58_digit_char(y);
    assert(cx as int == cy as int);
}

proof fn lemma_base58_digit_char_one(d: int)
    requires
        0 < d < 58,
    ensures
        base58_digit_char(d) != '1',
{
    if base58_digit_char(d) == '1' {
        assert(base58_digit_char(0) == '1');
        lemma_base58_digit_char_injective(d, 0);
    }
}

proof fn lemma_base58_digits_lead(n: nat)
    requires
        n > 0,
    ensures
        base58_digits(n).len() > 0,
        base58_digits(n)[0] != '1',
    decreases n,
{
    if n < 58 {
        assert(n / 58 == 0);
        assert(n % 58 == n);
        assert(base58_digits(0).len() == 0);
        assert(base58_digits(n)[0] == base58_digit_char((n % 58) as int));
        lemma_base58_digit_char_one((n % 58) as int);
    } else {
        lemma_base58_digits_lead(n / 58);
        assert(base58_digits(n)[0] == base58_digits(n / 58)[0]);
    }
}

proof fn lemma_base58_digits_injective(n: nat, m: nat)
    requires
        base58_digits(n) == base58_digits(m),
    ensures
        n == m,
    decreases n,
{
    if n == 0 || m == 0 {
        if n > 0 {
            lemma_base58_digits_lead(n);
        }
        if m > 0 {
            lemma_base58_digits_lead(m);
        }
    } else {
        let dn = base58_digits(n);
        assert(dn.last() == base58_digit_char((n % 58) as int));
        assert(base58_digits(m).last() == base58_digit_char((m % 58) as int));
        lemma_base58_digit_char_injective((n % 58) as int, (m % 58) as int);
        assert(dn.drop_last() =~= base58_digits(n / 58));
        assert(base58_digits(m).drop_last() =~= base58_digits(m / 58));
        lemma_base58_digits_injective(n / 58, m / 58);
    }
}

proof fn lemma_big_endian_value_injective(a: Seq<u8>, b: Seq<u8>)
    requires
        a.len() == b.len(),
        big_endian_value(a) == big_endian_value(b),
    ensures
        a == b,
    decreases a.len(),
{
    if a.len() > 0 {
        let x = big_endian_value(a.drop_last());
        let y = big_endian_value(b.drop_last());
        let l = a.last() as int;
        let m = b.last() as int;
        assert(x * 256 + l == y * 256 + m);
        assert(x == y && l == m) by (nonlinear_arith)
            requires
                x * 256 + l == y * 256 + m,
                0 <= l < 256,
                0 <= m < 256,
                x >= 0,
                y >= 0,
        ;
        lemma_big_endian_value_injective(a.drop_last(), b.drop_last());
        assert(a =~= a.drop_last().push(a.last()));
        assert(b =~= b.drop_last().push(b.last()));
    } else {
        assert(a =~= b);
    }
}

/// Law: rendering signatures loses nothing. Two byte strings of the same
/// length (such as two 64-byte signatures) with the same base-58 text are
/// the same bytes, so `from_status` gives different texts for different
/// signatures.
pub proof fn lemma_base58_text_injective(a: Seq<u8>, b: Seq<u8>)
    requires
        a.len() == b.len(),
        base58_text(a) == base58_text(b),
    ensures
        a == b,
{
    let za = leading_zero_bytes(a);
    let zb = leading_zero_bytes(b);
    let da = base58_digits(big_endian_value(a));
    let db = base58_digits(big_endian_value(b));
    let ta = base58_text(a);
    if za < zb {
        assert(ta.len() == za + da.len());
        assert(ta.len() == zb + db.len());
        if big_endian_value(a) == 0 {
            assert(da.len() == 0);
        }
        lemma_base58_digits_lead(big_endian_value(a));
        assert(ta[za as int] == da[0]);
        assert(base58_text(b)[za as int] == '1');
    } else if zb < za {
        let tb = base58_text(b);
        assert(tb.len() == zb + db.len());
        assert(tb.len() == za + da.len());
        if big_endian_value(b) == 0 {
            assert(db.len() == 0);
        }
        lemma_base58_digits_lead(big_endian_value(b));
        assert(tb[zb as int] == db[0]);
        assert(ta[zb as int] == '1');
    }
    assert(za == zb);
    assert(da =~= ta.skip(za as int));
    assert(db =~= base58_text(b).skip(zb as int));
    lemma_base58_digits_injective(big_endian_value(a), big_endian_value(b));
    lemma_big_endian_value_injective(a, b);
}

} // verus!
