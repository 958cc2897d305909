//! Account layout of the Streamflow vesting contract and its human-readable
//! form.
use crate::keyed::KeyedList;
use crate::pubkey::{
    base58_text, key_from_str, key_to_string, lemma_base58_text_injective, lemma_text_parses_back,
    parses_to, same_key,
};
use crate::wire::{
    bool_byte, le_bytes, lemma_u32_roundtrip, lemma_u64_roundtrip, bool_at, bool_ok_at, bytes_at, is_nan_bits, nan_bits, read_bool, read_byte_vec, read_bytes64,
    read_key, read_u32, read_u64, read_u8, u32_at, u64_at,
};
use vstd::prelude::*;

verus! {

/// The struct containing instructions for initializing a stream
#[derive(Clone, Copy, Debug, PartialEq, Eq)]
pub struct StreamInstruction {
    /// Timestamp when the tokens start vesting
    pub start_time: u64,
    /// Deposited amount of tokens
    pub net_amount_deposited: u64,
    /// Time step (period) in seconds per which the vesting/release occurs
    pub period: u64,
    /// Amount released per period. Combined with `period`, we get a release rate.
    pub amount_per_period: u64,
    /// Vesting contract "cliff" timestamp
    pub cliff: u64,
    /// Amount unlocked at the "cliff" timestamp
    pub cliff_amount: u64,
    /// Whether or not a stream can be canceled by a sender
    pub cancelable_by_sender: bool,
    /// Whether or not a stream can be canceled by a recipient
    pub cancelable_by_recipient: bool,
    /// Whether or not a 3rd party can initiate withdraw in the name of recipient
    pub automatic_withdrawal: bool,
    /// Whether or not the sender can transfer the stream
    pub transferable_by_sender: bool,
    /// Whether or not the recipient can transfer the stream
    pub transferable_by_recipient: bool,
    /// Whether topup is enabled
    pub can_topup: bool,
    /// The name of this stream
    pub stream_name: [u8; 64],
    /// Withdraw frequency
    pub withdraw_frequency: u64,
    /// used as padding len in serialization in old streams, added for backwards compatibility
    pub padding_len: u32,
    /// Whether or not the contract can be paused
    pub pausable: bool,
    /// Whether or not the contract can update release amount
    pub can_update_rate: bool,
}


/// Size in bytes of an encoded [`StreamInstruction`].
pub const INSTRUCTION_LEN: usize = 132;

/// Offset of the instruction inside an encoded [`TokenStreamData`].
pub const IX_OFFSET: usize = 409;

/// Offset of the length-prefixed padding inside an encoded [`TokenStreamData`].
pub const IX_PADDING_OFFSET: usize = 541;

/// Size in bytes of the fields that follow the padding bytes.
pub const TAIL_LEN: usize = 33;

impl StreamInstruction {
    /// Whether the bytes from `off` on hold an encoded instruction.
    pub open spec fn encoded_at(b: Seq<u8>, off: int) -> bool {
        &&& 0 <= off
        &&& off + 132 <= b.len()
        &&& bool_ok_at(b, off + 48)
        &&& bool_ok_at(b, off + 49)
        &&& bool_ok_at(b, off + 50)
        &&& bool_ok_at(b, off + 51)
        &&& bool_ok_at(b, off + 52)
        &&& bool_ok_at(b, off + 53)
        &&& bool_ok_at(b, off + 130)
        &&& bool_ok_at(b, off + 131)
    }

    /// Whether `self` is the instruction encoded from `off` on: six `u64`s,
    /// six `bool`s, a 64-byte name, a `u64`, a `u32` and two `bool`s.
    pub open spec fn decoded_at(self, b: Seq<u8>, off: int) -> bool {
        &&& self.start_time as nat == u64_at(b, off)
        &&& self.net_amount_deposited as nat == u64_at(b, off + 8)
        &&& self.period as nat == u64_at(b, off + 16)
        &&& self.amount_per_period as nat == u64_at(b, off + 24)
        &&& self.cliff as nat == u64_at(b, off + 32)
        &&& self.cliff_amount as nat == u64_at(b, off + 40)
        &&& self.cancelable_by_sender == bool_at(b, off + 48)
        &&& self.cancelable_by_recipient == bool_at(b, off + 49)
        &&& self.automatic_withdrawal == bool_at(b, off + 50)
        &&& self.transferable_by_sender == bool_at(b, off + 51)
        &&& self.transferable_by_recipient == bool_at(b, off + 52)
        &&& self.can_topup == bool_at(b, off + 53)
        &&& self.stream_name@ == bytes_at(b, off + 54, 64)
        &&& self.withdraw_frequency as nat == u64_at(b, off + 118)
        &&& self.padding_len as nat == u32_at(b, off + 126)
        &&& self.pausable == bool_at(b, off + 130)
        &&& self.can_update_rate == bool_at(b, off + 131)
    }

    /// Decodes the instruction at `pos` field by field with borsh.
    fn read_at(data: &[u8], pos: usize) -> (r: Option<Self>)
        requires
            pos + 132 <= data.len(),
        ensures
            r is Some <==> Self::encoded_at(data@, pos as int),
            r matches Some(ix) ==> ix.decoded_at(data@, pos as int),
    {
        let start_time = read_u64(data, pos)?;
        let net_amount_deposited = read_u64(data, pos + 8)?;
        let period = read_u64(data, pos + 16)?;
        let amount_per_period = read_u64(data, pos + 24)?;
        let cliff = read_u64(data, pos + 32)?;
        let cliff_amount = read_u64(data, pos + 40)?;
        let cancelable_by_sender = read_bool(data, pos + 48)?;
        let cancelable_by_recipient = read_bool(data, pos + 49)?;
        let automatic_withdrawal = read_bool(data, pos + 50)?;
        let transferable_by_sender = read_bool(data, pos + 51)?;
        let transferable_by_recipient = read_bool(data, pos + 52)?;
        let can_topup = read_bool(data, pos + 53)?;
        let stream_name = read_bytes64(data, pos + 54)?;
        let withdraw_frequency = read_u64(data, pos + 118)?;
        let padding_len = read_u32(data, pos + 126)?;
        let pausable = read_bool(data, pos + 130)?;
        let can_update_rate = read_bool(data, pos + 131)?;
        Some(StreamInstruction {
            start_time,
            net_amount_deposited,
            period,
            amount_per_period,
            cliff,
            cliff_amount,
            cancelable_by_sender,
            cancelable_by_recipient,
            automatic_withdrawal,
            transferable_by_sender,
            transferable_by_recipient,
            can_topup,
            stream_name,
            withdraw_frequency,
            padding_len,
            pausable,
            can_update_rate,
        })
    }
}

/// TokenStreamData is the struct containing metadata for an SPL token stream.
/// Account addresses are held as their 32 bytes, and each fee percentage as
/// the IEEE-754 bits of its single-precision value.
#[derive(Clone, Debug)]
pub struct TokenStreamData {
    /// Magic bytes
    pub magic: u64,
    /// Version of the program
    pub version: u8,
    /// Timestamp when stream was created
    pub created_at: u64,
    /// Amount of funds withdrawn
    pub amount_withdrawn: u64,
    /// Timestamp when stream was canceled (if canceled)
    pub canceled_at: u64,
    /// Timestamp at which stream can be safely canceled by a 3rd party
    /// (Stream is either fully vested or there isn't enough capital to
    /// keep it active)
    pub end_time: u64,
    /// Timestamp of the last withdrawal
    pub last_withdrawn_at: u64,
    /// Pubkey of the stream initializer
    pub sender: [u8; 32],
    /// Pubkey of the stream initializer's token account
    pub sender_tokens: [u8; 32],
    /// Pubkey of the stream recipient
    pub recipient: [u8; 32],
    /// Pubkey of the stream recipient's token account
    pub recipient_tokens: [u8; 32],
    /// Pubkey of the token mint
    pub mint: [u8; 32],
    /// Escrow account holding the locked tokens for recipient
    pub escrow_tokens: [u8; 32],
    /// Streamflow treasury authority
    pub streamflow_treasury: [u8; 32],
    /// Escrow account holding the locked tokens for Streamflow (fee account)
    pub streamflow_treasury_tokens: [u8; 32],
    /// The total fee amount for streamflow
    pub streamflow_fee_total: u64,
    /// The withdrawn fee amount for streamflow
    pub streamflow_fee_withdrawn: u64,
    /// Fee percentage for Streamflow (bits of a single-precision float)
    pub streamflow_fee_percent_bits: u32,
    /// Streamflow partner authority
    pub partner: [u8; 32],
    /// Escrow account holding the locked tokens for Streamflow partner (fee account)
    pub partner_tokens: [u8; 32],
    /// The total fee amount for the partner
    pub partner_fee_total: u64,
    /// The withdrawn fee amount for the partner
    pub partner_fee_withdrawn: u64,
    /// Fee percentage for partner (bits of a single-precision float)
    pub partner_fee_percent_bits: u32,
    /// The stream instruction
    pub ix: StreamInstruction,
    /// Padding for `ix: CreateParams` to allow for future upgrades.
    pub ix_padding: Vec<u8>,
    /// Stream is closed
    pub closed: bool,
    /// time of the current pause. 0 signifies unpaused state
    pub current_pause_start: u64,
    /// total time the contract was paused for
    pub pause_cumulative: u64,
    /// timestamp of last rate change for this stream.
    /// Rate can be changed with `update` instruction
    pub last_rate_change_time: u64,
    /// Accumulated unlocked tokens before last rate change (excluding cliff_amount)
    pub funds_unlocked_at_last_rate_change: u64,
}

/// Length of the padding bytes announced by the prefix at offset 541.
pub open spec fn padding_len_of(b: Seq<u8>) -> int {
    u32_at(b, IX_PADDING_OFFSET as int) as int
}

/// Offset of the fields that follow the padding bytes.
pub open spec fn tail_offset(b: Seq<u8>) -> int {
    IX_PADDING_OFFSET + 4 + padding_len_of(b)
}

impl TokenStreamData {
    /// Whether `b` begins with an encoded stream: the fixed head, the
    /// instruction, the length-prefixed padding and the fixed tail, with
    /// valid flag bytes and no NaN fee percentage; bytes past it are not read.
    pub open spec fn encoded(b: Seq<u8>) -> bool {
        &&& IX_PADDING_OFFSET + 4 <= b.len()
        &&& tail_offset(b) + TAIL_LEN <= b.len()
        &&& !is_nan_bits(u32_at(b, 321) as u32)
        &&& !is_nan_bits(u32_at(b, 405) as u32)
        &&& StreamInstruction::encoded_at(b, IX_OFFSET as int)
        &&& bool_ok_at(b, tail_offset(b))
    }

    /// Whether `self` is the stream encoded at the start of `b`.
    pub open spec fn decoded_from(self, b: Seq<u8>) -> bool {
        let t = tail_offset(b);
        &&& self.magic as nat == u64_at(b, 0)
        &&& self.version == b[8]
        &&& self.created_at as nat == u64_at(b, 9)
        &&& self.amount_withdrawn as nat == u64_at(b, 17)
        &&& self.canceled_at as nat == u64_at(b, 25)
        &&& self.end_time as nat == u64_at(b, 33)
        &&& self.last_withdrawn_at as nat == u64_at(b, 41)
        &&& self.sender@ == bytes_at(b, 49, 32)
        &&& self.sender_tokens@ == bytes_at(b, 81, 32)
        &&& self.recipient@ == bytes_at(b, 113, 32)
        &&& self.recipient_tokens@ == bytes_at(b, 145, 32)
        &&& self.mint@ == bytes_at(b, 177, 32)
        &&& self.escrow_tokens@ == bytes_at(b, 209, 32)
        &&& self.streamflow_treasury@ == bytes_at(b, 241, 32)
        &&& self.streamflow_treasury_tokens@ == bytes_at(b, 273, 32)
        &&& self.streamflow_fee_total as nat == u64_at(b, 305)
        &&& self.streamflow_fee_withdrawn as nat == u64_at(b, 313)
        &&& self.streamflow_fee_percent_bits as nat == u32_at(b, 321)
        &&& self.partner@ == bytes_at(b, 325, 32)
        &&& self.partner_tokens@ == bytes_at(b, 357, 32)
        &&& self.partner_fee_total as nat == u64_at(b, 389)
        &&& self.partner_fee_withdrawn as nat == u64_at(b, 397)
        &&& self.partner_fee_percent_bits as nat == u32_at(b, 405)
        &&& self.ix.decoded_at(b, IX_OFFSET as int)
        &&& self.ix_padding@ == bytes_at(b, IX_PADDING_OFFSET + 4, padding_len_of(b))
        &&& self.closed == bool_at(b, t)
        &&& self.current_pause_start as nat == u64_at(b, t + 1)
        &&& self.pause_cumulative as nat == u64_at(b, t + 9)
        &&& self.last_rate_change_time as nat == u64_at(b, t + 17)
        &&& self.funds_unlocked_at_last_rate_change as nat == u64_at(b, t + 25)
    }

    /// Decodes the stream at the start of an account's data as borsh does,
    /// leaving any bytes after it unread. `None` when the data is too short,
    /// a flag byte is neither 0 nor 1, or a fee percentage is a NaN.
    pub fn try_from_slice_unchecked(data: &[u8]) -> (r: Option<Self>)
        ensures
            r is Some <==> Self::encoded(data@),
            r matches Some(d) ==> d.decoded_from(data@),
    {
        if data.len() < IX_PADDING_OFFSET + 4 {
            return None;
        }
        let magic = read_u64(data, 0)?;
        let version = read_u8(data, 8)?;
        let created_at = read_u64(data, 9)?;
        let amount_withdrawn = read_u64(data, 17)?;
        let canceled_at = read_u64(data, 25)?;
        let end_time = read_u64(data, 33)?;
        let last_withdrawn_at = read_u64(data, 41)?;
        let sender = read_key(data, 49)?;
        let sender_tokens = read_key(data, 81)?;
        let recipient = read_key(data, 113)?;
        let recipient_tokens = read_key(data, 145)?;
        let mint = read_key(data, 177)?;
        let escrow_tokens = read_key(data, 209)?;
        let streamflow_treasury = read_key(data, 241)?;
        let streamflow_treasury_tokens = read_key(data, 273)?;
        let streamflow_fee_total = read_u64(data, 305)?;
        let streamflow_fee_withdrawn = read_u64(data, 313)?;
        let streamflow_fee_percent_bits = read_u32(data, 321)?;
        if nan_bits(streamflow_fee_percent_bits) {
            return None;
        }
        let partner = read_key(data, 325)?;
        let partner_tokens = read_key(data, 357)?;
        let partner_fee_total = read_u64(data, 389)?;
        let partner_fee_withdrawn = read_u64(data, 397)?;
        let partner_fee_percent_bits = read_u32(data, 405)?;
        if nan_bits(partner_fee_percent_bits) {
            return None;
        }
        let ix = StreamInstruction::read_at(data, IX_OFFSET)?;
        let ix_padding = read_byte_vec(data, IX_PADDING_OFFSET)?;
        let t = IX_PADDING_OFFSET + 4 + ix_padding.len();
        if data.len() - t < TAIL_LEN {
            return None;
        }
        let closed = read_bool(data, t)?;
        let current_pause_start = read_u64(data, t + 1)?;
        let pause_cumulative = read_u64(data, t + 9)?;
        let last_rate_change_time = read_u64(data, t + 17)?;
        let funds_unlocked_at_last_rate_change = read_u64(data, t + 25)?;
        Some(TokenStreamData {
            magic,
            version,
            created_at,
            amount_withdrawn,
            canceled_at,
            end_time,
            last_withdrawn_at,
            sender,
            sender_tokens,
            recipient,
            recipient_tokens,
            mint,
            escrow_tokens,
            streamflow_treasury,
            streamflow_treasury_tokens,
            streamflow_fee_total,
            streamflow_fee_withdrawn,
            streamflow_fee_percent_bits,
            partner,
            partner_tokens,
            partner_fee_total,
            partner_fee_withdrawn,
            partner_fee_percent_bits,
            ix,
            ix_padding,
            closed,
            current_pause_start,
            pause_cumulative,
            last_rate_change_time,
            funds_unlocked_at_last_rate_change,
        })
    }
}


/// The borsh encoding of an instruction: its fields in order, integers
/// little-endian, flags as one byte each, the name as its 64 bytes.
#[verifier::opaque]
pub open spec fn encode_instruction(ix: StreamInstruction) -> Seq<u8> {
    le_bytes(ix.start_time as nat, 8) + le_bytes(ix.net_amount_deposited as nat, 8) + le_bytes(
        ix.period as nat,
        8,
    ) + le_bytes(ix.amount_per_period as nat, 8) + le_bytes(ix.cliff as nat, 8) + le_bytes(
        ix.cliff_amount as nat,
        8,
    ) + seq![
        bool_byte(ix.cancelable_by_sender),
        bool_byte(ix.cancelable_by_recipient),
        bool_byte(ix.automatic_withdrawal),
        bool_byte(ix.transferable_by_sender),
        bool_byte(ix.transferable_by_recipient),
        bool_byte(ix.can_topup),
    ] + ix.stream_name@ + le_bytes(ix.withdraw_frequency as nat, 8) + le_bytes(
        ix.padding_len as nat,
        4,
    ) + seq![bool_byte(ix.pausable), bool_byte(ix.can_update_rate)]
}

/// An encoded instruction, wherever it stands, decodes to itself.
pub proof fn lemma_instruction_roundtrip(pre: Seq<u8>, ix: StreamInstruction, post: Seq<u8>)
    ensures
        encode_instruction(ix).len() == INSTRUCTION_LEN,
        StreamInstruction::encoded_at(pre + encode_instruction(ix) + post, pre.len() as int),
        ix.decoded_at(pre + encode_instruction(ix) + post, pre.len() as int),
{
    lemma_u64_roundtrip(ix.start_time);
    lemma_u64_roundtrip(ix.net_amount_deposited);
    lemma_u64_roundtrip(ix.period);
    lemma_u64_roundtrip(ix.amount_per_period);
    lemma_u64_roundtrip(ix.cliff);
    lemma_u64_roundtrip(ix.cliff_amount);
    lemma_u64_roundtrip(ix.withdraw_frequency);
    lemma_u32_roundtrip(ix.padding_len);
    reveal(encode_instruction);
    let e = encode_instruction(ix);
    let b = pre + e + post;
    let o = pre.len() as int;
    assert(e.len() == 132);
    assert(bytes_at(b, o, 8) =~= le_bytes(ix.start_time as nat, 8));
    assert(bytes_at(b, o + 8, 8) =~= le_bytes(ix.net_amount_deposited as nat, 8));
    assert(bytes_at(b, o + 16, 8) =~= le_bytes(ix.period as nat, 8));
    assert(bytes_at(b, o + 24, 8) =~= le_bytes(ix.amount_per_period as nat, 8));
    assert(bytes_at(b, o + 32, 8) =~= le_bytes(ix.cliff as nat, 8));
    assert(bytes_at(b, o + 40, 8) =~= le_bytes(ix.cliff_amount as nat, 8));
    assert(b[o + 48] == bool_byte(ix.cancelable_by_sender));
    assert(b[o + 49] == bool_byte(ix.cancelable_by_recipient));
    assert(b[o + 50] == bool_byte(ix.automatic_withdrawal));
    assert(b[o + 51] == bool_byte(ix.transferable_by_sender));
    assert(b[o + 52] == bool_byte(ix.transferable_by_recipient));
    assert(b[o + 53] == bool_byte(ix.can_topup));
    assert(bytes_at(b, o + 54, 64) =~= ix.stream_name@);
    assert(bytes_at(b, o + 118, 8) =~= le_bytes(ix.withdraw_frequency as nat, 8));
    assert(bytes_at(b, o + 126, 4) =~= le_bytes(ix.padding_len as nat, 4));
    assert(b[o + 130] == bool_byte(ix.pausable));
    assert(b[o + 131] == bool_byte(ix.can_update_rate));
}

/// The part of an encoded stream before its instruction.
#[verifier::opaque]
pub open spec fn encode_head(d: TokenStreamData) -> Seq<u8> {
    le_bytes(d.magic as nat, 8) + seq![d.version] + le_bytes(d.created_at as nat, 8) + le_bytes(
        d.amount_withdrawn as nat,
        8,
    ) + le_bytes(d.canceled_at as nat, 8) + le_bytes(d.end_time as nat, 8) + le_bytes(
        d.last_withdrawn_at as nat,
        8,
    ) + d.sender@ + d.sender_tokens@ + d.recipient@ + d.recipient_tokens@ + d.mint@
        + d.escrow_tokens@ + d.streamflow_treasury@ + d.streamflow_treasury_tokens@ + le_bytes(
        d.streamflow_fee_total as nat,
        8,
    ) + le_bytes(d.streamflow_fee_withdrawn as nat, 8) + le_bytes(
        d.streamflow_fee_percent_bits as nat,
        4,
    ) + d.partner@ + d.partner_tokens@ + le_bytes(d.partner_fee_total as nat, 8) + le_bytes(
        d.partner_fee_withdrawn as nat,
        8,
    ) + le_bytes(d.partner_fee_percent_bits as nat, 4)
}

/// The part of an encoded stream after its instruction: the length-prefixed
/// padding and the fixed tail.
#[verifier::opaque]
pub open spec fn encode_tail(d: TokenStreamData) -> Seq<u8> {
    le_bytes(d.ix_padding@.len(), 4) + d.ix_padding@ + seq![bool_byte(d.closed)] + le_bytes(
        d.current_pause_start as nat,
        8,
    ) + le_bytes(d.pause_cumulative as nat, 8) + le_bytes(d.last_rate_change_time as nat, 8)
        + le_bytes(d.funds_unlocked_at_last_rate_change as nat, 8)
}

/// The borsh encoding of a stream: its fields in order.
pub open spec fn encode_stream(d: TokenStreamData) -> Seq<u8> {
    encode_head(d) + encode_instruction(d.ix) + encode_tail(d)
}

/// The head of an encoded stream, whatever follows it, decodes to the
/// stream's head fields.
pub proof fn lemma_head_roundtrip(d: TokenStreamData, post: Seq<u8>)
    ensures
        encode_head(d).len() == IX_OFFSET,
        ({
            let b = encode_head(d) + post;
            &&& u64_at(b, 0) == d.magic
            &&& b[8] == d.version
            &&& u64_at(b, 9) == d.created_at
            &&& u64_at(b, 17) == d.amount_withdrawn
            &&& u64_at(b, 25) == d.canceled_at
            &&& u64_at(b, 33) == d.end_time
            &&& u64_at(b, 41) == d.last_withdrawn_at
            &&& bytes_at(b, 49, 32) == d.sender@
            &&& bytes_at(b, 81, 32) == d.sender_tokens@
            &&& bytes_at(b, 113, 32) == d.recipient@
            &&& bytes_at(b, 145, 32) == d.recipient_tokens@
            &&& bytes_at(b, 177, 32) == d.mint@
            &&& bytes_at(b, 209, 32) == d.escrow_tokens@
            &&& bytes_at(b, 241, 32) == d.streamflow_treasury@
            &&& bytes_at(b, 273, 32) == d.streamflow_treasury_tokens@
            &&& u64_at(b, 305) == d.streamflow_fee_total
            &&& u64_at(b, 313) == d.streamflow_fee_withdrawn
            &&& u32_at(b, 321) == d.streamflow_fee_percent_bits
            &&& bytes_at(b, 325, 32) == d.partner@
            &&& bytes_at(b, 357, 32) == d.partner_tokens@
            &&& u64_at(b, 389) == d.partner_fee_total
            &&& u64_at(b, 397) == d.partner_fee_withdrawn
            &&& u32_at(b, 405) == d.partner_fee_percent_bits
        }),
{
    lemma_u64_roundtrip(d.magic);
    lemma_u64_roundtrip(d.created_at);
    lemma_u64_roundtrip(d.amount_withdrawn);
    lemma_u64_roundtrip(d.canceled_at);
    lemma_u64_roundtrip(d.end_time);
    lemma_u64_roundtrip(d.last_withdrawn_at);
    lemma_u64_roundtrip(d.streamflow_fee_total);
    lemma_u64_roundtrip(d.streamflow_fee_withdrawn);
    lemma_u32_roundtrip(d.streamflow_fee_percent_bits);
    lemma_u64_roundtrip(d.partner_fee_total);
    lemma_u64_roundtrip(d.partner_fee_withdrawn);
    lemma_u32_roundtrip(d.partner_fee_percent_bits);
    reveal(encode_head);
    let b = encode_head(d) + post;
    assert(bytes_at(b, 0, 8) =~= le_bytes(d.magic as nat, 8));
    assert(bytes_at(b, 9, 8) =~= le_bytes(d.created_at as nat, 8));
    assert(bytes_at(b, 17, 8) =~= le_bytes(d.amount_withdrawn as nat, 8));
    assert(bytes_at(b, 25, 8) =~= le_bytes(d.canceled_at as nat, 8));
    assert(bytes_at(b, 33, 8) =~= le_bytes(d.end_time as nat, 8));
    assert(bytes_at(b, 41, 8) =~= le_bytes(d.last_withdrawn_at as nat, 8));
    assert(bytes_at(b, 49, 32) =~= d.sender@);
    assert(bytes_at(b, 81, 32) =~= d.sender_tokens@);
    assert(bytes_at(b, 113, 32) =~= d.recipient@);
    assert(bytes_at(b, 145, 32) =~= d.recipient_tokens@);
    assert(bytes_at(b, 177, 32) =~= d.mint@);
    assert(bytes_at(b, 209, 32) =~= d.escrow_tokens@);
    assert(bytes_at(b, 241, 32) =~= d.streamflow_treasury@);
    assert(bytes_at(b, 273, 32) =~= d.streamflow_treasury_tokens@);
    assert(bytes_at(b, 305, 8) =~= le_bytes(d.streamflow_fee_total as nat, 8));
    assert(bytes_at(b, 313, 8) =~= le_bytes(d.streamflow_fee_withdrawn as nat, 8));
    assert(bytes_at(b, 321, 4) =~= le_bytes(d.streamflow_fee_percent_bits as nat, 4));
    assert(bytes_at(b, 325, 32) =~= d.partner@);
    assert(bytes_at(b, 357, 32) =~= d.partner_tokens@);
    assert(bytes_at(b, 389, 8) =~= le_bytes(d.partner_fee_total as nat, 8));
    assert(bytes_at(b, 397, 8) =~= le_bytes(d.partner_fee_withdrawn as nat, 8));
    assert(bytes_at(b, 405, 4) =~= le_bytes(d.partner_fee_percent_bits as nat, 4));
}

/// The tail of an encoded stream, placed after its head and instruction,
/// decodes to the stream's padding and tail fields.
pub proof fn lemma_tail_roundtrip(pre: Seq<u8>, d: TokenStreamData, extra: Seq<u8>)
    requires
        pre.len() == IX_PADDING_OFFSET,
        d.ix_padding@.len() <= u32::MAX,
    ensures
        ({
            let b = pre + encode_tail(d) + extra;
            let t = tail_offset(b);
            &&& padding_len_of(b) == d.ix_padding@.len()
            &&& t + TAIL_LEN <= b.len()
            &&& bytes_at(b, IX_PADDING_OFFSET + 4, padding_len_of(b)) == d.ix_padding@
            &&& b[t] == bool_byte(d.closed)
            &&& u64_at(b, t + 1) == d.current_pause_start
            &&& u64_at(b, t + 9) == d.pause_cumulative
            &&& u64_at(b, t + 17) == d.last_rate_change_time
            &&& u64_at(b, t + 25) == d.funds_unlocked_at_last_rate_change
        }),
{
    let n = d.ix_padding@.len();
    lemma_u32_roundtrip(n as u32);
    lemma_u64_roundtrip(d.current_pause_start);
    lemma_u64_roundtrip(d.pause_cumulative);
    lemma_u64_roundtrip(d.last_rate_change_time);
    lemma_u64_roundtrip(d.funds_unlocked_at_last_rate_change);
    reveal(encode_tail);
    let b = pre + encode_tail(d) + extra;
    assert(bytes_at(b, 541, 4) =~= le_bytes(n, 4));
    assert(padding_len_of(b) == n);
    let t: int = 545 + n as int;
    assert(bytes_at(b, 545, n as int) =~= d.ix_padding@);
    assert(b[t] == bool_byte(d.closed));
    assert(bytes_at(b, t + 1, 8) =~= le_bytes(d.current_pause_start as nat, 8));
    assert(bytes_at(b, t + 9, 8) =~= le_bytes(d.pause_cumulative as nat, 8));
    assert(bytes_at(b, t + 17, 8) =~= le_bytes(d.last_rate_change_time as nat, 8));
    assert(bytes_at(b, t + 25, 8) =~= le_bytes(d.funds_unlocked_at_last_rate_change as nat, 8));
}

/// A stream encoded by borsh decodes to itself, whatever bytes follow it,
/// provided its fee percentages are not NaN (borsh refuses to read those)
/// and its padding length fits the `u32` prefix.
pub proof fn lemma_stream_roundtrip(d: TokenStreamData, extra: Seq<u8>)
    requires
        !is_nan_bits(d.streamflow_fee_percent_bits),
        !is_nan_bits(d.partner_fee_percent_bits),
        d.ix_padding@.len() <= u32::MAX,
    ensures
        TokenStreamData::encoded(encode_stream(d) + extra),
        d.decoded_from(encode_stream(d) + extra),
{
    let head = encode_head(d);
    let ix = encode_instruction(d.ix);
    let tail = encode_tail(d);
    let b = encode_stream(d) + extra;
    lemma_head_roundtrip(d, ix + tail + extra);
    assert(b =~= head + (ix + tail + extra));
    lemma_instruction_roundtrip(head, d.ix, tail + extra);
    assert(b =~= head + ix + (tail + extra));
    lemma_tail_roundtrip(head + ix, d, extra);
    assert(b =~= (head + ix) + tail + extra);
}

/// Trailing bytes after an encoded stream change nothing about what is
/// decoded: the same stream is read from the longer data.
pub proof fn lemma_trailing_bytes_ignored(b: Seq<u8>, extra: Seq<u8>, d: TokenStreamData)
    requires
        TokenStreamData::encoded(b),
        d.decoded_from(b),
    ensures
        TokenStreamData::encoded(b + extra),
        d.decoded_from(b + extra),
{
    let c = b + extra;
    assert forall|off: int, n: int| 0 <= off && 0 <= n && off + n <= b.len() implies #[trigger] bytes_at(
        c,
        off,
        n,
    ) == bytes_at(b, off, n) by {
        assert(bytes_at(c, off, n) =~= bytes_at(b, off, n));
    }
    assert forall|off: int| 0 <= off < b.len() implies #[trigger] c[off] == b[off] by {}
    assert(tail_offset(c) == tail_offset(b));
}

/// The struct containing instructions for initializing a stream, without the
/// stream name and the padding length
#[derive(Clone, Copy, Debug, PartialEq, Eq)]
pub struct ReadableStreamInstruction {
    /// Timestamp when the tokens start vesting
    pub start_time: u64,
    /// Deposited amount of tokens
    pub net_amount_deposited: u64,
    /// Time step (period) in seconds per which the vesting/release occurs
    pub period: u64,
    /// Amount released per period. Combined with `period`, we get a release rate.
    pub amount_per_period: u64,
    /// Vesting contract "cliff" timestamp
    pub cliff: u64,
    /// Amount unlocked at the "cliff" timestamp
    pub cliff_amount: u64,
    /// Whether or not a stream can be canceled by a sender
    pub cancelable_by_sender: bool,
    /// Whether or not a stream can be canceled by a recipient
    pub cancelable_by_recipient: bool,
    /// Whether or not a 3rd party can initiate withdraw in the name of recipient
    pub automatic_withdrawal: bool,
    /// Whether or not the sender can transfer the stream
    pub transferable_by_sender: bool,
    /// Whether or not the recipient can transfer the stream
    pub transferable_by_recipient: bool,
    /// Whether topup is enabled
    pub can_topup: bool,
    /// Withdraw frequency
    pub withdraw_frequency: u64,
    /// Whether or not the contract can be paused
    pub pausable: bool,
    /// Whether or not the contract can update release amount
    pub can_update_rate: bool,
}

/// Whether `r` carries every field of `ix` but its name and padding length.
pub open spec fn readable_instruction_of(ix: StreamInstruction, r: ReadableStreamInstruction) -> bool {
    &&& r.start_time == ix.start_time
    &&& r.net_amount_deposited == ix.net_amount_deposited
    &&& r.period == ix.period
    &&& r.amount_per_period == ix.amount_per_period
    &&& r.cliff == ix.cliff
    &&& r.cliff_amount == ix.cliff_amount
    &&& r.cancelable_by_sender == ix.cancelable_by_sender
    &&& r.cancelable_by_recipient == ix.cancelable_by_recipient
    &&& r.automatic_withdrawal == ix.automatic_withdrawal
    &&& r.transferable_by_sender == ix.transferable_by_sender
    &&& r.transferable_by_recipient == ix.transferable_by_recipient
    &&& r.can_topup == ix.can_topup
    &&& r.withdraw_frequency == ix.withdraw_frequency
    &&& r.pausable == ix.pausable
    &&& r.can_update_rate == ix.can_update_rate
}

impl ReadableStreamInstruction {
    /// The instruction without its name and padding length.
    pub fn new(data: StreamInstruction) -> (r: ReadableStreamInstruction)
        ensures
            readable_instruction_of(data, r),
            r.start_time == data.start_time,
            r.net_amount_deposited == data.net_amount_deposited,
            r.period == data.period,
            r.amount_per_period == data.amount_per_period,
            r.cliff == data.cliff,
            r.cliff_amount == data.cliff_amount,
            r.cancelable_by_sender == data.cancelable_by_sender,
            r.cancelable_by_recipient == data.cancelable_by_recipient,
            r.automatic_withdrawal == data.automatic_withdrawal,
            r.transferable_by_sender == data.transferable_by_sender,
            r.transferable_by_recipient == data.transferable_by_recipient,
            r.can_topup == data.can_topup,
            r.withdraw_frequency == data.withdraw_frequency,
            r.pausable == data.pausable,
            r.can_update_rate == data.can_update_rate,
    {
        ReadableStreamInstruction {
            start_time: data.start_time,
            net_amount_deposited: data.net_amount_deposited,
            period: data.period,
            amount_per_period: data.amount_per_period,
            cliff: data.cliff,
            cliff_amount: data.cliff_amount,
            cancelable_by_sender: data.cancelable_by_sender,
            cancelable_by_recipient: data.cancelable_by_recipient,
            automatic_withdrawal: data.automatic_withdrawal,
            transferable_by_sender: data.transferable_by_sender,
            transferable_by_recipient: data.transferable_by_recipient,
            can_topup: data.can_topup,
            withdraw_frequency: data.withdraw_frequency,
            pausable: data.pausable,
            can_update_rate: data.can_update_rate,
        }
    }
}

/// TokenStreamData is the struct containing metadata in human readable format
#[derive(Clone, Debug)]
pub struct ReadableStreamData {
    /// Magic bytes
    pub magic: u64,
    /// Version of the program
    pub version: u8,
    /// Timestamp when stream was created
    pub created_at: u64,
    /// Amount of funds withdrawn
    pub amount_withdrawn: u64,
    /// Timestamp when stream was canceled (if canceled)
    pub canceled_at: u64,
    /// Timestamp at which stream can be safely canceled by a 3rd party
    /// (Stream is either fully vested or there isn't enough capital to
    /// keep it active)
    pub end_time: u64,
    /// Timestamp of the last withdrawal
    pub last_withdrawn_at: u64,
    /// Pubkey of the stream initializer
    pub sender: String,
    /// Pubkey of the stream initializer's token account
    pub sender_tokens: String,
    /// Pubkey of the stream recipient
    pub recipient: String,
    /// Pubkey of the stream recipient's token account
    pub recipient_tokens: String,
    /// Pubkey of the token mint
    pub mint: String,
    /// Escrow account holding the locked tokens for recipient
    pub escrow_tokens: String,
    /// Streamflow treasury authority
    pub streamflow_treasury: String,
    /// Escrow account holding the locked tokens for Streamflow (fee account)
    pub streamflow_treasury_tokens: String,
    /// The total fee amount for streamflow
    pub streamflow_fee_total: u64,
    /// The withdrawn fee amount for streamflow
    pub streamflow_fee_withdrawn: u64,
    /// Fee percentage for Streamflow (bits of a single-precision float)
    pub streamflow_fee_percent_bits: u32,
    /// Streamflow partner authority
    pub partner: String,
    /// Escrow account holding the locked tokens for Streamflow partner (fee account)
    pub partner_tokens: String,
    /// The total fee amount for the partner
    pub partner_fee_total: u64,
    /// The withdrawn fee amount for the partner
    pub partner_fee_withdrawn: u64,
    /// Fee percentage for partner (bits of a single-precision float)
    pub partner_fee_percent_bits: u32,
    /// The stream instruction
    pub ix: ReadableStreamInstruction,
    /// Stream is closed
    pub closed: bool,
    /// 1 when the sender account is owned by the Squads multisig program
    pub multisig: u64,
}

/// Every address text of a readable stream parses back to the address it
/// was written from.
pub proof fn lemma_readable_keys_parse_back(
    d: TokenStreamData,
    r: ReadableStreamData,
    key: [u8; 32],
    text: String,
    parsed: Option<[u8; 32]>,
)
    requires
        readable_of(d, r),
        (key == d.sender && text == r.sender) || (key == d.sender_tokens && text
            == r.sender_tokens) || (key == d.recipient && text == r.recipient) || (key
            == d.recipient_tokens && text == r.recipient_tokens) || (key == d.mint && text
            == r.mint) || (key == d.escrow_tokens && text == r.escrow_tokens) || (key
            == d.streamflow_treasury && text == r.streamflow_treasury) || (key
            == d.streamflow_treasury_tokens && text == r.streamflow_treasury_tokens) || (key
            == d.partner && text == r.partner) || (key == d.partner_tokens && text
            == r.partner_tokens),
        parses_to(text@, parsed),
    ensures
        parsed matches Some(p) && p@ == key@,
{
    lemma_text_parses_back(key, parsed);
}

/// The readable instruction carries each field of the instruction under the
/// same name.
pub proof fn lemma_readable_instruction_fields(ix: StreamInstruction, r: ReadableStreamInstruction)
    requires
        readable_instruction_of(ix, r),
    ensures
        r.start_time == ix.start_time,
        r.net_amount_deposited == ix.net_amount_deposited,
        r.period == ix.period,
        r.amount_per_period == ix.amount_per_period,
        r.cliff == ix.cliff,
        r.cliff_amount == ix.cliff_amount,
        r.cancelable_by_sender == ix.cancelable_by_sender,
        r.cancelable_by_recipient == ix.cancelable_by_recipient,
        r.automatic_withdrawal == ix.automatic_withdrawal,
        r.transferable_by_sender == ix.transferable_by_sender,
        r.transferable_by_recipient == ix.transferable_by_recipient,
        r.can_topup == ix.can_topup,
        r.withdraw_frequency == ix.withdraw_frequency,
        r.pausable == ix.pausable,
        r.can_update_rate == ix.can_update_rate,
{
}

/// The readable form of a decoded stream reads, field by field, what the
/// account bytes hold: every number and flag at its offset, every address
/// as the base58 text of its 32 bytes.
pub proof fn lemma_readable_from_bytes(b: Seq<u8>, d: TokenStreamData, r: ReadableStreamData)
    requires
        d.decoded_from(b),
        readable_of(d, r),
    ensures
        r.magic as nat == u64_at(b, 0),
        r.version == b[8],
        r.created_at as nat == u64_at(b, 9),
        r.amount_withdrawn as nat == u64_at(b, 17),
        r.canceled_at as nat == u64_at(b, 25),
        r.end_time as nat == u64_at(b, 33),
        r.last_withdrawn_at as nat == u64_at(b, 41),
        r.sender@ == base58_text(bytes_at(b, 49, 32)),
        r.sender_tokens@ == base58_text(bytes_at(b, 81, 32)),
        r.recipient@ == base58_text(bytes_at(b, 113, 32)),
        r.recipient_tokens@ == base58_text(bytes_at(b, 145, 32)),
        r.mint@ == base58_text(bytes_at(b, 177, 32)),
        r.escrow_tokens@ == base58_text(bytes_at(b, 209, 32)),
        r.streamflow_treasury@ == base58_text(bytes_at(b, 241, 32)),
        r.streamflow_treasury_tokens@ == base58_text(bytes_at(b, 273, 32)),
        r.streamflow_fee_total as nat == u64_at(b, 305),
        r.streamflow_fee_withdrawn as nat == u64_at(b, 313),
        r.streamflow_fee_percent_bits as nat == u32_at(b, 321),
        r.partner@ == base58_text(bytes_at(b, 325, 32)),
        r.partner_tokens@ == base58_text(bytes_at(b, 357, 32)),
        r.partner_fee_total as nat == u64_at(b, 389),
        r.partner_fee_withdrawn as nat == u64_at(b, 397),
        r.partner_fee_percent_bits as nat == u32_at(b, 405),
        r.ix.start_time as nat == u64_at(b, 409),
        r.ix.net_amount_deposited as nat == u64_at(b, 417),
        r.ix.period as nat == u64_at(b, 425),
        r.ix.amount_per_period as nat == u64_at(b, 433),
        r.ix.cliff as nat == u64_at(b, 441),
        r.ix.cliff_amount as nat == u64_at(b, 449),
        r.ix.cancelable_by_sender == bool_at(b, 457),
        r.ix.cancelable_by_recipient == bool_at(b, 458),
        r.ix.automatic_withdrawal == bool_at(b, 459),
        r.ix.transferable_by_sender == bool_at(b, 460),
        r.ix.transferable_by_recipient == bool_at(b, 461),
        r.ix.can_topup == bool_at(b, 462),
        r.ix.withdraw_frequency as nat == u64_at(b, 527),
        r.ix.pausable == bool_at(b, 539),
        r.ix.can_update_rate == bool_at(b, 540),
        r.closed == bool_at(b, tail_offset(b)),
{
    lemma_readable_instruction_fields(d.ix, r.ix);
}

/// Text of the address of the Squads multisig program.
pub open spec fn squads_address() -> Seq<char> {
    "SMPLecH534NA9acpos4G6x7uf3LWbCAwZQE9e8ZekMu"@
}

/// Whether `r` is the readable form of `d`, apart from its multisig label.
pub open spec fn readable_of(d: TokenStreamData, r: ReadableStreamData) -> bool {
    &&& r.magic == d.magic
    &&& r.version == d.version
    &&& r.created_at == d.created_at
    &&& r.amount_withdrawn == d.amount_withdrawn
    &&& r.canceled_at == d.canceled_at
    &&& r.end_time == d.end_time
    &&& r.last_withdrawn_at == d.last_withdrawn_at
    &&& r.sender@ == base58_text(d.sender@)
    &&& r.sender_tokens@ == base58_text(d.sender_tokens@)
    &&& r.recipient@ == base58_text(d.recipient@)
    &&& r.recipient_tokens@ == base58_text(d.recipient_tokens@)
    &&& r.mint@ == base58_text(d.mint@)
    &&& r.escrow_tokens@ == base58_text(d.escrow_tokens@)
    &&& r.streamflow_treasury@ == base58_text(d.streamflow_treasury@)
    &&& r.streamflow_treasury_tokens@ == base58_text(d.streamflow_treasury_tokens@)
    &&& r.streamflow_fee_total == d.streamflow_fee_total
    &&& r.streamflow_fee_withdrawn == d.streamflow_fee_withdrawn
    &&& r.streamflow_fee_percent_bits == d.streamflow_fee_percent_bits
    &&& r.partner@ == base58_text(d.partner@)
    &&& r.partner_tokens@ == base58_text(d.partner_tokens@)
    &&& r.partner_fee_total == d.partner_fee_total
    &&& r.partner_fee_withdrawn == d.partner_fee_withdrawn
    &&& r.partner_fee_percent_bits == d.partner_fee_percent_bits
    &&& readable_instruction_of(d.ix, r.ix)
    &&& r.closed == d.closed
}

/// Whether the sender account of a stream, owned by `owner` (`None` when it
/// could not be fetched), belongs to the Squads multisig program: whether
/// the owner's address text is the Squads program's.
pub open spec fn owned_by_squads(owner: Option<[u8; 32]>) -> bool {
    match owner {
        Some(o) => base58_text(o@) == squads_address(),
        None => false,
    }
}

/// Whether `a` and `b` agree on every field but the multisig label.
pub open spec fn same_but_label(a: ReadableStreamData, b: ReadableStreamData) -> bool {
    &&& a.magic == b.magic
    &&& a.version == b.version
    &&& a.created_at == b.created_at
    &&& a.amount_withdrawn == b.amount_withdrawn
    &&& a.canceled_at == b.canceled_at
    &&& a.end_time == b.end_time
    &&& a.last_withdrawn_at == b.last_withdrawn_at
    &&& a.sender@ == b.sender@
    &&& a.sender_tokens@ == b.sender_tokens@
    &&& a.recipient@ == b.recipient@
    &&& a.recipient_tokens@ == b.recipient_tokens@
    &&& a.mint@ == b.mint@
    &&& a.escrow_tokens@ == b.escrow_tokens@
    &&& a.streamflow_treasury@ == b.streamflow_treasury@
    &&& a.streamflow_treasury_tokens@ == b.streamflow_treasury_tokens@
    &&& a.streamflow_fee_total == b.streamflow_fee_total
    &&& a.streamflow_fee_withdrawn == b.streamflow_fee_withdrawn
    &&& a.streamflow_fee_percent_bits == b.streamflow_fee_percent_bits
    &&& a.partner@ == b.partner@
    &&& a.partner_tokens@ == b.partner_tokens@
    &&& a.partner_fee_total == b.partner_fee_total
    &&& a.partner_fee_withdrawn == b.partner_fee_withdrawn
    &&& a.partner_fee_percent_bits == b.partner_fee_percent_bits
    &&& a.ix == b.ix
    &&& a.closed == b.closed
}

impl ReadableStreamData {
    /// The same stream with every account address written as base58 text, the
    /// instruction in its readable form, and no multisig label.
    pub fn new(data: TokenStreamData) -> (r: ReadableStreamData)
        ensures
            readable_of(data, r),
            r.multisig == 0,
            r.magic == data.magic,
            r.version == data.version,
            r.created_at == data.created_at,
            r.amount_withdrawn == data.amount_withdrawn,
            r.canceled_at == data.canceled_at,
            r.end_time == data.end_time,
            r.last_withdrawn_at == data.last_withdrawn_at,
            r.sender@ == base58_text(data.sender@),
            r.sender_tokens@ == base58_text(data.sender_tokens@),
            r.recipient@ == base58_text(data.recipient@),
            r.recipient_tokens@ == base58_text(data.recipient_tokens@),
            r.mint@ == base58_text(data.mint@),
            r.escrow_tokens@ == base58_text(data.escrow_tokens@),
            r.streamflow_treasury@ == base58_text(data.streamflow_treasury@),
            r.streamflow_treasury_tokens@ == base58_text(data.streamflow_treasury_tokens@),
            r.streamflow_fee_total == data.streamflow_fee_total,
            r.streamflow_fee_withdrawn == data.streamflow_fee_withdrawn,
            r.streamflow_fee_percent_bits == data.streamflow_fee_percent_bits,
            r.partner@ == base58_text(data.partner@),
            r.partner_tokens@ == base58_text(data.partner_tokens@),
            r.partner_fee_total == data.partner_fee_total,
            r.partner_fee_withdrawn == data.partner_fee_withdrawn,
            r.partner_fee_percent_bits == data.partner_fee_percent_bits,
            r.ix.start_time == data.ix.start_time,
            r.ix.net_amount_deposited == data.ix.net_amount_deposited,
            r.ix.cancelable_by_sender == data.ix.cancelable_by_sender,
            r.ix.period == data.ix.period,
            r.ix.amount_per_period == data.ix.amount_per_period,
            r.ix.cliff == data.ix.cliff,
            r.ix.cliff_amount == data.ix.cliff_amount,
            r.ix.cancelable_by_recipient == data.ix.cancelable_by_recipient,
            r.ix.automatic_withdrawal == data.ix.automatic_withdrawal,
            r.ix.transferable_by_sender == data.ix.transferable_by_sender,
            r.ix.transferable_by_recipient == data.ix.transferable_by_recipient,
            r.ix.can_topup == data.ix.can_topup,
            r.ix.withdraw_frequency == data.ix.withdraw_frequency,
            r.ix.pausable == data.ix.pausable,
            r.ix.can_update_rate == data.ix.can_update_rate,
            r.closed == data.closed,
    {
        ReadableStreamData {
            magic: data.magic,
            version: data.version,
            created_at: data.created_at,
            amount_withdrawn: data.amount_withdrawn,
            canceled_at: data.canceled_at,
            end_time: data.end_time,
            last_withdrawn_at: data.last_withdrawn_at,
            sender: key_to_string(&data.sender),
            sender_tokens: key_to_string(&data.sender_tokens),
            recipient: key_to_string(&data.recipient),
            recipient_tokens: key_to_string(&data.recipient_tokens),
            mint: key_to_string(&data.mint),
            escrow_tokens: key_to_string(&data.escrow_tokens),
            streamflow_treasury: key_to_string(&data.streamflow_treasury),
            streamflow_treasury_tokens: key_to_string(&data.streamflow_treasury_tokens),
            streamflow_fee_total: data.streamflow_fee_total,
            streamflow_fee_withdrawn: data.streamflow_fee_withdrawn,
            streamflow_fee_percent_bits: data.streamflow_fee_percent_bits,
            partner: key_to_string(&data.partner),
            partner_tokens: key_to_string(&data.partner_tokens),
            partner_fee_total: data.partner_fee_total,
            partner_fee_withdrawn: data.partner_fee_withdrawn,
            partner_fee_percent_bits: data.partner_fee_percent_bits,
            ix: ReadableStreamInstruction::new(data.ix),
            closed: data.closed,
            multisig: 0,
        }
    }

    /// Labels the stream 1 when its sender account is owned by the Squads
    /// multisig program; leaves it as it was otherwise.
    pub fn mark_multisig(&mut self, sender_owner: Option<[u8; 32]>)
        ensures
            final(self).multisig == (if owned_by_squads(sender_owner) {
                1
            } else {
                old(self).multisig
            }),
            same_but_label(*final(self), *old(self)),
    {
        match sender_owner {
            Some(owner) => match key_from_str("SMPLecH534NA9acpos4G6x7uf3LWbCAwZQE9e8ZekMu") {
                Some(squads) => {
                    if same_key(&owner, &squads) {
                        self.multisig = 1;
                    } else {
                        proof {
                            if base58_text(owner@) == squads_address() {
                                assert(owner@.len() == 32 && squads@.len() == 32);
                                lemma_base58_text_injective(owner@, squads@);
                            }
                        }
                    }
                },
                None => {},
            },
            None => {},
        }
    }
}


/// Records the stream held by the program account `account`: its readable
/// form, labelled 1 when its sender account (owned by `sender_owner`, `None`
/// when it could not be fetched) belongs to the Squads multisig program.
/// It replaces what was recorded for that account before.
pub fn record_contract(
    contracts: &mut KeyedList<ReadableStreamData>,
    account: [u8; 32],
    data: TokenStreamData,
    sender_owner: Option<[u8; 32]>,
)
    ensures
        final(contracts).map_view().dom() == old(contracts).map_view().dom().insert(account@),
        readable_of(data, final(contracts).map_view()[account@]),
        final(contracts).map_view()[account@].multisig == (if owned_by_squads(sender_owner) {
            1u64
        } else {
            0u64
        }),
        forall|k: Seq<u8>|
            k != account@ && #[trigger] old(contracts).map_view().dom().contains(k)
                ==> final(contracts).map_view()[k] == old(contracts).map_view()[k],
{
    let mut readable = ReadableStreamData::new(data);
    readable.mark_multisig(sender_owner);
    contracts.insert(account, readable);
}

} // verus!
