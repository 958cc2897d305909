//! Account layout of the community vesting contract and its human-readable
//! form.
use crate::pubkey::{base58_text, key_to_string, lemma_text_parses_back, parses_to};
use crate::wire::{
    bool_byte, le_bytes, lemma_u32_roundtrip, lemma_u64_roundtrip, bytes_at, bool_at, bool_ok_at, read_bool, read_key, read_u32, read_u64, u32_at, u64_at};
use vstd::prelude::*;

verus! {

/// The struct containing instructions for initializing a stream
#[derive(Clone, Copy, Debug, PartialEq, Eq)]
pub struct StreamInstruction {
    pub start_time: u64,
    pub end_time: u64,
    pub deposited_amount: u64,
    pub total_amount: u64,
    pub period: u64,
    pub cliff: u64,
    pub cliff_amount: u64,
    /// Whether or not a stream can be canceled by a sender (currently not used, set to TRUE)
    pub is_cancelable_by_sender: bool,
    /// Whether or not a stream can be canceled by a recipient (currently not used, set to FALSE)
    pub is_cancelable_by_recipient: bool,
    /// Whether or not a 3rd party can initiate withdraw in the name of recipient (currently not used, set to FALSE)
    pub is_withdrawal_public: bool,
    /// Whether or not a recipient can transfer the stream (currently not used, set to TRUE)
    pub is_transferable: bool,
    /// 4 bytes of padding to make the struct size multiple of 64 bits (8 bytes), non-meaningful data.
    pub padding: u32,
}

/// Size in bytes of an encoded [`StreamInstruction`].
pub const INSTRUCTION_LEN: usize = 64;

/// Size in bytes of an encoded [`TokenStreamData`].
pub const TOKEN_STREAM_DATA_LEN: usize = 304;

/// The flags that every instruction built by this library carries.
pub open spec fn default_flags(ix: StreamInstruction) -> bool {
    &&& ix.is_cancelable_by_sender
    &&& !ix.is_cancelable_by_recipient
    &&& !ix.is_withdrawal_public
    &&& ix.is_transferable
    &&& ix.padding == 0
}

impl Default for StreamInstruction {
    fn default() -> (r: Self)
        ensures
            r.start_time == 0,
            r.end_time == 0,
            r.deposited_amount == 0,
            r.total_amount == 0,
            r.period == 1,
            r.cliff == 0,
            r.cliff_amount == 0,
            default_flags(r),
    {
        StreamInstruction {
            start_time: 0,
            end_time: 0,
            deposited_amount: 0,
            total_amount: 0,
            period: 1,
            cliff: 0,
            cliff_amount: 0,
            is_cancelable_by_sender: true,
            is_cancelable_by_recipient: false,
            is_withdrawal_public: false,
            is_transferable: true,
            padding: 0,
        }
    }
}

impl StreamInstruction {
    /// A stream whose deposit is its whole total amount.
    pub fn new(
        start_time: u64,
        end_time: u64,
        total_amount: u64,
        period: u64,
        cliff: u64,
        cliff_amount: u64,
    ) -> (r: Self)
        ensures
            r.start_time == start_time,
            r.end_time == end_time,
            r.total_amount == total_amount,
            r.deposited_amount == total_amount,
            r.period == period,
            r.cliff == cliff,
            r.cliff_amount == cliff_amount,
            default_flags(r),
    {
        Self {
            start_time,
            end_time,
            total_amount,
            deposited_amount: total_amount,
            period,
            cliff,
            cliff_amount,
            is_cancelable_by_sender: true,
            is_cancelable_by_recipient: false,
            is_withdrawal_public: false,
            is_transferable: true,
            padding: 0,
        }
    }

    /// Whether the bytes from `off` on hold an encoded instruction.
    pub open spec fn encoded_at(b: Seq<u8>, off: int) -> bool {
        &&& 0 <= off
        &&& off + 64 <= b.len()
        &&& bool_ok_at(b, off + 56)
        &&& bool_ok_at(b, off + 57)
        &&& bool_ok_at(b, off + 58)
        &&& bool_ok_at(b, off + 59)
    }

    /// Whether `self` is the instruction encoded from `off` on: seven
    /// little-endian `u64`s, four one-byte `bool`s and a little-endian `u32`.
    pub open spec fn decoded_at(self, b: Seq<u8>, off: int) -> bool {
        &&& self.start_time as nat == u64_at(b, off)
        &&& self.end_time as nat == u64_at(b, off + 8)
        &&& self.deposited_amount as nat == u64_at(b, off + 16)
        &&& self.total_amount as nat == u64_at(b, off + 24)
        &&& self.period as nat == u64_at(b, off + 32)
        &&& self.cliff as nat == u64_at(b, off + 40)
        &&& self.cliff_amount as nat == u64_at(b, off + 48)
        &&& self.is_cancelable_by_sender == bool_at(b, off + 56)
        &&& self.is_cancelable_by_recipient == bool_at(b, off + 57)
        &&& self.is_withdrawal_public == bool_at(b, off + 58)
        &&& self.is_transferable == bool_at(b, off + 59)
        &&& self.padding as nat == u32_at(b, off + 60)
    }

    /// Decodes the instruction at `pos` field by field with borsh.
    fn read_at(data: &[u8], pos: usize) -> (r: Option<Self>)
        requires
            pos + INSTRUCTION_LEN <= data.len(),
        ensures
            r is Some <==> Self::encoded_at(data@, pos as int),
            r matches Some(ix) ==> ix.decoded_at(data@, pos as int),
    {
        let start_time = read_u64(data, pos)?;
        let end_time = read_u64(data, pos + 8)?;
        let deposited_amount = read_u64(data, pos + 16)?;
        let total_amount = read_u64(data, pos + 24)?;
        let period = read_u64(data, pos + 32)?;
        let cliff = read_u64(data, pos + 40)?;
        let cliff_amount = read_u64(data, pos + 48)?;
        let is_cancelable_by_sender = read_bool(data, pos + 56)?;
        let is_cancelable_by_recipient = read_bool(data, pos + 57)?;
        let is_withdrawal_public = read_bool(data, pos + 58)?;
        let is_transferable = read_bool(data, pos + 59)?;
        let padding = read_u32(data, pos + 60)?;
        Some(StreamInstruction {
            start_time,
            end_time,
            deposited_amount,
            total_amount,
            period,
            cliff,
            cliff_amount,
            is_cancelable_by_sender,
            is_cancelable_by_recipient,
            is_withdrawal_public,
            is_transferable,
            padding,
        })
    }
}

/// TokenStreamData is the struct containing metadata for an SPL token stream.
/// Account addresses are held as their 32 bytes.
#[derive(Clone, Copy, Debug, PartialEq, Eq)]
pub struct TokenStreamData {
    /// Magic bytes, will be used for version of the contract
    pub magic: u64,
    /// Timestamp when stream was created
    pub created_at: u64,
    /// Amount of funds withdrawn
    pub withdrawn_amount: u64,
    /// Timestamp when stream was canceled (if canceled)
    pub canceled_at: u64,
    /// Timestamp at which stream can be safely canceled by a 3rd party
    /// (Stream is either fully vested or there isn't enough capital to
    /// keep it active)
    pub cancellable_at: u64,
    /// Timestamp of the last withdrawal
    pub last_withdrawn_at: u64,
    /// Pubkey of the stream initializer
    pub sender: [u8; 32],
    /// Pubkey of the stream initializer's token account
    pub sender_tokens: [u8; 32],
    /// Pubkey of the stream recipient
    pub recipient: [u8; 32],
    /// Pubkey of the stream recipient's token account
    pub recipient_tokens: [u8; 32],
    /// Pubkey of the token mint
    pub mint: [u8; 32],
    /// Pubkey of the account holding the locked tokens
    pub escrow_tokens: [u8; 32],
    /// The stream instruction
    pub ix: StreamInstruction,
}

/// Whether every byte of an account address is zero (the default address).
pub open spec fn is_zero_key(k: [u8; 32]) -> bool {
    forall|i: int| 0 <= i < 32 ==> k@[i] == 0
}

impl Default for TokenStreamData {
    fn default() -> (r: Self)
        ensures
            r.magic == 0,
            r.created_at == 0,
            r.withdrawn_amount == 0,
            r.canceled_at == 0,
            r.cancellable_at == 0,
            r.last_withdrawn_at == 0,
            is_zero_key(r.sender),
            is_zero_key(r.sender_tokens),
            is_zero_key(r.recipient),
            is_zero_key(r.recipient_tokens),
            is_zero_key(r.mint),
            is_zero_key(r.escrow_tokens),
            r.ix.period == 1,
            r.ix.start_time == 0 && r.ix.end_time == 0 && r.ix.deposited_amount == 0,
            r.ix.total_amount == 0 && r.ix.cliff == 0 && r.ix.cliff_amount == 0,
            default_flags(r.ix),
    {
        TokenStreamData {
            magic: 0,
            created_at: 0,
            withdrawn_amount: 0,
            canceled_at: 0,
            cancellable_at: 0,
            last_withdrawn_at: 0,
            sender: [0u8; 32],
            sender_tokens: [0u8; 32],
            recipient: [0u8; 32],
            recipient_tokens: [0u8; 32],
            mint: [0u8; 32],
            escrow_tokens: [0u8; 32],
            ix: StreamInstruction::default(),
        }
    }
}

impl TokenStreamData {
    /// Whether `b` begins with an encoded stream: six `u64`s, six 32-byte
    /// keys and an instruction; bytes past them are not read.
    pub open spec fn encoded(b: Seq<u8>) -> bool {
        &&& TOKEN_STREAM_DATA_LEN <= b.len()
        &&& StreamInstruction::encoded_at(b, 240)
    }

    /// Whether `self` is the stream encoded at the start of `b`.
    pub open spec fn decoded_from(self, b: Seq<u8>) -> bool {
        &&& self.magic as nat == u64_at(b, 0)
        &&& self.created_at as nat == u64_at(b, 8)
        &&& self.withdrawn_amount as nat == u64_at(b, 16)
        &&& self.canceled_at as nat == u64_at(b, 24)
        &&& self.cancellable_at as nat == u64_at(b, 32)
        &&& self.last_withdrawn_at as nat == u64_at(b, 40)
        &&& self.sender@ == bytes_at(b, 48, 32)
        &&& self.sender_tokens@ == bytes_at(b, 80, 32)
        &&& self.recipient@ == bytes_at(b, 112, 32)
        &&& self.recipient_tokens@ == bytes_at(b, 144, 32)
        &&& self.mint@ == bytes_at(b, 176, 32)
        &&& self.escrow_tokens@ == bytes_at(b, 208, 32)
        &&& self.ix.decoded_at(b, 240)
    }

    /// Decodes the stream at the start of an account's data as borsh does,
    /// leaving any bytes after it unread. `None` when the data is too short
    /// or a flag byte is neither 0 nor 1.
    pub fn try_from_slice_unchecked(data: &[u8]) -> (r: Option<Self>)
        ensures
            r is Some <==> Self::encoded(data@),
            r matches Some(d) ==> d.decoded_from(data@),
    {
        if data.len() < TOKEN_STREAM_DATA_LEN {
            return None;
        }
        let magic = read_u64(data, 0)?;
        let created_at = read_u64(data, 8)?;
        let withdrawn_amount = read_u64(data, 16)?;
        let canceled_at = read_u64(data, 24)?;
        let cancellable_at = read_u64(data, 32)?;
        let last_withdrawn_at = read_u64(data, 40)?;
        let sender = read_key(data, 48)?;
        let sender_tokens = read_key(data, 80)?;
        let recipient = read_key(data, 112)?;
        let recipient_tokens = read_key(data, 144)?;
        let mint = read_key(data, 176)?;
        let escrow_tokens = read_key(data, 208)?;
        let ix = StreamInstruction::read_at(data, 240)?;
        Some(TokenStreamData {
            magic,
            created_at,
            withdrawn_amount,
            canceled_at,
            cancellable_at,
            last_withdrawn_at,
            sender,
            sender_tokens,
            recipient,
            recipient_tokens,
            mint,
            escrow_tokens,
            ix,
        })
    }
}

/// Trailing bytes after an encoded stream change nothing about what is
/// decoded: the same stream is read from the longer data.
pub proof fn lemma_trailing_bytes_ignored(b: Seq<u8>, extra: Seq<u8>, d: TokenStreamData)
    requires
        TokenStreamData::encoded(b),
        d.decoded_from(b),
    ensures
        TokenStreamData::encoded(b + extra),
        d.decoded_from(b + extra),
{
    let c = b + extra;
    assert forall|off: int, n: int| 0 <= off && 0 <= n && off + n <= b.len() implies #[trigger] bytes_at(c, off, n)
        == bytes_at(b, off, n) by {
        assert(bytes_at(c, off, n) =~= bytes_at(b, off, n));
    }
    assert forall|off: int| 0 <= off < b.len() implies #[trigger] c[off] == b[off] by {}
}

/// The borsh encoding of an instruction: its fields in order, integers
/// little-endian, flags as one byte each.
pub open spec fn encode_instruction(ix: StreamInstruction) -> Seq<u8> {
    le_bytes(ix.start_time as nat, 8) + le_bytes(ix.end_time as nat, 8) + le_bytes(
        ix.deposited_amount as nat,
        8,
    ) + le_bytes(ix.total_amount as nat, 8) + le_bytes(ix.period as nat, 8) + le_bytes(
        ix.cliff as nat,
        8,
    ) + le_bytes(ix.cliff_amount as nat, 8) + seq![
        bool_byte(ix.is_cancelable_by_sender),
        bool_byte(ix.is_cancelable_by_recipient),
        bool_byte(ix.is_withdrawal_public),
        bool_byte(ix.is_transferable),
    ] + le_bytes(ix.padding as nat, 4)
}

/// The borsh encoding of a stream: its fields in order.
pub open spec fn encode_stream(d: TokenStreamData) -> Seq<u8> {
    le_bytes(d.magic as nat, 8) + le_bytes(d.created_at as nat, 8) + le_bytes(
        d.withdrawn_amount as nat,
        8,
    ) + le_bytes(d.canceled_at as nat, 8) + le_bytes(d.cancellable_at as nat, 8) + le_bytes(
        d.last_withdrawn_at as nat,
        8,
    ) + d.sender@ + d.sender_tokens@ + d.recipient@ + d.recipient_tokens@ + d.mint@
        + d.escrow_tokens@ + encode_instruction(d.ix)
}

/// An encoded instruction, wherever it stands, decodes to itself.
pub proof fn lemma_instruction_roundtrip(pre: Seq<u8>, ix: StreamInstruction, post: Seq<u8>)
    ensures
        StreamInstruction::encoded_at(pre + encode_instruction(ix) + post, pre.len() as int),
        ix.decoded_at(pre + encode_instruction(ix) + post, pre.len() as int),
{
    lemma_u64_roundtrip(ix.start_time);
    lemma_u64_roundtrip(ix.end_time);
    lemma_u64_roundtrip(ix.deposited_amount);
    lemma_u64_roundtrip(ix.total_amount);
    lemma_u64_roundtrip(ix.period);
    lemma_u64_roundtrip(ix.cliff);
    lemma_u64_roundtrip(ix.cliff_amount);
    lemma_u32_roundtrip(ix.padding);
    let e = encode_instruction(ix);
    let b = pre + e + post;
    let o = pre.len() as int;
    assert(e.len() == 64);
    assert(bytes_at(b, o, 8) =~= le_bytes(ix.start_time as nat, 8));
    assert(bytes_at(b, o + 8, 8) =~= le_bytes(ix.end_time as nat, 8));
    assert(bytes_at(b, o + 16, 8) =~= le_bytes(ix.deposited_amount as nat, 8));
    assert(bytes_at(b, o + 24, 8) =~= le_bytes(ix.total_amount as nat, 8));
    assert(bytes_at(b, o + 32, 8) =~= le_bytes(ix.period as nat, 8));
    assert(bytes_at(b, o + 40, 8) =~= le_bytes(ix.cliff as nat, 8));
    assert(bytes_at(b, o + 48, 8) =~= le_bytes(ix.cliff_amount as nat, 8));
    assert(b[o + 56] == bool_byte(ix.is_cancelable_by_sender));
    assert(b[o + 57] == bool_byte(ix.is_cancelable_by_recipient));
    assert(b[o + 58] == bool_byte(ix.is_withdrawal_public));
    assert(b[o + 59] == bool_byte(ix.is_transferable));
    assert(bytes_at(b, o + 60, 4) =~= le_bytes(ix.padding as nat, 4));
}

/// A stream encoded by borsh decodes to itself, whatever bytes follow it.
pub proof fn lemma_stream_roundtrip(d: TokenStreamData, extra: Seq<u8>)
    ensures
        TokenStreamData::encoded(encode_stream(d) + extra),
        d.decoded_from(encode_stream(d) + extra),
{
    lemma_u64_roundtrip(d.magic);
    lemma_u64_roundtrip(d.created_at);
    lemma_u64_roundtrip(d.withdrawn_amount);
    lemma_u64_roundtrip(d.canceled_at);
    lemma_u64_roundtrip(d.cancellable_at);
    lemma_u64_roundtrip(d.last_withdrawn_at);
    let pre = le_bytes(d.magic as nat, 8) + le_bytes(d.created_at as nat, 8) + le_bytes(
        d.withdrawn_amount as nat,
        8,
    ) + le_bytes(d.canceled_at as nat, 8) + le_bytes(d.cancellable_at as nat, 8) + le_bytes(
        d.last_withdrawn_at as nat,
        8,
    ) + d.sender@ + d.sender_tokens@ + d.recipient@ + d.recipient_tokens@ + d.mint@
        + d.escrow_tokens@;
    assert(pre.len() == 240);
    lemma_instruction_roundtrip(pre, d.ix, extra);
    let b = encode_stream(d) + extra;
    assert(b == pre + encode_instruction(d.ix) + extra);
    assert(bytes_at(b, 0, 8) =~= le_bytes(d.magic as nat, 8));
    assert(bytes_at(b, 8, 8) =~= le_bytes(d.created_at as nat, 8));
    assert(bytes_at(b, 16, 8) =~= le_bytes(d.withdrawn_amount as nat, 8));
    assert(bytes_at(b, 24, 8) =~= le_bytes(d.canceled_at as nat, 8));
    assert(bytes_at(b, 32, 8) =~= le_bytes(d.cancellable_at as nat, 8));
    assert(bytes_at(b, 40, 8) =~= le_bytes(d.last_withdrawn_at as nat, 8));
    assert(bytes_at(b, 48, 32) =~= d.sender@);
    assert(bytes_at(b, 80, 32) =~= d.sender_tokens@);
    assert(bytes_at(b, 112, 32) =~= d.recipient@);
    assert(bytes_at(b, 144, 32) =~= d.recipient_tokens@);
    assert(bytes_at(b, 176, 32) =~= d.mint@);
    assert(bytes_at(b, 208, 32) =~= d.escrow_tokens@);
}

/// TokenStreamData is the struct containing metadata in human readable format
#[derive(Clone, Debug, PartialEq, Eq)]
pub struct ReadableStreamData {
    /// Magic bytes, will be used for version of the contract
    pub magic: u64,
    /// Timestamp when stream was created
    pub created_at: u64,
    /// Amount of funds withdrawn
    pub withdrawn_amount: u64,
    /// Timestamp when stream was canceled (if canceled)
    pub canceled_at: u64,
    /// Timestamp at which stream can be safely canceled by a 3rd party
    /// (Stream is either fully vested or there isn't enough capital to
    /// keep it active)
    pub cancellable_at: u64,
    /// Timestamp of the last withdrawal
    pub last_withdrawn_at: u64,
    /// Pubkey of the stream initializer
    pub sender: String,
    /// Pubkey of the stream initializer's token account
    pub sender_tokens: String,
    /// Pubkey of the stream recipient
    pub recipient: String,
    /// Pubkey of the stream recipient's token account
    pub recipient_tokens: String,
    /// Pubkey of the token mint
    pub mint: String,
    /// Pubkey of the account holding the locked tokens
    pub escrow_tokens: String,
    /// The stream instruction
    pub ix: StreamInstruction,
}

/// Every address text of a readable stream parses back to the address it
/// was written from.
pub proof fn lemma_readable_keys_parse_back(
    d: TokenStreamData,
    r: ReadableStreamData,
    key: [u8; 32],
    text: String,
    parsed: Option<[u8; 32]>,
)
    requires
        r.sender@ == base58_text(d.sender@),
        r.sender_tokens@ == base58_text(d.sender_tokens@),
        r.recipient@ == base58_text(d.recipient@),
        r.recipient_tokens@ == base58_text(d.recipient_tokens@),
        r.mint@ == base58_text(d.mint@),
        r.escrow_tokens@ == base58_text(d.escrow_tokens@),
        (key == d.sender && text == r.sender) || (key == d.sender_tokens && text
            == r.sender_tokens) || (key == d.recipient && text == r.recipient) || (key
            == d.recipient_tokens && text == r.recipient_tokens) || (key == d.mint && text
            == r.mint) || (key == d.escrow_tokens && text == r.escrow_tokens),
        parses_to(text@, parsed),
    ensures
        parsed matches Some(p) && p@ == key@,
{
    lemma_text_parses_back(key, parsed);
}

impl ReadableStreamData {
    /// The same stream with every account address written as base58 text.
    pub fn new(data: TokenStreamData) -> (r: ReadableStreamData)
        ensures
            r.magic == data.magic,
            r.created_at == data.created_at,
            r.withdrawn_amount == data.withdrawn_amount,
            r.canceled_at == data.canceled_at,
            r.cancellable_at == data.cancellable_at,
            r.last_withdrawn_at == data.last_withdrawn_at,
            r.sender@ == base58_text(data.sender@),
            r.sender_tokens@ == base58_text(data.sender_tokens@),
            r.recipient@ == base58_text(data.recipient@),
            r.recipient_tokens@ == base58_text(data.recipient_tokens@),
            r.mint@ == base58_text(data.mint@),
            r.escrow_tokens@ == base58_text(data.escrow_tokens@),
            r.ix == data.ix,
    {
        ReadableStreamData {
            magic: data.magic,
            created_at: data.created_at,
            withdrawn_amount: data.withdrawn_amount,
            canceled_at: data.canceled_at,
            cancellable_at: data.cancellable_at,
            last_withdrawn_at: data.last_withdrawn_at,
            sender: key_to_string(&data.sender),
            sender_tokens: key_to_string(&data.sender_tokens),
            recipient: key_to_string(&data.recipient),
            recipient_tokens: key_to_string(&data.recipient_tokens),
            mint: key_to_string(&data.mint),
            escrow_tokens: key_to_string(&data.escrow_tokens),
            ix: data.ix,
        }
    }
}

} // verus!
