use streamflow_analytics::community::{ReadableStreamData, StreamInstruction, TokenStreamData};

fn community_bytes(
    magic: u64,
    keys: [[u8; 32]; 6],
    ix: &StreamInstruction,
) -> Vec<u8> {
    let mut b = Vec::new();
    b.extend_from_slice(&magic.to_le_bytes());
    for v in [11u64, 22, 33, 44, 55] {
        b.extend_from_slice(&v.to_le_bytes());
    }
    for k in keys.iter() {
        b.extend_from_slice(k);
    }
    for v in [
        ix.start_time,
        ix.end_time,
        ix.deposited_amount,
        ix.total_amount,
        ix.period,
        ix.cliff,
        ix.cliff_amount,
    ] {
        b.extend_from_slice(&v.to_le_bytes());
    }
    for f in [
        ix.is_cancelable_by_sender,
        ix.is_cancelable_by_recipient,
        ix.is_withdrawal_public,
        ix.is_transferable,
    ] {
        b.push(f as u8);
    }
    b.extend_from_slice(&ix.padding.to_le_bytes());
    b
}

fn sample_keys() -> [[u8; 32]; 6] {
    let mut keys = [[0u8; 32]; 6];
    for (i, k) in keys.iter_mut().enumerate() {
        *k = [i as u8 + 1; 32];
    }
    keys
}

#[test]
fn new_deposits_the_total_amount() {
    let ix = StreamInstruction::new(10, 20, 1000, 5, 12, 100);
    assert_eq!(ix.start_time, 10);
    assert_eq!(ix.end_time, 20);
    assert_eq!(ix.total_amount, 1000);
    assert_eq!(ix.deposited_amount, 1000);
    assert_eq!(ix.period, 5);
    assert_eq!(ix.cliff, 12);
    assert_eq!(ix.cliff_amount, 100);
    assert!(ix.is_cancelable_by_sender);
    assert!(!ix.is_cancelable_by_recipient);
    assert!(!ix.is_withdrawal_public);
    assert!(ix.is_transferable);
    assert_eq!(ix.padding, 0);
}

#[test]
fn default_instruction_has_period_one() {
    let ix = StreamInstruction::default();
    assert_eq!(ix.period, 1);
    assert_eq!(ix.start_time, 0);
    assert_eq!(ix.deposited_amount, 0);
    assert!(ix.is_cancelable_by_sender);
    assert!(ix.is_transferable);
    assert!(!ix.is_withdrawal_public);
}

#[test]
fn decodes_the_account_layout() {
    let mut ix = StreamInstruction::new(1_650_000_000, 1_660_000_000, 5_000_000, 60, 1_650_000_060, 7);
    ix.padding = 0xdead_beef;
    let bytes = community_bytes(0x0102_0304_0506_0708, sample_keys(), &ix);
    assert_eq!(bytes.len(), 304);
    let d = TokenStreamData::try_from_slice_unchecked(&bytes).unwrap();
    assert_eq!(d.magic, 0x0102_0304_0506_0708);
    assert_eq!(d.created_at, 11);
    assert_eq!(d.withdrawn_amount, 22);
    assert_eq!(d.canceled_at, 33);
    assert_eq!(d.cancellable_at, 44);
    assert_eq!(d.last_withdrawn_at, 55);
    assert_eq!(d.sender, [1u8; 32]);
    assert_eq!(d.mint, [5u8; 32]);
    assert_eq!(d.escrow_tokens, [6u8; 32]);
    assert_eq!(d.ix, ix);
}

#[test]
fn trailing_bytes_are_not_read() {
    let ix = StreamInstruction::new(1, 2, 3, 4, 5, 6);
    let bytes = community_bytes(9, sample_keys(), &ix);
    let mut longer = bytes.clone();
    longer.extend_from_slice(&[0xff; 40]);
    let a = TokenStreamData::try_from_slice_unchecked(&bytes).unwrap();
    let b = TokenStreamData::try_from_slice_unchecked(&longer).unwrap();
    assert_eq!(a, b);
}

#[test]
fn short_data_is_refused() {
    let ix = StreamInstruction::new(1, 2, 3, 4, 5, 6);
    let bytes = community_bytes(9, sample_keys(), &ix);
    assert!(TokenStreamData::try_from_slice_unchecked(&bytes[..303]).is_none());
    assert!(TokenStreamData::try_from_slice_unchecked(&[]).is_none());
}

#[test]
fn invalid_flag_byte_is_refused() {
    let ix = StreamInstruction::new(1, 2, 3, 4, 5, 6);
    let mut bytes = community_bytes(9, sample_keys(), &ix);
    bytes[240 + 57] = 2;
    assert!(TokenStreamData::try_from_slice_unchecked(&bytes).is_none());
}

#[test]
fn readable_form_writes_keys_in_base58() {
    let squads: [u8; 32] = [
        6, 126, 145, 221, 206, 113, 192, 199, 95, 63, 255, 186, 30, 214, 44, 175, 64, 4, 111, 29,
        216, 195, 82, 136, 59, 16, 168, 125, 183, 58, 217, 48,
    ];
    let mut keys = sample_keys();
    keys[0] = squads;
    keys[4] = [0u8; 32];
    let ix = StreamInstruction::new(1, 2, 3, 4, 5, 6);
    let bytes = community_bytes(9, keys, &ix);
    let d = TokenStreamData::try_from_slice_unchecked(&bytes).unwrap();
    let r = ReadableStreamData::new(d);
    assert_eq!(r.sender, "SMPLecH534NA9acpos4G6x7uf3LWbCAwZQE9e8ZekMu");
    assert_eq!(r.mint, "11111111111111111111111111111111");
    assert_eq!(r.magic, 9);
    assert_eq!(r.created_at, 11);
    assert_eq!(r.last_withdrawn_at, 55);
    assert_eq!(r.ix, ix);
}

#[test]
fn default_stream_is_zeroed() {
    let d = TokenStreamData::default();
    assert_eq!(d.magic, 0);
    assert_eq!(d.sender, [0u8; 32]);
    assert_eq!(d.mint, [0u8; 32]);
    assert_eq!(d.ix, StreamInstruction::default());
}
