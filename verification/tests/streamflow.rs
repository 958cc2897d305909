use streamflow_analytics::keyed::KeyedList;
use streamflow_analytics::streamflow::{
    record_contract, ReadableStreamData, ReadableStreamInstruction, StreamInstruction,
    TokenStreamData,
};

const SQUADS_PROGRAM_ID: [u8; 32] = [
    6, 126, 145, 221, 206, 113, 192, 199, 95, 63, 255, 186, 30, 214, 44, 175, 64, 4, 111, 29, 216,
    195, 82, 136, 59, 16, 168, 125, 183, 58, 217, 48,
];

fn instruction() -> StreamInstruction {
    let mut name = [0u8; 64];
    name[..5].copy_from_slice(b"hello");
    StreamInstruction {
        start_time: 100,
        net_amount_deposited: 5000,
        period: 10,
        amount_per_period: 50,
        cliff: 120,
        cliff_amount: 500,
        cancelable_by_sender: true,
        cancelable_by_recipient: false,
        automatic_withdrawal: true,
        transferable_by_sender: false,
        transferable_by_recipient: true,
        can_topup: false,
        stream_name: name,
        withdraw_frequency: 3600,
        padding_len: 7,
        pausable: true,
        can_update_rate: false,
    }
}

fn push_ix(b: &mut Vec<u8>, ix: &StreamInstruction) {
    for v in [
        ix.start_time,
        ix.net_amount_deposited,
        ix.period,
        ix.amount_per_period,
        ix.cliff,
        ix.cliff_amount,
    ] {
        b.extend_from_slice(&v.to_le_bytes());
    }
    for f in [
        ix.cancelable_by_sender,
        ix.cancelable_by_recipient,
        ix.automatic_withdrawal,
        ix.transferable_by_sender,
        ix.transferable_by_recipient,
        ix.can_topup,
    ] {
        b.push(f as u8);
    }
    b.extend_from_slice(&ix.stream_name);
    b.extend_from_slice(&ix.withdraw_frequency.to_le_bytes());
    b.extend_from_slice(&ix.padding_len.to_le_bytes());
    b.push(ix.pausable as u8);
    b.push(ix.can_update_rate as u8);
}

fn stream_bytes(sender: [u8; 32], fee: f32, padding: &[u8], closed: bool) -> Vec<u8> {
    let mut b = Vec::new();
    b.extend_from_slice(&77u64.to_le_bytes());
    b.push(2);
    for v in [1u64, 2, 3, 4, 5] {
        b.extend_from_slice(&v.to_le_bytes());
    }
    b.extend_from_slice(&sender);
    for i in 1..8u8 {
        b.extend_from_slice(&[i; 32]);
    }
    b.extend_from_slice(&900u64.to_le_bytes());
    b.extend_from_slice(&300u64.to_le_bytes());
    b.extend_from_slice(&fee.to_bits().to_le_bytes());
    b.extend_from_slice(&[20u8; 32]);
    b.extend_from_slice(&[21u8; 32]);
    b.extend_from_slice(&40u64.to_le_bytes());
    b.extend_from_slice(&10u64.to_le_bytes());
    b.extend_from_slice(&0.5f32.to_bits().to_le_bytes());
    push_ix(&mut b, &instruction());
    b.extend_from_slice(&(padding.len() as u32).to_le_bytes());
    b.extend_from_slice(padding);
    b.push(closed as u8);
    for v in [6u64, 7, 8, 9] {
        b.extend_from_slice(&v.to_le_bytes());
    }
    b
}

#[test]
fn decodes_the_streamflow_layout() {
    let bytes = stream_bytes([9u8; 32], 0.25, &[1, 2, 3], true);
    assert_eq!(bytes.len(), 578 + 3);
    let d = TokenStreamData::try_from_slice_unchecked(&bytes).unwrap();
    assert_eq!(d.magic, 77);
    assert_eq!(d.version, 2);
    assert_eq!(d.created_at, 1);
    assert_eq!(d.last_withdrawn_at, 5);
    assert_eq!(d.sender, [9u8; 32]);
    assert_eq!(d.mint, [4u8; 32]);
    assert_eq!(d.streamflow_treasury_tokens, [7u8; 32]);
    assert_eq!(d.streamflow_fee_total, 900);
    assert_eq!(d.streamflow_fee_withdrawn, 300);
    assert_eq!(f32::from_bits(d.streamflow_fee_percent_bits), 0.25);
    assert_eq!(d.partner, [20u8; 32]);
    assert_eq!(d.partner_fee_total, 40);
    assert_eq!(f32::from_bits(d.partner_fee_percent_bits), 0.5);
    assert_eq!(d.ix, instruction());
    assert_eq!(d.ix_padding, vec![1, 2, 3]);
    assert!(d.closed);
    assert_eq!(d.current_pause_start, 6);
    assert_eq!(d.pause_cumulative, 7);
    assert_eq!(d.last_rate_change_time, 8);
    assert_eq!(d.funds_unlocked_at_last_rate_change, 9);
}

#[test]
fn streamflow_trailing_bytes_are_not_read() {
    let mut bytes = stream_bytes([9u8; 32], 0.25, &[], false);
    let a = TokenStreamData::try_from_slice_unchecked(&bytes).unwrap();
    bytes.extend_from_slice(&[0xaa; 100]);
    let b = TokenStreamData::try_from_slice_unchecked(&bytes).unwrap();
    assert_eq!(a.funds_unlocked_at_last_rate_change, b.funds_unlocked_at_last_rate_change);
    assert_eq!(a.ix_padding, b.ix_padding);
    assert!(!b.closed);
}

#[test]
fn nan_fee_is_refused() {
    let bytes = stream_bytes([9u8; 32], f32::NAN, &[], false);
    assert!(TokenStreamData::try_from_slice_unchecked(&bytes).is_none());
    let bytes = stream_bytes([9u8; 32], f32::INFINITY, &[], false);
    assert!(TokenStreamData::try_from_slice_unchecked(&bytes).is_some());
}

#[test]
fn padding_longer_than_data_is_refused() {
    let mut bytes = stream_bytes([9u8; 32], 0.1, &[5, 5], false);
    bytes[541..545].copy_from_slice(&1000u32.to_le_bytes());
    assert!(TokenStreamData::try_from_slice_unchecked(&bytes).is_none());
    let bytes = stream_bytes([9u8; 32], 0.1, &[5, 5], false);
    assert!(TokenStreamData::try_from_slice_unchecked(&bytes[..bytes.len() - 1]).is_none());
}

#[test]
fn readable_instruction_drops_name_and_padding() {
    let r = ReadableStreamInstruction::new(instruction());
    assert_eq!(r.start_time, 100);
    assert_eq!(r.net_amount_deposited, 5000);
    assert_eq!(r.amount_per_period, 50);
    assert_eq!(r.withdraw_frequency, 3600);
    assert!(r.automatic_withdrawal);
    assert!(r.transferable_by_recipient);
    assert!(r.pausable);
    assert!(!r.can_update_rate);
}

#[test]
fn readable_stream_starts_unlabelled() {
    let d = TokenStreamData::try_from_slice_unchecked(&stream_bytes([0u8; 32], 0.25, &[], true))
        .unwrap();
    let r = ReadableStreamData::new(d);
    assert_eq!(r.multisig, 0);
    assert_eq!(r.sender, "11111111111111111111111111111111");
    assert_eq!(r.streamflow_fee_total, 900);
    assert_eq!(f32::from_bits(r.partner_fee_percent_bits), 0.5);
    assert!(r.closed);
    assert_eq!(r.ix.cliff_amount, 500);
}

#[test]
fn squads_owned_sender_is_labelled() {
    let d = TokenStreamData::try_from_slice_unchecked(&stream_bytes([3u8; 32], 0.25, &[], false))
        .unwrap();
    let mut r = ReadableStreamData::new(d.clone());
    r.mark_multisig(Some([8u8; 32]));
    assert_eq!(r.multisig, 0);
    r.mark_multisig(None);
    assert_eq!(r.multisig, 0);
    r.mark_multisig(Some(SQUADS_PROGRAM_ID));
    assert_eq!(r.multisig, 1);
}

#[test]
fn squads_bytes_are_the_program_address() {
    let d = TokenStreamData::try_from_slice_unchecked(&stream_bytes(
        SQUADS_PROGRAM_ID,
        0.25,
        &[],
        false,
    ))
    .unwrap();
    let r = ReadableStreamData::new(d);
    assert_eq!(r.sender, "SMPLecH534NA9acpos4G6x7uf3LWbCAwZQE9e8ZekMu");
}

#[test]
fn contracts_keep_the_last_record_per_account() {
    let mut contracts: KeyedList<ReadableStreamData> = KeyedList::new();
    let d1 = TokenStreamData::try_from_slice_unchecked(&stream_bytes([3u8; 32], 0.25, &[], false))
        .unwrap();
    let d2 = TokenStreamData::try_from_slice_unchecked(&stream_bytes([4u8; 32], 0.25, &[], true))
        .unwrap();
    record_contract(&mut contracts, [1u8; 32], d1.clone(), None);
    record_contract(&mut contracts, [2u8; 32], d1.clone(), Some(SQUADS_PROGRAM_ID));
    assert_eq!(contracts.len(), 2);
    assert_eq!(contracts.get(&[2u8; 32]).unwrap().multisig, 1);
    record_contract(&mut contracts, [1u8; 32], d2, Some([0u8; 32]));
    assert_eq!(contracts.len(), 2);
    let first = contracts.get(&[1u8; 32]).unwrap();
    assert!(first.closed);
    assert_eq!(first.multisig, 0);
    assert!(contracts.get(&[5u8; 32]).is_none());
    assert_eq!(contracts.find(&[2u8; 32]), Some(1));
}
