use streamflow_analytics::pubkey::{address_text, same_key};
use streamflow_analytics::wire::nan_bits;

#[test]
fn nan_bit_patterns() {
    assert!(nan_bits(f32::NAN.to_bits()));
    assert!(nan_bits(0x7fc0_0001));
    assert!(nan_bits(0xff80_0001));
    assert!(!nan_bits(f32::INFINITY.to_bits()));
    assert!(!nan_bits(f32::NEG_INFINITY.to_bits()));
    assert!(!nan_bits(1.5f32.to_bits()));
    assert!(!nan_bits(0));
}

#[test]
fn keys_compare_bytewise() {
    let a = [3u8; 32];
    let mut b = [3u8; 32];
    assert!(same_key(&a, &b));
    b[31] = 4;
    assert!(!same_key(&a, &b));
    b[31] = 3;
    b[0] = 0;
    assert!(!same_key(&a, &b));
}

#[test]
fn address_text_is_base58() {
    assert_eq!(address_text(&[0u8; 32]), "11111111111111111111111111111111");
    let squads: [u8; 32] = [
        6, 126, 145, 221, 206, 113, 192, 199, 95, 63, 255, 186, 30, 214, 44, 175, 64, 4, 111, 29,
        216, 195, 82, 136, 59, 16, 168, 125, 183, 58, 217, 48,
    ];
    assert_eq!(address_text(&squads), "SMPLecH534NA9acpos4G6x7uf3LWbCAwZQE9e8ZekMu");
}
