use streamflow_analytics::fetch_logic::{
    adjusted_for_decimals, decimals_divisor, is_active, label, token_labels, StreamInstruction,
    StreamTally, TokenLabels,
};

fn labels(name: &str) -> TokenLabels {
    TokenLabels { name: name.to_string(), symbol: "SYM".to_string(), logo: "logo".to_string() }
}

#[test]
fn divisor_is_a_power_of_ten() {
    assert_eq!(decimals_divisor(0), 1);
    assert_eq!(decimals_divisor(6), 1_000_000);
    assert_eq!(decimals_divisor(19), 10_000_000_000_000_000_000);
    assert_eq!(adjusted_for_decimals(123_456_789, 6), 123);
    assert_eq!(adjusted_for_decimals(999, 3), 0);
    assert_eq!(adjusted_for_decimals(u64::MAX, 0), u64::MAX);
}

#[test]
fn activity_is_strictly_inside_the_stream() {
    let ix = StreamInstruction::new(100, 200, 1, 1, 0, 0);
    assert!(!is_active(100, &ix));
    assert!(is_active(101, &ix));
    assert!(is_active(199, &ix));
    assert!(!is_active(200, &ix));
    assert!(!is_active(5, &ix));
}

#[test]
fn tally_sums_per_token() {
    let mut t = StreamTally::new();
    let mint_a = [1u8; 32];
    let mint_b = [2u8; 32];
    let s1 = StreamInstruction::new(0, 1000, 2_500_000, 1, 0, 0);
    let s2 = StreamInstruction::new(0, 10, 1_500_000, 1, 0, 0);
    let s3 = StreamInstruction::new(0, 1000, 7, 1, 0, 0);

    assert!(t.record_known(50, &mint_a, &s1).is_none());
    assert_eq!(t.no_tokens(), 0);
    let c = t.record_new(50, mint_a, &s1, labels("A"), 6);
    assert!(c.active);
    assert_eq!(c.units_before, 0);
    assert_eq!(c.units_after, 2);

    assert!(t.can_record(50, &mint_a, &s2));
    let c = t.record_known(50, &mint_a, &s2).unwrap();
    assert!(!c.active);
    assert_eq!(c.units_before, 2);
    assert_eq!(c.units_after, 4);

    let c = t.record_new(50, mint_b, &s3, labels("B"), 0);
    assert_eq!(c.units_after, 7);

    assert_eq!(t.no_tokens(), 2);
    assert_eq!(t.active_streams(), 2);
    let (m, a) = t.token_at(0);
    assert_eq!(*m, mint_a);
    assert_eq!(a.amount_sent, 4_000_000);
    assert_eq!(a.amount_of_streams, 2);
    assert_eq!(a.decimals, 6);
    assert_eq!(a.name, "A");
    let (m, b) = t.token_at(1);
    assert_eq!(*m, mint_b);
    assert_eq!(b.amount_of_streams, 1);
    assert!(t.knows(&mint_b));
    assert!(!t.knows(&[3u8; 32]));
}

#[test]
fn overflowing_amount_cannot_be_recorded() {
    let mut t = StreamTally::new();
    let mint = [1u8; 32];
    let big = StreamInstruction::new(0, 0, u64::MAX, 1, 0, 0);
    t.record_new(0, mint, &big, labels("X"), 0);
    let one = StreamInstruction::new(0, 0, 1, 1, 0, 0);
    assert!(!t.can_record(0, &mint, &one));
    let zero = StreamInstruction::new(0, 0, 0, 1, 0, 0);
    assert!(t.can_record(0, &mint, &zero));
    assert!(t.can_record(0, &[9u8; 32], &one));
}

#[test]
fn labels_default_to_null() {
    let l = token_labels(r#"{"name":"Wrapped SOL","symbol":"SOL","icon":"https://x/y.png"}"#)
        .unwrap();
    assert_eq!(l.name, "Wrapped SOL");
    assert_eq!(l.symbol, "SOL");
    assert_eq!(l.logo, "https://x/y.png");
    let l = token_labels(r#"{"name":"Only","symbol":42}"#).unwrap();
    assert_eq!(l.name, "Only");
    assert_eq!(l.symbol, "null");
    assert_eq!(l.logo, "null");
    let l = token_labels("[1, 2]").unwrap();
    assert_eq!(l.name, "null");
    assert!(token_labels("not json").is_none());
    assert_eq!(label(None), "null");
    assert_eq!(label(Some("x".to_string())), "x");
}

#[test]
fn totals_do_not_depend_on_order() {
    let a = [1u8; 32];
    let b = [2u8; 32];
    let streams = [
        (a, StreamInstruction::new(0, 1000, 300, 1, 0, 0)),
        (b, StreamInstruction::new(0, 10, 40, 1, 0, 0)),
        (a, StreamInstruction::new(0, 1000, 5, 1, 0, 0)),
    ];
    let run = |order: &[usize]| {
        let mut t = StreamTally::new();
        for &i in order {
            let (mint, ix) = &streams[i];
            if t.knows(mint) {
                t.record_known(50, mint, ix).unwrap();
            } else {
                t.record_new(50, *mint, ix, labels("T"), 0);
            }
        }
        let mut totals: Vec<([u8; 32], u64, u64)> = (0..t.no_tokens())
            .map(|i| {
                let (m, e) = t.token_at(i);
                (*m, e.amount_sent, e.amount_of_streams)
            })
            .collect();
        totals.sort();
        (totals, t.active_streams())
    };
    let first = run(&[0, 1, 2]);
    assert_eq!(first, run(&[2, 1, 0]));
    assert_eq!(first, run(&[1, 0, 2]));
    assert_eq!(first.0, vec![(a, 305, 2), (b, 40, 1)]);
    assert_eq!(first.1, 2);
}
