use escrow::{record_from_bytes, record_to_bytes, AccountId, Escrow};

fn id(n: u8) -> AccountId {
    AccountId { bytes: [n; 32] }
}

#[test]
fn record_round_trips_through_its_persisted_form() {
    let e = Escrow {
        seed: 42,
        maker: id(1),
        mint_a: id(3),
        mint_b: id(4),
        receive: 50,
        bump: 254,
    };
    let bytes = record_to_bytes(&e);
    assert_eq!(bytes.len(), 121);
    let back = record_from_bytes(&bytes).unwrap();
    assert_eq!(back.seed, e.seed);
    assert_eq!(back.maker, e.maker);
    assert_eq!(back.mint_a, e.mint_a);
    assert_eq!(back.mint_b, e.mint_b);
    assert_eq!(back.receive, e.receive);
    assert_eq!(back.bump, e.bump);
}

#[test]
fn record_bytes_are_laid_out_as_specified() {
    let e = Escrow {
        seed: 0x0102030405060708,
        maker: id(9),
        mint_a: id(10),
        mint_b: id(11),
        receive: 300,
        bump: 7,
    };
    let bytes = record_to_bytes(&e);
    let mut expected: Vec<u8> = vec![31, 213, 123, 187, 186, 22, 218, 155];
    expected.extend_from_slice(&[8, 7, 6, 5, 4, 3, 2, 1]);
    expected.extend_from_slice(&[9; 32]);
    expected.extend_from_slice(&[10; 32]);
    expected.extend_from_slice(&[11; 32]);
    expected.extend_from_slice(&[44, 1, 0, 0, 0, 0, 0, 0]);
    expected.push(7);
    assert_eq!(bytes, expected);
}

#[test]
fn malformed_record_bytes_are_rejected() {
    let e = Escrow {
        seed: 1,
        maker: id(1),
        mint_a: id(2),
        mint_b: id(3),
        receive: 4,
        bump: 5,
    };
    let bytes = record_to_bytes(&e);
    // Too short.
    assert!(record_from_bytes(&bytes[..120]).is_none());
    // Wrong tag.
    let mut tampered = bytes.clone();
    tampered[0] = 0;
    assert!(record_from_bytes(&tampered).is_none());
}
