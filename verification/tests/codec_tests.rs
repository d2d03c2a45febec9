use escrow_client::codec::{decode, check_state, EscrowRecord, LayoutError, RECORD_LEN};
use escrow_client::state::EscrowState;

/// A well-formed 106-byte record buffer with distinctive fields.
fn sample_buffer(state_byte: u8) -> Vec<u8> {
    let mut b = Vec::new();
    for i in 0..32u8 {
        b.push(i); // buyer: 0..32
    }
    for i in 0..32u8 {
        b.push(100 + i); // seller: 100..132
    }
    for i in 0..32u8 {
        b.push(200u8.wrapping_add(i)); // arbiter: 200..232 (wrapping)
    }
    b.extend_from_slice(&[0x88, 0x77, 0x66, 0x55, 0x44, 0x33, 0x22, 0x11]); // amount
    b.push(state_byte);
    b.push(0xfe); // vault_bump
    b
}

#[test]
fn record_len_is_106() {
    assert_eq!(RECORD_LEN, 106);
}

#[test]
fn decode_rejects_empty_buffer() {
    let r = decode(&Vec::new());
    assert_eq!(r, Err(LayoutError::TooShort { len: 0 }));
}

#[test]
fn decode_rejects_every_short_length() {
    for len in 0..106usize {
        let b = vec![0u8; len];
        assert_eq!(decode(&b), Err(LayoutError::TooShort { len }));
    }
}

#[test]
fn decode_rejects_105_bytes() {
    let mut b = sample_buffer(1);
    b.pop();
    assert_eq!(decode(&b), Err(LayoutError::TooShort { len: 105 }));
}

#[test]
fn decode_rejects_unknown_state_byte() {
    for bad in [6u8, 7, 100, 255] {
        let b = sample_buffer(bad);
        assert_eq!(decode(&b), Err(LayoutError::InvalidState { byte: bad }));
    }
}

#[test]
fn decode_reads_every_field() {
    let b = sample_buffer(2);
    let rec = decode(&b).unwrap();
    let mut buyer = [0u8; 32];
    let mut seller = [0u8; 32];
    let mut arbiter = [0u8; 32];
    for i in 0..32 {
        buyer[i] = i as u8;
        seller[i] = 100 + i as u8;
        arbiter[i] = (200u8).wrapping_add(i as u8);
    }
    let expected = EscrowRecord {
        buyer,
        seller,
        arbiter,
        amount: 0x1122334455667788,
        state: EscrowState::Initialized,
        vault_bump: 0xfe,
    };
    assert_eq!(rec, expected);
}

#[test]
fn decode_accepts_every_state_byte() {
    let states = [
        EscrowState::Uninitialized,
        EscrowState::Created,
        EscrowState::Initialized,
        EscrowState::Funded,
        EscrowState::Completed,
        EscrowState::Cancelled,
    ];
    for (byte, state) in states.iter().enumerate() {
        let b = sample_buffer(byte as u8);
        let rec = decode(&b).unwrap();
        assert_eq!(rec.state, *state);
    }
}

#[test]
fn decode_ignores_trailing_bytes() {
    let mut b = sample_buffer(1);
    b.extend_from_slice(&[9, 9, 9, 9]);
    let rec = decode(&b).unwrap();
    assert_eq!(rec.state, EscrowState::Created);
    assert_eq!(rec.amount, 0x1122334455667788);
}

#[test]
fn check_state_matches_decode() {
    assert_eq!(check_state(&sample_buffer(3)), Ok(EscrowState::Funded));
    assert_eq!(check_state(&vec![0u8; 10]), Err(LayoutError::TooShort { len: 10 }));
    assert_eq!(
        check_state(&sample_buffer(9)),
        Err(LayoutError::InvalidState { byte: 9 })
    );
}

#[test]
fn info_reads_amount_and_funded_label() {
    // A 106-byte buffer whose amount bytes are [100, 0, 0, 0, 0, 0, 0, 0]
    // and whose state byte is 3 decodes to amount 100 in state "Funded".
    let mut b = sample_buffer(3);
    b[96..104].copy_from_slice(&[100, 0, 0, 0, 0, 0, 0, 0]);
    let rec = decode(&b).unwrap();
    assert_eq!(rec.amount, 100);
    assert_eq!(rec.state.label(), "Funded");
}

#[test]
fn decode_reads_the_largest_amount() {
    let mut b = sample_buffer(3);
    b[96..104].copy_from_slice(&[0xff; 8]);
    assert_eq!(decode(&b).unwrap().amount, u64::MAX);
}

#[test]
fn state_labels() {
    assert_eq!(EscrowState::Uninitialized.label(), "Uninitialized");
    assert_eq!(EscrowState::Created.label(), "Created");
    assert_eq!(EscrowState::Initialized.label(), "Initialized");
    assert_eq!(EscrowState::Funded.label(), "Funded");
    assert_eq!(EscrowState::Completed.label(), "Completed");
    assert_eq!(EscrowState::Cancelled.label(), "Cancelled");
}
