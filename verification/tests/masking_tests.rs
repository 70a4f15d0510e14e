use omega_protocol::types::MaskingParams;
use omega_protocol::masking::MaskingOperator;

#[test]
fn masking_test_masking_involution() {
    let operator = MaskingOperator::new();
    let message = b"Hello, OMEGA Protocol!";
    let params = MaskingParams {
        theta: (1.234f64).to_bits(),
        sigma: vec![42u8; 32],
    };

    // Encrypt
    let masked = operator.mask(message, &params).unwrap();

    // Verify it changed
    assert_ne!(masked.as_slice(), &message[..]);

    // Decrypt
    let unmasked = operator.unmask(&masked, &params).unwrap();

    // Verify involution property
    assert_eq!(unmasked.as_slice(), &message[..]);
}

#[test]
fn test_ephemeral_params() {
    let params1 = MaskingParams::ephemeral_from_frequency((1.5f64).to_bits(), 100);
    let params2 = MaskingParams::ephemeral_from_frequency((1.5f64).to_bits(), 100);
    let params3 = MaskingParams::ephemeral_from_frequency((1.5f64).to_bits(), 101);

    // Same inputs produce same params
    assert_eq!(params1.theta, params2.theta);
    assert_eq!(params1.sigma, params2.sigma);

    // Different epoch produces different params
    assert_ne!(params1.sigma, params3.sigma);
}

#[test]
fn test_ephemeral_params_known_value() {
    // Expected values computed independently: SHA-256 of the 16-byte input
    // made of the little-endian bit pattern of 1.5 followed by the
    // little-endian epoch 100.
    let expected_sigma: [u8; 32] = [
        209, 196, 163, 157, 161, 159, 165, 180, 187, 48, 134, 195, 49, 53, 110, 114, 208, 13,
        136, 21, 155, 233, 32, 241, 28, 253, 171, 61, 132, 206, 132, 64,
    ];
    let params = MaskingParams::ephemeral_from_frequency((1.5f64).to_bits(), 100);
    assert_eq!(params.sigma.as_slice(), &expected_sigma[..]);
    assert_eq!(params.theta, 13016985814467593425u64);
}

#[test]
fn test_mask_changes_even_with_zero_sigma() {
    // With an all-zero permutation seed the only obscuring layer is the
    // pseudo-random phase stream; the message must still change.
    let operator = MaskingOperator::new();
    let message = b"hello";
    let params = MaskingParams {
        theta: (0.5f64).to_bits(),
        sigma: vec![0u8; 32],
    };
    let masked = operator.mask(message, &params).unwrap();
    assert_ne!(masked.as_slice(), &message[..]);
    let unmasked = operator.unmask(&masked, &params).unwrap();
    assert_eq!(unmasked.as_slice(), &message[..]);
}

#[test]
fn test_mask_deterministic() {
    // Masking the same message twice under the same parameters gives the
    // same bytes: the phase stream is a function of the phase word alone.
    let operator = MaskingOperator::new();
    let message = b"repeatable";
    let params = MaskingParams::ephemeral_from_frequency((2.5f64).to_bits(), 7);
    let m1 = operator.mask(message, &params).unwrap();
    let m2 = operator.mask(message, &params).unwrap();
    assert_eq!(m1, m2);
}

#[test]
fn test_mask_empty_message() {
    let operator = MaskingOperator::new();
    let params = MaskingParams::ephemeral_from_frequency((1.0f64).to_bits(), 0);
    let masked = operator.mask(b"", &params).unwrap();
    assert!(masked.is_empty());
}

#[test]
fn test_permute_is_self_inverse() {
    let operator = MaskingOperator::new();
    let sigma: Vec<u8> = (0u8..32u8).collect();
    let original: Vec<u8> = b"permutation layer check".to_vec();
    let mut data = original.clone();
    operator.permute(&mut data, &sigma);
    assert_ne!(data, original);
    // Byte 0 is XORed with sigma[0] = 0, so it is unchanged.
    assert_eq!(data[0], original[0]);
    assert_eq!(data[1], original[1] ^ 1);
    operator.permute(&mut data, &sigma);
    assert_eq!(data, original);
}

#[test]
fn test_rotate_is_self_inverse() {
    let operator = MaskingOperator::new();
    let original: Vec<u8> = b"phase layer check".to_vec();
    let mut data = original.clone();
    operator.rotate(&mut data, (1.234f64).to_bits());
    assert_ne!(data, original);
    operator.rotate(&mut data, (1.234f64).to_bits());
    assert_eq!(data, original);
}

#[test]
fn test_rotate_different_theta_different_stream() {
    // The generator seed is spread from the low bits of the phase word, so
    // phase words differing there yield different streams.
    let operator = MaskingOperator::new();
    let mut a: Vec<u8> = vec![0u8; 16];
    let mut b: Vec<u8> = vec![0u8; 16];
    operator.rotate(&mut a, 1u64);
    operator.rotate(&mut b, 2u64);
    assert_ne!(a, b);
}
