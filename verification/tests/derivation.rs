use wen3ex::authority::derive_vault_authority;

#[test]
fn derivation_succeeds_and_is_deterministic() {
    let a = derive_vault_authority(42, 7).expect("derivation should find a bump");
    let b = derive_vault_authority(42, 7).expect("derivation should find a bump");
    assert_eq!(a, b);
}

#[test]
fn derivation_is_no_echo_of_its_inputs() {
    let (auth, _bump) = derive_vault_authority(42, 7).expect("derivation should find a bump");
    let words = (auth.w0, auth.w1, auth.w2, auth.w3);
    assert_ne!(words, (42, 0, 0, 0));
    assert_ne!(words, (42, 7, 0, 0));
    assert_ne!(words, (0, 0, 0, 0));
    assert_ne!(words, (7, 0, 0, 42));
}

#[test]
fn derivation_separates_orders() {
    let a = derive_vault_authority(1, 7).expect("derivation should find a bump");
    let b = derive_vault_authority(2, 7).expect("derivation should find a bump");
    assert_ne!(a.0, b.0);
}

#[test]
fn derivation_separates_programs() {
    let a = derive_vault_authority(1, 7).expect("derivation should find a bump");
    let b = derive_vault_authority(1, 8).expect("derivation should find a bump");
    assert_ne!(a.0, b.0);
}

#[test]
fn domain_tag_is_the_vault_authority_string() {
    let seed = wen3ex::authority::vault_authority_seed();
    assert_eq!(seed, b"vault-authority".to_vec());
}
