use session_hub::ident::SessionId;

#[test]
fn text_is_hyphenated_lower_case_hex() {
    let id = SessionId::new(0xa1a2a3a4_b1b2_c1c2_d1d2_d3d4d5d6d7d8);
    assert_eq!(id.to_text(), "a1a2a3a4-b1b2-c1c2-d1d2-d3d4d5d6d7d8");
    assert_eq!(id.value(), 0xa1a2a3a4_b1b2_c1c2_d1d2_d3d4d5d6d7d8);
}

#[test]
fn text_of_the_extremes() {
    assert_eq!(SessionId::new(0).to_text(), "00000000-0000-0000-0000-000000000000");
    assert_eq!(SessionId::new(1).to_text(), "00000000-0000-0000-0000-000000000001");
    assert_eq!(SessionId::new(u128::MAX).to_text(), "ffffffff-ffff-ffff-ffff-ffffffffffff");
    assert_eq!(
        SessionId::new(0x0123456789abcdef_fedcba9876543210).to_text(),
        "01234567-89ab-cdef-fedc-ba9876543210"
    );
    assert_eq!(SessionId::new(1u128 << 127).to_text(), "80000000-0000-0000-0000-000000000000");
}

#[test]
fn text_has_the_fixed_shape() {
    for _ in 0..100 {
        let text = SessionId::fresh().to_text();
        assert_eq!(text.len(), 36);
        for (i, c) in text.chars().enumerate() {
            if i == 8 || i == 13 || i == 18 || i == 23 {
                assert_eq!(c, '-');
            } else {
                assert!(c.is_ascii_digit() || ('a'..='f').contains(&c));
            }
        }
    }
}

#[test]
fn text_reads_back_as_the_value() {
    for _ in 0..100 {
        let id = SessionId::fresh();
        let digits: String = id.to_text().chars().filter(|c| *c != '-').collect();
        assert_eq!(u128::from_str_radix(&digits, 16), Ok(id.value()));
    }
}

#[test]
fn fresh_identifiers_differ() {
    let mut seen = std::collections::HashSet::new();
    for _ in 0..1000 {
        assert!(seen.insert(SessionId::fresh()));
    }
}

#[test]
fn identifiers_compare_by_value() {
    assert_eq!(SessionId::new(5), SessionId::new(5));
    assert_ne!(SessionId::new(5), SessionId::new(6));
}
