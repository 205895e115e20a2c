use mediadecode::color::{ChromaLocation, ColorMatrix, ColorPrimaries, ColorRange, ColorTransfer};

#[test]
fn defaults_match_spec() {
    assert!(matches!(ColorMatrix::default(), ColorMatrix::Bt709));
    assert!(matches!(ColorPrimaries::default(), ColorPrimaries::Unspecified));
    assert!(matches!(ColorTransfer::default(), ColorTransfer::Unspecified));
    assert!(matches!(ColorRange::default(), ColorRange::Unspecified));
    assert!(matches!(ChromaLocation::default(), ChromaLocation::Unspecified));
}

#[test]
fn is_variant_helpers_compile_for_each_enum() {
    assert!(ColorMatrix::Bt709.is_bt_709());
    assert!(ColorPrimaries::Bt2020.is_bt_2020());
    assert!(ColorTransfer::SmpteSt2084Pq.is_smpte_st_2084_pq());
    assert!(ColorRange::Full.is_full());
    assert!(ChromaLocation::Center.is_center());
}

#[test]
fn copy_and_eq() {
    let m1 = ColorMatrix::Bt709;
    let m2 = m1; // Copy
    assert_eq!(m1, m2);
}

#[test]
fn is_variant_helpers_are_false_for_other_variants() {
    assert!(!ColorMatrix::Bt601.is_bt_709());
    assert!(ColorMatrix::YCgCo.is_y_cg_co());
    assert!(!ColorPrimaries::Bt709.is_bt_2020());
    assert!(ColorPrimaries::Ebu3213E.is_ebu_3213_e());
    assert!(!ColorTransfer::Linear.is_smpte_st_2084_pq());
    assert!(ColorTransfer::AribStdB67Hlg.is_arib_std_b_67_hlg());
    assert!(ColorTransfer::Bt2020_10Bit.is_bt_2020_10_bit());
    assert!(!ColorRange::Limited.is_full());
    assert!(ColorRange::Limited.is_limited());
    assert!(!ChromaLocation::Left.is_center());
    assert!(ChromaLocation::BottomLeft.is_bottom_left());
}
