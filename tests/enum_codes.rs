use rgsl::{
    EigenSort, FftDirection, GaussKonrodRule, IntegrationQawo, Mode, ODEiv, SfLegendreNorm,
    VegasMode, WaveletDirection,
};

#[test]
fn mode_codes() {
    assert_eq!(Mode::PrecDouble.to_code(), 0);
    assert_eq!(Mode::PrecSingle.to_code(), 1);
    assert_eq!(Mode::PrecApprox.to_code(), 2);
    assert_eq!(Mode::from_code(1), Some(Mode::PrecSingle));
    assert_eq!(Mode::from_code(3), None);
    let c: u32 = Mode::PrecApprox.into();
    assert_eq!(c, 2);
}

#[test]
fn vegas_mode_codes() {
    assert_eq!(VegasMode::Importance.to_code(), 1);
    assert_eq!(VegasMode::ImportanceOnly.to_code(), 0);
    assert_eq!(VegasMode::Stratified.to_code(), -1);
    assert_eq!(VegasMode::from_code(-1), Some(VegasMode::Stratified));
    assert_eq!(VegasMode::from_code(0), Some(VegasMode::ImportanceOnly));
    assert_eq!(VegasMode::from_code(2), None);
}

#[test]
fn direction_codes() {
    assert_eq!(FftDirection::Forward.to_code(), -1);
    assert_eq!(FftDirection::Backward.to_code(), 1);
    assert_eq!(FftDirection::from_code(0), None);
    assert_eq!(WaveletDirection::Forward.to_code(), 1);
    assert_eq!(WaveletDirection::Backward.to_code(), -1);
    assert_eq!(WaveletDirection::from_code(-1), Some(WaveletDirection::Backward));
    let c: i32 = FftDirection::Forward.into();
    assert_eq!(c, -1);
}

#[test]
fn rule_and_sort_codes() {
    assert_eq!(GaussKonrodRule::Gauss15.to_code(), 1);
    assert_eq!(GaussKonrodRule::Gauss61.to_code(), 6);
    assert_eq!(GaussKonrodRule::from_code(4), Some(GaussKonrodRule::Gauss41));
    assert_eq!(GaussKonrodRule::from_code(0), None);
    assert_eq!(EigenSort::AbsDesc.to_code(), 3);
    assert_eq!(EigenSort::from_code(1), Some(EigenSort::ValDesc));
    assert_eq!(EigenSort::from_code(4), None);
}

#[test]
fn other_codes() {
    assert_eq!(IntegrationQawo::Sine.to_code(), 1);
    assert_eq!(IntegrationQawo::from_code(0), Some(IntegrationQawo::Cosine));
    assert_eq!(ODEiv::Dec.to_code(), -1);
    assert_eq!(ODEiv::from_code(1), Some(ODEiv::Inc));
    assert_eq!(ODEiv::from_code(5), None);
    assert_eq!(SfLegendreNorm::Unnormalized.to_code(), 3);
    assert_eq!(SfLegendreNorm::from_code(1), Some(SfLegendreNorm::SphericalHarmonic));
    assert_eq!(SfLegendreNorm::from_code(-1), None);
}

#[test]
fn every_enum_code_round_trips() {
    for e in [Mode::PrecDouble, Mode::PrecSingle, Mode::PrecApprox] {
        assert_eq!(Mode::from_code(e.to_code()), Some(e));
    }
    for e in [VegasMode::Importance, VegasMode::ImportanceOnly, VegasMode::Stratified] {
        assert_eq!(VegasMode::from_code(e.to_code()), Some(e));
    }
    for e in [ODEiv::Inc, ODEiv::Nil, ODEiv::Dec] {
        assert_eq!(ODEiv::from_code(e.to_code()), Some(e));
    }
}
