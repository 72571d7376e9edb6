//! Shape numbering.

use eurorack::braids::shapes::{DigitalModel, MacroOscillatorShape};

#[test]
fn digital_model_indices_match_macro_tail() {
    // macro shape N (>= TripleRingMod) must map to digital model N - 13.
    let base = MacroOscillatorShape::TripleRingMod as u8;
    assert_eq!(
        DigitalModel::from_u8(MacroOscillatorShape::QuestionMark as u8 - base),
        Some(DigitalModel::QuestionMark)
    );
    assert_eq!(
        DigitalModel::from_u8(MacroOscillatorShape::Plucked as u8 - base),
        Some(DigitalModel::Plucked)
    );
    assert_eq!(DigitalModel::COUNT, 35);
    assert_eq!(MacroOscillatorShape::COUNT, 48);
}

#[test]
fn from_u8_round_trips_and_rejects_out_of_range() {
    for (i, s) in MacroOscillatorShape::ALL.iter().enumerate() {
        assert_eq!(MacroOscillatorShape::from_u8(i as u8), Some(*s));
        assert_eq!(s.index() as usize, i);
    }
    for (i, d) in DigitalModel::ALL.iter().enumerate() {
        assert_eq!(DigitalModel::from_u8(i as u8), Some(*d));
        assert_eq!(d.index() as usize, i);
    }
    assert_eq!(MacroOscillatorShape::from_u8(48), None);
    assert_eq!(DigitalModel::from_u8(35), None);
    assert_eq!(MacroOscillatorShape::from_u8(255), None);
}
