use fuji::recipe::{Tone, ToneCurve};

fn tone(value: f64) -> Tone {
    Tone { tenths: (value * 10.0).round() as i64 }
}

#[test]
fn it_parses_to_string() {
    let result = ToneCurve { highlights: tone(1.5), shadows: tone(2.0) }.to_canonical_string();

    assert_eq!(result, "H1.5 S2");
}

#[test]
fn it_handles_negative_numbers() {
    let result = ToneCurve { highlights: tone(-2.0), shadows: tone(-3.5) }.to_canonical_string();

    assert_eq!(result, "H-2 S-3.5");
}

#[test]
fn tone_curve_round_trips() {
    for tenths in [-40i64, -35, -5, 0, 5, 10, 15, 40, 105] {
        for other in [-20i64, 0, 7] {
            let curve =
                ToneCurve { highlights: Tone { tenths }, shadows: Tone { tenths: other } };
            let text = curve.to_canonical_string();
            assert_eq!(ToneCurve::parse_canonical_string(&text), Some(curve));
        }
    }
}

#[test]
fn tone_renders_fractions_below_one() {
    assert_eq!(Tone { tenths: 5 }.to_canonical_string(), "0.5");
    assert_eq!(Tone { tenths: -5 }.to_canonical_string(), "-0.5");
    assert_eq!(Tone { tenths: 0 }.to_canonical_string(), "0");
    assert_eq!(Tone { tenths: 100 }.to_canonical_string(), "10");
    assert_eq!(Tone { tenths: i64::MIN }.to_canonical_string(), "-922337203685477580.8");
    assert_eq!(Tone { tenths: i64::MAX }.to_canonical_string(), "922337203685477580.7");
}

#[test]
fn tone_parses_decimals() {
    assert_eq!(Tone::parse_canonical_string("1.5"), Some(Tone { tenths: 15 }));
    assert_eq!(Tone::parse_canonical_string("2.0"), Some(Tone { tenths: 20 }));
    assert_eq!(Tone::parse_canonical_string("+1"), Some(Tone { tenths: 10 }));
    assert_eq!(Tone::parse_canonical_string("-0.5"), Some(Tone { tenths: -5 }));
    assert_eq!(
        Tone::parse_canonical_string("-922337203685477580.8"),
        Some(Tone { tenths: i64::MIN })
    );
    assert_eq!(Tone::parse_canonical_string("922337203685477580.8"), None);
    assert_eq!(Tone::parse_canonical_string("1."), None);
    assert_eq!(Tone::parse_canonical_string(".5"), None);
    assert_eq!(Tone::parse_canonical_string("1.55"), None);
    assert_eq!(Tone::parse_canonical_string(""), None);
    assert_eq!(Tone::parse_canonical_string("H1"), None);
}

#[test]
fn tone_curve_rejects_other_forms() {
    assert_eq!(ToneCurve::parse_canonical_string("H1.5"), None);
    assert_eq!(ToneCurve::parse_canonical_string("H1.5  S2"), None);
    assert_eq!(ToneCurve::parse_canonical_string("S1.5 H2"), None);
    assert_eq!(ToneCurve::parse_canonical_string("H1.5 S"), None);
    assert_eq!(ToneCurve::parse_canonical_string("h1.5 s2"), None);
}
