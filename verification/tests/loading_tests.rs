use mlxcel_models::apertus::{default_beta, default_eps};
use mlxcel_models::bailing_moe;
use mlxcel_models::bailing_moe_linear;
use mlxcel_models::afmoe;
use mlxcel_models::plan::flatten;
use mlxcel_models::single::{scale_width, Single};
use mlxcel_models::steps::{Action, StepKind, Steps};
use mlxcel_models::text::{decimal, same, shape_string, signed, text};
use mlxcel_models::weights::WeightMap;

fn single(x: f32) -> Single {
    Single { bits: x.to_bits(), text: x.to_string() }
}

#[test]
fn a_step_takes_builds_skips_or_fails() {
    let mut weights = WeightMap::new();
    weights.insert("here".into(), vec![1]);
    let mut steps = Steps::new();
    steps.push(StepKind::Tensor, "here".into());
    steps.push(StepKind::Tensor, "gone".into());
    steps.push(StepKind::OptionalTensor, "here".into());
    steps.push(StepKind::OptionalScalar, "gone".into());
    steps.push(StepKind::Scalar, "gone".into());
    steps.push(StepKind::Linear, "gone".into());
    steps.push(StepKind::Refuse, "why".into());
    let told: Vec<String> = (0..steps.len())
        .map(|i| match steps.get(i).action(&weights) {
            Action::Build => "build".to_string(),
            Action::Take => "take".to_string(),
            Action::Skip => "skip".to_string(),
            Action::Fail(e) => e,
        })
        .collect();
    assert_eq!(
        told,
        vec!["take", "Weight not found: gone", "take", "skip", "Weight not found: gone", "build", "why"]
    );
}

#[test]
fn numbers_and_shapes_are_written_out() {
    assert_eq!(decimal(0), "0");
    assert_eq!(decimal(u64::MAX), "18446744073709551615");
    assert_eq!(signed(-2147483648), "-2147483648");
    assert_eq!(shape_string(&vec![]), "[]");
    assert_eq!(shape_string(&vec![1, -2, 30]), "[1, -2, 30]");
    let s = text("a").lit("b").num(7).whole(-3).shape(&vec![4]).opt(None).opt(Some(5)).done();
    assert_eq!(s, "ab7-3[4]NoneSome(5)");
    assert!(same("x", "x") && !same("x", "X"));
}

#[test]
fn weights_are_replaced_and_removed() {
    let mut weights = WeightMap::new();
    weights.insert("a".into(), vec![1]);
    weights.insert("a".into(), vec![2, 3]);
    weights.insert("b".into(), vec![]);
    assert_eq!(weights.len(), 2);
    assert_eq!(weights.get("a"), Some(&vec![2, 3]));
    weights.remove("a");
    assert!(!weights.contains_key("a"));
    assert_eq!(weights.len(), 1);
}

#[test]
fn scaled_widths_round_as_single_precision_does() {
    let mut state: u64 = 0x9e37_79b9_7f4a_7c15;
    for _ in 0..20000 {
        state = state.wrapping_mul(6364136223846793005).wrapping_add(1442695040888963407);
        let bits = (state >> 32) as u32;
        let width = (state & 0xffff_ffff) as usize >> ((state >> 7) % 32);
        let factor = f32::from_bits(bits);
        let expected = (width as f32 * factor) as i32;
        assert_eq!(scale_width(&single(factor), width), expected, "{factor} {width}");
    }
}

#[test]
fn singles_are_classified() {
    for (x, finite, positive) in [
        (0.0f32, true, false),
        (-0.0, true, false),
        (1e-45, true, true),
        (-1.0, true, false),
        (f32::INFINITY, false, true),
        (f32::NEG_INFINITY, false, false),
        (f32::NAN, false, false),
    ] {
        let s = single(x);
        assert_eq!(s.is_finite(), finite, "{x}");
        assert_eq!(s.is_positive(), positive, "{x}");
        assert_eq!(s.is_one(), x == 1.0, "{x}");
    }
    assert!(single(1.0).is_one());
}

#[test]
fn default_singles_render_like_the_float_they_hold() {
    let all = [
        default_beta(),
        default_eps(),
        afmoe::default_rms_norm_eps(),
        afmoe::default_rope_theta(),
        afmoe::default_route_scale(),
        bailing_moe::default_rms_norm_eps(),
        bailing_moe::default_rope_theta(),
        bailing_moe::default_partial_rotary_factor(),
        bailing_moe::default_routed_scaling_factor(),
        bailing_moe_linear::default_rms_norm_eps(),
        bailing_moe_linear::default_rope_theta(),
        bailing_moe_linear::default_partial_rotary_factor(),
        bailing_moe_linear::default_routed_scaling_factor(),
    ];
    for s in all {
        assert_eq!(f32::from_bits(s.bits).to_string(), s.text);
    }
}

#[test]
fn flattening_keeps_every_element() {
    let flat = flatten(&vec![2, 3, 5, 7]);
    assert_eq!(flat.tokens.unwrap() * flat.hidden, 2 * 3 * 5 * 7);
    assert_eq!(flatten(&vec![0, 3, 5]).tokens, Some(0));
    assert!(flatten(&vec![1, 1, 5]).single_token);
    assert!(!flatten(&vec![2, 5]).single_token);
}
