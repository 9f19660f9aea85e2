use ecosafety_core::bands::CorridorBands;
use ecosafety_core::decision::{
    has_hard_breach, has_negative, is_all_safe, safe_step, CorridorDecision, InteriorRule,
    SafeStepDecider, StepOutcome, StepReason,
};
use ecosafety_core::lifeforce::enforce_safe_step;
use ecosafety_core::mar_sat::mar_sat_safe_step;
use ecosafety_core::mar_shard::safe_step as safe_step_flags;
use ecosafety_core::residual::{Residual, RiskCoord};

fn fx(x: f64) -> i64 {
    (x * 1e9).round() as i64
}

fn coord(r: f64, safe_rx: f64) -> RiskCoord {
    RiskCoord {
        value: fx(r),
        sigma: 0,
        bands: CorridorBands::new("x", "", fx(0.0), fx(0.5), fx(1.0), fx(1.0), 0, true)
            .with_safe_interior(fx(safe_rx)),
    }
}

fn residual(vt: f64, coords: Vec<RiskCoord>) -> Residual {
    Residual { vt: fx(vt), coords }
}

#[test]
fn increased_residual_outside_the_interior_derates() {
    let prev = residual(0.2, vec![coord(0.2, 0.0)]);
    let next = residual(0.25, vec![coord(0.25, 0.0)]);
    assert_eq!(safe_step(&prev, &next), CorridorDecision::Derate);
    assert_eq!(
        SafeStepDecider::per_band().evaluate(&prev, &next),
        StepOutcome { decision: CorridorDecision::Derate, reason: StepReason::ResidualIncreased }
    );
}

#[test]
fn coordinate_beyond_the_hard_limit_stops_whatever_the_residual() {
    let prev = residual(0.9, vec![coord(0.9, 0.0)]);
    let falling = residual(0.1, vec![coord(0.3, 0.0), coord(1.2, 0.0)]);
    let rising = residual(5.0, vec![coord(0.3, 0.0), coord(1.2, 0.0)]);
    let equal = residual(0.9, vec![coord(1.2, 0.0)]);
    assert_eq!(safe_step(&prev, &falling), CorridorDecision::Stop);
    assert_eq!(safe_step(&prev, &rising), CorridorDecision::Stop);
    assert_eq!(safe_step(&prev, &equal), CorridorDecision::Stop);
    assert_eq!(
        SafeStepDecider::per_band().evaluate(&prev, &falling).reason,
        StepReason::HardBreach
    );
}

#[test]
fn coordinate_exactly_at_the_hard_limit_stops() {
    let prev = residual(1.0, vec![coord(1.0, 0.0)]);
    let next = residual(1.0, vec![coord(1.0, 0.0)]);
    assert_eq!(safe_step(&prev, &next), CorridorDecision::Stop);
    let just_below = residual(1.0, vec![coord(0.999999999, 0.0)]);
    assert_eq!(safe_step(&prev, &just_below), CorridorDecision::Okay);
}

#[test]
fn hard_limit_is_checked_before_the_interior() {
    // The coordinate lies within an interior that reaches up to 1.0, and
    // still the hard limit stops the step.
    let prev = residual(0.0, vec![coord(0.0, 1.0)]);
    let next = residual(0.0, vec![coord(1.0, 1.0)]);
    assert!(is_all_safe(InteriorRule::PerBand, &next.coords));
    assert_eq!(safe_step(&prev, &next), CorridorDecision::Stop);
}

#[test]
fn negative_coordinate_stops() {
    let prev = residual(0.5, vec![coord(0.5, 0.0)]);
    let next = residual(0.1, vec![coord(-0.1, 0.0)]);
    assert_eq!(
        SafeStepDecider::per_band().evaluate(&prev, &next),
        StepOutcome { decision: CorridorDecision::Stop, reason: StepReason::OutOfRange }
    );
}

#[test]
fn interior_state_is_accepted_even_if_the_residual_increased() {
    let prev = residual(0.01, vec![coord(0.01, 0.1)]);
    let next = residual(0.09, vec![coord(0.05, 0.1), coord(0.1, 0.1)]);
    assert_eq!(
        SafeStepDecider::per_band().evaluate(&prev, &next),
        StepOutcome { decision: CorridorDecision::Okay, reason: StepReason::SafeInterior }
    );
    // One coordinate a billionth outside the interior: the residual counts.
    let outside = residual(0.09, vec![coord(0.05, 0.1), coord(0.100000001, 0.1)]);
    assert_eq!(safe_step(&prev, &outside), CorridorDecision::Derate);
}

#[test]
fn equal_residual_counts_as_not_increased() {
    let prev = residual(0.4, vec![coord(0.4, 0.0)]);
    let next = residual(0.4, vec![coord(0.4, 0.0)]);
    assert_eq!(
        SafeStepDecider::per_band().evaluate(&prev, &next),
        StepOutcome { decision: CorridorDecision::Okay, reason: StepReason::WithinCorridors }
    );
    let lower = residual(0.399999999, vec![coord(0.4, 0.0)]);
    assert_eq!(safe_step(&prev, &lower), CorridorDecision::Okay);
    let higher = residual(0.400000001, vec![coord(0.4, 0.0)]);
    assert_eq!(safe_step(&prev, &higher), CorridorDecision::Derate);
}

#[test]
fn deciding_twice_gives_the_same_decision() {
    let prev = residual(0.3, vec![coord(0.3, 0.0)]);
    let nexts = vec![
        residual(0.2, vec![coord(0.2, 0.0)]),
        residual(0.5, vec![coord(0.5, 0.0)]),
        residual(0.5, vec![coord(1.0, 0.0)]),
        residual(0.5, vec![coord(0.0, 0.0)]),
    ];
    for next in nexts.iter() {
        assert_eq!(safe_step(&prev, next), safe_step(&prev, next));
    }
}

#[test]
fn uniform_interior_applies_one_threshold_to_all() {
    let prev = residual(0.1, vec![coord(0.1, 0.0)]);
    let next = residual(0.3, vec![coord(0.2, 0.0), coord(0.1, 0.0)]);
    assert_eq!(mar_sat_safe_step(&prev, &next, fx(0.2)), CorridorDecision::Okay);
    assert_eq!(mar_sat_safe_step(&prev, &next, fx(0.19)), CorridorDecision::Derate);
    let breach = residual(0.0, vec![coord(1.0, 0.0)]);
    assert_eq!(mar_sat_safe_step(&prev, &breach, fx(2.0)), CorridorDecision::Stop);
}

#[test]
fn disabled_interior_never_exempts() {
    let decider = SafeStepDecider { interior: InteriorRule::Disabled };
    let prev = residual(0.0, vec![]);
    let next = residual(0.1, vec![coord(0.0, 1.0)]);
    assert!(!is_all_safe(InteriorRule::Disabled, &next.coords));
    assert_eq!(decider.decide(&prev, &next), CorridorDecision::Derate);
    assert_eq!(safe_step(&prev, &next), CorridorDecision::Okay);
}

#[test]
fn flag_form_tells_throttling_from_halting() {
    let prev = residual(0.2, vec![coord(0.2, 0.0)]);
    let up = residual(0.3, vec![coord(0.3, 0.0)]);
    let d = enforce_safe_step(&prev, &up);
    assert!(d.derate);
    assert!(!d.stop);
    assert_eq!(d.reason, "Lyapunov residual increased");

    let breach = residual(0.1, vec![coord(1.0, 0.0)]);
    let d = enforce_safe_step(&prev, &breach);
    assert!(d.derate);
    assert!(d.stop);
    assert_eq!(d.reason, "hard corridor breach: r_x >= 1.0");

    let down = residual(0.1, vec![coord(0.1, 0.0)]);
    let d = enforce_safe_step(&prev, &down);
    assert!(!d.derate);
    assert!(!d.stop);
    assert_eq!(d.reason, "within corridors");
}

#[test]
fn flag_form_with_interior_passes_a_state_at_rest() {
    let prev = residual(0.0, vec![coord(0.0, 0.0)]);
    let next = residual(0.5, vec![coord(0.0, 0.0)]);
    let d = safe_step_flags(&prev, &next);
    assert!(!d.derate);
    assert!(!d.stop);
    assert_eq!(d.reason, "within the safe interior");
    let d = enforce_safe_step(&prev, &next);
    assert!(d.derate);
}

#[test]
fn scans_find_what_they_look_for() {
    let coords = vec![coord(0.1, 0.2), coord(0.999999999, 0.2), coord(0.0, 0.2)];
    assert!(!has_hard_breach(&coords));
    assert!(!has_negative(&coords));
    assert!(!is_all_safe(InteriorRule::PerBand, &coords));
    assert!(is_all_safe(InteriorRule::Uniform(fx(1.0)), &coords));
    assert!(is_all_safe(InteriorRule::PerBand, &Vec::new()));
    let with_breach = vec![coord(0.1, 0.2), coord(1.0, 0.2)];
    assert!(has_hard_breach(&with_breach));
    let with_negative = vec![coord(-0.000000001, 0.2)];
    assert!(has_negative(&with_negative));
}

#[test]
fn decisions_are_ranked_by_dominance() {
    assert_eq!(CorridorDecision::Okay.code(), 0);
    assert_eq!(CorridorDecision::Derate.code(), 1);
    assert_eq!(CorridorDecision::Stop.code(), 2);
    assert_eq!(CorridorDecision::Okay.max(CorridorDecision::Derate), CorridorDecision::Derate);
    assert_eq!(CorridorDecision::Stop.max(CorridorDecision::Derate), CorridorDecision::Stop);
    assert_eq!(CorridorDecision::Okay.max(CorridorDecision::Okay), CorridorDecision::Okay);
    assert!(CorridorDecision::Stop.stop() && CorridorDecision::Stop.derate());
    assert!(!CorridorDecision::Derate.stop() && CorridorDecision::Derate.derate());
    assert!(!CorridorDecision::Okay.stop() && !CorridorDecision::Okay.derate());
}

#[test]
fn reasons_have_messages() {
    assert_eq!(StepReason::HardBreach.message(), "hard corridor breach: r_x >= 1.0");
    assert_eq!(StepReason::OutOfRange.message(), "risk coordinate below 0.0");
    assert_eq!(StepReason::SafeInterior.message(), "within the safe interior");
    assert_eq!(StepReason::WithinCorridors.message(), "within corridors");
    assert_eq!(StepReason::ResidualIncreased.message(), "Lyapunov residual increased");
    assert_eq!(StepReason::MalformedInput.message(), "malformed input");
}
