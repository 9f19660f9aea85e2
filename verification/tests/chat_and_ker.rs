use ecosafety_core::chat::{
    check_response_against_session, ChatKerCheck, ChatResponseShardV1, ChatSessionParticleV1,
    RISK_TOLERANCE,
};
use ecosafety_core::fixed::ONE;
use ecosafety_core::ker::{ker_delta, update_ker, KerMetrics, KerScore, KerTriple};

fn fx(x: f64) -> i64 {
    (x * 1e9).round() as i64
}

fn ker(k: f64, e: f64, r: f64) -> KerTriple {
    KerTriple { k: fx(k), e: fx(e), r: fx(r) }
}

fn session(max_risk: f64) -> ChatSessionParticleV1 {
    ChatSessionParticleV1 {
        session_id: "s".to_string(),
        ker: ker(0.9, 0.9, 0.1),
        max_risk_of_harm_allowed: fx(max_risk),
    }
}

fn response(r: f64) -> ChatResponseShardV1 {
    ChatResponseShardV1 { response_id: "r".to_string(), ker: ker(0.9, 0.9, r) }
}

#[test]
fn ker_delta_respects_thresholds() {
    assert!(ker_delta(
        fx(0.90),
        fx(0.88),
        fx(0.15),
        fx(0.93),
        fx(0.90),
        fx(0.13),
        fx(0.90),
        fx(0.89),
        fx(0.13)
    ));
    assert!(!ker_delta(
        fx(0.90),
        fx(0.88),
        fx(0.15),
        fx(0.89),
        fx(0.90),
        fx(0.13),
        fx(0.90),
        fx(0.89),
        fx(0.13)
    ));
}

#[test]
fn ker_delta_rejects_each_degradation() {
    let ok = |nk: f64, ne: f64, nr: f64| {
        ker_delta(fx(0.5), fx(0.5), fx(0.5), fx(nk), fx(ne), fx(nr), fx(0.5), fx(0.5), fx(0.5))
    };
    assert!(ok(0.5, 0.5, 0.5));
    assert!(!ok(0.49, 0.5, 0.5));
    assert!(!ok(0.5, 0.49, 0.5));
    assert!(!ok(0.5, 0.5, 0.51));
    // Not degrading, but short of the thresholds.
    assert!(!ker_delta(0, 0, ONE, fx(0.4), fx(0.9), fx(0.1), fx(0.5), fx(0.5), fx(0.5)));
    assert!(!ker_delta(0, 0, ONE, fx(0.9), fx(0.9), fx(0.6), fx(0.5), fx(0.5), fx(0.5)));
}

#[test]
fn well_formed_scores_lie_in_the_unit_interval() {
    assert!(ker(0.0, 0.5, 1.0).is_well_formed());
    assert!(!ker(-0.1, 0.5, 1.0).is_well_formed());
    assert!(!ker(0.1, 1.5, 1.0).is_well_formed());
    assert!(!ker(0.1, 0.5, 1.000000001).is_well_formed());
    let m: KerMetrics = ker(0.2, 0.2, 0.2);
    assert!(m.is_well_formed());
}

#[test]
fn evidence_moves_the_scores_by_its_weight() {
    let before: KerScore = ker(0.8, 0.6, 0.2);
    let after = update_ker(before, fx(0.5));
    // k + 0.5 (1 - k), e + 0.5 (1 - e), r (1 - 0.5)
    assert_eq!(after, ker(0.9, 0.8, 0.1));
    assert_eq!(update_ker(before, 0), before);
    assert_eq!(update_ker(before, ONE), ker(1.0, 1.0, 0.0));
}

#[test]
fn evidence_weight_is_limited_to_the_unit_interval() {
    let before = ker(0.8, 0.6, 0.2);
    assert_eq!(update_ker(before, fx(7.0)), update_ker(before, ONE));
    assert_eq!(update_ker(before, fx(-7.0)), update_ker(before, 0));
}

#[test]
fn update_always_yields_well_formed_scores() {
    let wild = KerTriple { k: i64::MIN, e: i64::MAX, r: i64::MIN };
    assert!(update_ker(wild, fx(0.3)).is_well_formed());
    let wild = KerTriple { k: i64::MAX, e: i64::MIN, r: i64::MAX };
    assert!(update_ker(wild, fx(0.3)).is_well_formed());
    assert_eq!(update_ker(ker(2.0, -1.0, 3.0), 0), ker(1.0, 0.0, 1.0));
}

#[test]
fn response_within_the_limit_is_admissible() {
    assert_eq!(check_response_against_session(&session(0.2), &response(0.1)), ChatKerCheck::Okay);
    assert_eq!(check_response_against_session(&session(0.2), &response(0.2)), ChatKerCheck::Okay);
}

#[test]
fn tolerance_is_one_billionth() {
    assert_eq!(RISK_TOLERANCE, 1);
    let s = session(0.2);
    let mut r = response(0.2);
    r.ker.r += 1;
    assert_eq!(check_response_against_session(&s, &r), ChatKerCheck::Okay);
    r.ker.r += 1;
    assert_eq!(check_response_against_session(&s, &r), ChatKerCheck::RiskExceedsSessionLimit);
}

#[test]
fn malformed_session_is_reported_first() {
    let mut s = session(0.2);
    s.ker.k = fx(1.5);
    let mut r = response(0.9);
    r.ker.e = fx(-1.0);
    assert_eq!(check_response_against_session(&s, &r), ChatKerCheck::SessionKerMalformed);
    let bad_limit = session(1.5);
    assert_eq!(
        check_response_against_session(&bad_limit, &response(0.1)),
        ChatKerCheck::SessionKerMalformed
    );
    assert_eq!(
        check_response_against_session(&session(0.2), &r),
        ChatKerCheck::ResponseKerMalformed
    );
}
