use process_remote::evaluation::{
    call_expression, judge_evaluation, EvaluationError, RawEvaluation, RemoteValue, Status,
    NO_RESULT_CODE,
};

fn report(failure: bool, code: u32, message: &str) -> Status {
    Status { failure, code, message: message.to_string() }
}

#[test]
fn void_call_reports_success() {
    let raw = RawEvaluation {
        signed: None,
        status: Some(report(true, 0x1001, "error: unknown error")),
    };
    assert_eq!(judge_evaluation(raw), Ok(RemoteValue::NoResult));
    assert_eq!(NO_RESULT_CODE, 0x1001);
}

#[test]
fn no_result_wins_over_a_value() {
    let raw = RawEvaluation { signed: Some(3), status: Some(report(true, 0x1001, "")) };
    assert_eq!(judge_evaluation(raw), Ok(RemoteValue::NoResult));
}

#[test]
fn invalid_expression_reports_failure_with_diagnostic() {
    let raw = RawEvaluation {
        signed: None,
        status: Some(report(true, 1, "error: expected expression")),
    };
    let outcome = judge_evaluation(raw);
    assert_eq!(
        outcome,
        Err(EvaluationError { code: 1, message: "error: expected expression".to_string() })
    );
    assert!(!outcome.unwrap_err().message.is_empty());
}

#[test]
fn every_other_failure_code_is_fatal() {
    for code in [0u32, 1, 2, 0x1000, 0x1002, u32::MAX] {
        let raw = RawEvaluation { signed: Some(5), status: Some(report(true, code, "boom")) };
        assert_eq!(
            judge_evaluation(raw),
            Err(EvaluationError { code, message: "boom".to_string() })
        );
    }
}

#[test]
fn success_gives_the_value() {
    let raw = RawEvaluation { signed: Some(-4), status: Some(report(false, 0, "")) };
    assert_eq!(judge_evaluation(raw), Ok(RemoteValue::Signed(-4)));
    let raw = RawEvaluation { signed: Some(12), status: None };
    assert_eq!(judge_evaluation(raw), Ok(RemoteValue::Signed(12)));
    let raw = RawEvaluation { signed: None, status: None };
    assert_eq!(judge_evaluation(raw), Ok(RemoteValue::NoResult));
    let raw = RawEvaluation { signed: Some(1), status: Some(report(false, 0x1001, "")) };
    assert_eq!(judge_evaluation(raw), Ok(RemoteValue::Signed(1)));
}

#[test]
fn remote_value_views() {
    assert_eq!(RemoteValue::NoResult.as_signed(), None);
    assert_eq!(RemoteValue::NoResult.as_address(), None);
    assert_eq!(RemoteValue::NoResult.as_count(), None);
    assert_eq!(RemoteValue::Signed(42).as_signed(), Some(42));
    assert_eq!(RemoteValue::Signed(42).as_address(), Some(42));
    assert_eq!(RemoteValue::Signed(42).as_count(), Some(42));
    assert_eq!(RemoteValue::Signed(0).as_count(), Some(0));
    assert_eq!(RemoteValue::Signed(-1).as_count(), None);
    assert_eq!(RemoteValue::Signed(-1).as_address(), Some(u64::MAX));
    assert_eq!(RemoteValue::Signed(i64::MIN).as_address(), Some(0x8000_0000_0000_0000));
    assert_eq!(RemoteValue::Signed(i64::MAX).as_address(), Some(0x7fff_ffff_ffff_ffff));
    for v in [-2i64, -4096, i64::MIN + 1, 77] {
        assert_eq!(RemoteValue::Signed(v).as_address(), Some(v as u64));
    }
}

#[test]
fn status_into_result() {
    assert_eq!(Status::success().into_result(7), Ok(7));
    assert_eq!(Status::success(), report(false, 0, ""));
    assert!(Status::success().is_success());
    assert!(!Status::success().is_failure());
    let failed = report(true, 9, "no");
    assert!(failed.is_failure());
    assert!(!failed.is_success());
    assert_eq!(failed.clone().into_result(7), Err(failed));
}

#[test]
fn call_expression_text() {
    assert_eq!(call_expression(4302340096), "((void (*)())(4302340096))()");
    assert_eq!(call_expression(0), "((void (*)())(0))()");
    assert_eq!(call_expression(u64::MAX), "((void (*)())(18446744073709551615))()");
    let saver_save: u64 = 140735;
    assert_eq!(call_expression(saver_save), format!("((void (*)())({saver_save}))()"));
}
