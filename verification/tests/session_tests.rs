use net_loginer::addresses::Ipv4Address;
use net_loginer::decoder::decode_labels;
use net_loginer::session::LoginOutcome;
use net_loginer::session::LoginSession;
use net_loginer::session::SessionAction;
use net_loginer::session::run_continues;
use net_loginer::AuthResult;

fn charset() -> Vec<String> {
    vec![
        String::from("_"),
        String::from("7"),
        String::from("f"),
        String::from("3"),
        String::from("k"),
    ]
}

fn test_address() -> Ipv4Address {
    Ipv4Address { a: 10, b: 20, c: 30, d: 40 }
}

fn new_session(expected_len: Option<usize>, budget: u64) -> LoginSession {
    LoginSession::new(
        String::from("student"),
        String::from("secret"),
        test_address(),
        expected_len,
        budget,
    )
}

/// Drives a session against a stubbed portal: each fetch yields the
/// next label sequence (the last one repeating), the stubbed login
/// endpoint accepts exactly the code `"7f3k"`. Returns the outcome
/// and how many challenges were fetched.
fn run_stubbed(session: &mut LoginSession, reads: &[Vec<i64>]) -> (LoginOutcome, usize) {
    let cs = charset();
    let mut fetches = 0usize;
    loop {
        // Fetch page tokens and a challenge image, classify it.
        let labels = &reads[fetches.min(reads.len() - 1)];
        fetches += 1;
        let code = decode_labels(labels, &cs);
        let action = session.on_challenge(String::from("p1"), String::from("s1"), code);
        let form = match action {
            SessionAction::FetchChallenge => continue,
            SessionAction::Stop(outcome) => return (outcome, fetches),
            SessionAction::Submit(form) => form,
        };
        // Stubbed login endpoint: success only for the true code.
        let submitted = &form.iter().find(|p| p.0 == "validCode").expect("form has validCode").1;
        let result = if submitted == "7f3k" {
            AuthResult::Success
        } else {
            AuthResult::InvalidVerifyCode
        };
        match session.on_response(result) {
            SessionAction::FetchChallenge => continue,
            SessionAction::Stop(outcome) => return (outcome, fetches),
            SessionAction::Submit(_) => unreachable!("a response never submits directly"),
        }
    }
}

#[test]
fn stubbed_run_succeeds_first_time() {
    // Ground truth: labels collapse to "7f3k".
    let mut session = new_session(Some(4), 3);
    let (outcome, fetches) = run_stubbed(&mut session, &[vec![1, 1, 0, 2, 3, 0, 4]]);
    assert_eq!(outcome, LoginOutcome::Success);
    assert_eq!(fetches, 1);
    assert_eq!(session.outcome(), Some(LoginOutcome::Success));
}

#[test]
fn implausible_code_refetches_before_submitting() {
    // First read collapses to "7f3" (three characters): too short to
    // submit, so a fresh challenge is fetched; the second read is good.
    let mut session = new_session(Some(4), 3);
    let (outcome, fetches) =
        run_stubbed(&mut session, &[vec![1, 2, 3], vec![1, 0, 2, 3, 4]]);
    assert_eq!(outcome, LoginOutcome::Success);
    assert_eq!(fetches, 2);
}

#[test]
fn rejected_code_retries_exactly_once_before_succeeding() {
    // No length expectation: the misread "7f3" is submitted, the
    // server answers with the wrong-code errorcode, and exactly one
    // more page-fetch+challenge cycle runs.
    let mut session = new_session(None, 3);
    let (outcome, fetches) =
        run_stubbed(&mut session, &[vec![1, 2, 3], vec![1, 0, 2, 3, 4]]);
    assert_eq!(outcome, LoginOutcome::Success);
    assert_eq!(fetches, 2);
}

#[test]
fn exhausted_budget_stops_the_session() {
    // Every read is wrong; a budget of 2 allows two refetches, then
    // the session finishes exhausted after the third rejection.
    let mut session = new_session(None, 2);
    let (outcome, fetches) = run_stubbed(&mut session, &[vec![1, 2, 3]]);
    assert_eq!(outcome, LoginOutcome::RetryBudgetExhausted);
    assert_eq!(fetches, 3);
}

#[test]
fn zero_budget_never_retries() {
    let mut session = new_session(None, 0);
    let (outcome, fetches) = run_stubbed(&mut session, &[vec![1, 2, 3]]);
    assert_eq!(outcome, LoginOutcome::RetryBudgetExhausted);
    assert_eq!(fetches, 1);
}

#[test]
fn terminal_responses_stop_with_their_outcome() {
    let mut session = new_session(None, 3);
    session.on_challenge(String::from("p"), String::from("s"), String::from("7f3k"));
    match session.on_response(AuthResult::UserNotFound) {
        SessionAction::Stop(outcome) => assert_eq!(outcome, LoginOutcome::UserNotFound),
        _ => panic!("UserNotFound is terminal"),
    }

    let mut session = new_session(None, 3);
    session.on_challenge(String::from("p"), String::from("s"), String::from("7f3k"));
    match session.on_response(AuthResult::UserLocked(12)) {
        SessionAction::Stop(outcome) => assert_eq!(outcome, LoginOutcome::UserLocked(12)),
        _ => panic!("UserLocked is terminal"),
    }

    let mut session = new_session(None, 3);
    session.on_challenge(String::from("p"), String::from("s"), String::from("7f3k"));
    match session.on_response(AuthResult::InvalidPassword(2, 30)) {
        SessionAction::Stop(outcome) => {
            assert_eq!(outcome, LoginOutcome::InvalidPassword(2, 30))
        },
        _ => panic!("InvalidPassword is terminal"),
    }
}

#[test]
fn submitted_form_carries_session_fields() {
    let mut session = new_session(None, 1);
    let action =
        session.on_challenge(String::from("pageX"), String::from("ssidY"), String::from("7f3k"));
    let form = match action {
        SessionAction::Submit(form) => form,
        _ => panic!("a plausible code is submitted"),
    };
    let get = |k: &str| form.iter().find(|p| p.0 == k).expect("field present").1.clone();
    assert_eq!(get("userName"), "student");
    assert_eq!(get("userPass"), "secret");
    assert_eq!(get("uaddress"), "10.20.30.40");
    assert_eq!(get("validCode"), "7f3k");
    assert_eq!(get("pushPageId"), "pageX");
    assert_eq!(get("ssid"), "ssidY");
    assert_eq!(get("agreed"), "1");
    assert_eq!(get("authType"), "1");
}

#[test]
fn run_policy_is_a_configuration_choice() {
    assert!(run_continues(&LoginOutcome::Success, false));
    assert!(run_continues(&LoginOutcome::Success, true));
    assert!(!run_continues(&LoginOutcome::UserLocked(5), false));
    assert!(run_continues(&LoginOutcome::UserLocked(5), true));
    assert!(!run_continues(&LoginOutcome::RetryBudgetExhausted, false));
}
