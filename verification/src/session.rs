//! One login attempt for one address, as a state machine over the
//! transport's events. The surrounding application performs the
//! fetches and the submission; every decision — when to submit, when
//! to refetch a challenge, when to stop and with what outcome — is
//! made here, with a bounded retry budget for wrong or implausible
//! verify codes.

use vstd::prelude::*;
use crate::addresses::Ipv4Address;
use crate::portal::login_form;
use crate::portal::pairs_view;
use crate::portal::spec_login_form;
use crate::protocol::AuthResult;
use vstd::string::StrSliceExecFns;

verus! {

/// Terminal result of one address's login attempt.
#[derive(Clone, Copy, Debug, PartialEq, Eq, Structural)]
pub enum LoginOutcome {
    Success,
    UserNotFound,
    InvalidPassword(i64, u64),
    UserLocked(u64),
    RetryBudgetExhausted,
}

/// Where a session stands between two events.
#[derive(Clone, Copy, Debug, PartialEq, Eq, Structural)]
pub enum SessionPhase {
    /// Waiting for the page tokens and a classified challenge image.
    AwaitingChallenge,
    /// Waiting for the server's answer to a submitted form.
    AwaitingResponse,
    /// Done, with the terminal outcome.
    Finished(LoginOutcome),
}

/// What the transport must do next.
pub enum SessionAction {
    /// Fetch fresh page tokens and a fresh challenge image, classify
    /// it, and report back with `on_challenge`.
    FetchChallenge,
    /// Post this form to the login endpoint and report the parsed
    /// response back with `on_response`.
    Submit(Vec<(String, String)>),
    /// Stop working on this address.
    Stop(LoginOutcome),
}

/// A decoded verify code is plausible when it has the expected length,
/// if one is imposed.
pub open spec fn code_plausible(expected: Option<usize>, code_len: nat) -> bool {
    match expected {
        None => true,
        Some(l) => code_len == l,
    }
}

/// The state machine for one address. Page tokens and challenge are
/// single-use: every retry starts again from `FetchChallenge`.
pub struct LoginSession {
    /// Account name submitted as `userName`.
    pub user_id: String,
    /// Account password submitted as `userPass`.
    pub password: String,
    /// The local address this attempt is for.
    pub address: Ipv4Address,
    /// Length the decoded verify code must have to be submitted;
    /// `None` imposes no check.
    pub expected_code_len: Option<usize>,
    /// How many more times a wrong or implausible verify code may send
    /// the session back to a fresh challenge.
    pub retries_left: u64,
    /// Where the session stands.
    pub phase: SessionPhase,
}

impl LoginSession {
    /// Starts a session: the first action is always to fetch a
    /// challenge.
    pub fn new(
        user_id: String,
        password: String,
        address: Ipv4Address,
        expected_code_len: Option<usize>,
        retry_budget: u64,
    ) -> (s: LoginSession)
        ensures
            s.user_id == user_id,
            s.password == password,
            s.address == address,
            s.expected_code_len == expected_code_len,
            s.retries_left == retry_budget,
            s.phase == SessionPhase::AwaitingChallenge,
    {
        LoginSession {
            user_id,
            password,
            address,
            expected_code_len,
            retries_left: retry_budget,
            phase: SessionPhase::AwaitingChallenge,
        }
    }

    /// The credentials, address and code-length policy never change
    /// over a session's life.
    pub open spec fn same_config(self, other: LoginSession) -> bool {
        &&& self.user_id == other.user_id
        &&& self.password == other.password
        &&& self.address == other.address
        &&& self.expected_code_len == other.expected_code_len
    }

    /// Feeds the session a classified challenge: the page tokens and
    /// the decoded verify code. A plausible code is submitted as the
    /// login form; an implausible one is retried on a fresh challenge
    /// while the budget lasts, and exhausts the session when it is
    /// spent.
    pub fn on_challenge(
        &mut self,
        push_page_id: String,
        ssid: String,
        verify_code: String,
    ) -> (action: SessionAction)
        requires
            old(self).phase == SessionPhase::AwaitingChallenge,
        ensures
            old(self).same_config(*final(self)),
            if code_plausible(old(self).expected_code_len, verify_code@.len()) {
                &&& final(self).phase == SessionPhase::AwaitingResponse
                &&& final(self).retries_left == old(self).retries_left
                &&& action matches SessionAction::Submit(form) && pairs_view(form@)
                    == spec_login_form(
                    old(self).user_id@,
                    old(self).password@,
                    old(self).address,
                    verify_code@,
                    push_page_id@,
                    ssid@,
                )
            } else if old(self).retries_left > 0 {
                &&& final(self).phase == SessionPhase::AwaitingChallenge
                &&& final(self).retries_left == old(self).retries_left - 1
                &&& action is FetchChallenge
            } else {
                &&& final(self).phase == SessionPhase::Finished(
                    LoginOutcome::RetryBudgetExhausted,
                )
                &&& final(self).retries_left == 0
                &&& action matches SessionAction::Stop(o) && o
                    == LoginOutcome::RetryBudgetExhausted
            },
    {
        let plausible = match self.expected_code_len {
            None => true,
            Some(l) => verify_code.as_str().unicode_len() == l,
        };
        if plausible {
            let form = login_form(
                &self.user_id,
                &self.password,
                &self.address,
                &verify_code,
                &push_page_id,
                &ssid,
            );
            self.phase = SessionPhase::AwaitingResponse;
            SessionAction::Submit(form)
        } else if self.retries_left > 0 {
            self.retries_left = self.retries_left - 1;
            self.phase = SessionPhase::AwaitingChallenge;
            SessionAction::FetchChallenge
        } else {
            self.phase = SessionPhase::Finished(LoginOutcome::RetryBudgetExhausted);
            SessionAction::Stop(LoginOutcome::RetryBudgetExhausted)
        }
    }

    /// Feeds the session the server's parsed answer to a submission.
    /// Success and the three domain failures are terminal; a wrong
    /// verify code goes back to a fresh challenge while the budget
    /// lasts, and exhausts the session when it is spent.
    pub fn on_response(&mut self, result: AuthResult) -> (action: SessionAction)
        requires
            old(self).phase == SessionPhase::AwaitingResponse,
        ensures
            old(self).same_config(*final(self)),
            match result {
                AuthResult::Success => {
                    &&& final(self).phase == SessionPhase::Finished(LoginOutcome::Success)
                    &&& final(self).retries_left == old(self).retries_left
                    &&& action matches SessionAction::Stop(o) && o == LoginOutcome::Success
                },
                AuthResult::UserNotFound => {
                    &&& final(self).phase == SessionPhase::Finished(LoginOutcome::UserNotFound)
                    &&& final(self).retries_left == old(self).retries_left
                    &&& action matches SessionAction::Stop(o) && o == LoginOutcome::UserNotFound
                },
                AuthResult::UserLocked(m) => {
                    &&& final(self).phase == SessionPhase::Finished(LoginOutcome::UserLocked(m))
                    &&& final(self).retries_left == old(self).retries_left
                    &&& action matches SessionAction::Stop(o) && o == LoginOutcome::UserLocked(m)
                },
                AuthResult::InvalidPassword(t, l) => {
                    &&& final(self).phase == SessionPhase::Finished(
                        LoginOutcome::InvalidPassword(t, l),
                    )
                    &&& final(self).retries_left == old(self).retries_left
                    &&& action matches SessionAction::Stop(o) && o
                        == LoginOutcome::InvalidPassword(t, l)
                },
                AuthResult::InvalidVerifyCode => if old(self).retries_left > 0 {
                    &&& final(self).phase == SessionPhase::AwaitingChallenge
                    &&& final(self).retries_left == old(self).retries_left - 1
                    &&& action is FetchChallenge
                } else {
                    &&& final(self).phase == SessionPhase::Finished(
                        LoginOutcome::RetryBudgetExhausted,
                    )
                    &&& final(self).retries_left == 0
                    &&& action matches SessionAction::Stop(o) && o
                        == LoginOutcome::RetryBudgetExhausted
                },
            },
    {
        match result {
            AuthResult::Success => {
                self.phase = SessionPhase::Finished(LoginOutcome::Success);
                SessionAction::Stop(LoginOutcome::Success)
            },
            AuthResult::UserNotFound => {
                self.phase = SessionPhase::Finished(LoginOutcome::UserNotFound);
                SessionAction::Stop(LoginOutcome::UserNotFound)
            },
            AuthResult::UserLocked(m) => {
                self.phase = SessionPhase::Finished(LoginOutcome::UserLocked(m));
                SessionAction::Stop(LoginOutcome::UserLocked(m))
            },
            AuthResult::InvalidPassword(t, l) => {
                self.phase = SessionPhase::Finished(LoginOutcome::InvalidPassword(t, l));
                SessionAction::Stop(LoginOutcome::InvalidPassword(t, l))
            },
            AuthResult::InvalidVerifyCode => {
                if self.retries_left > 0 {
                    self.retries_left = self.retries_left - 1;
                    self.phase = SessionPhase::AwaitingChallenge;
                    SessionAction::FetchChallenge
                } else {
                    self.phase = SessionPhase::Finished(LoginOutcome::RetryBudgetExhausted);
                    SessionAction::Stop(LoginOutcome::RetryBudgetExhausted)
                }
            },
        }
    }

    /// Whether the session has reached a terminal outcome.
    pub fn is_finished(&self) -> (b: bool)
        ensures
            b == (self.phase matches SessionPhase::Finished(_)),
    {
        match self.phase {
            SessionPhase::Finished(_) => true,
            _ => false,
        }
    }

    /// The terminal outcome, once the session is finished.
    pub fn outcome(&self) -> (r: Option<LoginOutcome>)
        ensures
            match self.phase {
                SessionPhase::Finished(o) => r == Some(o),
                _ => r is None,
            },
    {
        match self.phase {
            SessionPhase::Finished(o) => Some(o),
            _ => None,
        }
    }
}

/// Whether the run over the discovered addresses goes on to the next
/// address after this outcome. Success always continues; whether a
/// domain failure aborts the whole run or only this address's attempt
/// is the caller's configuration choice.
pub fn run_continues(outcome: &LoginOutcome, continue_on_failure: bool) -> (b: bool)
    ensures
        b == (*outcome == LoginOutcome::Success || continue_on_failure),
{
    match outcome {
        LoginOutcome::Success => true,
        _ => continue_on_failure,
    }
}

} // verus!
