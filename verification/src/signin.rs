//! Signing in to the learning platform as a state machine: each state names
//! the browser action to perform next, and the outcome of that action (it
//! succeeded or it failed) decides the state that follows.
use vstd::prelude::*;

verus! {

/// Where a sign-in stands, named by the action to perform next.
#[derive(Clone, Copy, Debug, PartialEq, Eq, Structural)]
pub enum SignInStep {
    /// find the e-mail field, type the address and Return
    EnterEmail,
    /// find the password field and type the password
    EnterPassword,
    /// wait until the submit button of the e-mail page goes stale
    AwaitStaleSubmit,
    /// click submit; a failed click is tried again
    Submit,
    /// click submit on the page that offers to remember the login
    ConfirmSave,
    /// look for a pop-up without waiting; its absence is no failure
    FindPopup,
    /// close the pop-up that was found
    ClosePopup,
    /// signed in
    Done,
    /// an action failed; the sign-in stops with its error
    Failed,
}

/// The order in which the actions of a sign-in come: e-mail, password, the
/// stale submit button, submit, the confirmation, the pop-up search, closing
/// the pop-up, then done (`Failed` is put last).
pub open spec fn sign_in_position(step: SignInStep) -> nat {
    match step {
        SignInStep::EnterEmail => 0,
        SignInStep::EnterPassword => 1,
        SignInStep::AwaitStaleSubmit => 2,
        SignInStep::Submit => 3,
        SignInStep::ConfirmSave => 4,
        SignInStep::FindPopup => 5,
        SignInStep::ClosePopup => 6,
        SignInStep::Done => 7,
        SignInStep::Failed => 8,
    }
}

/// The step after `step` when its action succeeded (`ok`) or failed.
pub open spec fn next_step_spec(step: SignInStep, ok: bool) -> SignInStep {
    match step {
        SignInStep::EnterEmail => if ok { SignInStep::EnterPassword } else { SignInStep::Failed },
        SignInStep::EnterPassword => if ok { SignInStep::AwaitStaleSubmit } else { SignInStep::Failed },
        SignInStep::AwaitStaleSubmit => if ok { SignInStep::Submit } else { SignInStep::Failed },
        SignInStep::Submit => if ok { SignInStep::ConfirmSave } else { SignInStep::Submit },
        SignInStep::ConfirmSave => if ok { SignInStep::FindPopup } else { SignInStep::Failed },
        SignInStep::FindPopup => if ok { SignInStep::ClosePopup } else { SignInStep::Done },
        SignInStep::ClosePopup => if ok { SignInStep::Done } else { SignInStep::Failed },
        SignInStep::Done => SignInStep::Done,
        SignInStep::Failed => SignInStep::Failed,
    }
}

/// Whether the sign-in has ended, well or not.
pub open spec fn is_finished_spec(step: SignInStep) -> bool {
    step == SignInStep::Done || step == SignInStep::Failed
}

/// The step reached from `step` through the outcomes in `outcomes`, in order.
pub open spec fn run(step: SignInStep, outcomes: Seq<bool>) -> SignInStep
    decreases outcomes.len(),
{
    if outcomes.len() == 0 {
        step
    } else {
        run(next_step_spec(step, outcomes[0]), outcomes.drop_first())
    }
}

impl SignInStep {
    /// The step a sign-in starts with.
    pub fn start() -> (s: SignInStep)
        ensures
            s == SignInStep::EnterEmail,
    {
        SignInStep::EnterEmail
    }

    /// The step that follows this one once its action has succeeded (`ok`) or
    /// failed.
    pub fn next(&self, ok: bool) -> (s: SignInStep)
        ensures
            s == next_step_spec(*self, ok),
            !is_finished_spec(*self) && ok ==> sign_in_position(s) == sign_in_position(*self) + 1,
            *self == SignInStep::Submit && !ok ==> s == SignInStep::Submit,
            *self == SignInStep::FindPopup && !ok ==> s == SignInStep::Done,
            !is_finished_spec(*self) && *self != SignInStep::Submit && *self != SignInStep::FindPopup
                && !ok ==> s == SignInStep::Failed,
            is_finished_spec(*self) ==> s == *self,
    {
        match self {
            SignInStep::EnterEmail => if ok { SignInStep::EnterPassword } else { SignInStep::Failed },
            SignInStep::EnterPassword => if ok { SignInStep::AwaitStaleSubmit } else { SignInStep::Failed },
            SignInStep::AwaitStaleSubmit => if ok { SignInStep::Submit } else { SignInStep::Failed },
            SignInStep::Submit => if ok { SignInStep::ConfirmSave } else { SignInStep::Submit },
            SignInStep::ConfirmSave => if ok { SignInStep::FindPopup } else { SignInStep::Failed },
            SignInStep::FindPopup => if ok { SignInStep::ClosePopup } else { SignInStep::Done },
            SignInStep::ClosePopup => if ok { SignInStep::Done } else { SignInStep::Failed },
            SignInStep::Done => SignInStep::Done,
            SignInStep::Failed => SignInStep::Failed,
        }
    }

    /// Whether the sign-in has ended.
    pub fn is_finished(&self) -> (b: bool)
        ensures
            b == is_finished_spec(*self),
    {
        match self {
            SignInStep::Done | SignInStep::Failed => true,
            _ => false,
        }
    }
}

/// Two steps at the same place in the order are the same step.
pub proof fn lemma_position_determines_step(a: SignInStep, b: SignInStep)
    requires
        sign_in_position(a) == sign_in_position(b),
    ensures
        a == b,
{
}

/// A successful action moves the sign-in on to the next action in order:
/// typing the e-mail leads to typing the password, typing the password to
/// waiting for the submit button to go stale, that wait to the submit click,
/// and so on to the end.
pub proof fn lemma_success_advances(step: SignInStep)
    requires
        !is_finished_spec(step),
    ensures
        sign_in_position(next_step_spec(step, true)) == sign_in_position(step) + 1,
{
}

/// When the first `n` actions all succeed, the sign-in stands at the `n`-th
/// step of the order.
pub proof fn lemma_success_path(n: nat)
    requires
        n <= 7,
    ensures
        sign_in_position(run(SignInStep::EnterEmail, Seq::new(n, |i: int| true))) == n,
{
    lemma_success_path_from(SignInStep::EnterEmail, n);
}

/// From a step that has not ended, `n` successes (not past the end) move the
/// sign-in `n` places on in the order.
pub proof fn lemma_success_path_from(step: SignInStep, n: nat)
    requires
        sign_in_position(step) + n <= 7,
    ensures
        sign_in_position(run(step, Seq::new(n, |i: int| true))) == sign_in_position(step) + n,
    decreases n,
{
    if n > 0 {
        let s = Seq::new(n, |i: int| true);
        assert(s.drop_first() =~= Seq::new((n - 1) as nat, |i: int| true));
        lemma_success_advances(step);
        lemma_success_path_from(next_step_spec(step, true), (n - 1) as nat);
    }
}

/// A failed submit click is tried again, and so is every failure of it: the
/// sign-in stays at the submit step.
pub proof fn lemma_submit_retried(k: nat)
    ensures
        run(SignInStep::Submit, Seq::new(k, |i: int| false)) == SignInStep::Submit,
    decreases k,
{
    if k > 0 {
        let s = Seq::new(k, |i: int| false);
        assert(s.drop_first() =~= Seq::new((k - 1) as nat, |i: int| false));
        lemma_submit_retried((k - 1) as nat);
    }
}

/// Running `a` then `b` is running `a` and then `b` from where `a` ended.
pub proof fn lemma_run_append(step: SignInStep, a: Seq<bool>, b: Seq<bool>)
    ensures
        run(step, a + b) == run(run(step, a), b),
    decreases a.len(),
{
    if a.len() > 0 {
        assert((a + b).drop_first() =~= a.drop_first() + b);
        lemma_run_append(next_step_spec(step, a[0]), a.drop_first(), b);
    } else {
        assert(a + b =~= b);
    }
}

/// A finished sign-in stays as it is, whatever comes after.
pub proof fn lemma_finished_stays(step: SignInStep, outcomes: Seq<bool>)
    requires
        is_finished_spec(step),
    ensures
        run(step, outcomes) == step,
    decreases outcomes.len(),
{
    if outcomes.len() > 0 {
        lemma_finished_stays(next_step_spec(step, outcomes[0]), outcomes.drop_first());
    }
}

/// A failure of any action but the submit click and the pop-up search ends
/// the sign-in as failed.
pub proof fn lemma_failure_ends(step: SignInStep)
    requires
        !is_finished_spec(step),
        step != SignInStep::Submit,
        step != SignInStep::FindPopup,
    ensures
        next_step_spec(step, false) == SignInStep::Failed,
{
}

/// When every action succeeds but the submit click, which fails `k` times
/// first, the sign-in is done, whether a pop-up shows (and is closed) or not.
pub proof fn lemma_sign_in_completes(k: nat, popup: bool)
    ensures
        run(
            SignInStep::EnterEmail,
            seq![true, true, true] + Seq::new(k, |i: int| false) + seq![true, true]
                + if popup { seq![true, true] } else { seq![false] },
        ) == SignInStep::Done,
{
    let head = seq![true, true, true];
    let retries = Seq::new(k, |i: int| false);
    let tail = seq![true, true];
    let last: Seq<bool> = if popup { seq![true, true] } else { seq![false] };
    lemma_run_append(SignInStep::EnterEmail, head + retries + tail, last);
    lemma_run_append(SignInStep::EnterEmail, head + retries, tail);
    lemma_run_append(SignInStep::EnterEmail, head, retries);
    assert(run(SignInStep::EnterEmail, head) == SignInStep::Submit) by {
        reveal_with_fuel(run, 4);
    }
    lemma_submit_retried(k);
    assert(run(SignInStep::Submit, tail) == SignInStep::FindPopup) by {
        reveal_with_fuel(run, 3);
    }
    assert(run(SignInStep::FindPopup, last) == SignInStep::Done) by {
        reveal_with_fuel(run, 3);
    }
}

} // verus!
