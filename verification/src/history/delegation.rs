//! Histories of an operator session: what holds of its two balances after
//! any sequence of operations.

use vstd::prelude::*;
use crate::instructions::operator_add_comment::operator_commented;
use crate::key::Key;
use crate::states::forum::Forum;
use crate::states::operator::Operator;
use crate::states::operatorsession::OperatorSession;
use crate::states::user::UserView;

verus! {

/// One operation on a session, with everything else that it reads. An
/// operation that is rejected leaves the session as it was.
pub enum SessionStep {
    /// `handle_initialize_operator_session`.
    Open { user_key: Key, operator_key: Key, vault: Key, bump: u8 },
    /// `handle_set_operator`.
    Bind { operator_key: Key },
    /// `handle_deposit`.
    Deposit { amount: u64 },
    /// `handle_withdraw`.
    Withdraw { vault_balance: u64, amount: u64 },
    /// `handle_operator_add_comment`.
    OperatorComment {
        user_key: Key,
        user: UserView,
        forum: Forum,
        sender: Key,
        operator: Operator,
    },
}

/// The session after one operation.
pub open spec fn session_after(s: OperatorSession, step: SessionStep) -> OperatorSession {
    match step {
        SessionStep::Open { user_key, operator_key, vault, bump } => match s.opened(
            user_key,
            operator_key,
            vault,
            bump,
        ) {
            Ok(after) => after,
            Err(_) => s,
        },
        SessionStep::Bind { operator_key } => OperatorSession { operator: operator_key, ..s },
        SessionStep::Deposit { amount } => match s.funded(amount) {
            Ok(after) => after,
            Err(_) => s,
        },
        SessionStep::Withdraw { vault_balance, amount } => match s.drawn(vault_balance, amount) {
            Ok(after) => after,
            Err(_) => s,
        },
        SessionStep::OperatorComment { user_key, user, forum, sender, operator } => {
            match operator_commented(user_key, user, forum, sender, operator, s) {
                Ok((_, after)) => after,
                Err(_) => s,
            }
        },
    }
}

/// What one operation pays into the session: the amount of a deposit that is
/// booked, and nothing else.
pub open spec fn deposited_by(s: OperatorSession, step: SessionStep) -> int {
    match step {
        SessionStep::Deposit { amount } => if s.funded(amount) is Ok {
            amount as int
        } else {
            0
        },
        _ => 0,
    }
}

/// What one operation takes out of the session: the amount of a withdrawal
/// that is booked, and nothing else.
pub open spec fn withdrawn_by(s: OperatorSession, step: SessionStep) -> int {
    match step {
        SessionStep::Withdraw { vault_balance, amount } => if s.drawn(vault_balance, amount)
            is Ok {
            amount as int
        } else {
            0
        },
        _ => 0,
    }
}

/// The session after a sequence of operations, in order.
pub open spec fn session_after_all(s: OperatorSession, steps: Seq<SessionStep>) -> OperatorSession
    decreases steps.len(),
{
    if steps.len() == 0 {
        s
    } else {
        session_after(session_after_all(s, steps.drop_last()), steps.last())
    }
}

/// Everything that a sequence of operations pays into the session.
pub open spec fn total_deposited(s: OperatorSession, steps: Seq<SessionStep>) -> int
    decreases steps.len(),
{
    if steps.len() == 0 {
        0
    } else {
        total_deposited(s, steps.drop_last()) + deposited_by(
            session_after_all(s, steps.drop_last()),
            steps.last(),
        )
    }
}

/// Everything that a sequence of operations takes out of the session.
pub open spec fn total_withdrawn(s: OperatorSession, steps: Seq<SessionStep>) -> int
    decreases steps.len(),
{
    if steps.len() == 0 {
        0
    } else {
        total_withdrawn(s, steps.drop_last()) + withdrawn_by(
            session_after_all(s, steps.drop_last()),
            steps.last(),
        )
    }
}

/// One operation changes what the session holds by what it pays in less what
/// it takes out, and leaves a session open or empty.
pub proof fn lemma_step_conserves_funds(s: OperatorSession, step: SessionStep)
    requires
        s.wf(),
    ensures
        session_after(s, step).wf(),
        session_after(s, step).total() == s.total() + deposited_by(s, step) - withdrawn_by(
            s,
            step,
        ),
{
}

/// Delegated funds are conserved: after any sequence of operations, the two
/// balances of a session together hold what they held at the start, plus all
/// deposits, less all withdrawals. An operator's fee only moves funds from
/// one balance to the other.
pub proof fn lemma_funds_conserved(s: OperatorSession, steps: Seq<SessionStep>)
    requires
        s.wf(),
    ensures
        session_after_all(s, steps).wf(),
        session_after_all(s, steps).total() == s.total() + total_deposited(s, steps)
            - total_withdrawn(s, steps),
    decreases steps.len(),
{
    if steps.len() > 0 {
        lemma_funds_conserved(s, steps.drop_last());
        lemma_step_conserves_funds(session_after_all(s, steps.drop_last()), steps.last());
    }
}

/// A session that starts unopened holds exactly what was deposited and not
/// withdrawn.
pub proof fn lemma_balances_equal_net_deposits(s: OperatorSession, steps: Seq<SessionStep>)
    requires
        s.wf(),
        !s.is_active(),
    ensures
        session_after_all(s, steps).amount_for_user + session_after_all(
            s,
            steps,
        ).amount_for_operator == total_deposited(s, steps) - total_withdrawn(s, steps),
{
    lemma_funds_conserved(s, steps);
}

} // verus!
