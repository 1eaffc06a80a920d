//! Where an account stands with its rent.
use vstd::prelude::*;

verus! {

/// Rent state of an account.
#[derive(Debug, Clone, Copy, PartialEq, Eq)]
pub enum RentState {
    /// account.lamports == 0
    Uninitialized,
    /// 0 < account.lamports < rent-exempt-minimum
    RentPaying {
        lamports: u64,  // account.lamports()
        data_size: usize,  // account.data().len()
    },
    /// account.lamports >= rent-exempt-minimum
    RentExempt,
}

/// Whether an account may go from one rent state to another: into any state but
/// paying, and from paying to paying if it is neither resized nor credited.
pub open spec fn allows_transition(pre: RentState, post: RentState) -> bool {
    match post {
        RentState::Uninitialized => true,
        RentState::RentExempt => true,
        RentState::RentPaying { lamports: post_lamports, data_size: post_data_size } => match pre {
            RentState::Uninitialized => false,
            RentState::RentExempt => false,
            RentState::RentPaying { lamports: pre_lamports, data_size: pre_data_size } =>
            post_data_size == pre_data_size && post_lamports <= pre_lamports,
        },
    }
}

/// An account may stay as it is.
pub proof fn law_transition_reflexive(state: RentState)
    ensures
        allows_transition(state, state),
{
}

/// What may be reached in two steps may be reached in one.
pub proof fn law_transition_transitive(a: RentState, b: RentState, c: RentState)
    requires
        allows_transition(a, b),
        allows_transition(b, c),
    ensures
        allows_transition(a, c),
{
}

/// No account becomes one that pays rent: only an account that pays already may go
/// on to pay.
pub proof fn law_no_new_rent_payers(pre: RentState, post: RentState)
    requires
        allows_transition(pre, post),
        post is RentPaying,
    ensures
        pre is RentPaying,
        pre->data_size == post->data_size,
        post->lamports <= pre->lamports,
{
}

/// Any state may be left for an account without lamports and for an exempt one. A
/// paying account may stay one if it keeps its size and gains no lamports, and nothing
/// else may become a paying account.
pub proof fn law_allowed_transitions(
    pre: RentState,
    pre_lamports: u64,
    pre_size: usize,
    post_lamports: u64,
    post_size: usize,
)
    ensures
        allows_transition(pre, RentState::Uninitialized),
        allows_transition(pre, RentState::RentExempt),
        !allows_transition(
            RentState::Uninitialized,
            RentState::RentPaying { lamports: post_lamports, data_size: post_size },
        ),
        !allows_transition(
            RentState::RentExempt,
            RentState::RentPaying { lamports: post_lamports, data_size: post_size },
        ),
        allows_transition(
            RentState::RentPaying { lamports: pre_lamports, data_size: pre_size },
            RentState::RentPaying { lamports: post_lamports, data_size: post_size },
        ) <==> pre_size == post_size && post_lamports <= pre_lamports,
{
}

} // verus!
