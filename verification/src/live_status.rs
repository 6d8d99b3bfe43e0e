//! Refreshing the account shown by `/status`: the account must not change
//! while its limits are read, and must be a ChatGPT account.

use vstd::prelude::*;
use crate::text::str_eq;

verus! {

/// The account the app server reports as active.
#[derive(Clone, Debug, PartialEq, Eq)]
pub enum LiveAccount {
    ApiKey,
    Chatgpt { email: String, plan_type: String },
}

/// Two readings name the same account.
pub open spec fn same_account(a: Option<LiveAccount>, b: Option<LiveAccount>) -> bool {
    match (a, b) {
        (None, None) => true,
        (Some(LiveAccount::ApiKey), Some(LiveAccount::ApiKey)) => true,
        (Some(LiveAccount::Chatgpt { email: e1, plan_type: p1 }), Some(LiveAccount::Chatgpt { email: e2, plan_type: p2 })) =>
            e1@ == e2@ && p1@ == p2@,
        _ => false,
    }
}

fn same(a: &Option<LiveAccount>, b: &Option<LiveAccount>) -> (res: bool)
    ensures
        res == same_account(*a, *b),
{
    match (a, b) {
        (None, None) => true,
        (Some(LiveAccount::ApiKey), Some(LiveAccount::ApiKey)) => true,
        (Some(LiveAccount::Chatgpt { email: e1, plan_type: p1 }), Some(LiveAccount::Chatgpt { email: e2, plan_type: p2 })) =>
            str_eq(e1.as_str(), e2.as_str()) && str_eq(p1.as_str(), p2.as_str()),
        _ => false,
    }
}

/// The ChatGPT account to show, read before and after the limits: the
/// e-mail and plan when both readings agree on a ChatGPT account.
pub fn live_status_account(before: &Option<LiveAccount>, after: Option<LiveAccount>) -> (res: Result<(String, String), String>)
    ensures
        !same_account(*before, after) ==> (res matches Err(m) && m@ == "active account changed during /status refresh"@),
        same_account(*before, after) ==> match after {
            Some(LiveAccount::Chatgpt { email, plan_type }) => res == Ok::<(String, String), String>((email, plan_type)),
            _ => res matches Err(m) && m@ == "active account is not a ChatGPT account"@,
        },
{
    if !same(before, &after) {
        return Err("active account changed during /status refresh".to_string());
    }
    match after {
        Some(LiveAccount::Chatgpt { email, plan_type }) => Ok((email, plan_type)),
        _ => Err("active account is not a ChatGPT account".to_string()),
    }
}

} // verus!
