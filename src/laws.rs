use vstd::prelude::*;

use crate::decision::{outcome, Decision};
use crate::evaluation::evaluation_of;
use crate::policy::WILDCARD_KEY;

verus! {

/// When neither table holds the wildcard, every subject is allowed, whatever
/// specific entries either table holds.
pub proof fn lemma_unrestricted_allows_all(allow: Set<u64>, deny: Set<u64>)
    requires
        !allow.contains(WILDCARD_KEY),
        !deny.contains(WILDCARD_KEY),
    ensures
        forall|s: u64| #[trigger] outcome(allow, deny, s) == Decision::Allow,
{
}

/// When both tables hold the wildcard, every subject is denied: the deny
/// table, armed by the allow table's wildcard, names everyone.
pub proof fn lemma_both_wildcards_deny_all(allow: Set<u64>, deny: Set<u64>)
    requires
        allow.contains(WILDCARD_KEY),
        deny.contains(WILDCARD_KEY),
    ensures
        forall|s: u64| #[trigger] outcome(allow, deny, s) == Decision::Deny,
{
}

/// Under a global allow, a deny table that names exactly one subject denies
/// that subject and allows every other.
pub proof fn lemma_denylist_single_exception(allow: Set<u64>, deny: Set<u64>, s0: u64)
    requires
        allow.contains(WILDCARD_KEY),
        deny == set![s0],
        s0 != WILDCARD_KEY,
    ensures
        outcome(allow, deny, s0) == Decision::Deny,
        forall|s1: u64| s1 != s0 ==> #[trigger] outcome(allow, deny, s1) == Decision::Allow,
{
}

/// Under a global deny, an allow table that names exactly one subject allows
/// that subject and denies every other.
pub proof fn lemma_allowlist_single_exception(allow: Set<u64>, deny: Set<u64>, s0: u64)
    requires
        deny.contains(WILDCARD_KEY),
        allow == set![s0],
        s0 != WILDCARD_KEY,
    ensures
        outcome(allow, deny, s0) == Decision::Allow,
        forall|s1: u64| s1 != s0 ==> #[trigger] outcome(allow, deny, s1) == Decision::Deny,
{
}

/// Two evaluations of one subject against unchanged tables reach the same
/// decision, whichever processes asked.
pub proof fn lemma_evaluation_repeatable(
    allow: Set<u64>,
    deny: Set<u64>,
    subject_id: u64,
    first_pid: u32,
    second_pid: u32,
)
    ensures
        evaluation_of(allow, deny, subject_id, first_pid).decision == evaluation_of(
            allow,
            deny,
            subject_id,
            second_pid,
        ).decision,
{
}

} // verus!
