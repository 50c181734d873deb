use vstd::prelude::*;

use crate::policy::{PolicyTable, WILDCARD_KEY};

verus! {

/// Which table supplies the default outcome.
///
/// Under `Allowlist` the default is to deny, unless the exception table
/// names the subject; under `Denylist` the default is to allow.
#[derive(Clone, Copy, Debug, PartialEq, Eq, Structural)]
pub enum Mode {
    Allowlist,
    Denylist,
}

/// The outcome for one attempt at the guarded operation.
#[derive(Clone, Copy, Debug, PartialEq, Eq, Structural)]
pub enum Decision {
    Allow,
    Deny,
}

/// One of the two policy tables.
#[derive(Clone, Copy, Debug, PartialEq, Eq, Structural)]
pub enum TableKind {
    Allow,
    Deny,
}

/// What the wildcard entries of the two tables establish.
///
/// `Governed` carries the active mode together with the table that holds the
/// exceptions to it; both are chosen from one pair of wildcard observations.
#[derive(Clone, Copy, Debug, PartialEq, Eq, Structural)]
pub enum Resolution {
    Unrestricted,
    Governed { mode: Mode, exceptions: TableKind },
}

/// The resolution that two wildcard observations lead to: a wildcard in the
/// allow table arms the deny table, else a wildcard in the deny table arms
/// the allow table, else nothing is governed.
pub open spec fn resolution_of(allow_has_wildcard: bool, deny_has_wildcard: bool) -> Resolution {
    if allow_has_wildcard {
        Resolution::Governed { mode: Mode::Denylist, exceptions: TableKind::Deny }
    } else if deny_has_wildcard {
        Resolution::Governed { mode: Mode::Allowlist, exceptions: TableKind::Allow }
    } else {
        Resolution::Unrestricted
    }
}

/// The decision for a subject that the exception table names.
pub open spec fn matched(mode: Mode) -> Decision {
    match mode {
        Mode::Allowlist => Decision::Allow,
        Mode::Denylist => Decision::Deny,
    }
}

/// The decision for a subject that the exception table does not name.
pub open spec fn unmatched(mode: Mode) -> Decision {
    match mode {
        Mode::Allowlist => Decision::Deny,
        Mode::Denylist => Decision::Allow,
    }
}

/// The decision under `mode`, given whether the exception table holds the
/// wildcard and whether it holds the subject.
pub open spec fn decision_of(mode: Mode, has_wildcard: bool, has_subject: bool) -> Decision {
    if has_wildcard || has_subject {
        matched(mode)
    } else {
        unmatched(mode)
    }
}

/// The decision for `subject` when the allow table holds `allow` and the deny
/// table holds `deny`.
pub open spec fn outcome(allow: Set<u64>, deny: Set<u64>, subject: u64) -> Decision {
    if allow.contains(WILDCARD_KEY) {
        if deny.contains(WILDCARD_KEY) || deny.contains(subject) {
            Decision::Deny
        } else {
            Decision::Allow
        }
    } else if deny.contains(WILDCARD_KEY) {
        if allow.contains(subject) {
            Decision::Allow
        } else {
            Decision::Deny
        }
    } else {
        Decision::Allow
    }
}

/// Derives the resolution from two wildcard observations, one per table.
pub fn resolve_observed(allow_has_wildcard: bool, deny_has_wildcard: bool) -> (r: Resolution)
    ensures
        r == resolution_of(allow_has_wildcard, deny_has_wildcard),
{
    if allow_has_wildcard {
        Resolution::Governed { mode: Mode::Denylist, exceptions: TableKind::Deny }
    } else if deny_has_wildcard {
        Resolution::Governed { mode: Mode::Allowlist, exceptions: TableKind::Allow }
    } else {
        Resolution::Unrestricted
    }
}

/// Derives the resolution from the wildcard entries of the two tables.
pub fn resolve(allow: &PolicyTable, deny: &PolicyTable) -> (r: Resolution)
    ensures
        r == resolution_of(allow@.contains(WILDCARD_KEY), deny@.contains(WILDCARD_KEY)),
{
    if allow.contains(WILDCARD_KEY) {
        resolve_observed(true, false)
    } else {
        let deny_has_wildcard = deny.contains(WILDCARD_KEY);
        resolve_observed(false, deny_has_wildcard)
    }
}

/// Decides under `mode` from two observations of the exception table: whether
/// it holds the wildcard, and whether it holds the subject.
pub fn decide_observed(mode: Mode, has_wildcard: bool, has_subject: bool) -> (r: Decision)
    ensures
        r == decision_of(mode, has_wildcard, has_subject),
{
    if has_wildcard || has_subject {
        match mode {
            Mode::Allowlist => Decision::Allow,
            Mode::Denylist => Decision::Deny,
        }
    } else {
        match mode {
            Mode::Allowlist => Decision::Deny,
            Mode::Denylist => Decision::Allow,
        }
    }
}

/// Decides for `subject` under `mode`, with `exceptions` as the exception
/// table: the wildcard entry is looked at first, then the subject's own.
pub fn decide(subject: u64, mode: Mode, exceptions: &PolicyTable) -> (r: Decision)
    ensures
        r == decision_of(
            mode,
            exceptions@.contains(WILDCARD_KEY),
            exceptions@.contains(subject),
        ),
{
    if exceptions.contains(WILDCARD_KEY) {
        decide_observed(mode, true, false)
    } else {
        let has_subject = exceptions.contains(subject);
        decide_observed(mode, false, has_subject)
    }
}

} // verus!
