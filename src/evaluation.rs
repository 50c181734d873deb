use vstd::prelude::*;

use crate::decision::{
    decide, outcome, resolve, Decision, Resolution, TableKind,
};
use crate::policy::PolicyTable;

verus! {

/// The audit record for one denial: who asked, and for which subject.
#[derive(Clone, Copy, Debug, PartialEq, Eq, Structural)]
pub struct AlertRecord {
    pub subject_id: u64,
    pub requester_pid: u32,
}

impl AlertRecord {
    pub fn new(subject_id: u64, requester_pid: u32) -> (r: AlertRecord)
        ensures
            r == (AlertRecord { subject_id, requester_pid }),
    {
        AlertRecord { subject_id, requester_pid }
    }
}

/// A decision, with the alert to submit for it.
#[derive(Clone, Copy, Debug, PartialEq, Eq, Structural)]
pub struct Evaluation {
    pub decision: Decision,
    pub alert: Option<AlertRecord>,
}

/// The alert owed for `decision`: one record on a denial, none otherwise.
pub open spec fn alert_for(decision: Decision, subject_id: u64, requester_pid: u32) -> Option<
    AlertRecord,
> {
    if decision == Decision::Deny {
        Some(AlertRecord { subject_id, requester_pid })
    } else {
        None
    }
}

/// What evaluating `subject_id` for `requester_pid` yields when the allow
/// table holds `allow` and the deny table holds `deny`.
pub open spec fn evaluation_of(
    allow: Set<u64>,
    deny: Set<u64>,
    subject_id: u64,
    requester_pid: u32,
) -> Evaluation {
    let decision = outcome(allow, deny, subject_id);
    Evaluation { decision, alert: alert_for(decision, subject_id, requester_pid) }
}

/// Pairs `decision` with its alert: a record carrying `subject_id` and
/// `requester_pid` exactly when the decision is `Deny`.
pub fn report(decision: Decision, subject_id: u64, requester_pid: u32) -> (r: Evaluation)
    ensures
        r.decision == decision,
        r.alert == alert_for(decision, subject_id, requester_pid),
{
    match decision {
        Decision::Deny => Evaluation {
            decision,
            alert: Some(AlertRecord::new(subject_id, requester_pid)),
        },
        Decision::Allow => Evaluation { decision, alert: None },
    }
}

/// Decides whether `subject_id` may perform the guarded operation, for the
/// process `requester_pid`, under the tables `allow` and `deny`.
///
/// Without a wildcard in either table the answer is `Allow`. Otherwise the
/// resolved mode and exception table decide, and a denial carries one alert
/// record.
pub fn evaluate(
    allow: &PolicyTable,
    deny: &PolicyTable,
    subject_id: u64,
    requester_pid: u32,
) -> (r: Evaluation)
    ensures
        r.decision == outcome(allow@, deny@, subject_id),
        r.alert == alert_for(r.decision, subject_id, requester_pid),
        r == evaluation_of(allow@, deny@, subject_id, requester_pid),
{
    let decision = match resolve(allow, deny) {
        Resolution::Unrestricted => Decision::Allow,
        Resolution::Governed { mode, exceptions } => {
            let table = match exceptions {
                TableKind::Allow => allow,
                TableKind::Deny => deny,
            };
            decide(subject_id, mode, table)
        },
    };
    report(decision, subject_id, requester_pid)
}

} // verus!
