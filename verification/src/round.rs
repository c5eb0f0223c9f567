//! The course of one inspection: what it counts, what it puts on record, and what it reports in
//! the end.
use vstd::prelude::*;

use crate::inspection::{
    judge_activity, ActivityVerdict, CheckOutcome, CheckOutcomeKind, SubmissionActivity,
};
use crate::policy::PolicyWrite;
use crate::text::{prefixed, push_decimal};
use crate::time::{datetime_to_text, Timestamp};

verus! {

use crate::inspection::activity_verdict;
use crate::seqs::{drawn_from, lemma_filter_map_is_drawn};
use crate::text::decimal;
use crate::time::{datetime_text, law_days_are_whole_spans_of_86400_seconds};

/// What an inspection did to an uploader.
#[derive(Clone, Copy, Debug, PartialEq, Eq, Structural)]
pub enum ActionType {
    AutoDisabled,
    AutoEnabled,
    /// Blacklisted or set aside; the reason tells which.
    MarkedBanned,
}

/// How many uploaders an inspection looked at, and how each of them came out. Every uploader is
/// counted in one place only.
#[derive(Clone, Copy, Debug, PartialEq, Eq, Structural)]
pub struct RunStats {
    /// All candidates of both phases.
    pub checked: i32,
    /// First phase: inactive for too long, now disabled.
    pub disabled: i32,
    /// First phase: nothing to do.
    pub active: i32,
    /// First phase: no video known.
    pub indeterminate: i32,
    /// Second phase: publishing again, now enabled.
    pub enabled: i32,
    /// Second phase: left disabled.
    pub still_inactive: i32,
    /// Second phase: gone, now blacklisted.
    pub banned: i32,
    /// Second phase: banned or frozen, now set aside.
    pub banned_observation: i32,
}

/// The places where [`RunStats`] counts an uploader.
#[derive(Clone, Copy, Debug, PartialEq, Eq, Structural)]
pub enum Bucket {
    Disabled,
    Active,
    Indeterminate,
    Enabled,
    StillInactive,
    Banned,
    BannedObservation,
}

impl Default for RunStats {
    /// Nothing looked at.
    fn default() -> (r: Self)
        ensures
            r == no_stats(),
    {
        RunStats {
            checked: 0,
            disabled: 0,
            active: 0,
            indeterminate: 0,
            enabled: 0,
            still_inactive: 0,
            banned: 0,
            banned_observation: 0,
        }
    }
}

/// Nothing looked at.
pub open spec fn no_stats() -> RunStats {
    RunStats {
        checked: 0,
        disabled: 0,
        active: 0,
        indeterminate: 0,
        enabled: 0,
        still_inactive: 0,
        banned: 0,
        banned_observation: 0,
    }
}

impl RunStats {
    /// No count is negative.
    pub open spec fn wf(self) -> bool {
        &&& self.checked >= 0
        &&& self.disabled >= 0
        &&& self.active >= 0
        &&& self.indeterminate >= 0
        &&& self.enabled >= 0
        &&& self.still_inactive >= 0
        &&& self.banned >= 0
        &&& self.banned_observation >= 0
    }

    /// The enabled uploaders that have been dealt with.
    pub open spec fn phase_one_total(self) -> int {
        self.disabled + self.active + self.indeterminate
    }

    /// The disabled uploaders that have been dealt with.
    pub open spec fn phase_two_total(self) -> int {
        self.enabled + self.still_inactive + self.banned + self.banned_observation
    }

    /// The uploaders to whom something was done.
    pub open spec fn acted_on(self) -> int {
        self.disabled + self.enabled + self.banned + self.banned_observation
    }

    /// The counts with one more uploader in a bucket.
    pub open spec fn counted(self, bucket: Bucket) -> RunStats {
        match bucket {
            Bucket::Disabled => RunStats { disabled: (self.disabled + 1) as i32, ..self },
            Bucket::Active => RunStats { active: (self.active + 1) as i32, ..self },
            Bucket::Indeterminate => RunStats {
                indeterminate: (self.indeterminate + 1) as i32,
                ..self
            },
            Bucket::Enabled => RunStats { enabled: (self.enabled + 1) as i32, ..self },
            Bucket::StillInactive => RunStats {
                still_inactive: (self.still_inactive + 1) as i32,
                ..self
            },
            Bucket::Banned => RunStats { banned: (self.banned + 1) as i32, ..self },
            Bucket::BannedObservation => RunStats {
                banned_observation: (self.banned_observation + 1) as i32,
                ..self
            },
        }
    }

    /// The sentence that sums an inspection up.
    pub open spec fn summary_text(self) -> Seq<char> {
        "巡检完成：检查 "@ + decimal(self.checked as int) + " 个 UP（启用态 "@ + decimal(
            self.phase_one_total(),
        ) + "：禁用 "@ + decimal(self.disabled as int) + "、正常 "@ + decimal(self.active as int)
            + "、无法判定 "@ + decimal(self.indeterminate as int) + "；禁用态复查 "@ + decimal(
            self.phase_two_total(),
        ) + "：恢复启用 "@ + decimal(self.enabled as int) + "、仍不活跃 "@ + decimal(
            self.still_inactive as int,
        ) + "、转黑名单 "@ + decimal(self.banned as int) + "、封禁观察 "@ + decimal(
            self.banned_observation as int,
        ) + "）"@
    }

    fn count(&mut self, bucket: Bucket)
        requires
            old(self).wf(),
            old(self).phase_one_total() + old(self).phase_two_total() < i32::MAX,
        ensures
            final(self).wf(),
            *final(self) == old(self).counted(bucket),
    {
        match bucket {
            Bucket::Disabled => {
                self.disabled = self.disabled + 1;
            },
            Bucket::Active => {
                self.active = self.active + 1;
            },
            Bucket::Indeterminate => {
                self.indeterminate = self.indeterminate + 1;
            },
            Bucket::Enabled => {
                self.enabled = self.enabled + 1;
            },
            Bucket::StillInactive => {
                self.still_inactive = self.still_inactive + 1;
            },
            Bucket::Banned => {
                self.banned = self.banned + 1;
            },
            Bucket::BannedObservation => {
                self.banned_observation = self.banned_observation + 1;
            },
        }
    }

    /// The sentence that sums an inspection up.
    pub fn summary(&self) -> (r: String)
        ensures
            r@ == self.summary_text(),
    {
        let phase_one: i64 = self.disabled as i64 + self.active as i64 + self.indeterminate as i64;
        let phase_two: i64 = self.enabled as i64 + self.still_inactive as i64 + self.banned as i64
            + self.banned_observation as i64;
        let mut r = String::new();
        r.append("巡检完成：检查 ");
        push_decimal(&mut r, self.checked as i64);
        r.append(" 个 UP（启用态 ");
        push_decimal(&mut r, phase_one);
        r.append("：禁用 ");
        push_decimal(&mut r, self.disabled as i64);
        r.append("、正常 ");
        push_decimal(&mut r, self.active as i64);
        r.append("、无法判定 ");
        push_decimal(&mut r, self.indeterminate as i64);
        r.append("；禁用态复查 ");
        push_decimal(&mut r, phase_two);
        r.append("：恢复启用 ");
        push_decimal(&mut r, self.enabled as i64);
        r.append("、仍不活跃 ");
        push_decimal(&mut r, self.still_inactive as i64);
        r.append("、转黑名单 ");
        push_decimal(&mut r, self.banned as i64);
        r.append("、封禁观察 ");
        push_decimal(&mut r, self.banned_observation as i64);
        r.append("）");
        r
    }
}

/// An action that an inspection has taken and will put on record.
#[derive(Debug)]
pub struct PendingAction {
    pub submission_id: i32,
    pub upper_name: String,
    pub action: ActionType,
    pub reason: String,
}

/// What an action says.
pub struct ActionView {
    pub submission_id: i32,
    pub upper_name: Seq<char>,
    pub action: ActionType,
    pub reason: Seq<char>,
}

impl View for PendingAction {
    type V = ActionView;

    open spec fn view(&self) -> ActionView {
        ActionView {
            submission_id: self.submission_id,
            upper_name: self.upper_name@,
            action: self.action,
            reason: self.reason@,
        }
    }
}

/// How many of the actions are of a certain type.
pub open spec fn actions_of(actions: Seq<PendingAction>, action: ActionType) -> int
    decreases actions.len(),
{
    if actions.len() == 0 {
        0
    } else {
        actions_of(actions.drop_last(), action) + if actions.last().action == action {
            1int
        } else {
            0int
        }
    }
}

/// An uploader who is to be disabled, and how many days ago the last video came out.
#[derive(Debug)]
pub struct Overdue {
    pub submission_id: i32,
    pub upper_name: String,
    pub days: i64,
}

/// The candidate is to be disabled, if that is the verdict.
pub open spec fn overdue_of(
    candidate: SubmissionActivity,
    now: Timestamp,
    inactive_threshold_days: i64,
) -> Option<Overdue> {
    match activity_verdict(candidate.last_pubtime, now, inactive_threshold_days) {
        ActivityVerdict::Inactive(days) => Some(
            Overdue {
                submission_id: candidate.submission_id,
                upper_name: candidate.upper_name,
                days,
            },
        ),
        _ => None,
    }
}

/// The candidates that are to be disabled.
pub open spec fn overdue(
    candidates: Seq<SubmissionActivity>,
    now: Timestamp,
    inactive_threshold_days: i64,
) -> Seq<Overdue> {
    candidates.filter_map(
        |candidate: SubmissionActivity| overdue_of(candidate, now, inactive_threshold_days),
    )
}

/// How many candidates get a certain verdict.
pub open spec fn verdicts_of(
    candidates: Seq<SubmissionActivity>,
    now: Timestamp,
    inactive_threshold_days: i64,
    verdict: ActivityVerdict,
) -> int
    decreases candidates.len(),
{
    if candidates.len() == 0 {
        0
    } else {
        verdicts_of(candidates.drop_last(), now, inactive_threshold_days, verdict) + if
        activity_verdict(candidates.last().last_pubtime, now, inactive_threshold_days) == verdict {
            1int
        } else {
            0int
        }
    }
}

/// Where the first phase counts an uploader who was to be disabled; `applied` tells whether that
/// was done.
pub open spec fn overdue_bucket(applied: bool) -> Bucket {
    if applied {
        Bucket::Disabled
    } else {
        Bucket::Active
    }
}

/// The action that the first phase puts on record, if it took one.
pub open spec fn overdue_action(upper: Overdue, applied: bool) -> Option<ActionView> {
    if applied {
        Some(
            ActionView {
                submission_id: upper.submission_id,
                upper_name: upper.upper_name@,
                action: ActionType::AutoDisabled,
                reason: "最近一次投稿为 "@ + decimal(upper.days as int) + " 天前"@,
            },
        )
    } else {
        None
    }
}

/// Where the second phase counts an uploader; `applied` tells whether anything was done.
pub open spec fn outcome_bucket(kind: CheckOutcomeKind, applied: bool) -> Bucket {
    if !applied {
        Bucket::StillInactive
    } else {
        match kind {
            CheckOutcomeKind::Recovered(_) => Bucket::Enabled,
            CheckOutcomeKind::StillInactive => Bucket::StillInactive,
            CheckOutcomeKind::Gone(_) => Bucket::Banned,
            CheckOutcomeKind::BannedObservation(_) => Bucket::BannedObservation,
        }
    }
}

/// The action that the second phase puts on record, if it took one.
pub open spec fn outcome_action(outcome: CheckOutcome, applied: bool) -> Option<ActionView> {
    if !applied {
        None
    } else {
        match outcome.kind {
            CheckOutcomeKind::Recovered(latest) => Some(
                ActionView {
                    submission_id: outcome.submission_id,
                    upper_name: outcome.upper_name@,
                    action: ActionType::AutoEnabled,
                    reason: "检测到新投稿 "@ + datetime_text(latest.secs, latest.nanos),
                },
            ),
            CheckOutcomeKind::StillInactive => None,
            CheckOutcomeKind::Gone(message) => Some(
                ActionView {
                    submission_id: outcome.submission_id,
                    upper_name: outcome.upper_name@,
                    action: ActionType::MarkedBanned,
                    reason: "UP 已删号/不可恢复："@ + message@,
                },
            ),
            CheckOutcomeKind::BannedObservation(message) => Some(
                ActionView {
                    submission_id: outcome.submission_id,
                    upper_name: outcome.upper_name@,
                    action: ActionType::MarkedBanned,
                    reason: "封禁观察："@ + message@,
                },
            ),
        }
    }
}

/// The list has grown by the action, if there is one, and is otherwise the same.
pub open spec fn extended_by(
    before: Seq<PendingAction>,
    after: Seq<PendingAction>,
    action: Option<ActionView>,
) -> bool {
    match action {
        None => after == before,
        Some(action) => {
            &&& after.len() == before.len() + 1
            &&& after.drop_last() == before
            &&& after.last()@ == action
        },
    }
}

/// An inspection under way: what it has counted and done so far, and how many candidates of each
/// phase it has not dealt with yet.
#[derive(Debug)]
pub struct Inspection {
    pub stats: RunStats,
    pub pending_actions: Vec<PendingAction>,
    pub waiting_one: i32,
    pub waiting_two: i32,
}

impl Inspection {
    /// Every candidate is waiting or counted in one bucket, and every count of something done is
    /// backed by as many actions.
    pub open spec fn wf(self) -> bool {
        &&& self.stats.wf()
        &&& self.waiting_one >= 0
        &&& self.waiting_two >= 0
        &&& self.stats.checked == self.stats.phase_one_total() + self.stats.phase_two_total()
            + self.waiting_one + self.waiting_two
        &&& actions_of(self.pending_actions@, ActionType::AutoDisabled) == self.stats.disabled
        &&& actions_of(self.pending_actions@, ActionType::AutoEnabled) == self.stats.enabled
        &&& actions_of(self.pending_actions@, ActionType::MarkedBanned) == self.stats.banned
            + self.stats.banned_observation
    }

    /// An inspection that has not looked at anybody.
    pub fn new() -> (r: Inspection)
        ensures
            r.wf(),
            r.stats == no_stats(),
            r.pending_actions@.len() == 0,
            r.waiting_one == 0,
            r.waiting_two == 0,
    {
        Inspection {
            stats: RunStats::default(),
            pending_actions: Vec::new(),
            waiting_one: 0,
            waiting_two: 0,
        }
    }

    /// Takes up the candidates of the first phase: those who published recently, and those of
    /// whom no video is known, are counted as such, and the others are to be disabled.
    pub fn begin_phase_one(
        &mut self,
        candidates: &Vec<SubmissionActivity>,
        now: Timestamp,
        inactive_threshold_days: i64,
    ) -> (r: Vec<Overdue>)
        requires
            old(self).wf(),
            old(self).stats.checked + candidates@.len() <= i32::MAX,
            now.wf(),
            forall|i: int|
                0 <= i < candidates@.len() ==> ((#[trigger] candidates@[i]).last_pubtime matches Some(
                    last,
                ) ==> last.wf()),
        ensures
            final(self).wf(),
            final(self).stats == (RunStats {
                checked: (old(self).stats.checked + candidates@.len()) as i32,
                active: (old(self).stats.active + verdicts_of(
                    candidates@,
                    now,
                    inactive_threshold_days,
                    ActivityVerdict::Active,
                )) as i32,
                indeterminate: (old(self).stats.indeterminate + verdicts_of(
                    candidates@,
                    now,
                    inactive_threshold_days,
                    ActivityVerdict::Indeterminate,
                )) as i32,
                ..old(self).stats
            }),
            r@ == overdue(candidates@, now, inactive_threshold_days),
            final(self).pending_actions == old(self).pending_actions,
            final(self).waiting_one == old(self).waiting_one + r@.len(),
            final(self).waiting_two == old(self).waiting_two,
    {
        let mut r: Vec<Overdue> = Vec::new();
        let mut active: i32 = 0;
        let mut indeterminate: i32 = 0;
        let mut i: usize = 0;
        while i < candidates.len()
            invariant
                i <= candidates@.len(),
                candidates@.len() <= i32::MAX,
                now.wf(),
                forall|i: int|
                    0 <= i < candidates@.len() ==> ((
                    #[trigger] candidates@[i]).last_pubtime matches Some(last) ==> last.wf()),
                r@ == overdue(candidates@.take(i as int), now, inactive_threshold_days),
                active == verdicts_of(
                    candidates@.take(i as int),
                    now,
                    inactive_threshold_days,
                    ActivityVerdict::Active,
                ),
                indeterminate == verdicts_of(
                    candidates@.take(i as int),
                    now,
                    inactive_threshold_days,
                    ActivityVerdict::Indeterminate,
                ),
                active >= 0,
                indeterminate >= 0,
                r@.len() + active + indeterminate == i,
            decreases candidates.len() - i,
        {
            proof {
                assert(candidates@.take(i + 1).drop_last() =~= candidates@.take(i as int));
            }
            let candidate = &candidates[i];
            match judge_activity(candidate, now, inactive_threshold_days) {
                ActivityVerdict::Indeterminate => {
                    indeterminate = indeterminate + 1;
                },
                ActivityVerdict::Active => {
                    active = active + 1;
                },
                ActivityVerdict::Inactive(days) => {
                    r.push(
                        Overdue {
                            submission_id: candidate.submission_id,
                            upper_name: candidate.upper_name.clone(),
                            days,
                        },
                    );
                },
            }
            i += 1;
        }
        assert(candidates@.take(i as int) =~= candidates@);
        self.stats.checked = self.stats.checked + candidates.len() as i32;
        self.stats.active = self.stats.active + active;
        self.stats.indeterminate = self.stats.indeterminate + indeterminate;
        self.waiting_one = self.waiting_one + r.len() as i32;
        r
    }

    /// Takes up the candidates of the second phase.
    pub fn begin_phase_two(&mut self, candidates: usize)
        requires
            old(self).wf(),
            old(self).stats.checked + candidates <= i32::MAX,
        ensures
            final(self).wf(),
            final(self).stats == (RunStats {
                checked: (old(self).stats.checked + candidates) as i32,
                ..old(self).stats
            }),
            final(self).pending_actions == old(self).pending_actions,
            final(self).waiting_one == old(self).waiting_one,
            final(self).waiting_two == old(self).waiting_two + candidates,
    {
        self.stats.checked = self.stats.checked + candidates as i32;
        self.waiting_two = self.waiting_two + candidates as i32;
    }

    /// Counts an uploader who was to be disabled. `write` is what came of it: where the uploader
    /// was protected or disabled meanwhile, nothing did.
    pub fn record_overdue(&mut self, upper: Overdue, write: PolicyWrite)
        requires
            old(self).wf(),
            old(self).waiting_one > 0,
        ensures
            final(self).wf(),
            final(self).stats == old(self).stats.counted(
                overdue_bucket(write != PolicyWrite::Keep),
            ),
            extended_by(
                old(self).pending_actions@,
                final(self).pending_actions@,
                overdue_action(upper, write != PolicyWrite::Keep),
            ),
            final(self).waiting_one == old(self).waiting_one - 1,
            final(self).waiting_two == old(self).waiting_two,
    {
        self.waiting_one = self.waiting_one - 1;
        if write == PolicyWrite::Keep {
            self.stats.count(Bucket::Active);
            return;
        }
        self.stats.count(Bucket::Disabled);
        let mut reason = String::new();
        reason.append("最近一次投稿为 ");
        push_decimal(&mut reason, upper.days);
        reason.append(" 天前");
        self.push_action(
            upper.submission_id,
            upper.upper_name,
            ActionType::AutoDisabled,
            reason,
        );
    }

    /// Counts a candidate of the second phase. `write` is what came of its outcome.
    pub fn record_outcome(&mut self, outcome: CheckOutcome, write: PolicyWrite)
        requires
            old(self).wf(),
            old(self).waiting_two > 0,
            outcome.kind.wf(),
        ensures
            final(self).wf(),
            final(self).stats == old(self).stats.counted(
                outcome_bucket(outcome.kind, write != PolicyWrite::Keep),
            ),
            extended_by(
                old(self).pending_actions@,
                final(self).pending_actions@,
                outcome_action(outcome, write != PolicyWrite::Keep),
            ),
            final(self).waiting_one == old(self).waiting_one,
            final(self).waiting_two == old(self).waiting_two - 1,
    {
        self.waiting_two = self.waiting_two - 1;
        if write == PolicyWrite::Keep {
            self.stats.count(Bucket::StillInactive);
            return;
        }
        match outcome.kind {
            CheckOutcomeKind::Recovered(latest) => {
                self.stats.count(Bucket::Enabled);
                let reason = prefixed("检测到新投稿 ", datetime_to_text(latest).as_str());
                self.push_action(
                    outcome.submission_id,
                    outcome.upper_name,
                    ActionType::AutoEnabled,
                    reason,
                );
            },
            CheckOutcomeKind::StillInactive => {
                self.stats.count(Bucket::StillInactive);
            },
            CheckOutcomeKind::Gone(message) => {
                self.stats.count(Bucket::Banned);
                let reason = prefixed("UP 已删号/不可恢复：", message.as_str());
                self.push_action(
                    outcome.submission_id,
                    outcome.upper_name,
                    ActionType::MarkedBanned,
                    reason,
                );
            },
            CheckOutcomeKind::BannedObservation(message) => {
                self.stats.count(Bucket::BannedObservation);
                let reason = prefixed("封禁观察：", message.as_str());
                self.push_action(
                    outcome.submission_id,
                    outcome.upper_name,
                    ActionType::MarkedBanned,
                    reason,
                );
            },
        }
    }

    fn push_action(
        &mut self,
        submission_id: i32,
        upper_name: String,
        action: ActionType,
        reason: String,
    )
        ensures
            final(self).stats == old(self).stats,
            final(self).waiting_one == old(self).waiting_one,
            final(self).waiting_two == old(self).waiting_two,
            final(self).pending_actions@ == old(self).pending_actions@.push(
                PendingAction { submission_id, upper_name, action, reason },
            ),
            final(self).pending_actions@.drop_last() == old(self).pending_actions@,
            final(self).pending_actions@.last()@ == (ActionView {
                submission_id,
                upper_name: upper_name@,
                action,
                reason: reason@,
            }),
            forall|other: ActionType|
                #[trigger] actions_of(final(self).pending_actions@, other) == actions_of(
                    old(self).pending_actions@,
                    other,
                ) + if other == action {
                    1int
                } else {
                    0int
                },
    {
        self.pending_actions.push(PendingAction { submission_id, upper_name, action, reason });
        assert(self.pending_actions@.drop_last() =~= old(self).pending_actions@);
    }

    /// Ends the inspection, well or with a failure on the way. Whatever was done by then, in
    /// either phase, is put on record. The failure, if there is one, is the result; otherwise the
    /// counts are, and they add up.
    pub fn conclude(self, failure: Option<String>, run_id: i32, now: Timestamp) -> (r: (
        Vec<ActionRow>,
        Result<RunStats, String>,
    ))
        requires
            self.wf(),
            failure is None ==> self.waiting_one == 0 && self.waiting_two == 0,
        ensures
            r.0@ == recorded_actions(self.pending_actions@, run_id, now),
            r.0@.len() == self.stats.acted_on(),
            r.1 == (match failure {
                Some(error) => Err::<RunStats, String>(error),
                None => Ok::<RunStats, String>(self.stats),
            }),
            r.1 matches Ok(stats) ==> stats.checked == stats.disabled + stats.active
                + stats.indeterminate + stats.enabled + stats.banned + stats.banned_observation
                + stats.still_inactive,
    {
        proof {
            law_every_deed_is_on_record(self);
        }
        let rows = self.action_rows(run_id, now);
        let result: Result<RunStats, String> = match failure {
            Some(error) => Err(error),
            None => Ok(self.stats),
        };
        (rows, result)
    }

    /// The rows that put the actions on record.
    fn action_rows(&self, run_id: i32, created_at: Timestamp) -> (r: Vec<ActionRow>)
        ensures
            r@ == recorded_actions(self.pending_actions@, run_id, created_at),
    {
        let mut r: Vec<ActionRow> = Vec::new();
        let mut i: usize = 0;
        while i < self.pending_actions.len()
            invariant
                i <= self.pending_actions.len(),
                r@ =~= recorded_actions(
                    self.pending_actions@.take(i as int),
                    run_id,
                    created_at,
                ),
            decreases self.pending_actions.len() - i,
        {
            let action = &self.pending_actions[i];
            r.push(
                ActionRow {
                    run_id,
                    submission_id: action.submission_id,
                    upper_name: action.upper_name.clone(),
                    action: action.action,
                    reason: Some(action.reason.clone()),
                    created_at,
                },
            );
            i += 1;
        }
        assert(self.pending_actions@.take(i as int) =~= self.pending_actions@);
        r
    }
}

/// An action on record.
#[derive(Debug)]
pub struct ActionRow {
    pub run_id: i32,
    pub submission_id: i32,
    pub upper_name: String,
    pub action: ActionType,
    pub reason: Option<String>,
    pub created_at: Timestamp,
}

/// The rows that put the actions of a run on record, in their order.
pub open spec fn recorded_actions(
    actions: Seq<PendingAction>,
    run_id: i32,
    created_at: Timestamp,
) -> Seq<ActionRow> {
    Seq::new(
        actions.len(),
        |i: int|
            ActionRow {
                run_id,
                submission_id: actions[i].submission_id,
                upper_name: actions[i].upper_name,
                action: actions[i].action,
                reason: Some(actions[i].reason),
                created_at,
            },
    )
}

/// How far a run has come.
#[derive(Clone, Copy, Debug, PartialEq, Eq, Structural)]
pub enum RunStatus {
    Running,
    Succeeded,
    Failed,
}

/// A run on record.
#[derive(Debug)]
pub struct RunRow {
    pub id: i32,
    pub started_at: Timestamp,
    pub finished_at: Option<Timestamp>,
    pub status: RunStatus,
    pub stats: RunStats,
    pub error_message: Option<String>,
    pub summary: Option<String>,
}

impl RunRow {
    /// The row of a run that has just started.
    pub fn started(id: i32, started_at: Timestamp) -> (r: RunRow)
        ensures
            r == (RunRow {
                id,
                started_at,
                finished_at: None,
                status: RunStatus::Running,
                stats: no_stats(),
                error_message: None,
                summary: None,
            }),
    {
        RunRow {
            id,
            started_at,
            finished_at: None,
            status: RunStatus::Running,
            stats: RunStats::default(),
            error_message: None,
            summary: None,
        }
    }

    /// Puts on record how the run ended.
    pub fn close(&mut self, report: RunReport, finished_at: Timestamp)
        ensures
            *final(self) == (RunRow {
                id: old(self).id,
                started_at: old(self).started_at,
                finished_at: Some(finished_at),
                status: report.status,
                stats: report.stats,
                error_message: report.error_message,
                summary: report.summary,
            }),
    {
        self.finished_at = Some(finished_at);
        self.status = report.status;
        self.stats = report.stats;
        self.error_message = report.error_message;
        self.summary = report.summary;
    }
}

/// What is put on record when a run ends.
#[derive(Debug)]
pub struct RunReport {
    pub status: RunStatus,
    pub stats: RunStats,
    pub error_message: Option<String>,
    /// The sentence that sums the run up; it is also sent out as a notification.
    pub summary: Option<String>,
}

/// What is put on record when an inspection ends, well or not: a failed one counts nothing and
/// has no summary.
pub fn report_run(result: Result<RunStats, String>) -> (r: RunReport)
    ensures
        match result {
            Ok(stats) => {
                &&& r.status == RunStatus::Succeeded
                &&& r.stats == stats
                &&& r.error_message is None
                &&& r.summary matches Some(summary) && summary@ == stats.summary_text()
            },
            Err(error) => {
                &&& r.status == RunStatus::Failed
                &&& r.stats == no_stats()
                &&& r.error_message == Some(error)
                &&& r.summary is None
            },
        },
{
    match result {
        Ok(stats) => RunReport {
            status: RunStatus::Succeeded,
            stats,
            error_message: None,
            summary: Some(stats.summary()),
        },
        Err(error) => RunReport {
            status: RunStatus::Failed,
            stats: RunStats::default(),
            error_message: Some(error),
            summary: None,
        },
    }
}

/// The result of an inspection once its actions were put on record, or could not be: a failure on
/// the way comes first, and that of putting them on record only where all else went well.
pub fn settle(result: Result<RunStats, String>, saved: Result<(), String>) -> (r: Result<
    RunStats,
    String,
>)
    ensures
        r == (match (result, saved) {
            (Err(error), _) => Err::<RunStats, String>(error),
            (Ok(_), Err(error)) => Err::<RunStats, String>(error),
            (Ok(stats), Ok(_)) => Ok::<RunStats, String>(stats),
        }),
{
    match result {
        Err(error) => Err(error),
        Ok(stats) => match saved {
            Err(error) => Err(error),
            Ok(_) => Ok(stats),
        },
    }
}

/// The notification for an inspection that failed.
pub fn failure_notice(error: &str) -> (r: String)
    ensures
        r@ == "本轮 UP 主自动巡检任务执行遇到错误："@ + error@,
{
    prefixed("本轮 UP 主自动巡检任务执行遇到错误：", error)
}

/// An inspection that has dealt with everybody has put every candidate into one bucket, whatever
/// became of each on the way.
pub proof fn law_counts_add_up(inspection: Inspection)
    requires
        inspection.wf(),
        inspection.waiting_one == 0,
        inspection.waiting_two == 0,
    ensures
        inspection.stats.checked == inspection.stats.disabled + inspection.stats.active
            + inspection.stats.indeterminate + inspection.stats.enabled
            + inspection.stats.banned + inspection.stats.banned_observation
            + inspection.stats.still_inactive,
{
}

proof fn lemma_actions_of_all_types(actions: Seq<PendingAction>)
    ensures
        actions.len() == actions_of(actions, ActionType::AutoDisabled) + actions_of(
            actions,
            ActionType::AutoEnabled,
        ) + actions_of(actions, ActionType::MarkedBanned),
    decreases actions.len(),
{
    if actions.len() > 0 {
        lemma_actions_of_all_types(actions.drop_last());
    }
}

/// At every point of an inspection there is one action on record for each uploader to whom
/// something was done, and none besides.
pub proof fn law_every_deed_is_on_record(inspection: Inspection)
    requires
        inspection.wf(),
    ensures
        inspection.pending_actions@.len() == inspection.stats.acted_on(),
{
    lemma_actions_of_all_types(inspection.pending_actions@);
}

/// Nanoseconds from one moment to another.
pub open spec fn span_of(last: Timestamp, now: Timestamp) -> int {
    (now.secs - last.secs) * 1_000_000_000 + (now.nanos - last.nanos)
}

/// More whole days than the threshold, of 86400 seconds each, lie between the two moments.
pub open spec fn is_older(last: Timestamp, now: Timestamp, threshold: i64) -> bool {
    if threshold >= 0 {
        span_of(last, now) >= (threshold + 1) * 86_400_000_000_000
    } else {
        span_of(last, now) > threshold * 86_400_000_000_000
    }
}

/// So many whole days, of 86400 seconds each, lie between the two moments.
pub open spec fn is_days_apart(last: Timestamp, now: Timestamp, days: int) -> bool {
    if span_of(last, now) >= 0 {
        days * 86_400_000_000_000 <= span_of(last, now) < (days + 1) * 86_400_000_000_000
    } else {
        (-days) * 86_400_000_000_000 <= -span_of(last, now) < (-days + 1) * 86_400_000_000_000
    }
}

proof fn lemma_older(last: Timestamp, now: Timestamp, threshold: i64)
    requires
        last.wf(),
        now.wf(),
    ensures
        ({
            let verdict = activity_verdict(Some(last), now, threshold);
            &&& verdict is Inactive <==> is_older(last, now, threshold)
            &&& verdict is Active <==> !is_older(last, now, threshold)
            &&& verdict matches ActivityVerdict::Inactive(days) ==> is_days_apart(
                last,
                now,
                days as int,
            )
        }),
{
    let span = span_of(last, now);
    let n = 86_400_000_000_000int;
    let d = if span >= 0 {
        span / n
    } else {
        -((-span) / n)
    };
    assert(span >= 0 ==> d * n <= span < (d + 1) * n);
    assert(span < 0 ==> (-d) * n <= -span < (-d + 1) * n);
    law_days_are_whole_spans_of_86400_seconds(now, last, d);
    let t = threshold as int;
    if span >= 0 {
        if t >= 0 {
            assert(d > t <==> span >= (t + 1) * n) by (nonlinear_arith)
                requires
                    d * n <= span < (d + 1) * n,
                    n == 86_400_000_000_000,
            ;
        } else {
            assert(d >= 0) by (nonlinear_arith)
                requires
                    span >= 0,
                    span < (d + 1) * n,
                    n == 86_400_000_000_000,
            ;
            assert(span > t * n) by (nonlinear_arith)
                requires
                    span >= 0,
                    t < 0,
                    n == 86_400_000_000_000,
            ;
        }
    } else {
        if t >= 0 {
            assert(d <= 0) by (nonlinear_arith)
                requires
                    span < 0,
                    -span < (-d + 1) * n,
                    n == 86_400_000_000_000,
            ;
            assert(span < (t + 1) * n) by (nonlinear_arith)
                requires
                    span < 0,
                    t >= 0,
                    n == 86_400_000_000_000,
            ;
        } else {
            assert(d > t <==> span > t * n) by (nonlinear_arith)
                requires
                    (-d) * n <= -span < (-d + 1) * n,
                    n == 86_400_000_000_000,
            ;
        }
    }
}

/// How many of the candidates have no known video.
pub open spec fn without_videos(candidates: Seq<SubmissionActivity>) -> int
    decreases candidates.len(),
{
    if candidates.len() == 0 {
        0
    } else {
        without_videos(candidates.drop_last()) + if candidates.last().last_pubtime is None {
            1int
        } else {
            0int
        }
    }
}

proof fn lemma_verdicts_add_up(
    candidates: Seq<SubmissionActivity>,
    now: Timestamp,
    threshold: i64,
)
    ensures
        verdicts_of(candidates, now, threshold, ActivityVerdict::Indeterminate) == without_videos(
            candidates,
        ),
        0 <= without_videos(candidates) <= candidates.len(),
        verdicts_of(candidates, now, threshold, ActivityVerdict::Active) >= 0,
        verdicts_of(candidates, now, threshold, ActivityVerdict::Active) + verdicts_of(
            candidates,
            now,
            threshold,
            ActivityVerdict::Indeterminate,
        ) + overdue(candidates, now, threshold).len() == candidates.len(),
    decreases candidates.len(),
{
    if candidates.len() > 0 {
        lemma_verdicts_add_up(candidates.drop_last(), now, threshold);
    }
}

/// The first phase is told to disable exactly the candidates whose last known video is more whole
/// days old than the given threshold, each once, with that number of days. Those without a known
/// video are counted apart, the others as active; nothing is counted as done yet, and no action
/// goes on record.
pub proof fn law_first_phase_disables_by_the_given_threshold(
    candidates: Vec<SubmissionActivity>,
    now: Timestamp,
    threshold: i64,
)
    requires
        now.wf(),
        forall|i: int|
            0 <= i < candidates@.len() ==> ((#[trigger] candidates@[i]).last_pubtime matches Some(
                last,
            ) ==> last.wf()),
    ensures
        forall|round: &mut Inspection, r: Vec<Overdue>|
            round.wf() && round.stats.checked + candidates@.len() <= i32::MAX && #[trigger]
            call_ensures(
                Inspection::begin_phase_one,
                (round, &candidates, now, threshold),
                r,
            ) ==> {
                let before = round.stats;
                let after = final(round).stats;
                &&& are_overdue(candidates@, r@, now, threshold)
                &&& after.checked == before.checked + candidates@.len()
                &&& after.indeterminate == before.indeterminate + without_videos(candidates@)
                &&& after.active == before.active + candidates@.len() - without_videos(
                    candidates@,
                ) - r@.len()
                &&& after.disabled == before.disabled
                &&& after.enabled == before.enabled
                &&& after.still_inactive == before.still_inactive
                &&& after.banned == before.banned
                &&& after.banned_observation == before.banned_observation
                &&& final(round).pending_actions == round.pending_actions
            },
{
    assert forall|round: &mut Inspection, r: Vec<Overdue>|
        round.wf() && round.stats.checked + candidates@.len() <= i32::MAX && #[trigger]
        call_ensures(
            Inspection::begin_phase_one,
            (round, &candidates, now, threshold),
            r,
        ) implies {
        let before = round.stats;
        let after = final(round).stats;
        &&& are_overdue(candidates@, r@, now, threshold)
        &&& after.checked == before.checked + candidates@.len()
        &&& after.indeterminate == before.indeterminate + without_videos(candidates@)
        &&& after.active == before.active + candidates@.len() - without_videos(candidates@)
            - r@.len()
        &&& after.disabled == before.disabled
        &&& after.enabled == before.enabled
        &&& after.still_inactive == before.still_inactive
        &&& after.banned == before.banned
        &&& after.banned_observation == before.banned_observation
        &&& final(round).pending_actions == round.pending_actions
    } by {
        lemma_verdicts_add_up(candidates@, now, threshold);
        let pick = |candidate: SubmissionActivity| overdue_of(candidate, now, threshold);
        let takes = |candidate: SubmissionActivity|
            candidate.last_pubtime matches Some(last) && is_older(last, now, threshold);
        let gives = |candidate: SubmissionActivity, upper: Overdue|
            upper.submission_id == candidate.submission_id && upper.upper_name
                == candidate.upper_name && (candidate.last_pubtime matches Some(last)
                && is_days_apart(last, now, upper.days as int));
        assert forall|i: int|
            #![trigger candidates@[i]]
            0 <= i < candidates@.len() implies (takes(candidates@[i]) <==> pick(
            candidates@[i],
        ) is Some) && (pick(candidates@[i]) matches Some(b) ==> gives(candidates@[i], b)) by {
            if let Some(last) = candidates@[i].last_pubtime {
                lemma_older(last, now, threshold);
            }
        }
        lemma_filter_map_is_drawn(candidates@, pick, takes, gives);
    }
}

/// The uploaders are exactly the candidates who are to be disabled under the threshold.
pub open spec fn are_overdue(
    candidates: Seq<SubmissionActivity>,
    uppers: Seq<Overdue>,
    now: Timestamp,
    threshold: i64,
) -> bool {
    drawn_from(
        candidates,
        uppers,
        |candidate: SubmissionActivity|
            candidate.last_pubtime matches Some(last) && is_older(last, now, threshold),
        |candidate: SubmissionActivity, upper: Overdue|
            upper.submission_id == candidate.submission_id && upper.upper_name
                == candidate.upper_name && (candidate.last_pubtime matches Some(last)
                && is_days_apart(last, now, upper.days as int)),
    )
}

/// The list has grown by one action with these words.
pub open spec fn recorded(
    before: Seq<PendingAction>,
    after: Seq<PendingAction>,
    submission_id: i32,
    upper_name: Seq<char>,
    action: ActionType,
    reason: Seq<char>,
) -> bool {
    &&& after.len() == before.len() + 1
    &&& after.take(before.len() as int) == before
    &&& after.last().submission_id == submission_id
    &&& after.last().upper_name@ == upper_name
    &&& after.last().action == action
    &&& after.last().reason@ == reason
}

/// The counts are the same, but for those given.
pub open spec fn counts_moved(
    before: RunStats,
    after: RunStats,
    disabled: int,
    active: int,
    enabled: int,
    still_inactive: int,
    banned: int,
    banned_observation: int,
) -> bool {
    &&& after.checked == before.checked
    &&& after.indeterminate == before.indeterminate
    &&& after.disabled == before.disabled + disabled
    &&& after.active == before.active + active
    &&& after.enabled == before.enabled + enabled
    &&& after.still_inactive == before.still_inactive + still_inactive
    &&& after.banned == before.banned + banned
    &&& after.banned_observation == before.banned_observation + banned_observation
}

/// An uploader who was to be disabled is counted as disabled, with an action that tells for how
/// many days there was no video, where something was written; otherwise as active, with none.
pub proof fn law_disabled_uppers_are_counted_and_recorded(upper: Overdue, write: PolicyWrite)
    ensures
        forall|round: &mut Inspection, r: ()|
            round.wf() && round.waiting_one > 0 && #[trigger] call_ensures(
                Inspection::record_overdue,
                (round, upper, write),
                r,
            ) ==> if write is Keep {
                counts_moved(round.stats, final(round).stats, 0, 1, 0, 0, 0, 0)
                    && final(round).pending_actions@ == round.pending_actions@
            } else {
                counts_moved(round.stats, final(round).stats, 1, 0, 0, 0, 0, 0) && recorded(
                    round.pending_actions@,
                    final(round).pending_actions@,
                    upper.submission_id,
                    upper.upper_name@,
                    ActionType::AutoDisabled,
                    "最近一次投稿为 "@ + decimal(upper.days as int) + " 天前"@,
                )
            },
{
    assert forall|round: &mut Inspection, r: ()|
        round.wf() && round.waiting_one > 0 && #[trigger] call_ensures(
            Inspection::record_overdue,
            (round, upper, write),
            r,
        ) implies if write is Keep {
        counts_moved(round.stats, final(round).stats, 0, 1, 0, 0, 0, 0)
            && final(round).pending_actions@ == round.pending_actions@
    } else {
        counts_moved(round.stats, final(round).stats, 1, 0, 0, 0, 0, 0) && recorded(
            round.pending_actions@,
            final(round).pending_actions@,
            upper.submission_id,
            upper.upper_name@,
            ActionType::AutoDisabled,
            "最近一次投稿为 "@ + decimal(upper.days as int) + " 天前"@,
        )
    } by {
        let after = final(round).pending_actions@;
        assert(after.len() > 0 ==> after.drop_last() =~= after.take(after.len() - 1));
    }
}

/// A candidate of the second phase is counted by what the site said where something was written:
/// publishing again as enabled, gone as banned, banned as under observation, each with an action
/// that tells why. Where nothing was written, or there is nothing new, it is counted as still
/// inactive, with no action.
pub proof fn law_outcomes_are_counted_and_recorded(outcome: CheckOutcome, write: PolicyWrite)
    ensures
        forall|round: &mut Inspection, r: ()|
            round.wf() && round.waiting_two > 0 && #[trigger] call_ensures(
                Inspection::record_outcome,
                (round, outcome, write),
                r,
            ) ==> outcome_recorded(*round, *final(round), outcome, write),
{
    assert forall|round: &mut Inspection, r: ()|
        round.wf() && round.waiting_two > 0 && #[trigger] call_ensures(
            Inspection::record_outcome,
            (round, outcome, write),
            r,
        ) implies outcome_recorded(*round, *final(round), outcome, write) by {
        let after = final(round).pending_actions@;
        assert(after.len() > 0 ==> after.drop_last() =~= after.take(after.len() - 1));
    }
}

/// The outcome is counted, and its action, if any, is on record.
pub open spec fn outcome_recorded(
    before: Inspection,
    after: Inspection,
    outcome: CheckOutcome,
    write: PolicyWrite,
) -> bool {
    let id = outcome.submission_id;
    let name = outcome.upper_name@;
    if write is Keep || outcome.kind is StillInactive {
        counts_moved(before.stats, after.stats, 0, 0, 0, 1, 0, 0) && after.pending_actions@
            == before.pending_actions@
    } else {
        match outcome.kind {
            CheckOutcomeKind::Recovered(latest) => counts_moved(
                before.stats,
                after.stats,
                0,
                0,
                1,
                0,
                0,
                0,
            ) && recorded(
                before.pending_actions@,
                after.pending_actions@,
                id,
                name,
                ActionType::AutoEnabled,
                "检测到新投稿 "@ + datetime_text(latest.secs, latest.nanos),
            ),
            CheckOutcomeKind::StillInactive => false,
            CheckOutcomeKind::Gone(message) => counts_moved(
                before.stats,
                after.stats,
                0,
                0,
                0,
                0,
                1,
                0,
            ) && recorded(
                before.pending_actions@,
                after.pending_actions@,
                id,
                name,
                ActionType::MarkedBanned,
                "UP 已删号/不可恢复："@ + message@,
            ),
            CheckOutcomeKind::BannedObservation(message) => counts_moved(
                before.stats,
                after.stats,
                0,
                0,
                0,
                0,
                0,
                1,
            ) && recorded(
                before.pending_actions@,
                after.pending_actions@,
                id,
                name,
                ActionType::MarkedBanned,
                "封禁观察："@ + message@,
            ),
        }
    }
}

/// Every candidate of the second phase is counted among the checked ones, and nothing else
/// changes.
pub proof fn law_second_phase_counts_its_candidates(candidates: usize)
    ensures
        forall|round: &mut Inspection, r: ()|
            round.stats.checked + candidates <= i32::MAX && round.stats.checked >= 0 && #[trigger]
            call_ensures(Inspection::begin_phase_two, (round, candidates), r) ==> {
                &&& final(round).stats.checked == round.stats.checked + candidates
                &&& final(round).stats == (RunStats {
                    checked: final(round).stats.checked,
                    ..round.stats
                })
                &&& final(round).pending_actions == round.pending_actions
            },
{
}

/// However an inspection ends, each of its actions is put on record, once and in order, under the
/// run and with the time of the end. The failure, if there is one, is the result, and otherwise
/// the counts are.
pub proof fn law_every_action_reaches_the_record(
    round: Inspection,
    failure: Option<String>,
    run_id: i32,
    now: Timestamp,
    r: (Vec<ActionRow>, Result<RunStats, String>),
)
    requires
        call_ensures(Inspection::conclude, (round, failure, run_id, now), r),
    ensures
        r.0@.len() == round.pending_actions@.len(),
        forall|i: int|
            0 <= i < r.0@.len() ==> {
                let row = #[trigger] r.0@[i];
                let action = round.pending_actions@[i];
                &&& row.run_id == run_id
                &&& row.created_at == now
                &&& row.submission_id == action.submission_id
                &&& row.upper_name == action.upper_name
                &&& row.action == action.action
                &&& row.reason == Some(action.reason)
            },
        failure is None <==> r.1 is Ok,
        failure matches Some(error) ==> r.1 == Err::<RunStats, String>(error),
        r.1 matches Ok(stats) ==> stats == round.stats,
{
}

/// A run that went well is recorded as such, with its counts and a sentence that tells them, and
/// no error; one that failed with the error, and without counts or a sentence. A failure of the
/// inspection goes before one of writing its actions down.
pub proof fn law_runs_are_reported_by_their_result(
    result: Result<RunStats, String>,
    saved: Result<(), String>,
    settled: Result<RunStats, String>,
    report: RunReport,
)
    requires
        call_ensures(settle, (result, saved), settled),
        call_ensures(report_run, (result,), report),
    ensures
        settled is Ok <==> result is Ok && saved is Ok,
        settled matches Ok(stats) ==> result == Ok::<RunStats, String>(stats),
        settled matches Err(error) ==> result == Err::<RunStats, String>(error) || (result is Ok
            && saved == Err::<(), String>(error)),
        report.status is Succeeded <==> result is Ok,
        report.status is Failed <==> result is Err,
        result matches Ok(stats) ==> report.stats == stats && report.error_message is None
            && report.summary is Some,
        result matches Err(error) ==> report.error_message == Some(error) && report.summary is None
            && report.stats.checked == 0 && report.stats.disabled == 0 && report.stats.active == 0
            && report.stats.indeterminate == 0 && report.stats.enabled == 0
            && report.stats.still_inactive == 0 && report.stats.banned == 0
            && report.stats.banned_observation == 0,
{
}

/// The sentence about an inspection tells each count in its place, those of the enabled uploaders
/// with their sum before those of the disabled ones with theirs.
pub proof fn law_the_summary_tells_every_count(stats: RunStats, text: String)
    requires
        call_ensures(RunStats::summary, (&stats,), text),
    ensures
        text@ == "巡检完成：检查 "@ + decimal(stats.checked as int) + " 个 UP（启用态 "@ + decimal(
            stats.disabled + stats.active + stats.indeterminate,
        ) + "：禁用 "@ + decimal(stats.disabled as int) + "、正常 "@ + decimal(
            stats.active as int,
        ) + "、无法判定 "@ + decimal(stats.indeterminate as int) + "；禁用态复查 "@ + decimal(
            stats.enabled + stats.still_inactive + stats.banned + stats.banned_observation,
        ) + "：恢复启用 "@ + decimal(stats.enabled as int) + "、仍不活跃 "@ + decimal(
            stats.still_inactive as int,
        ) + "、转黑名单 "@ + decimal(stats.banned as int) + "、封禁观察 "@ + decimal(
            stats.banned_observation as int,
        ) + "）"@,
{
}

/// A run starts on record without an end or counts; when it ends, the end and the report go on
/// record, and its start stays.
pub proof fn law_runs_are_on_record_from_the_start(
    id: i32,
    at: Timestamp,
    row: RunRow,
    report: RunReport,
)
    requires
        call_ensures(RunRow::started, (id, at), row),
    ensures
        row.id == id && row.started_at == at && row.finished_at is None && row.status is Running
            && row.error_message is None && row.summary is None && row.stats.checked == 0,
        forall|run: &mut RunRow, r: ()| #[trigger]
            call_ensures(RunRow::close, (run, report, at), r) ==> {
                &&& final(run).id == run.id
                &&& final(run).started_at == run.started_at
                &&& final(run).finished_at == Some(at)
                &&& final(run).status == report.status
                &&& final(run).stats == report.stats
                &&& final(run).error_message == report.error_message
                &&& final(run).summary == report.summary
            },
{
}

} // verus!
