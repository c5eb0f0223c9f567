//! One inspection: which uploaders it looks at, what it does about each, and what it reports.
//!
//! The first phase disables enabled uploaders who have not published for long. The second phase
//! asks the site about uploaders who were disabled automatically, and enables those who have
//! published again, blacklists those who are gone, and sets aside those who are banned.
use vstd::prelude::*;

use crate::policy::{
    disable_submission_with_policy, enable_submission_with_policy, upsert_policy, PolicyWrite,
    PolicyRow, UpperManagePolicy, UpperManageSource, UpperRecord,
};
use crate::text::{prefixed, push_decimal};
use crate::time::{datetime_to_text, days_between, Timestamp};

verus! {

use crate::policy::UpperState;
use crate::seqs::{drawn_from, lemma_filter_map_contains, lemma_filter_map_is_drawn};
use crate::text::decimal;
use crate::time::{
    datetime_text, law_days_are_whole_spans_of_86400_seconds, lemma_days_fit, whole_days,
};

/// A video of a submission, as far as an inspection reads it.
#[derive(Clone, Copy, Debug, PartialEq, Eq, Structural)]
pub struct PublishedVideo {
    pub submission_id: Option<i32>,
    pub pubtime: Timestamp,
}

/// An uploader that an inspection looks at, with the time of the last video that is known.
#[derive(Debug)]
pub struct SubmissionActivity {
    pub submission_id: i32,
    pub upper_id: i64,
    pub upper_name: String,
    pub last_pubtime: Option<Timestamp>,
}

/// The latest publication among the videos of a submission.
pub open spec fn latest_pubtime(videos: Seq<PublishedVideo>, submission_id: i32) -> Option<
    Timestamp,
>
    decreases videos.len(),
{
    if videos.len() == 0 {
        None
    } else {
        let rest = latest_pubtime(videos.drop_last(), submission_id);
        let video = videos.last();
        if video.submission_id != Some(submission_id) {
            rest
        } else {
            match rest {
                Some(known) if !video.pubtime.after(known) => rest,
                _ => Some(video.pubtime),
            }
        }
    }
}

/// What an inspection knows about an uploader.
pub open spec fn activity(record: UpperRecord, videos: Seq<PublishedVideo>) -> SubmissionActivity {
    SubmissionActivity {
        submission_id: record.submission.id,
        upper_id: record.submission.upper_id,
        upper_name: record.submission.upper_name,
        last_pubtime: latest_pubtime(videos, record.submission.id),
    }
}

/// The enabled uploaders that no policy protects.
pub open spec fn inactive_candidates(
    records: Seq<UpperRecord>,
    videos: Seq<PublishedVideo>,
) -> Seq<SubmissionActivity> {
    records.filter_map(
        |record: UpperRecord|
            if record.state().inactive_candidate() {
                Some(activity(record, videos))
            } else {
                None
            },
    )
}

/// The uploaders that were disabled automatically.
pub open spec fn recheck_candidates(
    records: Seq<UpperRecord>,
    videos: Seq<PublishedVideo>,
) -> Seq<SubmissionActivity> {
    records.filter_map(
        |record: UpperRecord|
            if record.state().recheck_candidate() {
                Some(activity(record, videos))
            } else {
                None
            },
    )
}

fn find_latest_pubtime(videos: &Vec<PublishedVideo>, submission_id: i32) -> (r: Option<Timestamp>)
    ensures
        r == latest_pubtime(videos@, submission_id),
{
    let mut latest: Option<Timestamp> = None;
    let mut i: usize = 0;
    while i < videos.len()
        invariant
            i <= videos.len(),
            latest == latest_pubtime(videos@.take(i as int), submission_id),
        decreases videos.len() - i,
    {
        let video = videos[i];
        proof {
            assert(videos@.take(i + 1).drop_last() =~= videos@.take(i as int));
        }
        let belongs = match video.submission_id {
            Some(id) => id == submission_id,
            None => false,
        };
        if belongs {
            let newer = match latest {
                Some(known) => video.pubtime.is_after(&known),
                None => true,
            };
            if newer {
                latest = Some(video.pubtime);
            }
        }
        i += 1;
    }
    assert(videos@.take(i as int) =~= videos@);
    latest
}

fn activity_of(record: &UpperRecord, videos: &Vec<PublishedVideo>) -> (r: SubmissionActivity)
    ensures
        r == activity(*record, videos@),
{
    SubmissionActivity {
        submission_id: record.submission.id,
        upper_id: record.submission.upper_id,
        upper_name: record.submission.upper_name.clone(),
        last_pubtime: find_latest_pubtime(videos, record.submission.id),
    }
}

/// The enabled uploaders that no policy protects, with their latest publication.
pub fn fetch_inactive_candidates(
    records: &Vec<UpperRecord>,
    videos: &Vec<PublishedVideo>,
) -> (r: Vec<SubmissionActivity>)
    ensures
        r@ == inactive_candidates(records@, videos@),
{
    let mut r: Vec<SubmissionActivity> = Vec::new();
    let mut i: usize = 0;
    while i < records.len()
        invariant
            i <= records.len(),
            r@ == inactive_candidates(records@.take(i as int), videos@),
        decreases records.len() - i,
    {
        proof {
            assert(records@.take(i + 1).drop_last() =~= records@.take(i as int));
        }
        if records[i].is_inactive_candidate() {
            r.push(activity_of(&records[i], videos));
        }
        i += 1;
    }
    assert(records@.take(i as int) =~= records@);
    r
}

/// The uploaders that were disabled automatically, with their latest publication.
///
/// Only a normal policy that was written automatically leads here. An uploader whom a user put
/// under the normal policy and disabled is not enabled again behind the user's back.
pub fn fetch_disabled_for_recheck(
    records: &Vec<UpperRecord>,
    videos: &Vec<PublishedVideo>,
) -> (r: Vec<SubmissionActivity>)
    ensures
        r@ == recheck_candidates(records@, videos@),
{
    let mut r: Vec<SubmissionActivity> = Vec::new();
    let mut i: usize = 0;
    while i < records.len()
        invariant
            i <= records.len(),
            r@ == recheck_candidates(records@.take(i as int), videos@),
        decreases records.len() - i,
    {
        proof {
            assert(records@.take(i + 1).drop_last() =~= records@.take(i as int));
        }
        if records[i].is_recheck_candidate() {
            r.push(activity_of(&records[i], videos));
        }
        i += 1;
    }
    assert(records@.take(i as int) =~= records@);
    r
}

/// What the first phase makes of an uploader.
#[derive(Clone, Copy, Debug, PartialEq, Eq, Structural)]
pub enum ActivityVerdict {
    /// No video is known: nothing can be said.
    Indeterminate,
    /// The last video is recent enough.
    Active,
    /// The last video is this many days old, which is too many.
    Inactive(i64),
}

/// What the first phase makes of an uploader.
pub open spec fn activity_verdict(
    last_pubtime: Option<Timestamp>,
    now: Timestamp,
    inactive_threshold_days: i64,
) -> ActivityVerdict {
    match last_pubtime {
        None => ActivityVerdict::Indeterminate,
        Some(last) => {
            let days = whole_days(now.since_epoch() - last.since_epoch());
            if days > inactive_threshold_days {
                ActivityVerdict::Inactive(days as i64)
            } else {
                ActivityVerdict::Active
            }
        },
    }
}

/// Judges an enabled uploader by the age of the last known video.
pub fn judge_activity(
    candidate: &SubmissionActivity,
    now: Timestamp,
    inactive_threshold_days: i64,
) -> (r: ActivityVerdict)
    requires
        now.wf(),
        candidate.last_pubtime matches Some(last) ==> last.wf(),
    ensures
        r == activity_verdict(candidate.last_pubtime, now, inactive_threshold_days),
{
    match candidate.last_pubtime {
        None => ActivityVerdict::Indeterminate,
        Some(last) => {
            let days: i64 = days_between(now, last);
            if days > inactive_threshold_days {
                ActivityVerdict::Inactive(days)
            } else {
                ActivityVerdict::Active
            }
        },
    }
}

/// The state after the first phase found the uploader inactive for `days` days. A policy that was
/// put on the uploader meanwhile, or its being disabled, stands.
pub open spec fn after_inactive(
    state: UpperState,
    submission_id: i32,
    days: i64,
    now: Timestamp,
) -> UpperState {
    if state.inactive_candidate() {
        state.with_enabled(false).with_policy(
            submission_id,
            UpperManagePolicy::Normal,
            UpperManageSource::Auto,
            Some(decimal(days as int) + " 天未更新"@),
            now,
        )
    } else {
        state
    }
}

/// Disables an uploader who has been inactive for `days` days.
///
/// The record is the one just read under the submission's lock. Where it is no longer one that
/// the first phase looks at, it stays as it is.
pub fn disable_inactive(record: &mut UpperRecord, days: i64, now: Timestamp) -> (write: PolicyWrite)
    requires
        old(record).wf(),
    ensures
        final(record).wf(),
        final(record).same_submission(*old(record)),
        final(record).state() == after_inactive(
            old(record).state(),
            old(record).submission.id,
            days,
            now,
        ),
        !old(record).state().inactive_candidate() ==> *final(record) == *old(record),
        write == (if old(record).state().inactive_candidate() {
            old(record).state().upsert_write()
        } else {
            PolicyWrite::Keep
        }),
{
    if !record.is_inactive_candidate() {
        return PolicyWrite::Keep;
    }
    let mut reason = String::new();
    push_decimal(&mut reason, days);
    reason.append(" 天未更新");
    disable_submission_with_policy(
        record,
        UpperManagePolicy::Normal,
        UpperManageSource::Auto,
        Some(reason),
        now,
    )
}

/// What the site says about a disabled uploader.
#[derive(Debug)]
pub enum CheckOutcomeKind {
    /// There is a video newer than any known one, published at this time.
    Recovered(Timestamp),
    /// There is nothing new.
    StillInactive,
    /// The account no longer exists; this is the site's failure.
    Gone(String),
    /// The account is banned or frozen, for a while or for good; this is the site's failure.
    BannedObservation(String),
}

impl CheckOutcomeKind {
    /// The time of the new video is one that the calendar holds.
    pub open spec fn wf(self) -> bool {
        self matches CheckOutcomeKind::Recovered(latest) ==> latest.wf()
    }
}

/// What the site says about a certain disabled uploader.
#[derive(Debug)]
pub struct CheckOutcome {
    pub kind: CheckOutcomeKind,
    pub submission_id: i32,
    pub upper_name: String,
}

/// The state after the second phase heard about the uploader. A policy that was put on the
/// uploader meanwhile, or its being enabled, stands.
pub open spec fn after_outcome(
    state: UpperState,
    submission_id: i32,
    kind: CheckOutcomeKind,
    now: Timestamp,
) -> UpperState {
    if !state.recheck_candidate() {
        state
    } else {
        match kind {
            CheckOutcomeKind::Recovered(latest) => state.with_enabled(true).with_policy(
                submission_id,
                UpperManagePolicy::Normal,
                UpperManageSource::Auto,
                Some("检测到新投稿，时间 "@ + datetime_text(latest.secs, latest.nanos)),
                now,
            ),
            CheckOutcomeKind::StillInactive => state,
            CheckOutcomeKind::Gone(message) => state.with_policy(
                submission_id,
                UpperManagePolicy::Blacklist,
                UpperManageSource::Auto,
                Some("UP 已删号/不可恢复："@ + message@),
                now,
            ),
            CheckOutcomeKind::BannedObservation(message) => state.with_policy(
                submission_id,
                UpperManagePolicy::Banned,
                UpperManageSource::Auto,
                Some("封禁观察，待人工判断："@ + message@),
                now,
            ),
        }
    }
}

/// Does to a disabled uploader what the site's answer calls for.
///
/// The record is the one just read under the submission's lock. Where it is no longer one that
/// the second phase looks at, it stays as it is.
pub fn apply_outcome(record: &mut UpperRecord, kind: &CheckOutcomeKind, now: Timestamp) -> (write:
    PolicyWrite)
    requires
        old(record).wf(),
        kind.wf(),
    ensures
        final(record).wf(),
        final(record).same_submission(*old(record)),
        final(record).state() == after_outcome(
            old(record).state(),
            old(record).submission.id,
            *kind,
            now,
        ),
        !old(record).state().recheck_candidate() || kind is StillInactive ==> *final(record)
            == *old(record),
        write == (if old(record).state().recheck_candidate() && !(kind is StillInactive) {
            PolicyWrite::Update
        } else {
            PolicyWrite::Keep
        }),
{
    if !record.is_recheck_candidate() {
        return PolicyWrite::Keep;
    }
    match kind {
        CheckOutcomeKind::Recovered(latest) => enable_submission_with_policy(
            record,
            UpperManagePolicy::Normal,
            UpperManageSource::Auto,
            Some(prefixed("检测到新投稿，时间 ", datetime_to_text(*latest).as_str())),
            now,
        ),
        CheckOutcomeKind::StillInactive => PolicyWrite::Keep,
        CheckOutcomeKind::Gone(message) => upsert_policy(
            record,
            UpperManagePolicy::Blacklist,
            UpperManageSource::Auto,
            Some(prefixed("UP 已删号/不可恢复：", message.as_str())),
            now,
        ),
        CheckOutcomeKind::BannedObservation(message) => upsert_policy(
            record,
            UpperManagePolicy::Banned,
            UpperManageSource::Auto,
            Some(prefixed("封禁观察，待人工判断：", message.as_str())),
            now,
        ),
    }
}

/// The latest publication of a submission is one of its videos', and none of its videos came
/// after it. There is none only where the submission has no video.
pub proof fn law_latest_pubtime_is_the_maximum(videos: Seq<PublishedVideo>, submission_id: i32)
    ensures
        latest_pubtime(videos, submission_id) is None <==> (forall|i: int|
            0 <= i < videos.len() ==> (#[trigger] videos[i]).submission_id != Some(submission_id)),
        latest_pubtime(videos, submission_id) matches Some(latest) ==> {
            &&& exists|i: int|
                0 <= i < videos.len() && (#[trigger] videos[i]).submission_id == Some(submission_id)
                    && videos[i].pubtime == latest
            &&& forall|i: int|
                0 <= i < videos.len() && (#[trigger] videos[i]).submission_id == Some(submission_id)
                    ==> !videos[i].pubtime.after(latest)
        },
    decreases videos.len(),
{
    if videos.len() > 0 {
        let rest = videos.drop_last();
        law_latest_pubtime_is_the_maximum(rest, submission_id);
        assert(videos =~= rest.push(videos.last()));
        assert(videos[videos.len() - 1] == videos.last());
        assert(forall|i: int| 0 <= i < rest.len() ==> videos[i] == #[trigger] rest[i]);
        if latest_pubtime(rest, submission_id) is Some {
            let latest = latest_pubtime(rest, submission_id)->0;
            let i = choose|i: int|
                0 <= i < rest.len() && (#[trigger] rest[i]).submission_id == Some(submission_id)
                    && rest[i].pubtime == latest;
            assert(videos[i].pubtime == latest);
        }
    }
}

/// The first phase looks at the enabled and unprotected uploaders, and at nobody else.
pub proof fn law_inactive_candidates_are_exact(
    records: Seq<UpperRecord>,
    videos: Seq<PublishedVideo>,
    candidate: SubmissionActivity,
)
    ensures
        inactive_candidates(records, videos).contains(candidate) <==> (exists|i: int|
            0 <= i < records.len() && (#[trigger] records[i]).state().inactive_candidate()
                && candidate == activity(records[i], videos)),
{
    let pick = |record: UpperRecord|
        if record.state().inactive_candidate() {
            Some(activity(record, videos))
        } else {
            None
        };
    lemma_filter_map_contains(records, pick, candidate);
    assert(inactive_candidates(records, videos) == records.filter_map(pick));
    assert(forall|i: int|
        0 <= i < records.len() && (#[trigger] records[i]).state().inactive_candidate() && candidate
            == activity(records[i], videos) ==> pick(records[i]) == Some(candidate));
}

/// The second phase looks at the uploaders that were disabled automatically, and at nobody else.
pub proof fn law_recheck_candidates_are_exact(
    records: Seq<UpperRecord>,
    videos: Seq<PublishedVideo>,
    candidate: SubmissionActivity,
)
    ensures
        recheck_candidates(records, videos).contains(candidate) <==> (exists|i: int|
            0 <= i < records.len() && (#[trigger] records[i]).state().recheck_candidate()
                && candidate == activity(records[i], videos)),
{
    let pick = |record: UpperRecord|
        if record.state().recheck_candidate() {
            Some(activity(record, videos))
        } else {
            None
        };
    lemma_filter_map_contains(records, pick, candidate);
    assert(recheck_candidates(records, videos) == records.filter_map(pick));
    assert(forall|i: int|
        0 <= i < records.len() && (#[trigger] records[i]).state().recheck_candidate() && candidate
            == activity(records[i], videos) ==> pick(records[i]) == Some(candidate));
}

/// Whatever an inspection found out, it does nothing to an uploader that a policy protects by
/// the time it would act: a policy that the user wrote meanwhile is not overwritten.
pub proof fn law_protected_uppers_are_left_alone(
    state: UpperState,
    submission_id: i32,
    days: i64,
    kind: CheckOutcomeKind,
    now: Timestamp,
)
    requires
        state.effective_policy().protects(),
    ensures
        after_inactive(state, submission_id, days, now) == state,
        after_outcome(state, submission_id, kind, now) == state,
{
}

/// An uploader that the first phase disabled is one that the second phase asks about: nobody is
/// disabled without a way back.
pub proof fn law_disabled_uppers_are_rechecked(
    state: UpperState,
    submission_id: i32,
    days: i64,
    now: Timestamp,
)
    requires
        state.inactive_candidate(),
    ensures
        after_inactive(state, submission_id, days, now).recheck_candidate(),
{
}

/// An uploader found publishing again is enabled, and one that the first phase watches.
pub proof fn law_recovered_uppers_are_watched_again(
    state: UpperState,
    submission_id: i32,
    latest: Timestamp,
    now: Timestamp,
)
    requires
        state.recheck_candidate(),
    ensures
        after_outcome(
            state,
            submission_id,
            CheckOutcomeKind::Recovered(latest),
            now,
        ).inactive_candidate(),
{
}

/// An uploader that is gone is blacklisted and one that is banned is set aside. Both stay
/// disabled, and no later inspection touches them.
pub proof fn law_gone_and_banned_uppers_stay_disabled(
    state: UpperState,
    submission_id: i32,
    kind: CheckOutcomeKind,
    now: Timestamp,
)
    requires
        state.recheck_candidate(),
        kind is Gone || kind is BannedObservation,
    ensures
        ({
            let after = after_outcome(state, submission_id, kind, now);
            &&& !after.enabled
            &&& !after.inactive_candidate()
            &&& !after.recheck_candidate()
            &&& kind is Gone ==> after.effective_policy() == UpperManagePolicy::Blacklist
            &&& kind is BannedObservation ==> after.effective_policy() == UpperManagePolicy::Banned
        }),
{
}

/// An uploader with nothing new is left exactly as it is.
pub proof fn law_still_inactive_changes_nothing(
    state: UpperState,
    submission_id: i32,
    now: Timestamp,
)
    ensures
        after_outcome(state, submission_id, CheckOutcomeKind::StillInactive, now) == state,
{
}

/// An enabled uploader is judged by the whole days of 86400 seconds, `d` of them, that lie between
/// the last known video and now, and by the threshold that is given: with more days than that the
/// uploader is inactive for `d` days, otherwise active. Without a known video nothing is said.
pub proof fn law_activity_goes_by_the_given_threshold(
    candidate: SubmissionActivity,
    now: Timestamp,
    threshold: i64,
    verdict: ActivityVerdict,
    d: int,
)
    requires
        now.wf(),
        candidate.last_pubtime matches Some(last) ==> last.wf() && {
            let span = (now.secs - last.secs) * 1_000_000_000 + (now.nanos - last.nanos);
            if span >= 0 {
                d * 86_400_000_000_000 <= span < (d + 1) * 86_400_000_000_000
            } else {
                (-d) * 86_400_000_000_000 <= -span < (-d + 1) * 86_400_000_000_000
            }
        },
        call_ensures(judge_activity, (&candidate, now, threshold), verdict),
    ensures
        candidate.last_pubtime is None <==> verdict is Indeterminate,
        candidate.last_pubtime is Some && d <= threshold <==> verdict is Active,
        candidate.last_pubtime is Some && d > threshold <==> verdict is Inactive,
        verdict matches ActivityVerdict::Inactive(days) ==> days == d,
{
    if let Some(last) = candidate.last_pubtime {
        law_days_are_whole_spans_of_86400_seconds(now, last, d);
    }
}

/// The threshold decides, and nothing else of the configuration: an uploader who is inactive for
/// `d` days under one threshold is so under every threshold below `d`, and active under every
/// other one.
pub proof fn law_lower_thresholds_find_more_uppers_inactive(
    candidate: SubmissionActivity,
    now: Timestamp,
    first: i64,
    second: i64,
    verdict: ActivityVerdict,
    other: ActivityVerdict,
)
    requires
        now.wf(),
        candidate.last_pubtime matches Some(last) ==> last.wf(),
        call_ensures(judge_activity, (&candidate, now, first), verdict),
        call_ensures(judge_activity, (&candidate, now, second), other),
    ensures
        verdict matches ActivityVerdict::Inactive(d) ==> d > first && (if second < d {
            other == verdict
        } else {
            other is Active
        }),
        verdict is Active && second >= first ==> other is Active,
        verdict is Indeterminate <==> other is Indeterminate,
{
    if let Some(last) = candidate.last_pubtime {
        lemma_days_fit(now, last);
    }
}

/// The time is the latest publication among the videos of the submission; there is none only
/// where the submission has no video.
pub open spec fn is_latest(
    videos: Seq<PublishedVideo>,
    submission_id: i32,
    at: Option<Timestamp>,
) -> bool {
    match at {
        None => forall|i: int|
            0 <= i < videos.len() ==> (#[trigger] videos[i]).submission_id != Some(submission_id),
        Some(latest) => {
            &&& exists|i: int|
                0 <= i < videos.len() && (#[trigger] videos[i]).submission_id == Some(submission_id)
                    && videos[i].pubtime == latest
            &&& forall|i: int|
                0 <= i < videos.len() && (#[trigger] videos[i]).submission_id == Some(submission_id)
                    ==> videos[i].pubtime.secs < latest.secs || (videos[i].pubtime.secs
                    == latest.secs && videos[i].pubtime.nanos <= latest.nanos)
        },
    }
}

/// The first phase looks at every enabled uploader that is under no policy or under the normal
/// one, whoever wrote it, once each and at nobody else, with the latest publication that is known.
pub proof fn law_first_phase_watches_enabled_uppers(
    records: Vec<UpperRecord>,
    videos: Vec<PublishedVideo>,
    found: Vec<SubmissionActivity>,
)
    requires
        call_ensures(fetch_inactive_candidates, (&records, &videos), found),
    ensures
        drawn_from(
            records@,
            found@,
            |record: UpperRecord|
                record.submission.enabled && (record.policy matches Some(row) ==> row.policy
                    == UpperManagePolicy::Normal),
            |record: UpperRecord, candidate: SubmissionActivity|
                candidate.submission_id == record.submission.id && candidate.upper_id
                    == record.submission.upper_id && candidate.upper_name
                    == record.submission.upper_name && is_latest(
                    videos@,
                    record.submission.id,
                    candidate.last_pubtime,
                ),
        ),
{
    let takes = |record: UpperRecord|
        record.submission.enabled && (record.policy matches Some(row) ==> row.policy
            == UpperManagePolicy::Normal);
    let gives = |record: UpperRecord, candidate: SubmissionActivity|
        candidate.submission_id == record.submission.id && candidate.upper_id
            == record.submission.upper_id && candidate.upper_name == record.submission.upper_name
            && is_latest(videos@, record.submission.id, candidate.last_pubtime);
    let pick = |record: UpperRecord|
        if record.state().inactive_candidate() {
            Some(activity(record, videos@))
        } else {
            None
        };
    assert forall|i: int|
        #![trigger records@[i]]
        0 <= i < records@.len() implies (takes(records@[i]) <==> pick(records@[i]) is Some) && (pick(
        records@[i],
    ) matches Some(b) ==> gives(records@[i], b)) by {
        law_latest_pubtime_is_the_maximum(videos@, records@[i].submission.id);
    }
    lemma_filter_map_is_drawn(records@, pick, takes, gives);
}

/// The second phase looks at every disabled uploader that is under the normal policy as it is
/// written automatically, once each and at nobody else, with the latest publication that is known.
pub proof fn law_second_phase_follows_automatic_disabling(
    records: Vec<UpperRecord>,
    videos: Vec<PublishedVideo>,
    found: Vec<SubmissionActivity>,
)
    requires
        call_ensures(fetch_disabled_for_recheck, (&records, &videos), found),
    ensures
        drawn_from(
            records@,
            found@,
            |record: UpperRecord|
                !record.submission.enabled && (record.policy matches Some(row) && row.policy
                    == UpperManagePolicy::Normal && row.source == UpperManageSource::Auto),
            |record: UpperRecord, candidate: SubmissionActivity|
                candidate.submission_id == record.submission.id && candidate.upper_id
                    == record.submission.upper_id && candidate.upper_name
                    == record.submission.upper_name && is_latest(
                    videos@,
                    record.submission.id,
                    candidate.last_pubtime,
                ),
        ),
{
    let takes = |record: UpperRecord|
        !record.submission.enabled && (record.policy matches Some(row) && row.policy
            == UpperManagePolicy::Normal && row.source == UpperManageSource::Auto);
    let gives = |record: UpperRecord, candidate: SubmissionActivity|
        candidate.submission_id == record.submission.id && candidate.upper_id
            == record.submission.upper_id && candidate.upper_name == record.submission.upper_name
            && is_latest(videos@, record.submission.id, candidate.last_pubtime);
    let pick = |record: UpperRecord|
        if record.state().recheck_candidate() {
            Some(activity(record, videos@))
        } else {
            None
        };
    assert forall|i: int|
        #![trigger records@[i]]
        0 <= i < records@.len() implies (takes(records@[i]) <==> pick(records@[i]) is Some) && (pick(
        records@[i],
    ) matches Some(b) ==> gives(records@[i], b)) by {
        law_latest_pubtime_is_the_maximum(videos@, records@[i].submission.id);
    }
    lemma_filter_map_is_drawn(records@, pick, takes, gives);
}

/// The columns of a submission that no inspection touches.
pub open spec fn keeps_columns(before: UpperRecord, after: UpperRecord) -> bool {
    &&& after.submission.id == before.submission.id
    &&& after.submission.upper_id == before.submission.upper_id
    &&& after.submission.upper_name == before.submission.upper_name
    &&& after.submission.path == before.submission.path
    &&& after.submission.rule == before.submission.rule
    &&& after.submission.filter_option == before.submission.filter_option
    &&& after.submission.use_dynamic_api == before.submission.use_dynamic_api
}

/// The policy row is the given one.
pub open spec fn row_says(
    row: Option<PolicyRow>,
    submission_id: i32,
    policy: UpperManagePolicy,
    source: UpperManageSource,
    reason: Seq<char>,
    now: Timestamp,
) -> bool {
    row matches Some(row) && row.submission_id == submission_id && row.policy == policy
        && row.source == source && row.updated_at == now && (row.reason matches Some(text)
        && text@ == reason)
}

/// Disabling an inactive uploader: while it is enabled and under no policy or the normal one, it
/// is disabled and gets the automatic normal policy, with the number of days as the reason. In any
/// other state nothing of it changes.
pub proof fn law_inactive_uppers_are_disabled_with_a_reason(days: i64, now: Timestamp)
    ensures
        forall|record: &mut UpperRecord, write: PolicyWrite| #[trigger]
            call_ensures(disable_inactive, (record, days, now), write) ==> {
                let watched = record.submission.enabled && (record.policy matches Some(row)
                    ==> row.policy == UpperManagePolicy::Normal);
                &&& keeps_columns(*record, *final(record))
                &&& watched ==> {
                    &&& !final(record).submission.enabled
                    &&& row_says(
                        final(record).policy,
                        record.submission.id,
                        UpperManagePolicy::Normal,
                        UpperManageSource::Auto,
                        decimal(days as int) + " 天未更新"@,
                        now,
                    )
                    &&& write == (if record.policy is Some {
                        PolicyWrite::Update
                    } else {
                        PolicyWrite::Insert
                    })
                }
                &&& !watched ==> *final(record) == *record && write == PolicyWrite::Keep
            },
{
}

/// What is done to an uploader that is disabled and under the automatic normal policy when the
/// site has been asked: published again, it is enabled and stays under that policy; gone, it is
/// blacklisted; banned, it is set aside; neither of the last two is enabled. With nothing new, and
/// in any other state, nothing of it changes.
pub proof fn law_outcomes_do_what_they_call_for(kind: CheckOutcomeKind, now: Timestamp)
    ensures
        forall|record: &mut UpperRecord, write: PolicyWrite| #[trigger]
            call_ensures(apply_outcome, (record, &kind, now), write) ==> {
                let followed = !record.submission.enabled && (record.policy matches Some(row)
                    && row.policy == UpperManagePolicy::Normal && row.source
                    == UpperManageSource::Auto);
                &&& keeps_columns(*record, *final(record))
                &&& !followed || kind is StillInactive ==> *final(record) == *record && write
                    == PolicyWrite::Keep
                &&& followed && !(kind is StillInactive) ==> write == PolicyWrite::Update
                    && final(record).submission.enabled == (kind is Recovered) && match kind {
                    CheckOutcomeKind::Recovered(latest) => row_says(
                        final(record).policy,
                        record.submission.id,
                        UpperManagePolicy::Normal,
                        UpperManageSource::Auto,
                        "检测到新投稿，时间 "@ + datetime_text(latest.secs, latest.nanos),
                        now,
                    ),
                    CheckOutcomeKind::StillInactive => false,
                    CheckOutcomeKind::Gone(message) => row_says(
                        final(record).policy,
                        record.submission.id,
                        UpperManagePolicy::Blacklist,
                        UpperManageSource::Auto,
                        "UP 已删号/不可恢复："@ + message@,
                        now,
                    ),
                    CheckOutcomeKind::BannedObservation(message) => row_says(
                        final(record).policy,
                        record.submission.id,
                        UpperManagePolicy::Banned,
                        UpperManageSource::Auto,
                        "封禁观察，待人工判断："@ + message@,
                        now,
                    ),
                }
            },
{
}

} // verus!
