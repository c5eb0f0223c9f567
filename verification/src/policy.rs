//! The policy that each uploader is under, and every way in which it and the uploader's enabled
//! flag change together.
//!
//! A submission (an uploader whose videos are followed) and its policy row are read and written
//! as one [`UpperRecord`]: under the submission's lock and in one transaction.
use vstd::prelude::*;

use crate::text::push_decimal;
use crate::time::Timestamp;

verus! {

/// What may be done to an uploader automatically.
#[derive(Clone, Copy, Debug, PartialEq, Eq, Structural)]
pub enum UpperManagePolicy {
    /// Nothing special: disabled when inactive, enabled again on a new video.
    Normal,
    /// Never disabled automatically.
    Whitelist,
    /// Never enabled automatically.
    Blacklist,
    /// Banned or frozen by the site: left alone until a user decides.
    Banned,
}

/// Who wrote a policy.
#[derive(Clone, Copy, Debug, PartialEq, Eq, Structural)]
pub enum UpperManageSource {
    Auto,
    Manual,
}

impl UpperManagePolicy {
    /// The policy keeps the uploader from being enabled or disabled on the way.
    pub open spec fn protects(self) -> bool {
        self != UpperManagePolicy::Normal
    }

    /// Whether the policy keeps the uploader from being enabled or disabled on the way.
    pub fn is_protective(self) -> (r: bool)
        ensures
            r == self.protects(),
    {
        match self {
            UpperManagePolicy::Normal => false,
            UpperManagePolicy::Whitelist | UpperManagePolicy::Blacklist
            | UpperManagePolicy::Banned => true,
        }
    }
}

/// The policy row of a submission. There is at most one for each submission.
#[derive(Debug)]
pub struct PolicyRow {
    pub submission_id: i32,
    pub policy: UpperManagePolicy,
    pub source: UpperManageSource,
    pub reason: Option<String>,
    pub updated_at: Timestamp,
}

/// What a policy row says.
pub struct PolicyView {
    pub submission_id: i32,
    pub policy: UpperManagePolicy,
    pub source: UpperManageSource,
    pub reason: Option<Seq<char>>,
    pub updated_at: Timestamp,
}

/// What an optional text says.
pub open spec fn text_view(text: Option<String>) -> Option<Seq<char>> {
    match text {
        Some(text) => Some(text@),
        None => None,
    }
}

impl View for PolicyRow {
    type V = PolicyView;

    open spec fn view(&self) -> PolicyView {
        PolicyView {
            submission_id: self.submission_id,
            policy: self.policy,
            source: self.source,
            reason: text_view(self.reason),
            updated_at: self.updated_at,
        }
    }
}

/// The row of a submission: an uploader whose videos are followed.
#[derive(Debug)]
pub struct SubmissionRow {
    pub id: i32,
    pub upper_id: i64,
    pub upper_name: String,
    pub path: String,
    pub enabled: bool,
    /// The filter rule, in its stored form.
    pub rule: Option<String>,
    /// The stream filter, in its stored form.
    pub filter_option: Option<String>,
    pub use_dynamic_api: bool,
}

/// A submission together with its policy row.
#[derive(Debug)]
pub struct UpperRecord {
    pub submission: SubmissionRow,
    pub policy: Option<PolicyRow>,
}

/// What a policy change means for the stored row: the row to store is the one in the record.
#[derive(Clone, Copy, Debug, PartialEq, Eq, Structural)]
pub enum PolicyWrite {
    /// Leave the stored row, or its absence, as it is.
    Keep,
    Insert,
    Update,
    Delete,
}

/// What decides the uploader's fate: whether it is enabled, and its policy.
pub struct UpperState {
    pub enabled: bool,
    pub policy: Option<PolicyView>,
}

impl UpperState {
    /// The policy in force: without a row, the normal one.
    pub open spec fn effective_policy(self) -> UpperManagePolicy {
        match self.policy {
            Some(row) => row.policy,
            None => UpperManagePolicy::Normal,
        }
    }

    /// The first phase of an inspection looks at this uploader: enabled, and not protected.
    pub open spec fn inactive_candidate(self) -> bool {
        self.enabled && !self.effective_policy().protects()
    }

    /// The second phase of an inspection looks at this uploader: disabled, under the normal
    /// policy that was written automatically.
    pub open spec fn recheck_candidate(self) -> bool {
        &&& !self.enabled
        &&& self.policy matches Some(row) && row.policy == UpperManagePolicy::Normal && row.source
            == UpperManageSource::Auto
    }

    /// The state with another policy row in place of the present one.
    pub open spec fn with_policy(
        self,
        submission_id: i32,
        policy: UpperManagePolicy,
        source: UpperManageSource,
        reason: Option<Seq<char>>,
        now: Timestamp,
    ) -> UpperState {
        UpperState {
            enabled: self.enabled,
            policy: Some(PolicyView { submission_id, policy, source, reason, updated_at: now }),
        }
    }

    /// The state without a policy row.
    pub open spec fn without_policy(self) -> UpperState {
        UpperState { enabled: self.enabled, policy: None }
    }

    /// The state with the flag set as given.
    pub open spec fn with_enabled(self, enabled: bool) -> UpperState {
        UpperState { enabled, policy: self.policy }
    }

    /// The write that replaces the present row by another one.
    pub open spec fn upsert_write(self) -> PolicyWrite {
        if self.policy is Some {
            PolicyWrite::Update
        } else {
            PolicyWrite::Insert
        }
    }

    /// The state after the user deleted the policy row that held `original`: a deleted blacklist
    /// entry or ban makes room for the normal automatic policy, any other row just goes.
    pub open spec fn after_delete(
        self,
        submission_id: i32,
        original: UpperManagePolicy,
        now: Timestamp,
    ) -> UpperState {
        match original {
            UpperManagePolicy::Blacklist => self.with_policy(
                submission_id,
                UpperManagePolicy::Normal,
                UpperManageSource::Auto,
                Some("用户删除黑名单，允许自动恢复"@),
                now,
            ),
            UpperManagePolicy::Banned => self.with_policy(
                submission_id,
                UpperManagePolicy::Normal,
                UpperManageSource::Auto,
                Some("用户清除封禁观察，允许自动恢复"@),
                now,
            ),
            UpperManagePolicy::Whitelist | UpperManagePolicy::Normal => self.without_policy(),
        }
    }
}

impl UpperRecord {
    /// The policy row belongs to the submission.
    pub open spec fn wf(self) -> bool {
        self.policy matches Some(row) ==> row.submission_id == self.submission.id
    }

    /// What decides the uploader's fate.
    pub open spec fn state(self) -> UpperState {
        UpperState {
            enabled: self.submission.enabled,
            policy: match self.policy {
                Some(row) => Some(row@),
                None => None,
            },
        }
    }

    /// Both records describe the same submission, whatever its enabled flag and its policy.
    pub open spec fn same_submission(self, other: UpperRecord) -> bool {
        &&& self.submission.id == other.submission.id
        &&& self.submission.upper_id == other.submission.upper_id
        &&& self.submission.upper_name == other.submission.upper_name
        &&& self.submission.path == other.submission.path
        &&& self.submission.rule == other.submission.rule
        &&& self.submission.filter_option == other.submission.filter_option
        &&& self.submission.use_dynamic_api == other.submission.use_dynamic_api
    }

    /// Whether the first phase of an inspection looks at this uploader.
    pub fn is_inactive_candidate(&self) -> (r: bool)
        ensures
            r == self.state().inactive_candidate(),
    {
        if !self.submission.enabled {
            return false;
        }
        match &self.policy {
            Some(row) => !row.policy.is_protective(),
            None => true,
        }
    }

    /// Whether the second phase of an inspection looks at this uploader.
    pub fn is_recheck_candidate(&self) -> (r: bool)
        ensures
            r == self.state().recheck_candidate(),
    {
        if self.submission.enabled {
            return false;
        }
        match &self.policy {
            Some(row) => row.policy == UpperManagePolicy::Normal && row.source
                == UpperManageSource::Auto,
            None => false,
        }
    }
}

/// Puts a policy in place of the record's present one, if it has one.
pub fn upsert_policy_txn(
    record: &mut UpperRecord,
    policy: UpperManagePolicy,
    source: UpperManageSource,
    reason: Option<String>,
    now: Timestamp,
) -> (write: PolicyWrite)
    ensures
        final(record).wf(),
        final(record).submission == old(record).submission,
        final(record).state() == old(record).state().with_policy(
            old(record).submission.id,
            policy,
            source,
            text_view(reason),
            now,
        ),
        write == old(record).state().upsert_write(),
{
    let write = if record.policy.is_some() {
        PolicyWrite::Update
    } else {
        PolicyWrite::Insert
    };
    record.policy =
    Some(
        PolicyRow { submission_id: record.submission.id, policy, source, reason, updated_at: now },
    );
    write
}

/// Puts a policy on the submission, whether it has one or not, and leaves its flag alone.
pub fn upsert_policy(
    record: &mut UpperRecord,
    policy: UpperManagePolicy,
    source: UpperManageSource,
    reason: Option<String>,
    now: Timestamp,
) -> (write: PolicyWrite)
    ensures
        final(record).wf(),
        final(record).submission == old(record).submission,
        final(record).state() == old(record).state().with_policy(
            old(record).submission.id,
            policy,
            source,
            text_view(reason),
            now,
        ),
        write == old(record).state().upsert_write(),
{
    upsert_policy_txn(record, policy, source, reason, now)
}

/// Disables the submission and puts the policy on it in one step: there is no way to be left
/// disabled without the policy that would lead to being enabled again.
pub fn disable_submission_with_policy(
    record: &mut UpperRecord,
    policy: UpperManagePolicy,
    source: UpperManageSource,
    reason: Option<String>,
    now: Timestamp,
) -> (write: PolicyWrite)
    ensures
        final(record).wf(),
        final(record).same_submission(*old(record)),
        final(record).state() == old(record).state().with_enabled(false).with_policy(
            old(record).submission.id,
            policy,
            source,
            text_view(reason),
            now,
        ),
        write == old(record).state().upsert_write(),
{
    record.submission.enabled = false;
    upsert_policy_txn(record, policy, source, reason, now)
}

/// Enables the submission and puts the policy on it in one step.
pub fn enable_submission_with_policy(
    record: &mut UpperRecord,
    policy: UpperManagePolicy,
    source: UpperManageSource,
    reason: Option<String>,
    now: Timestamp,
) -> (write: PolicyWrite)
    ensures
        final(record).wf(),
        final(record).same_submission(*old(record)),
        final(record).state() == old(record).state().with_enabled(true).with_policy(
            old(record).submission.id,
            policy,
            source,
            text_view(reason),
            now,
        ),
        write == old(record).state().upsert_write(),
{
    record.submission.enabled = true;
    upsert_policy_txn(record, policy, source, reason, now)
}

/// What becomes of a submission when the user deletes its policy, which was `original_policy`.
///
/// Behind a blacklist entry or a ban the normal automatic policy takes its place, so that the
/// next inspection looks at the uploader again. A whitelist entry or a normal policy just goes.
/// The enabled flag stays as it is.
pub fn reset_policy_after_delete(
    record: &mut UpperRecord,
    original_policy: UpperManagePolicy,
    now: Timestamp,
) -> (write: PolicyWrite)
    ensures
        final(record).wf(),
        final(record).submission == old(record).submission,
        final(record).state() == old(record).state().after_delete(
            old(record).submission.id,
            original_policy,
            now,
        ),
        write == (match original_policy {
            UpperManagePolicy::Blacklist | UpperManagePolicy::Banned => old(
                record,
            ).state().upsert_write(),
            UpperManagePolicy::Whitelist | UpperManagePolicy::Normal => PolicyWrite::Delete,
        }),
{
    match original_policy {
        UpperManagePolicy::Blacklist => upsert_policy_txn(
            record,
            UpperManagePolicy::Normal,
            UpperManageSource::Auto,
            Some("用户删除黑名单，允许自动恢复".to_string()),
            now,
        ),
        UpperManagePolicy::Banned => upsert_policy_txn(
            record,
            UpperManagePolicy::Normal,
            UpperManageSource::Auto,
            Some("用户清除封禁观察，允许自动恢复".to_string()),
            now,
        ),
        UpperManagePolicy::Whitelist | UpperManagePolicy::Normal => {
            record.policy = None;
            PolicyWrite::Delete
        },
    }
}

/// Marks the submission as reset by hand: the normal policy, written by the user.
pub fn reset_policy_to_default(record: &mut UpperRecord, now: Timestamp) -> (write: PolicyWrite)
    ensures
        final(record).wf(),
        final(record).submission == old(record).submission,
        final(record).state() == old(record).state().with_policy(
            old(record).submission.id,
            UpperManagePolicy::Normal,
            UpperManageSource::Manual,
            Some("用户删除策略，恢复默认管理"@),
            now,
        ),
        write == old(record).state().upsert_write(),
{
    upsert_policy_txn(
        record,
        UpperManagePolicy::Normal,
        UpperManageSource::Manual,
        Some("用户删除策略，恢复默认管理".to_string()),
        now,
    )
}

/// The sentence for a submission that does not exist.
pub open spec fn missing_submission_text(submission_id: i32) -> Seq<char> {
    "submission "@ + crate::text::decimal(submission_id as int) + " 不存在"@
}

/// Whether the submission is enabled, or a sentence that says that it does not exist.
pub fn is_submission_enabled(record: Option<&UpperRecord>, submission_id: i32) -> (r: Result<
    bool,
    String,
>)
    ensures
        match record {
            Some(record) => r == Ok::<bool, String>(record.submission.enabled),
            None => r matches Err(text) && text@ == missing_submission_text(submission_id),
        },
{
    match record {
        Some(record) => Ok(record.submission.enabled),
        None => {
            let mut text = String::new();
            text.append("submission ");
            push_decimal(&mut text, submission_id as i64);
            text.append(" 不存在");
            Err(text)
        },
    }
}

/// No uploader is looked at by both phases of an inspection.
pub proof fn law_phases_share_nobody(state: UpperState)
    ensures
        !(state.inactive_candidate() && state.recheck_candidate()),
{
}

/// A whitelist entry, a blacklist entry or a ban keeps both phases of an inspection away,
/// whoever wrote it.
pub proof fn law_protected_uppers_are_no_candidates(state: UpperState)
    requires
        state.effective_policy().protects(),
    ensures
        !state.inactive_candidate(),
        !state.recheck_candidate(),
{
}

/// A disabled uploader without a policy row, or with one that the user wrote, is never enabled
/// by an inspection.
pub proof fn law_only_the_automatic_policy_leads_back(state: UpperState)
    requires
        state.policy matches Some(row) ==> row.source == UpperManageSource::Manual,
    ensures
        !state.recheck_candidate(),
{
}

/// After the user deletes the blacklist entry or the ban of a disabled uploader, the uploader is
/// still disabled, and the next inspection asks the site about it.
pub proof fn law_deleted_ban_leads_back(
    state: UpperState,
    submission_id: i32,
    original: UpperManagePolicy,
    now: Timestamp,
)
    requires
        !state.enabled,
        original == UpperManagePolicy::Blacklist || original == UpperManagePolicy::Banned,
    ensures
        !state.after_delete(submission_id, original, now).enabled,
        state.after_delete(submission_id, original, now).recheck_candidate(),
{
}

/// After the user deletes the whitelist entry of an enabled uploader, the next inspection may
/// disable it again.
pub proof fn law_deleted_whitelist_ends_protection(
    state: UpperState,
    submission_id: i32,
    now: Timestamp,
)
    requires
        state.enabled,
    ensures
        state.after_delete(
            submission_id,
            UpperManagePolicy::Whitelist,
            now,
        ).inactive_candidate(),
{
}

/// Deleting a policy never enables or disables an uploader.
pub proof fn law_deleting_keeps_the_flag(
    state: UpperState,
    submission_id: i32,
    original: UpperManagePolicy,
    now: Timestamp,
)
    ensures
        state.after_delete(submission_id, original, now).enabled == state.enabled,
{
}

/// An upsert leaves exactly the policy that was last written, with its source and its reason,
/// whatever was there before; only the first one that there is needs a new row.
pub proof fn law_last_policy_wins(
    state: UpperState,
    submission_id: i32,
    first: (UpperManagePolicy, UpperManageSource, Option<Seq<char>>, Timestamp),
    second: (UpperManagePolicy, UpperManageSource, Option<Seq<char>>, Timestamp),
)
    ensures
        ({
            let once = state.with_policy(submission_id, first.0, first.1, first.2, first.3);
            let twice = once.with_policy(submission_id, second.0, second.1, second.2, second.3);
            &&& twice == state.with_policy(submission_id, second.0, second.1, second.2, second.3)
            &&& once.upsert_write() == PolicyWrite::Update
            &&& state.policy is None ==> state.upsert_write() == PolicyWrite::Insert
        }),
{
}

/// The row is there and holds these values; the reason has these words, where there is one.
pub open spec fn row_holds(
    row: Option<PolicyRow>,
    submission_id: i32,
    policy: UpperManagePolicy,
    source: UpperManageSource,
    reason: Option<Seq<char>>,
    now: Timestamp,
) -> bool {
    &&& row matches Some(row)
    &&& row.submission_id == submission_id
    &&& row.policy == policy
    &&& row.source == source
    &&& row.updated_at == now
    &&& row.reason is Some <==> reason is Some
    &&& row.reason matches Some(text) ==> Some(text@) == reason
}

/// Putting a policy on a submission leaves its row with that policy, source, reason and time, under
/// the submission's id, whatever was there before. Nothing of the submission changes but, where it
/// is enabled or disabled with it, its flag. A row that was there is updated, otherwise one is
/// inserted.
pub proof fn law_policies_are_written_as_given(
    policy: UpperManagePolicy,
    source: UpperManageSource,
    reason: Option<String>,
    now: Timestamp,
)
    ensures
        forall|record: &mut UpperRecord, write: PolicyWrite| #[trigger]
            call_ensures(upsert_policy_txn, (record, policy, source, reason, now), write)
                ==> upserted(*record, *final(record), policy, source, reason, now, write)
                && final(record).submission == record.submission,
        forall|record: &mut UpperRecord, write: PolicyWrite| #[trigger]
            call_ensures(upsert_policy, (record, policy, source, reason, now), write) ==> upserted(
                *record,
                *final(record),
                policy,
                source,
                reason,
                now,
                write,
            ) && final(record).submission == record.submission,
        forall|record: &mut UpperRecord, write: PolicyWrite| #[trigger]
            call_ensures(
                disable_submission_with_policy,
                (record, policy, source, reason, now),
                write,
            ) ==> upserted(*record, *final(record), policy, source, reason, now, write)
                && !final(record).submission.enabled,
        forall|record: &mut UpperRecord, write: PolicyWrite| #[trigger]
            call_ensures(
                enable_submission_with_policy,
                (record, policy, source, reason, now),
                write,
            ) ==> upserted(*record, *final(record), policy, source, reason, now, write)
                && final(record).submission.enabled,
{
}

/// The record has the policy row that was given, and is otherwise as it was but for its flag.
pub open spec fn upserted(
    before: UpperRecord,
    after: UpperRecord,
    policy: UpperManagePolicy,
    source: UpperManageSource,
    reason: Option<String>,
    now: Timestamp,
    write: PolicyWrite,
) -> bool {
    &&& row_holds(
        after.policy,
        before.submission.id,
        policy,
        source,
        match reason {
            Some(text) => Some(text@),
            None => None,
        },
        now,
    )
    &&& write == (if before.policy is Some {
        PolicyWrite::Update
    } else {
        PolicyWrite::Insert
    })
    &&& after.submission.id == before.submission.id
    &&& after.submission.upper_id == before.submission.upper_id
    &&& after.submission.upper_name == before.submission.upper_name
    &&& after.submission.path == before.submission.path
    &&& after.submission.rule == before.submission.rule
    &&& after.submission.filter_option == before.submission.filter_option
    &&& after.submission.use_dynamic_api == before.submission.use_dynamic_api
}

/// What becomes of a policy row that the user deletes: behind a blacklist entry or a ban comes the
/// automatic normal policy, so that the next inspection asks about the uploader again; a whitelist
/// entry or a normal policy is gone. Nothing of the submission itself changes, its flag included.
pub proof fn law_deleting_depends_on_the_policy_alone(
    original: UpperManagePolicy,
    now: Timestamp,
)
    ensures
        forall|record: &mut UpperRecord, write: PolicyWrite| #[trigger]
            call_ensures(reset_policy_after_delete, (record, original, now), write) ==> {
                &&& final(record).submission == record.submission
                &&& original is Whitelist || original is Normal ==> final(record).policy is None
                    && write == PolicyWrite::Delete
                &&& original is Blacklist ==> row_holds(
                    final(record).policy,
                    record.submission.id,
                    UpperManagePolicy::Normal,
                    UpperManageSource::Auto,
                    Some("用户删除黑名单，允许自动恢复"@),
                    now,
                )
                &&& original is Banned ==> row_holds(
                    final(record).policy,
                    record.submission.id,
                    UpperManagePolicy::Normal,
                    UpperManageSource::Auto,
                    Some("用户清除封禁观察，允许自动恢复"@),
                    now,
                )
                &&& original is Blacklist || original is Banned ==> write == (
                if record.policy is Some {
                    PolicyWrite::Update
                } else {
                    PolicyWrite::Insert
                })
            },
        forall|record: &mut UpperRecord, write: PolicyWrite| #[trigger]
            call_ensures(reset_policy_to_default, (record, now), write) ==> row_holds(
                final(record).policy,
                record.submission.id,
                UpperManagePolicy::Normal,
                UpperManageSource::Manual,
                Some("用户删除策略，恢复默认管理"@),
                now,
            ) && final(record).submission == record.submission && write == (
            if record.policy is Some {
                PolicyWrite::Update
            } else {
                PolicyWrite::Insert
            }),
{
}

/// An uploader is protected by a whitelist entry, a blacklist entry or a ban, and by nothing else.
/// The first phase looks at it while it is enabled and not protected; the second while it is
/// disabled under the normal policy as it is written automatically.
pub proof fn law_candidates_by_flag_and_policy(
    record: UpperRecord,
    first: bool,
    second: bool,
    policy: UpperManagePolicy,
    protective: bool,
)
    requires
        call_ensures(UpperRecord::is_inactive_candidate, (&record,), first),
        call_ensures(UpperRecord::is_recheck_candidate, (&record,), second),
        call_ensures(UpperManagePolicy::is_protective, (policy,), protective),
    ensures
        protective <==> policy is Whitelist || policy is Blacklist || policy is Banned,
        first <==> record.submission.enabled && (record.policy matches Some(row)
            ==> row.policy is Normal),
        second <==> !record.submission.enabled && (record.policy matches Some(row)
            && row.policy is Normal && row.source is Auto),
{
}

/// A submission that is there is told by its flag, and one that is not by its id.
pub proof fn law_flags_are_told_as_they_are(
    record: Option<&UpperRecord>,
    submission_id: i32,
    r: Result<bool, String>,
)
    requires
        call_ensures(is_submission_enabled, (record, submission_id), r),
    ensures
        record is Some <==> r is Ok,
        record matches Some(row) ==> r == Ok::<bool, String>(row.submission.enabled),
        r matches Err(text) ==> text@ == "submission "@ + crate::text::decimal(submission_id as int)
            + " 不存在"@,
{
}

} // verus!
