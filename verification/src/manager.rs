//! When an inspection runs: one at a time, set off by the schedule or by the user.
//!
//! An inspection takes the one slot there is before it is queued, and gives it back when it has
//! ended, well or not. Whoever finds the slot taken does not start another one.
use vstd::prelude::*;

use crate::config::{Trigger, UpperAutoManageOption};
use crate::task::{TaskStatus, TaskTrigger};
use crate::time::Timestamp;

verus! {

use crate::task::idle_status;

/// The state of the automatic management: the slot, what is told about it, and its job in the
/// schedule, if there is one.
#[derive(Debug)]
pub struct UpperAutoManageTaskManager {
    /// An inspection is queued or running.
    pub run_slot: bool,
    pub status: TaskStatus,
    pub job_id: Option<u128>,
}

/// What a change of the configuration calls for: first the old job goes, then a new one comes.
#[derive(Debug)]
pub struct JobChange {
    pub remove: Option<u128>,
    pub add: Option<Trigger>,
}

impl UpperAutoManageTaskManager {
    /// An inspection that is running has taken the slot.
    pub open spec fn wf(self) -> bool {
        self.status.is_running ==> self.run_slot
    }

    /// An inspection has taken the slot, but does not run yet.
    pub open spec fn queued(self) -> bool {
        self.run_slot && !self.status.is_running
    }

    /// The state with the slot taken.
    pub open spec fn occupied(self) -> UpperAutoManageTaskManager {
        UpperAutoManageTaskManager { run_slot: true, ..self }
    }

    /// The state with the slot given back.
    pub open spec fn released(self) -> UpperAutoManageTaskManager {
        UpperAutoManageTaskManager { run_slot: false, ..self }
    }

    /// The state while an inspection runs that began at a certain time.
    pub open spec fn begun(self, now: Timestamp) -> UpperAutoManageTaskManager {
        UpperAutoManageTaskManager {
            status: TaskStatus {
                is_running: true,
                last_run: Some(now),
                last_finish: None,
                next_run: None,
            },
            ..self
        }
    }

    /// The state after an inspection ended at a certain time; the slot is free again.
    pub open spec fn ended(
        self,
        now: Timestamp,
        next_run: Option<Timestamp>,
    ) -> UpperAutoManageTaskManager {
        UpperAutoManageTaskManager {
            run_slot: false,
            status: TaskStatus {
                is_running: false,
                last_run: self.status.last_run,
                last_finish: Some(now),
                next_run,
            },
            ..self
        }
    }

    /// A management that has done nothing yet and has no job.
    pub fn new() -> (r: Self)
        ensures
            r.wf(),
            !r.run_slot,
            r.status == idle_status(),
            r.job_id is None,
    {
        UpperAutoManageTaskManager {
            run_slot: false,
            status: TaskStatus::default(),
            job_id: None,
        }
    }

    /// How the inspections are doing.
    pub fn subscribe(&self) -> (r: TaskStatus)
        ensures
            r == self.status,
    {
        self.status
    }

    /// Takes the slot for an inspection, set off by the schedule or by the user. `false` where
    /// another one has taken it: then there is nothing to start.
    pub fn run_once_with_trigger(&mut self, trigger: TaskTrigger) -> (r: bool)
        requires
            old(self).wf(),
        ensures
            final(self).wf(),
            r == !old(self).run_slot,
            *final(self) == old(self).occupied(),
    {
        if self.run_slot {
            return false;
        }
        self.run_slot = true;
        true
    }

    /// Takes the slot for an inspection that the user wants now. `false` where one is queued or
    /// running already.
    pub fn run_once(&mut self) -> (r: bool)
        requires
            old(self).wf(),
        ensures
            final(self).wf(),
            r == !old(self).run_slot,
            *final(self) == old(self).occupied(),
    {
        self.run_once_with_trigger(TaskTrigger::Manual)
    }

    /// Gives the slot back where the inspection could not be queued.
    pub fn registration_failed(&mut self)
        requires
            old(self).queued(),
        ensures
            final(self).wf(),
            *final(self) == old(self).released(),
    {
        self.run_slot = false;
    }

    /// The inspection that has taken the slot begins.
    pub fn begin_inspection(&mut self, now: Timestamp)
        requires
            old(self).queued(),
        ensures
            final(self).wf(),
            *final(self) == old(self).begun(now),
    {
        self.status =
        TaskStatus { is_running: true, last_run: Some(now), last_finish: None, next_run: None };
    }

    /// The job whose next turn is told when an inspection ends: the one in the schedule, even
    /// where the user set the inspection off; without one, the inspection's own.
    pub fn job_to_report(&self, own_job: u128) -> (r: u128)
        ensures
            r == (match self.job_id {
                Some(job_id) => job_id,
                None => own_job,
            }),
    {
        match self.job_id {
            Some(job_id) => job_id,
            None => own_job,
        }
    }

    /// The inspection has ended, well or not, and gives the slot back.
    pub fn finish_inspection(&mut self, now: Timestamp, next_run: Option<Timestamp>)
        requires
            old(self).wf(),
            old(self).status.is_running,
        ensures
            final(self).wf(),
            *final(self) == old(self).ended(now, next_run),
    {
        self.status =
        TaskStatus {
            is_running: false,
            last_run: self.status.last_run,
            last_finish: Some(now),
            next_run,
        };
        self.run_slot = false;
    }

    /// Tells when the next inspection is due.
    pub fn refresh_next_run(&mut self, next_run: Option<Timestamp>)
        ensures
            *final(self) == (UpperAutoManageTaskManager {
                status: TaskStatus { next_run, ..old(self).status },
                ..*old(self)
            }),
    {
        self.status.next_run = next_run;
    }

    /// The state without a job.
    pub open spec fn without_job(self) -> UpperAutoManageTaskManager {
        UpperAutoManageTaskManager { job_id: None, ..self }
    }

    /// The state with a job.
    pub open spec fn with_job(self, job_id: u128) -> UpperAutoManageTaskManager {
        UpperAutoManageTaskManager { job_id: Some(job_id), ..self }
    }

    /// What a new configuration calls for: the old job goes whatever it says, and a new one comes
    /// where the management is enabled. Until the old job has gone, the state keeps it.
    pub fn config_changed(&self, option: &UpperAutoManageOption) -> (r: JobChange)
        ensures
            r.remove == self.job_id,
            r.add == (if option.enabled {
                Some(option.interval)
            } else {
                None
            }),
    {
        JobChange {
            remove: self.job_id,
            add: if option.enabled {
                Some(option.interval.clone())
            } else {
                None
            },
        }
    }

    /// The old job is no longer in the schedule.
    pub fn job_removed(&mut self)
        ensures
            *final(self) == old(self).without_job(),
    {
        self.job_id = None;
    }

    /// The new job is in the schedule.
    pub fn job_added(&mut self, job_id: u128)
        requires
            old(self).job_id is None,
        ensures
            *final(self) == old(self).with_job(job_id),
    {
        self.job_id = Some(job_id);
    }
}

/// A change of the configuration that went through leaves the job that it brought, if it brought
/// one, and touches neither the slot nor what is told about the inspections.
pub proof fn law_config_changes_only_replace_the_job(
    manager: UpperAutoManageTaskManager,
    added: Option<u128>,
)
    ensures
        ({
            let after = match added {
                Some(job_id) => manager.without_job().with_job(job_id),
                None => manager.without_job(),
            };
            &&& after.job_id == added
            &&& after.run_slot == manager.run_slot
            &&& after.status == manager.status
        }),
{
}

/// While an inspection is queued or running, no other one can be started, and trying changes
/// nothing.
pub proof fn law_one_inspection_at_a_time(manager: UpperAutoManageTaskManager)
    requires
        manager.run_slot,
    ensures
        manager.occupied() == manager,
{
}

/// An inspection that could not be queued leaves no trace: the next one can be started.
pub proof fn law_failed_registration_leaves_no_trace(manager: UpperAutoManageTaskManager)
    requires
        !manager.run_slot,
    ensures
        manager.occupied().released() == manager,
{
}

/// Whatever set an inspection off, and however it ended, the slot is free afterwards, the times of
/// its beginning and of its end are told, and the job in the schedule is the same.
pub proof fn law_every_inspection_ends_the_same_way(
    manager: UpperAutoManageTaskManager,
    began: Timestamp,
    ended: Timestamp,
    next_run: Option<Timestamp>,
)
    requires
        !manager.run_slot,
    ensures
        ({
            let after = manager.occupied().begun(began).ended(ended, next_run);
            &&& after.wf()
            &&& !after.run_slot
            &&& !after.status.is_running
            &&& after.status.last_run == Some(began)
            &&& after.status.last_finish == Some(ended)
            &&& after.status.next_run == next_run
            &&& after.job_id == manager.job_id
        }),
{
}

/// Whoever asks for an inspection gets it exactly where the slot is free, and the slot is taken
/// from then on; nothing else changes. The schedule and the user are treated alike.
pub proof fn law_the_slot_decides_who_starts(trigger: TaskTrigger)
    ensures
        forall|manager: &mut UpperAutoManageTaskManager, r: bool| #[trigger]
            call_ensures(
                UpperAutoManageTaskManager::run_once_with_trigger,
                (manager, trigger),
                r,
            ) ==> (r <==> !manager.run_slot) && final(manager).run_slot && final(manager).status
                == manager.status && final(manager).job_id == manager.job_id,
        forall|manager: &mut UpperAutoManageTaskManager, r: bool| #[trigger]
            call_ensures(UpperAutoManageTaskManager::run_once, (manager,), r) ==> (r
                <==> !manager.run_slot) && final(manager).run_slot && final(manager).status
                == manager.status && final(manager).job_id == manager.job_id,
        forall|manager: &mut UpperAutoManageTaskManager, r: ()| #[trigger]
            call_ensures(UpperAutoManageTaskManager::registration_failed, (manager,), r)
                ==> !final(manager).run_slot && final(manager).status == manager.status
                && final(manager).job_id == manager.job_id,
{
}

/// While an inspection runs that is told, with the time of its beginning, and the slot stays
/// taken. When it ends the slot is free, and the times of its beginning and its end are told, and
/// when the next one is due. The job in the schedule stays the same throughout.
pub proof fn law_inspections_are_told_from_beginning_to_end(
    now: Timestamp,
    next_run: Option<Timestamp>,
)
    ensures
        forall|manager: &mut UpperAutoManageTaskManager, r: ()| #[trigger]
            call_ensures(UpperAutoManageTaskManager::begin_inspection, (manager, now), r) ==> {
                &&& final(manager).run_slot == manager.run_slot
                &&& final(manager).job_id == manager.job_id
                &&& final(manager).status.is_running
                &&& final(manager).status.last_run == Some(now)
                &&& final(manager).status.last_finish is None
                &&& final(manager).status.next_run is None
            },
        forall|manager: &mut UpperAutoManageTaskManager, r: ()| #[trigger]
            call_ensures(
                UpperAutoManageTaskManager::finish_inspection,
                (manager, now, next_run),
                r,
            ) ==> {
                &&& !final(manager).run_slot
                &&& final(manager).job_id == manager.job_id
                &&& !final(manager).status.is_running
                &&& final(manager).status.last_run == manager.status.last_run
                &&& final(manager).status.last_finish == Some(now)
                &&& final(manager).status.next_run == next_run
            },
        forall|manager: &mut UpperAutoManageTaskManager, r: ()| #[trigger]
            call_ensures(
                UpperAutoManageTaskManager::refresh_next_run,
                (manager, next_run),
                r,
            ) ==> {
                &&& final(manager).run_slot == manager.run_slot
                &&& final(manager).job_id == manager.job_id
                &&& final(manager).status.is_running == manager.status.is_running
                &&& final(manager).status.last_run == manager.status.last_run
                &&& final(manager).status.last_finish == manager.status.last_finish
                &&& final(manager).status.next_run == next_run
            },
{
}

/// A new configuration calls for the old job to go, if there is one, and for a new one with its
/// own interval exactly where the management is enabled. The job that is told about is the one in
/// the schedule, if there is one.
pub proof fn law_the_configuration_decides_about_the_job(
    manager: UpperAutoManageTaskManager,
    option: UpperAutoManageOption,
    change: JobChange,
    own_job: u128,
    reported: u128,
    job_id: u128,
)
    requires
        call_ensures(UpperAutoManageTaskManager::config_changed, (&manager, &option), change),
        call_ensures(UpperAutoManageTaskManager::job_to_report, (&manager, own_job), reported),
    ensures
        change.remove == manager.job_id,
        change.add is Some <==> option.enabled,
        change.add matches Some(interval) ==> interval == option.interval,
        manager.job_id matches Some(job_id) ==> reported == job_id,
        manager.job_id is None ==> reported == own_job,
        forall|before: &mut UpperAutoManageTaskManager, r: ()| #[trigger]
            call_ensures(UpperAutoManageTaskManager::job_removed, (before,), r) ==> {
                &&& final(before).job_id is None
                &&& final(before).run_slot == before.run_slot
                &&& final(before).status == before.status
            },
        forall|before: &mut UpperAutoManageTaskManager, r: ()| #[trigger]
            call_ensures(UpperAutoManageTaskManager::job_added, (before, job_id), r) ==> {
                &&& final(before).job_id == Some(job_id)
                &&& final(before).run_slot == before.run_slot
                &&& final(before).status == before.status
            },
{
}

} // verus!
