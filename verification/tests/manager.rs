use bili_sync::config::{Trigger, UpperAutoManageOption};
use bili_sync::manager::UpperAutoManageTaskManager;
use bili_sync::task::{TaskStatus, TaskTrigger};
use bili_sync::time::Timestamp;

fn at(secs: i64) -> Timestamp {
    Timestamp { secs, nanos: 0 }
}

#[test]
fn run_once_returns_false_when_slot_taken() {
    let mut manager = UpperAutoManageTaskManager::new();
    assert!(manager.run_once());
    for _ in 0..4 {
        assert!(!manager.run_once());
    }
    manager.begin_inspection(at(1));
    assert!(!manager.run_once());
}

#[test]
fn run_once_releases_slot_on_register_failure() {
    let mut manager = UpperAutoManageTaskManager::new();
    assert!(manager.run_once());
    manager.registration_failed();
    assert_eq!(manager.subscribe(), TaskStatus::default());
    assert!(manager.run_once());
}

#[test]
fn run_once_releases_slot_after_inspection_finishes() {
    let mut manager = UpperAutoManageTaskManager::new();
    assert!(manager.run_once());
    manager.begin_inspection(at(1));
    manager.finish_inspection(at(2), None);
    assert!(manager.run_once());
}

#[test]
fn scheduled_job_skips_when_slot_taken() {
    let mut manager = UpperAutoManageTaskManager::new();
    assert!(manager.run_once());
    assert!(!manager.run_once_with_trigger(TaskTrigger::Scheduled));
    manager.begin_inspection(at(1));
    manager.finish_inspection(at(2), None);
    assert!(manager.run_once_with_trigger(TaskTrigger::Scheduled));
    assert!(!manager.run_once());
}

#[test]
fn manual_and_scheduled_share_status_finalize() {
    let mut outcomes = Vec::new();
    for trigger in [TaskTrigger::Manual, TaskTrigger::Scheduled] {
        let mut manager = UpperAutoManageTaskManager::new();
        manager.job_added(7);
        assert!(manager.run_once_with_trigger(trigger));
        manager.begin_inspection(at(10));
        assert_eq!(
            manager.subscribe(),
            TaskStatus {
                is_running: true,
                last_run: Some(at(10)),
                last_finish: None,
                next_run: None,
            }
        );
        assert_eq!(manager.job_to_report(99), 7);
        manager.finish_inspection(at(20), Some(at(30)));
        outcomes.push(manager.subscribe());
    }
    assert_eq!(outcomes[0], outcomes[1]);
    assert_eq!(
        outcomes[0],
        TaskStatus {
            is_running: false,
            last_run: Some(at(10)),
            last_finish: Some(at(20)),
            next_run: Some(at(30)),
        }
    );
}

#[test]
fn config_change_replaces_the_job() {
    let mut option = UpperAutoManageOption::default();
    let mut manager = UpperAutoManageTaskManager::new();
    let change = manager.config_changed(&option);
    assert_eq!(change.remove, None);
    assert!(change.add.is_none());
    option.enabled = true;
    let change = manager.config_changed(&option);
    assert_eq!(change.remove, None);
    assert!(matches!(change.add, Some(Trigger::Interval(21600))));
    manager.job_added(5);
    manager.refresh_next_run(Some(at(3)));
    assert_eq!(manager.subscribe().next_run, Some(at(3)));
    option.interval = Trigger::Cron("0 * * * * *".to_string());
    let change = manager.config_changed(&option);
    assert_eq!(change.remove, Some(5));
    assert_eq!(manager.job_id, Some(5));
    manager.job_removed();
    assert_eq!(manager.job_id, None);
    assert!(matches!(change.add, Some(Trigger::Cron(text)) if text == "0 * * * * *"));
    manager.job_added(6);
    option.enabled = false;
    let change = manager.config_changed(&option);
    assert_eq!(change.remove, Some(6));
    assert_eq!(manager.job_to_report(42), 6);
    manager.job_removed();
    assert!(change.add.is_none());
    assert_eq!(manager.job_to_report(42), 42);
}
