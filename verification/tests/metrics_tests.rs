use task_executor::metrics::MetricsReport;

#[test]
fn test_initial_values() {
    let report = MetricsReport::new();
    assert_eq!(report.get_tasks_count(), 0);
    assert_eq!(report.get_tasks_failed(), 0);
    assert_eq!(report.get_average_execution_time(), 0);
}

#[test]
fn test_increment_task_count() {
    let mut report = MetricsReport::new();
    report.increment_task_count();
    assert_eq!(report.get_tasks_count(), 1);
}

#[test]
fn test_increment_tasks_failed() {
    let mut report = MetricsReport::new();
    report.increment_tasks_failed();
    assert_eq!(report.get_tasks_failed(), 1);
}

#[test]
fn test_average_execution_time_excludes_failed_tasks() {
    let mut report = MetricsReport::new();

    // Add 3 tasks
    report.increment_task_count();
    report.increment_total_execution_time(100);

    report.increment_task_count();
    report.increment_tasks_failed();

    report.increment_task_count();
    report.increment_total_execution_time(200);

    assert_eq!(report.get_tasks_count(), 3);
    assert_eq!(report.get_tasks_failed(), 1);
    assert_eq!(report.get_average_execution_time(), 150);
}

#[test]
fn test_average_execution_time_no_successful_tasks() {
    let mut report = MetricsReport::new();
    report.increment_task_count();
    report.increment_tasks_failed();

    assert_eq!(report.get_average_execution_time(), 0);
}

#[test]
fn test_get_tasks_count_should_return_u32() {
    let report = MetricsReport::new();

    let tasks_count: u32 = report.get_tasks_count();

    assert_eq!(tasks_count, 0);
}

#[test]
fn test_get_tasks_failed_should_return_u32() {
    let report = MetricsReport::new();

    let tasks_failed: u32 = report.get_tasks_failed();

    assert_eq!(tasks_failed, 0);
}
