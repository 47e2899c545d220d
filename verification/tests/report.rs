use monitoring_client::clock::Timestamp;
use monitoring_client::config::ReporterConfig;
use monitoring_client::report::{
    compose_report, delivery_confirmed, format_report, greeting, plan_report, reset_window, settle_report,
    settle_report_at, Delivery, ReportPlan,
};
use monitoring_client::stats::Statistic;

const NOON: i64 = 1_057_049_557;

fn at(secs: i64) -> Timestamp {
    Timestamp { secs, offset: 7200 }
}

fn busy() -> Statistic {
    let mut stat = Statistic::new_at(at(NOON));
    stat.log_success_attempt_at(&at(NOON + 1), "one");
    stat.log_error_attempt_at(&at(NOON + 2), "two");
    stat.log_success_attempt_at(&at(NOON + 3), "three");
    stat
}

fn sent(plan: ReportPlan) -> String {
    match plan {
        ReportPlan::Send(text) => text,
        other => panic!("no report: {:?}", other),
    }
}

#[test]
fn health_report_counts_the_long_window() {
    let stat = busy();
    assert_eq!(
        format_report(&stat, false),
        "Since Tue, 1 Jul 2003 10:52:37 +0200 there were 3 attempts to transfer founds.\n\
         1 of them FAILED\n"
    );
}

#[test]
fn health_report_without_failures() {
    let mut stat = Statistic::new_at(at(NOON));
    stat.log_success_attempt_at(&at(NOON), "a");
    stat.log_success_attempt_at(&at(NOON), "b");
    assert_eq!(
        sent(plan_report(&stat, false)),
        "Since Tue, 1 Jul 2003 10:52:37 +0200 there were 2 attempts to transfer founds.\n\
         All of them were SUCCEDED\n"
    );
}

#[test]
fn failure_report_carries_the_last_error() {
    let stat = busy();
    assert_eq!(
        sent(plan_report(&stat, true)),
        "Since Tue, 1 Jul 2003 10:52:37 +0200 there were 3 attempts to transfer founds.\n\
         1 of them FAILED\n\
         Last error: **Tue, 1 Jul 2003 10:52:39 +0200 ERROR two**"
    );
}

#[test]
fn each_report_reads_its_own_window() {
    let mut stat = busy();
    reset_window(&mut stat, true, at(NOON + 3600));
    stat.log_error_attempt_at(&at(NOON + 3601), "late");
    assert_eq!(
        format_report(&stat, true),
        "Since Tue, 1 Jul 2003 11:52:37 +0200 there were 1 attempts to transfer founds.\n\
         1 of them FAILED\n\
         Last error: **Tue, 1 Jul 2003 11:52:38 +0200 ERROR late**"
    );
    assert_eq!(
        format_report(&stat, false),
        "Since Tue, 1 Jul 2003 10:52:37 +0200 there were 4 attempts to transfer founds.\n\
         2 of them FAILED\n"
    );
}

#[test]
fn failure_reporter_skips_without_failures() {
    let mut stat = Statistic::new_at(at(NOON));
    stat.log_success_attempt_at(&at(NOON), "fine");
    assert!(matches!(plan_report(&stat, true), ReportPlan::Skip));
    assert!(matches!(plan_report(&stat, false), ReportPlan::Send(_)));
    assert_eq!(stat.attempts, 1);
    assert_eq!(stat.total_attempts, 1);
    assert_eq!(stat.started, at(NOON));
    assert_eq!(stat.log.len(), 1);
}

#[test]
fn unprintable_window_start_is_reported_as_such() {
    let mut stat = Statistic::new_at(Timestamp { secs: i64::MAX, offset: 0 });
    assert!(matches!(plan_report(&stat, false), ReportPlan::Unprintable));
    assert!(matches!(plan_report(&stat, true), ReportPlan::Skip));
    stat.log_error_attempt_at(&at(NOON), "bad");
    assert!(matches!(plan_report(&stat, true), ReportPlan::Unprintable));
}

#[test]
fn confirmed_failure_report_resets_the_short_window_only() {
    let mut stat = busy();
    let reset = settle_report_at(&mut stat, true, &Delivery::Answered(204), at(NOON + 300));
    assert!(reset);
    assert_eq!(stat.attempts, 0);
    assert_eq!(stat.fails, 0);
    assert_eq!(stat.started, at(NOON + 300));
    assert_eq!(stat.total_attempts, 3);
    assert_eq!(stat.total_fails, 1);
    assert_eq!(stat.total_started, at(NOON));
    assert_eq!(stat.log.len(), 3);
    assert_eq!(stat.last_error, "Tue, 1 Jul 2003 10:52:39 +0200 ERROR two");
}

#[test]
fn confirmed_health_report_resets_the_long_window_only() {
    let mut stat = busy();
    let reset = settle_report_at(&mut stat, false, &Delivery::Answered(200), at(NOON + 21_600));
    assert!(reset);
    assert_eq!(stat.total_attempts, 0);
    assert_eq!(stat.total_fails, 0);
    assert_eq!(stat.total_started, at(NOON + 21_600));
    assert!(stat.log.is_empty());
    assert_eq!(stat.attempts, 3);
    assert_eq!(stat.fails, 1);
    assert_eq!(stat.started, at(NOON));
    assert_eq!(stat.last_error, "Tue, 1 Jul 2003 10:52:39 +0200 ERROR two");
}

#[test]
fn failed_delivery_changes_nothing() {
    for delivery in [Delivery::Failed, Delivery::Answered(500), Delivery::Answered(404)] {
        for only_errors in [true, false] {
            let mut stat = busy();
            let reset = settle_report_at(&mut stat, only_errors, &delivery, at(NOON + 300));
            assert!(!reset);
            assert_eq!(stat.attempts, 3);
            assert_eq!(stat.fails, 1);
            assert_eq!(stat.total_attempts, 3);
            assert_eq!(stat.total_fails, 1);
            assert_eq!(stat.started, at(NOON));
            assert_eq!(stat.total_started, at(NOON));
            assert_eq!(stat.log.len(), 3);
            assert_eq!(stat.last_error, "Tue, 1 Jul 2003 10:52:39 +0200 ERROR two");
        }
    }
}

#[test]
fn settle_with_the_clock_resets_only_when_confirmed() {
    let mut stat = busy();
    assert!(!settle_report(&mut stat, true, &Delivery::Failed));
    assert_eq!(stat.attempts, 3);
    assert_eq!(stat.started, at(NOON));
    assert!(settle_report(&mut stat, true, &Delivery::Answered(200)));
    assert_eq!(stat.attempts, 0);
    assert_eq!(stat.fails, 0);
    assert_ne!(stat.started, at(NOON));
    assert_eq!(stat.total_attempts, 3);
    assert_eq!(stat.total_started, at(NOON));
}

#[test]
fn accumulation_goes_on_over_failed_deliveries() {
    let mut stat = busy();
    assert!(!settle_report_at(&mut stat, false, &Delivery::Failed, at(NOON + 10)));
    stat.log_error_attempt_at(&at(NOON + 20), "more");
    assert_eq!(
        format_report(&stat, false),
        "Since Tue, 1 Jul 2003 10:52:37 +0200 there were 4 attempts to transfer founds.\n\
         2 of them FAILED\n"
    );
}

#[test]
fn only_answers_without_an_error_status_confirm() {
    assert!(delivery_confirmed(&Delivery::Answered(200)));
    assert!(delivery_confirmed(&Delivery::Answered(204)));
    assert!(delivery_confirmed(&Delivery::Answered(100)));
    assert!(delivery_confirmed(&Delivery::Answered(302)));
    assert!(delivery_confirmed(&Delivery::Answered(399)));
    assert!(!delivery_confirmed(&Delivery::Answered(400)));
    assert!(!delivery_confirmed(&Delivery::Answered(429)));
    assert!(!delivery_confirmed(&Delivery::Answered(499)));
    assert!(!delivery_confirmed(&Delivery::Answered(500)));
    assert!(!delivery_confirmed(&Delivery::Answered(599)));
    assert!(delivery_confirmed(&Delivery::Answered(600)));
    assert!(delivery_confirmed(&Delivery::Answered(999)));
    assert!(!delivery_confirmed(&Delivery::Answered(99)));
    assert!(!delivery_confirmed(&Delivery::Answered(0)));
    assert!(!delivery_confirmed(&Delivery::Answered(1000)));
    assert!(!delivery_confirmed(&Delivery::Failed));
}

#[test]
fn only_the_health_reporter_greets() {
    assert_eq!(
        greeting(false),
        Some("Hello. Monitoring node client is sucessfully run.".to_string())
    );
    assert_eq!(greeting(true), None);
}

#[test]
fn each_cadence_has_its_interval() {
    let config = ReporterConfig {
        web_hook: "https://example.org/hook".to_string(),
        reports_interval: 21_600,
        fails_reports_interval: 300,
    };
    assert_eq!(config.interval(false), 21_600);
    assert_eq!(config.interval(true), 300);
}

#[test]
fn compose_report_from_plain_values() {
    assert_eq!(
        compose_report("Monday", 0, 0, None),
        "Since Monday there were 0 attempts to transfer founds.\nAll of them were SUCCEDED\n"
    );
    assert_eq!(
        compose_report("Monday", 12, 12, None),
        "Since Monday there were 12 attempts to transfer founds.\n12 of them FAILED\n"
    );
    assert_eq!(
        compose_report("Monday", 4_000_000_000, 1, Some("it broke")),
        "Since Monday there were 4000000000 attempts to transfer founds.\n1 of them FAILED\n\
         Last error: **it broke**"
    );
    assert_eq!(
        compose_report("", 1, 0, Some("")),
        "Since  there were 1 attempts to transfer founds.\nAll of them were SUCCEDED\n\
         Last error: ****"
    );
}
