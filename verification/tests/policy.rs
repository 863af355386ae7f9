use crooner::job::{startup_indices, Config, CronJob};
use crooner::retry::{
    retry_invocations, run_invocations, RetryDecision, RetryState, MAX_ATTEMPTS, RETRY_DELAY_MS,
};
use crooner::sched::{shutdown, signal_label, SchedulerState, ShutdownSignal};

fn job(name: &str, startup: bool) -> CronJob {
    CronJob {
        name: name.to_string(),
        at: "0 * * * * *".to_string(),
        container: "worker".to_string(),
        command: vec!["true".to_string()],
        output_file: None,
        run_on_startup: startup,
    }
}

#[test]
fn scheduled_firing_invokes_exactly_once() {
    let all_fail = vec![false; MAX_ATTEMPTS as usize];
    let all_pass = vec![true; MAX_ATTEMPTS as usize];
    assert_eq!(run_invocations(false, &all_fail), 1);
    assert_eq!(run_invocations(false, &all_pass), 1);
}

#[test]
fn startup_run_stops_on_first_success() {
    assert_eq!(retry_invocations(&vec![true, false, false, false, false]), 1);
    assert_eq!(retry_invocations(&vec![false, false, true, false, false]), 3);
    assert_eq!(run_invocations(true, &vec![false, true, false, false, false]), 2);
}

#[test]
fn startup_run_spends_at_most_the_budget() {
    assert_eq!(retry_invocations(&vec![false; 5]), MAX_ATTEMPTS as usize);
    assert_eq!(retry_invocations(&vec![false, false, false, false, true]), 5);
}

#[test]
fn every_failure_before_the_last_waits_the_fixed_delay() {
    let mut st = RetryState::new();
    for expected_failures in 1..MAX_ATTEMPTS {
        let d = st.on_failure();
        assert_eq!(d, RetryDecision::RetryAfterDelay(RETRY_DELAY_MS));
        assert_eq!(st.failures, expected_failures);
    }
    assert_eq!(st.on_failure(), RetryDecision::GiveUp);
    assert_eq!(st.failures, MAX_ATTEMPTS);
}

#[test]
fn startup_jobs_keep_their_listed_order() {
    let jobs = vec![
        job("migrate", true),
        job("report", false),
        job("warmup", true),
        job("cleanup", false),
        job("prime-cache", true),
    ];
    assert_eq!(startup_indices(&jobs), vec![0, 2, 4]);
}

#[test]
fn a_loaded_config_drives_the_startup_order() {
    let config = Config { jobs: vec![job("late", false), job("early", true)] };
    let order = startup_indices(&config.jobs);
    assert_eq!(order, vec![1]);
    assert_eq!(config.jobs[order[0]].name, "early");
}

#[test]
fn no_startup_jobs_means_an_empty_startup_list() {
    let jobs = vec![job("a", false), job("b", false)];
    assert_eq!(startup_indices(&jobs), Vec::<usize>::new());
    assert_eq!(startup_indices(&Vec::new()), Vec::<usize>::new());
}

#[test]
fn registered_jobs_fire_only_while_running() {
    let mut s = SchedulerState::new();
    s.register_all(3);
    assert!(!s.can_fire(0));
    s.start();
    assert!(s.can_fire(0));
    assert!(s.can_fire(2));
    assert!(!s.can_fire(3));
    s.stop();
    assert!(!s.can_fire(0));
    assert!(!s.can_fire(2));
}

#[test]
fn shutdown_stops_all_firing_and_names_the_signal() {
    let mut s = SchedulerState::new();
    s.register_all(2);
    s.start();
    assert!(s.can_fire(1));
    let label = shutdown(&mut s, ShutdownSignal::Interrupt);
    assert_eq!(label, "Received SIGINT (Ctrl+C)");
    assert!(!s.can_fire(0));
    assert!(!s.can_fire(1));
    assert_eq!(signal_label(ShutdownSignal::Terminate), "Received SIGTERM");
}
