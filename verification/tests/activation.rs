use lktunnel::activation::{ActivationDriver, Intent, Mode};

#[test]
fn a_new_driver_asks_for_the_channel_in_the_foreground() {
    let (_, told) = ActivationDriver::new(true);
    assert_eq!(told, Some(Intent::Activate));
}

#[test]
fn a_new_driver_gives_the_channel_up_in_the_background() {
    let (mut driver, told) = ActivationDriver::new(false);
    assert_eq!(told, Some(Intent::Deactivate));
    assert_eq!(driver.set_foreground(false), None);
    assert_eq!(driver.set_foreground(true), Some(Intent::Activate));
}

#[test]
fn working_the_answer_out_again_is_silent() {
    let (mut driver, _) = ActivationDriver::new(true);
    assert_eq!(driver.reconcile(), None);
    assert_eq!(driver.bump_session(1), Some(Intent::Deactivate));
    assert_eq!(driver.reconcile(), None);
    assert_eq!(driver.reconcile(), None);
}

#[test]
fn a_session_pauses_the_channel_of_a_client() {
    let (mut driver, _) = ActivationDriver::new(true);
    assert_eq!(driver.bump_session(1), Some(Intent::Deactivate));
    assert_eq!(driver.bump_session(1), None);
    assert_eq!(driver.bump_session(-1), None);
    assert_eq!(driver.bump_session(-1), Some(Intent::Activate));
}

#[test]
fn a_count_never_falls_below_zero() {
    let (mut driver, _) = ActivationDriver::new(true);
    assert_eq!(driver.bump_session(-3), None);
    assert_eq!(driver.bump_session(1), Some(Intent::Deactivate));
    assert_eq!(driver.bump_session(i64::MIN), Some(Intent::Activate));
}

#[test]
fn reports_of_a_former_era_are_passed_over() {
    let (mut driver, _) = ActivationDriver::new(true);
    let former = driver.era();
    assert_eq!(driver.report_session(former, 1), Some(Intent::Deactivate));
    assert_eq!(driver.set_mode(Mode::Server), Some(Intent::Activate));
    assert_eq!(driver.set_mode(Mode::Client), None);
    let current = driver.era();
    assert!(current != former);
    assert_eq!(driver.report_session(current, 1), Some(Intent::Deactivate));
    assert_eq!(driver.report_session(former, -1), None);
    assert_eq!(driver.report_session(former, 1), None);
    assert_eq!(driver.report_session(current, -1), Some(Intent::Activate));
}

#[test]
fn surplus_ends_do_nothing() {
    let (mut driver, _) = ActivationDriver::new(true);
    driver.bump_session(2);
    assert_eq!(driver.set_mode(Mode::Client), Some(Intent::Activate));
    assert_eq!(driver.bump_session(-1), None);
    assert_eq!(driver.bump_session(-1), None);
}

#[test]
fn a_server_keeps_the_channel_up() {
    let (mut driver, told) = ActivationDriver::new(false);
    assert_eq!(told, Some(Intent::Deactivate));
    assert_eq!(driver.set_mode(Mode::Server), Some(Intent::Activate));
    assert_eq!(driver.bump_session(5), None);
    assert_eq!(driver.set_foreground(true), None);
    assert_eq!(driver.set_foreground(false), None);
    assert_eq!(driver.set_mode(Mode::Client), Some(Intent::Deactivate));
}

#[test]
fn an_idle_handoff_is_silent() {
    let (mut driver, _) = ActivationDriver::new(true);
    assert_eq!(driver.set_mode(Mode::Server), None);
    assert_eq!(driver.set_mode(Mode::Client), None);
    assert_eq!(driver.set_mode(Mode::Client), None);
    assert_eq!(driver.set_mode(Mode::Server), None);
    driver.bump_session(2);
    assert_eq!(driver.set_mode(Mode::Client), None);
}

#[test]
fn a_mode_change_forgets_sessions() {
    let (mut driver, _) = ActivationDriver::new(true);
    assert_eq!(driver.bump_session(3), Some(Intent::Deactivate));
    assert_eq!(driver.set_mode(Mode::Client), Some(Intent::Activate));
}

#[test]
fn pushes_alternate_and_agree_with_the_rule() {
    let (mut driver, first) = ActivationDriver::new(true);
    let told = vec![
        first,
        driver.set_foreground(true),
        driver.set_foreground(false),
        driver.bump_session(1),
        driver.set_foreground(true),
        driver.set_mode(Mode::Server),
        driver.set_mode(Mode::Client),
        driver.set_foreground(false),
    ];
    let pushes: Vec<Intent> = told.into_iter().flatten().collect();
    assert_eq!(
        pushes,
        vec![Intent::Activate, Intent::Deactivate, Intent::Activate, Intent::Deactivate]
    );
}

#[test]
fn there_is_room_to_count() {
    let (mut driver, _) = ActivationDriver::new(true);
    assert!(driver.can_count(i64::MAX));
    driver.bump_session(i64::MAX - 1);
    assert!(driver.can_count(1));
    assert!(!driver.can_count(2));
    driver.bump_session(1);
    assert!(!driver.can_count(1));
    assert!(driver.can_count(0));
    assert!(driver.can_count(i64::MIN));
}
