use odin_host::{
    exit_code, interrupt_registration, log_level_for, planned_services, service_step,
    step_services, Config, HttpConfig, LogLevel, ServiceKind, ServiceState, StartupError,
};

#[test]
fn http_section_adds_the_frontend_service() {
    let mut c = Config::default();
    c.http = Some(HttpConfig::default());
    let services = planned_services(&c);
    assert_eq!(
        services,
        vec![ServiceKind::Sync, ServiceKind::Cache, ServiceKind::Http]
    );
}

#[test]
fn no_http_section_starts_two_services() {
    let mut c = Config::default();
    c.http = None;
    let services = planned_services(&c);
    assert_eq!(services, vec![ServiceKind::Sync, ServiceKind::Cache]);
}

#[test]
fn service_transitions_follow_the_lifecycle() {
    assert_eq!(service_step(ServiceState::Starting, false), ServiceState::Running);
    assert_eq!(service_step(ServiceState::Running, false), ServiceState::Running);
    assert_eq!(service_step(ServiceState::Running, true), ServiceState::Stopping);
    assert_eq!(service_step(ServiceState::Stopping, true), ServiceState::Terminated);
    assert_eq!(service_step(ServiceState::Stopping, false), ServiceState::Terminated);
    assert_eq!(service_step(ServiceState::Terminated, true), ServiceState::Terminated);
}

#[test]
fn interrupt_terminates_all_running_services() {
    // an interrupt arrives while three services are running
    let mut states = vec![ServiceState::Running, ServiceState::Running, ServiceState::Running];
    states = step_services(&states, true);
    states = step_services(&states, true);
    assert!(states.iter().all(|s| *s == ServiceState::Terminated));
    assert_eq!(states.len(), 3);
    // clean shutdown exits with code zero
    let outcome: Result<(), StartupError> = Ok(());
    assert_eq!(exit_code(&outcome), 0);
}

#[test]
fn services_without_exit_keep_running() {
    let states = vec![ServiceState::Running, ServiceState::Running];
    let stepped = step_services(&states, false);
    assert_eq!(stepped, states);
}

#[test]
fn successful_handler_registration_continues_startup() {
    assert_eq!(interrupt_registration(None), Ok(()));
}

#[test]
fn failed_handler_registration_is_fatal() {
    let r = interrupt_registration(Some("signal handler already installed".to_string()));
    match &r {
        Err(StartupError::InterruptHandler(d)) => {
            assert_eq!(d, "signal handler already installed")
        },
        _ => panic!("the host must not run unsupervised"),
    }
    assert_ne!(exit_code(&r), 0);
}

#[test]
fn verbosity_maps_to_log_level() {
    assert_eq!(log_level_for(0), LogLevel::Info);
    assert_eq!(log_level_for(1), LogLevel::Debug);
    assert_eq!(log_level_for(2), LogLevel::Trace);
    assert_eq!(log_level_for(7), LogLevel::Trace);
}

#[test]
fn every_fatal_error_exits_non_zero() {
    let errors = vec![
        StartupError::ConfigParse("p".to_string()),
        StartupError::StoreOpen("s".to_string()),
        StartupError::ExtensionLoad("e".to_string()),
        StartupError::PlayerBuild("b".to_string()),
        StartupError::InterruptHandler("i".to_string()),
    ];
    for e in errors {
        assert_eq!(e.detail().len(), 1);
        let outcome: Result<(), StartupError> = Err(e);
        assert_ne!(exit_code(&outcome), 0);
    }
}
