use docktopus::container::Container;
use docktopus::container::ContainerStatus;
use docktopus::container::Error;
use docktopus::container::InspectData;
use docktopus::container::MountRecord;
use docktopus::container::StartPlan;
use docktopus::wait::WaitMessage;
use docktopus::wait::resolve;

fn strings(items: &[&str]) -> Vec<String> {
    items.iter().map(|s| s.to_string()).collect()
}

#[test]
fn status_round_trips_for_every_recognized_string() {
    let all = [
        (ContainerStatus::Created, "created"),
        (ContainerStatus::Running, "running"),
        (ContainerStatus::Paused, "paused"),
        (ContainerStatus::Restarting, "restarting"),
        (ContainerStatus::Exited, "exited"),
        (ContainerStatus::Removing, "removing"),
        (ContainerStatus::Dead, "dead"),
    ];
    for (status, text) in all {
        assert_eq!(ContainerStatus::parse(text).unwrap(), status);
        assert_eq!(status.as_str(), text);
    }
}

#[test]
fn status_rejects_anything_else() {
    for text in ["", "Running", "RUNNING", "stopped", "creating", "dead "] {
        assert!(matches!(
            ContainerStatus::parse(text),
            Err(Error::BadContainerStatus(s)) if s == text
        ));
    }
}

#[test]
fn active_exactly_for_running() {
    assert!(ContainerStatus::Running.is_active());
    for status in [
        ContainerStatus::Created,
        ContainerStatus::Paused,
        ContainerStatus::Restarting,
        ContainerStatus::Exited,
        ContainerStatus::Removing,
        ContainerStatus::Dead,
    ] {
        assert!(!status.is_active());
    }
}

#[test]
fn usable_except_removing_and_dead() {
    assert!(!ContainerStatus::Removing.is_usable());
    assert!(!ContainerStatus::Dead.is_usable());
    for status in [
        ContainerStatus::Created,
        ContainerStatus::Running,
        ContainerStatus::Paused,
        ContainerStatus::Restarting,
        ContainerStatus::Exited,
    ] {
        assert!(status.is_usable());
    }
}

#[test]
fn new_container_has_no_identity() {
    let c = Container::new("rustlang/rust".to_string());
    assert_eq!(c.id(), None);
    assert_eq!(c.name(), None);
    assert_eq!(c.image, "rustlang/rust");
}

#[test]
fn builders_replace_fields_wholesale() {
    let c = Container::new("rustlang/rust".to_string())
        .env(strings(&["FOO=BAR", "BAZ=QUX"]))
        .env(strings(&["ONLY=THIS"]))
        .cmd(strings(&["echo", "Hello!"]))
        .binds(strings(&["./host-data:/container-data"]))
        .extra_hosts(strings(&["host.docker.internal:host-gateway"]))
        .runtime("sysbox-runc".to_string())
        .with_name("my_container".to_string());
    assert_eq!(c.options.env, Some(strings(&["ONLY=THIS"])));
    assert_eq!(c.options.cmd, Some(strings(&["echo", "Hello!"])));
    assert_eq!(c.options.binds, Some(strings(&["./host-data:/container-data"])));
    assert_eq!(
        c.options.extra_hosts,
        Some(strings(&["host.docker.internal:host-gateway"]))
    );
    assert_eq!(c.options.runtime, Some("sysbox-runc".to_string()));
    assert_eq!(c.name(), Some("my_container"));
    assert_eq!(c.options.name, Some("my_container".to_string()));
}

#[test]
fn create_request_composes_base_payload() {
    let c = Container::new("rustlang/rust".to_string())
        .env(strings(&["FOO=BAR"]))
        .cmd(strings(&["echo", "Hello!"]))
        .binds(strings(&["./host-data:/container-data"]))
        .with_name("my_container".to_string());
    let req = c.create();
    assert_eq!(req.name, Some("my_container".to_string()));
    assert_eq!(req.config.image, Some("rustlang/rust".to_string()));
    assert_eq!(req.config.env, Some(strings(&["FOO=BAR"])));
    assert_eq!(req.config.cmd, Some(strings(&["echo", "Hello!"])));
    assert_eq!(req.config.attach_stdout, Some(true));
    assert_eq!(req.config.attach_stdin, None);
    let host = req.config.host_config.expect("base payload sets host settings");
    assert_eq!(host.binds, Some(strings(&["./host-data:/container-data"])));
    assert_eq!(host.runtime, None);
}

#[test]
fn never_created_lifecycle_operations_are_no_ops() {
    let c = Container::new("alpine".to_string());
    // No identifier: stop and wait decide that no engine call is issued and
    // the operation succeeds; remove consumes the value the same way.
    assert_eq!(c.stop(), None);
    assert_eq!(c.wait(), None);
    assert_eq!(c.status(), None);
    assert_eq!(c.logs(), None);
    assert_eq!(c.remove(), None);
}

#[test]
fn lifecycle_operations_address_the_recorded_identifier() {
    let mut c = Container::new("alpine".to_string());
    c.record_created("abc123".to_string());
    assert_eq!(c.id(), Some("abc123"));
    assert_eq!(c.stop(), Some(&"abc123".to_string()));
    assert_eq!(c.wait(), Some(&"abc123".to_string()));
    assert_eq!(c.status(), Some(&"abc123".to_string()));
    assert_eq!(c.logs(), Some(&"abc123".to_string()));
    assert_eq!(c.remove(), Some("abc123".to_string()));
}

#[test]
fn start_on_alpine_runs_create_then_start_then_wait() {
    let mut c = Container::new("alpine".to_string()).cmd(strings(&["echo", "hi"]));

    // First step of the plan: the container must be created first.
    let req = match c.start() {
        StartPlan::CreateFirst(req) => req,
        StartPlan::StartOnly(_) => panic!("an unconstructed container must be created first"),
    };
    assert_eq!(req.config.image, Some("alpine".to_string()));
    assert_eq!(req.config.cmd, Some(strings(&["echo", "hi"])));

    // The engine answers the creation with an identifier; only then does the
    // plan say to issue the start call.
    c.record_created("feedface".to_string());
    match c.start() {
        StartPlan::StartOnly(id) => assert_eq!(id, "feedface"),
        StartPlan::CreateFirst(_) => panic!("a created container is started directly"),
    }

    // Waiting for exit: the stream reports a clean zero exit.
    let outcome = resolve(vec![WaitMessage::Event { status_code: 0, error_message: None }]);
    assert!(outcome.is_ok());
}

#[test]
fn status_interpretation_of_listing_replies() {
    let state = "running".to_string();
    assert_eq!(
        Container::status_from_state(Some(&state)).unwrap(),
        ContainerStatus::Running
    );
    assert!(matches!(
        Container::status_from_state(None),
        Err(Error::ContainerNotFound)
    ));
    let bad = "zombie".to_string();
    assert!(matches!(
        Container::status_from_state(Some(&bad)),
        Err(Error::BadContainerStatus(s)) if s == "zombie"
    ));
}

fn plain_inspect() -> InspectData {
    InspectData {
        id: Some("cafe".to_string()),
        name: Some("/web".to_string()),
        image: Some("nginx".to_string()),
        env: Some(strings(&["A=1"])),
        cmd: Some(strings(&["nginx"])),
        mounts: None,
        extra_hosts: None,
        runtime: None,
        restart_policy: None,
        port_bindings: None,
    }
}

#[test]
fn reconstruction_requires_identity_and_image() {
    let mut missing_id = plain_inspect();
    missing_id.id = None;
    assert!(matches!(
        docktopus::container::from_inspect(missing_id),
        Err(Error::ContainerNotFound)
    ));

    let mut missing_image = plain_inspect();
    missing_image.image = None;
    assert!(matches!(
        docktopus::container::from_inspect(missing_image),
        Err(Error::ContainerNotFound)
    ));

    let c = docktopus::container::from_inspect(plain_inspect()).unwrap();
    assert_eq!(c.id(), Some("cafe"));
    assert_eq!(c.name(), Some("/web"));
    assert_eq!(c.image, "nginx");
    assert_eq!(c.options.env, Some(strings(&["A=1"])));
    assert_eq!(c.options.binds, None);
    assert!(c.options.config_override.is_none());
}

#[test]
fn reconstruction_rebuilds_bind_lines_from_bind_mounts() {
    let mut data = plain_inspect();
    data.mounts = Some(vec![
        MountRecord {
            is_bind: true,
            source: Some("/host/a".to_string()),
            destination: Some("/a".to_string()),
            mode: Some("ro".to_string()),
        },
        MountRecord {
            is_bind: false,
            source: Some("/host/b".to_string()),
            destination: Some("/b".to_string()),
            mode: None,
        },
        MountRecord {
            is_bind: true,
            source: None,
            destination: Some("/c".to_string()),
            mode: None,
        },
        MountRecord {
            is_bind: true,
            source: Some("/host/d".to_string()),
            destination: Some("/d".to_string()),
            mode: None,
        },
    ]);
    let c = docktopus::container::from_inspect(data).unwrap();
    assert_eq!(
        c.options.binds,
        Some(strings(&["/host/a:/a:ro", "/host/d:/d"]))
    );
}
