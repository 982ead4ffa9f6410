use linc::address::{IpAddress, SocketAddress};
use linc::announce::{announcement, compose_announcement, endpoint_url};
use linc::bootstrap::{
    bind_addresses, Action, Event, ListenerBootstrap, SHUTDOWN_GRACE_SECONDS,
};
use linc::endpoints::ResolvedEndpoint;
use linc::errors::ContextualError;

fn endpoint(ip: IpAddress, port: u16, display: &str) -> ResolvedEndpoint {
    ResolvedEndpoint { address: SocketAddress { ip, port }, display: display.to_string() }
}

fn three() -> Vec<ResolvedEndpoint> {
    vec![
        endpoint(IpAddress::V6([0, 0, 0, 0, 0, 0, 0, 0]), 8136, "[::]:8136"),
        endpoint(IpAddress::V4([0, 0, 0, 0]), 8136, "127.0.0.1:8136"),
        endpoint(IpAddress::V4([10, 0, 0, 2]), 8136, "10.0.0.2:8136"),
    ]
}

fn three_addresses() -> Vec<SocketAddress> {
    vec![
        SocketAddress { ip: IpAddress::V6([0, 0, 0, 0, 0, 0, 0, 0]), port: 8136 },
        SocketAddress { ip: IpAddress::V4([0, 0, 0, 0]), port: 8136 },
        SocketAddress { ip: IpAddress::V4([10, 0, 0, 2]), port: 8136 },
    ]
}

fn binding() -> ListenerBootstrap {
    let (stage, _) = ListenerBootstrap::begin(three(), "./lin_home".to_string());
    let (stage, _) = stage.step(Event::PathResolved(Ok("/srv/lin_home".to_string())));
    stage
}

#[test]
fn the_start_begins_with_the_path() {
    let (stage, action) = ListenerBootstrap::begin(three(), "./lin_home".to_string());
    assert!(matches!(action, Action::ResolvePath(ref path) if path == "./lin_home"));
    match stage {
        ListenerBootstrap::ResolvingPath { endpoints, path } => {
            assert_eq!(endpoints, three());
            assert_eq!(path, "./lin_home");
        }
        other => panic!("unexpected stage {:?}", other),
    }
}

#[test]
fn a_resolved_path_leads_to_binding_every_address() {
    let (stage, _) = ListenerBootstrap::begin(three(), "./lin_home".to_string());
    let (stage, action) = stage.step(Event::PathResolved(Ok("/srv/lin_home".to_string())));
    assert!(matches!(action, Action::Bind(ref addresses) if *addresses == three_addresses()));
    match stage {
        ListenerBootstrap::Binding { endpoints, served_path } => {
            assert_eq!(endpoints, three());
            assert_eq!(served_path, "/srv/lin_home");
        }
        other => panic!("unexpected stage {:?}", other),
    }
}

#[test]
fn a_path_that_does_not_resolve_ends_the_start() {
    let (stage, _) = ListenerBootstrap::begin(three(), "./missing".to_string());
    let (stage, action) =
        stage.step(Event::PathResolved(Err("No such file or directory (os error 2)".to_string())));
    assert!(matches!(stage, ListenerBootstrap::Failed));
    match action {
        Action::Fail(error) => assert_eq!(
            error,
            ContextualError::PathResolutionError(
                "No such file or directory (os error 2)".to_string()
            )
        ),
        other => panic!("unexpected action {:?}", other),
    }
}

#[test]
fn one_address_in_use_among_three_ends_the_start_with_a_bind_failure() {
    let (stage, action) =
        binding().step(Event::Bound(Err("Address already in use (os error 98)".to_string())));
    assert!(matches!(stage, ListenerBootstrap::Failed));
    match action {
        Action::Fail(error) => assert_eq!(
            error,
            ContextualError::BindError("Address already in use (os error 98)".to_string())
        ),
        other => panic!("unexpected action {:?}", other),
    }
    let (stage, action) = stage.step(Event::Bound(Ok(())));
    assert!(matches!(stage, ListenerBootstrap::Failed));
    assert!(matches!(action, Action::Done));
}

#[test]
fn a_bound_listener_is_announced_and_served() {
    let (stage, action) = binding().step(Event::Bound(Ok(())));
    assert!(matches!(stage, ListenerBootstrap::Serving));
    match action {
        Action::Serve { announcement, grace_seconds } => {
            assert_eq!(grace_seconds, 3);
            assert_eq!(SHUTDOWN_GRACE_SECONDS, 3);
            assert_eq!(
                announcement,
                "Serving file path \u{1b}[1;33m/srv/lin_home\u{1b}[0m at \
                 \u{1b}[1;32mhttp://[::]:8136\u{1b}[0m, \
                 \u{1b}[1;32mhttp://127.0.0.1:8136\u{1b}[0m, \
                 \u{1b}[1;32mhttp://10.0.0.2:8136\u{1b}[0m\n\
                 Server is running...\n\
                 Quit by pressing \u{1b}[1;31mCTRL-C\u{1b}[0m"
            );
        }
        other => panic!("unexpected action {:?}", other),
    }
    let (stage, action) = stage.step(Event::PathResolved(Ok("/elsewhere".to_string())));
    assert!(matches!(stage, ListenerBootstrap::Serving));
    assert!(matches!(action, Action::Done));
}

#[test]
fn an_event_that_answers_nothing_asks_again() {
    let (stage, _) = ListenerBootstrap::begin(three(), "./lin_home".to_string());
    let (stage, action) = stage.step(Event::Bound(Ok(())));
    assert!(matches!(action, Action::ResolvePath(ref path) if path == "./lin_home"));
    assert!(matches!(stage, ListenerBootstrap::ResolvingPath { .. }));
    let (stage, action) = stage.step(Event::Bound(Err("too early".to_string())));
    assert!(matches!(action, Action::ResolvePath(ref path) if path == "./lin_home"));
    assert!(matches!(stage, ListenerBootstrap::ResolvingPath { .. }));

    let (stage, action) = binding().step(Event::PathResolved(Err("too late".to_string())));
    assert!(matches!(action, Action::Bind(ref addresses) if *addresses == three_addresses()));
    match stage {
        ListenerBootstrap::Binding { endpoints, served_path } => {
            assert_eq!(endpoints, three());
            assert_eq!(served_path, "/srv/lin_home");
        }
        other => panic!("unexpected stage {:?}", other),
    }
}

#[test]
fn the_pending_action_of_each_stage() {
    let (stage, _) = ListenerBootstrap::begin(three(), "./lin_home".to_string());
    assert!(matches!(stage.pending_action(), Action::ResolvePath(ref path) if path == "./lin_home"));
    assert!(
        matches!(binding().pending_action(), Action::Bind(ref addresses) if *addresses == three_addresses())
    );
    assert!(matches!(ListenerBootstrap::Serving.pending_action(), Action::Done));
    assert!(matches!(ListenerBootstrap::Failed.pending_action(), Action::Done));
}

#[test]
fn the_addresses_to_bind_are_those_of_the_endpoints() {
    assert_eq!(bind_addresses(&three()), three_addresses());
    assert_eq!(bind_addresses(&Vec::new()), Vec::new());
}

#[test]
fn a_link_is_the_scheme_and_the_displayed_host_and_port() {
    let shown = endpoint(IpAddress::V4([0, 0, 0, 0]), 8136, "127.0.0.1:8136");
    assert_eq!(endpoint_url(&shown), "http://127.0.0.1:8136");
    let shown = endpoint(IpAddress::V6([0, 0, 0, 0, 0, 0, 0, 1]), 80, "[::1]:80");
    assert_eq!(endpoint_url(&shown), "http://[::1]:80");
}

#[test]
fn the_announcement_is_made_of_its_parts() {
    assert_eq!(
        compose_announcement("/srv", &vec!["http://a:1".to_string(), "http://b:2".to_string()], "CTRL-C"),
        "Serving file path /srv at http://a:1, http://b:2\nServer is running...\nQuit by pressing CTRL-C"
    );
    assert_eq!(
        compose_announcement("", &Vec::new(), ""),
        "Serving file path  at \nServer is running...\nQuit by pressing "
    );
}

#[test]
fn the_announcement_is_painted() {
    let one = vec![endpoint(IpAddress::V6([0, 0, 0, 0, 0, 0, 0, 1]), 8136, "[::1]:8136")];
    assert_eq!(
        announcement("/srv/lin_home", &one),
        "Serving file path \u{1b}[1;33m/srv/lin_home\u{1b}[0m at \
         \u{1b}[1;32mhttp://[::1]:8136\u{1b}[0m\n\
         Server is running...\n\
         Quit by pressing \u{1b}[1;31mCTRL-C\u{1b}[0m"
    );
}
