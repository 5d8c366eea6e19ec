use bubblewarp::command::Output;
use bubblewarp::effect::{Rule, Step};
use bubblewarp::error::{Error, Shape};
use bubblewarp::net::{
    container_has_default_route, default_route_iface_name, host_link_exists, parse_iface_name,
    setup_external_forward, setup_external_networking, setup_private_networking,
};

fn finished(code: Option<i32>, stdout: &[u8]) -> Output {
    Output { code, stdout: stdout.to_vec(), stderr: b"warning".to_vec() }
}

#[test]
fn default_route_names_the_interface() {
    let out = b"default via 10.0.0.1 dev eth0 proto static".to_vec();
    assert_eq!(parse_iface_name(out).unwrap(), "eth0");
}

#[test]
fn route_listing_must_begin_with_default() {
    let out = b"10.0.0.0/24 dev eth0 proto kernel".to_vec();
    assert!(matches!(parse_iface_name(out), Err(Error::Parse(Shape::NoDefault))));
}

#[test]
fn route_listing_must_name_a_device() {
    let out = b"default via 10.0.0.1 proto static".to_vec();
    assert!(matches!(parse_iface_name(out), Err(Error::Parse(Shape::NoDevice))));
}

#[test]
fn route_listing_must_have_a_field_after_dev() {
    let out = b"default via 10.0.0.1 dev".to_vec();
    assert!(matches!(parse_iface_name(out), Err(Error::Parse(Shape::NoDevice))));
}

#[test]
fn route_listing_must_be_text() {
    let out = vec![b'd', 0xff, 0xfe];
    assert!(matches!(parse_iface_name(out), Err(Error::Parse(Shape::NotUtf8))));
}

#[test]
fn empty_route_listing_is_refused() {
    assert!(matches!(parse_iface_name(Vec::new()), Err(Error::Parse(Shape::NoDefault))));
}

#[test]
fn first_field_has_to_be_default_itself() {
    let out = b"defaults via 10.0.0.1 dev eth0".to_vec();
    assert!(matches!(parse_iface_name(out), Err(Error::Parse(Shape::NoDefault))));
}

#[test]
fn the_first_dev_counts() {
    let out = b"default dev wlan0 dev eth0".to_vec();
    assert_eq!(parse_iface_name(out).unwrap(), "wlan0");
}

#[test]
fn fields_are_cut_at_single_spaces() {
    let out = b"default via 10.0.0.1 dev  eth0".to_vec();
    assert_eq!(parse_iface_name(out).unwrap(), "");
}

#[test]
fn the_line_end_stays_with_the_last_field() {
    let out = b"default via 10.0.0.1 dev eth0\n".to_vec();
    assert_eq!(parse_iface_name(out).unwrap(), "eth0\n");
    let out = b"default via 10.0.0.1 dev eth0 proto dhcp metric 100 \n".to_vec();
    assert_eq!(parse_iface_name(out).unwrap(), "eth0");
}

#[test]
fn interface_names_may_be_any_text() {
    let out = "default via 10.0.0.1 dev wlän0 proto static".as_bytes().to_vec();
    assert_eq!(parse_iface_name(out).unwrap(), "wlän0");
}

#[test]
fn host_route_query_has_to_succeed() {
    let out = finished(Some(2), b"default via 10.0.0.1 dev eth0");
    match default_route_iface_name(out) {
        Err(Error::ExecutionFailed { program, output }) => {
            assert_eq!(program, "ip");
            assert_eq!(output.code, Some(2));
            assert_eq!(output.stdout, b"default via 10.0.0.1 dev eth0");
            assert_eq!(output.stderr, b"warning");
        }
        other => panic!("unexpected {:?}", other),
    }
    let out = finished(None, b"default via 10.0.0.1 dev eth0");
    assert!(matches!(default_route_iface_name(out), Err(Error::ExecutionFailed { .. })));
}

#[test]
fn host_route_query_is_parsed() {
    let out = finished(Some(0), b"default via 192.168.1.1 dev enp3s0 proto dhcp");
    assert_eq!(default_route_iface_name(out).unwrap(), "enp3s0");
    let out = finished(Some(0), b"");
    assert!(matches!(default_route_iface_name(out), Err(Error::Parse(Shape::NoDefault))));
}

#[test]
fn container_has_a_route_when_the_query_prints() {
    assert!(container_has_default_route(finished(Some(0), b"default via 10.200.0.1")).unwrap());
    assert!(container_has_default_route(finished(Some(0), b"\n")).unwrap());
    assert!(!container_has_default_route(finished(Some(0), b"")).unwrap());
}

#[test]
fn container_route_query_has_to_succeed() {
    match container_has_default_route(finished(Some(1), b"")) {
        Err(Error::ExecutionFailed { program, output }) => {
            assert_eq!(program, "ip");
            assert_eq!(output.code, Some(1));
            assert_eq!(output.stderr, b"warning");
        }
        other => panic!("unexpected {:?}", other),
    }
}

fn names(list: &[&str]) -> Vec<String> {
    list.iter().map(|s| s.to_string()).collect()
}

#[test]
fn host_link_is_found_by_its_name() {
    assert!(host_link_exists(&names(&["lo", "eth0", "veth-warp"])));
    assert!(host_link_exists(&names(&["veth-warp", "veth-warp"])));
    assert!(!host_link_exists(&names(&["lo", "eth0", "veth-warp-ns", "veth-war"])));
    assert!(!host_link_exists(&names(&[])));
}

#[test]
fn private_networking_is_set_up_once() {
    assert_eq!(setup_private_networking(&names(&["lo", "veth-warp"])), vec![]);
    assert_eq!(
        setup_private_networking(&names(&["lo", "eth0"])),
        vec![
            Step::CreateLinkPair,
            Step::AssignHostAddress,
            Step::RaiseHostLink,
            Step::AssignContainerAddress,
            Step::RaiseContainerLink,
        ]
    );
}

#[test]
fn external_forward_appends_three_rules_and_a_route() {
    assert_eq!(
        setup_external_forward(),
        vec![
            Step::AddRule(Rule::Masquerade),
            Step::AddRule(Rule::ForwardIn),
            Step::AddRule(Rule::ForwardOut),
            Step::AddDefaultRoute,
        ]
    );
}

#[test]
fn external_networking_is_kept_where_a_route_exists() {
    let out = finished(Some(0), b"default via 10.200.0.1 dev veth-warp-ns");
    assert_eq!(setup_external_networking(out).unwrap(), None);
    let out = finished(Some(0), b"");
    assert_eq!(setup_external_networking(out).unwrap(), Some(Step::QueryHostRoute));
    let out = finished(Some(1), b"");
    assert!(matches!(setup_external_networking(out), Err(Error::ExecutionFailed { .. })));
}
