use redeploy::names::dial_target;
use redeploy::names::env_file_path;
use redeploy::names::lock_marker_name;
use redeploy::names::next_container_name;
use redeploy::names::upstream_id;

#[test]
fn lock_marker_name_is_dotted_suffixed() {
    assert_eq!(lock_marker_name("svc"), ".svc_deploy_lock");
    assert_eq!(lock_marker_name(""), "._deploy_lock");
}

#[test]
fn next_container_name_appends_next() {
    assert_eq!(next_container_name("svc"), "svc_next");
}

#[test]
fn upstream_id_appends_upstream() {
    assert_eq!(upstream_id("svc"), "svc_upstream");
}

#[test]
fn env_file_path_is_home_deploy_dotfile() {
    assert_eq!(env_file_path("svc"), "/home/deploy/.svc.env");
}

#[test]
fn dial_target_joins_ip_and_port() {
    assert_eq!(dial_target("10.0.0.5", 3000), "10.0.0.5:3000");
    assert_eq!(dial_target("127.0.0.1", 80), "127.0.0.1:80");
}

#[test]
fn dial_target_port_zero() {
    assert_eq!(dial_target("10.0.0.5", 0), "10.0.0.5:0");
}

#[test]
fn dial_target_extreme_ports() {
    assert_eq!(dial_target("h", i32::MAX), "h:2147483647");
    assert_eq!(dial_target("h", -1), "h:-1");
    assert_eq!(dial_target("h", i32::MIN), "h:-2147483648");
}
