use vyoma::image::OciImageConfig;
use vyoma::init_script::{
    generate_init_script, SCRIPT_HEAD, SCRIPT_OPTIONS, SCRIPT_ROOT, SCRIPT_TAIL,
};

const IP: &str = "172.16.0.2";
const GATEWAY: &str = "172.16.0.1";

#[test]
fn test_generate_init_script_default() {
    let config = OciImageConfig::default();
    let script = generate_init_script(&config, IP, GATEWAY);
    assert!(script.contains("#!/bin/sh"));
    assert!(script.contains("vyoma-agent-vm"));
    assert!(script.contains("mount"));
}

#[test]
fn test_generate_init_script_with_config() {
    let mut config = OciImageConfig::default();
    config.entrypoint = Some(vec!["/bin/nginx".to_string()]);
    config.cmd = Some(vec!["-g".to_string(), "daemon off;".to_string()]);
    config.env = Some(vec!["NGINX_HOST=localhost".to_string(), "NGINX_PORT=80".to_string()]);
    config.working_dir = Some("/usr/share/nginx/html".to_string());

    let script = generate_init_script(&config, IP, GATEWAY);
    assert!(script.contains("export NGINX_HOST=localhost"));
    assert!(script.contains("export NGINX_PORT=80"));
    assert!(script.contains("cd /usr/share/nginx/html"));
    assert!(script.contains("exec /bin/nginx -g 'daemon off;'"));
}

#[test]
fn test_generate_init_script_has_defensive_options() {
    let config = OciImageConfig::default();
    let script = generate_init_script(&config, IP, GATEWAY);
    assert!(script.contains("set -e"), "Script should contain 'set -e'");
    assert!(script.contains("set -u"), "Script should contain 'set -u'");
    assert!(script.contains("trap"), "Script should contain 'trap ERR'");
}

#[test]
fn blank_configuration_gives_this_script() {
    let script = generate_init_script(&OciImageConfig::default(), IP, GATEWAY);
    let mut expected = String::new();
    expected.push_str(SCRIPT_OPTIONS);
    expected.push_str(SCRIPT_HEAD);
    expected.push_str("/bin/busybox ip addr add 172.16.0.2/24 dev eth0 2>/dev/null || true\n");
    expected.push_str("/bin/busybox ip link set eth0 up 2>/dev/null || true\n");
    expected.push_str("/bin/busybox ip route add default via 172.16.0.1 2>/dev/null || true\n");
    expected.push_str(SCRIPT_ROOT);
    expected.push_str("/bin/busybox sh\n");
    expected.push_str(SCRIPT_TAIL);
    assert_eq!(script, expected);
}

#[test]
fn environment_values_are_escaped_and_other_entries_skipped() {
    let mut config = OciImageConfig::default();
    config.env = Some(vec![
        "GREETING=it's me".to_string(),
        "BROKEN".to_string(),
        "PAIR=a=b".to_string(),
    ]);
    let script = generate_init_script(&config, IP, GATEWAY);
    assert!(script.contains("\nexport GREETING='it'\\''s me'\n"));
    assert!(script.contains("\nexport PAIR='a=b'\n"));
    assert!(!script.contains("BROKEN"));
}

#[test]
fn command_follows_entrypoint() {
    let mut config = OciImageConfig::default();
    config.cmd = Some(vec!["echo".to_string(), "hi there".to_string()]);
    let script = generate_init_script(&config, IP, GATEWAY);
    assert!(script.contains("\n(exec echo 'hi there')\n"));
    assert!(script.ends_with(SCRIPT_TAIL));
    config.entrypoint = Some(vec!["/bin/env".to_string()]);
    assert_eq!(config.full_command(), vec!["/bin/env", "echo", "hi there"]);
}

#[test]
fn working_directory_is_exported_and_entered() {
    let mut config = OciImageConfig::default();
    config.working_dir = Some("/srv/my app".to_string());
    let script = generate_init_script(&config, IP, GATEWAY);
    assert!(script.contains("\nexport VWORKDIR='/srv/my app'\n"));
    assert!(script.contains("\ncd '/srv/my app'\n"));
}
