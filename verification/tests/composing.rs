use docktopus::compose::CreateConfig;
use docktopus::compose::HostSettings;
use docktopus::compose::KeyVal;
use docktopus::compose::compose;
use docktopus::compose::merge_config;

fn strings(items: &[&str]) -> Vec<String> {
    items.iter().map(|s| s.to_string()).collect()
}

fn base_config() -> CreateConfig {
    let mut b = CreateConfig::empty();
    b.image = Some("rustlang/rust".to_string());
    b.cmd = Some(strings(&["cat"]));
    b.env = Some(strings(&["FOO=BAR", "BAZ=QUX"]));
    b.attach_stdout = Some(true);
    let mut host = HostSettings::empty();
    host.binds = Some(strings(&["/base:/data"]));
    host.runtime = Some("runc".to_string());
    b.host_config = Some(host);
    b
}

fn override_config() -> CreateConfig {
    let mut o = CreateConfig::empty();
    o.attach_stdin = Some(true);
    o.open_stdin = Some(true);
    o.cmd = Some(strings(&["sh", "-c", "echo hi"]));
    o.labels = Some(vec![KeyVal { key: "team".to_string(), value: "infra".to_string() }]);
    let mut host = HostSettings::empty();
    host.binds = Some(strings(&["/override:/data"]));
    host.privileged = Some(false);
    o.host_config = Some(host);
    o
}

fn assert_merged_shape(m: &CreateConfig) {
    // Fields the override left unset keep the base values.
    assert_eq!(m.image, Some("rustlang/rust".to_string()));
    assert_eq!(m.env, Some(strings(&["FOO=BAR", "BAZ=QUX"])));
    assert_eq!(m.attach_stdout, Some(true));
    // Fields the override set replace the base values wholesale.
    assert_eq!(m.attach_stdin, Some(true));
    assert_eq!(m.open_stdin, Some(true));
    assert_eq!(m.cmd, Some(strings(&["sh", "-c", "echo hi"])));
    let labels = m.labels.as_ref().expect("override labels survive the merge");
    assert_eq!(labels.len(), 1);
    assert_eq!(labels[0].key, "team");
    assert_eq!(labels[0].value, "infra");
    // Host settings merge one level deep by the same rule.
    let host = m.host_config.as_ref().expect("host settings survive the merge");
    assert_eq!(host.binds, Some(strings(&["/override:/data"])));
    assert_eq!(host.runtime, Some("runc".to_string()));
    assert_eq!(host.privileged, Some(false));
}

#[test]
fn merge_prefers_override_and_keeps_base() {
    let m = merge_config(base_config(), override_config());
    assert_merged_shape(&m);
}

#[test]
fn merge_is_idempotent() {
    let once = merge_config(base_config(), override_config());
    let twice = merge_config(merge_config(base_config(), override_config()), override_config());
    assert_merged_shape(&once);
    assert_merged_shape(&twice);
    assert_eq!(once.cmd, twice.cmd);
    assert_eq!(once.env, twice.env);
    assert_eq!(once.image, twice.image);
    assert_eq!(once.attach_stdin, twice.attach_stdin);
    let h1 = once.host_config.unwrap();
    let h2 = twice.host_config.unwrap();
    assert_eq!(h1.binds, h2.binds);
    assert_eq!(h1.runtime, h2.runtime);
    assert_eq!(h1.privileged, h2.privileged);
}

#[test]
fn merge_replaces_lists_never_unions_them() {
    // A list-valued field set on both sides comes out as the override's
    // list exactly: no concatenation, no union.
    let m = merge_config(base_config(), override_config());
    assert_eq!(m.cmd, Some(strings(&["sh", "-c", "echo hi"])));
    let host = m.host_config.unwrap();
    assert_eq!(host.binds, Some(strings(&["/override:/data"])));
}

#[test]
fn compose_without_override_passes_base_through() {
    let c = compose(base_config(), None);
    assert_eq!(c.image, Some("rustlang/rust".to_string()));
    assert_eq!(c.cmd, Some(strings(&["cat"])));
    assert_eq!(c.env, Some(strings(&["FOO=BAR", "BAZ=QUX"])));
    assert_eq!(c.attach_stdout, Some(true));
    assert_eq!(c.attach_stdin, None);
    assert_eq!(c.labels.as_ref().map(|v| v.len()), None);
    let host = c.host_config.unwrap();
    assert_eq!(host.binds, Some(strings(&["/base:/data"])));
    assert_eq!(host.runtime, Some("runc".to_string()));
    assert_eq!(host.privileged, None);
}

#[test]
fn override_against_missing_base_host_settings() {
    let mut b = CreateConfig::empty();
    b.image = Some("alpine".to_string());
    let m = merge_config(b, override_config());
    let host = m.host_config.expect("override host settings apply against unset base settings");
    assert_eq!(host.binds, Some(strings(&["/override:/data"])));
    assert_eq!(host.runtime, None);
    assert_eq!(host.privileged, Some(false));
}

#[test]
fn duplicate_preserves_contents() {
    let b = base_config();
    let d = b.duplicate();
    assert_eq!(d.image, b.image);
    assert_eq!(d.cmd, b.cmd);
    assert_eq!(d.env, b.env);
    let hb = b.host_config.unwrap();
    let hd = d.host_config.unwrap();
    assert_eq!(hd.binds, hb.binds);
    assert_eq!(hd.runtime, hb.runtime);
}
