//! Composition of the final creation payload from a generated base
//! configuration and an optional caller-supplied override of the same shape.
//!
//! The merge rule is per-field and independent: a field the override leaves
//! unset keeps the base value; a field the override sets replaces the base
//! value wholesale, with no element-wise union for list-valued fields. The
//! nested host-level settings are merged by the same rule, one level deep.

use vstd::prelude::*;

verus! {

/// One key/value entry of a map-valued field (labels, sysctls, tmpfs,
/// storage options).
#[derive(Debug)]
pub struct KeyVal {
    pub key: String,
    pub value: String,
}

impl KeyVal {
    /// An owned copy, equal to the original.
    pub fn duplicate(&self) -> (r: KeyVal)
        ensures
            r == *self,
    {
        KeyVal { key: self.key.clone(), value: self.value.clone() }
    }
}

/// One port-binding entry: a container port (such as `"8080/tcp"`) bound to
/// an optional host address and port.
#[derive(Debug)]
pub struct PortMapEntry {
    pub container_port: String,
    pub host_ip: Option<String>,
    pub host_port: Option<String>,
}

impl PortMapEntry {
    /// An owned copy, equal to the original.
    pub fn duplicate(&self) -> (r: PortMapEntry)
        ensures
            r == *self,
    {
        PortMapEntry {
            container_port: self.container_port.clone(),
            host_ip: dup_opt_string(&self.host_ip),
            host_port: dup_opt_string(&self.host_port),
        }
    }
}

/// The restart policy requested for a container.
#[derive(Debug)]
pub struct RestartPolicy {
    pub name: Option<String>,
    pub maximum_retry_count: Option<i64>,
}

impl RestartPolicy {
    /// An owned copy, equal to the original.
    pub fn duplicate(&self) -> (r: RestartPolicy)
        ensures
            r == *self,
    {
        RestartPolicy {
            name: dup_opt_string(&self.name),
            maximum_retry_count: self.maximum_retry_count,
        }
    }
}

/// An owned copy of an optional string, equal to the original.
pub fn dup_opt_string(o: &Option<String>) -> (r: Option<String>)
    ensures
        r == *o,
{
    match o {
        Some(s) => Some(s.clone()),
        None => None,
    }
}

/// An owned copy of an optional restart policy, equal to the original.
pub fn dup_opt_restart(o: &Option<RestartPolicy>) -> (r: Option<RestartPolicy>)
    ensures
        r == *o,
{
    match o {
        Some(p) => Some(p.duplicate()),
        None => None,
    }
}

/// The contents of an optional string list.
pub open spec fn opt_strs(o: Option<Vec<String>>) -> Option<Seq<String>> {
    match o {
        Some(v) => Some(v@),
        None => None,
    }
}

/// The contents of an optional key/value list.
pub open spec fn opt_kvs(o: Option<Vec<KeyVal>>) -> Option<Seq<KeyVal>> {
    match o {
        Some(v) => Some(v@),
        None => None,
    }
}

/// The contents of an optional port-binding list.
pub open spec fn opt_ports(o: Option<Vec<PortMapEntry>>) -> Option<Seq<PortMapEntry>> {
    match o {
        Some(v) => Some(v@),
        None => None,
    }
}

/// An owned copy of a string list with the same contents.
pub fn dup_strings(v: &Vec<String>) -> (r: Vec<String>)
    ensures
        r@ == v@,
{
    let mut r: Vec<String> = Vec::new();
    let mut i: usize = 0;
    while i < v.len()
        invariant
            0 <= i <= v.len(),
            r@ =~= v@.subrange(0, i as int),
        decreases v.len() - i,
    {
        r.push(v[i].clone());
        i += 1;
    }
    proof {
        assert(r@ =~= v@);
    }
    r
}

/// An owned copy of an optional string list with the same contents.
pub fn dup_opt_strings(o: &Option<Vec<String>>) -> (r: Option<Vec<String>>)
    ensures
        opt_strs(r) == opt_strs(*o),
{
    match o {
        Some(v) => Some(dup_strings(v)),
        None => None,
    }
}

/// An owned copy of an optional key/value list with the same contents.
pub fn dup_opt_kvs(o: &Option<Vec<KeyVal>>) -> (r: Option<Vec<KeyVal>>)
    ensures
        opt_kvs(r) == opt_kvs(*o),
{
    match o {
        Some(v) => {
            let mut r: Vec<KeyVal> = Vec::new();
            let mut i: usize = 0;
            while i < v.len()
                invariant
                    0 <= i <= v.len(),
                    r@ =~= v@.subrange(0, i as int),
                decreases v.len() - i,
            {
                r.push(v[i].duplicate());
                i += 1;
            }
            proof {
                assert(r@ =~= v@);
            }
            Some(r)
        },
        None => None,
    }
}

/// An owned copy of an optional port-binding list with the same contents.
pub fn dup_opt_ports(o: &Option<Vec<PortMapEntry>>) -> (r: Option<Vec<PortMapEntry>>)
    ensures
        opt_ports(r) == opt_ports(*o),
{
    match o {
        Some(v) => {
            let mut r: Vec<PortMapEntry> = Vec::new();
            let mut i: usize = 0;
            while i < v.len()
                invariant
                    0 <= i <= v.len(),
                    r@ =~= v@.subrange(0, i as int),
                decreases v.len() - i,
            {
                r.push(v[i].duplicate());
                i += 1;
            }
            proof {
                assert(r@ =~= v@);
            }
            Some(r)
        },
        None => None,
    }
}

/// Host-level settings of a creation payload: storage, network, namespace,
/// capability, security and resource-limit options. Every field is optional;
/// unset means "use the engine default".
#[derive(Debug)]
pub struct HostSettings {
    pub binds: Option<Vec<String>>,
    pub network_mode: Option<String>,
    pub port_bindings: Option<Vec<PortMapEntry>>,
    pub restart_policy: Option<RestartPolicy>,
    pub auto_remove: Option<bool>,
    pub volume_driver: Option<String>,
    pub volumes_from: Option<Vec<String>>,
    pub cap_add: Option<Vec<String>>,
    pub cap_drop: Option<Vec<String>>,
    pub cgroupns_mode: Option<String>,
    pub dns: Option<Vec<String>>,
    pub dns_options: Option<Vec<String>>,
    pub dns_search: Option<Vec<String>>,
    pub extra_hosts: Option<Vec<String>>,
    pub group_add: Option<Vec<String>>,
    pub ipc_mode: Option<String>,
    pub cgroup: Option<String>,
    pub links: Option<Vec<String>>,
    pub oom_score_adj: Option<i64>,
    pub pid_mode: Option<String>,
    pub privileged: Option<bool>,
    pub publish_all_ports: Option<bool>,
    pub readonly_rootfs: Option<bool>,
    pub security_opt: Option<Vec<String>>,
    pub storage_opt: Option<Vec<KeyVal>>,
    pub tmpfs: Option<Vec<KeyVal>>,
    pub uts_mode: Option<String>,
    pub userns_mode: Option<String>,
    pub shm_size: Option<i64>,
    pub sysctls: Option<Vec<KeyVal>>,
    pub runtime: Option<String>,
    pub isolation: Option<String>,
    pub masked_paths: Option<Vec<String>>,
    pub readonly_paths: Option<Vec<String>>,
    pub memory: Option<u64>,
    pub memory_swap: Option<u64>,
    pub memory_reservation: Option<u64>,
    pub cpu_shares: Option<i64>,
    pub cpuset_cpus: Option<String>,
    pub nano_cpus: Option<i64>,
}

/// The abstract contents of a `HostSettings`: list-valued fields are read as
/// sequences, everything else as its value.
#[verifier::ext_equal]
pub struct HostSettingsV {
    pub binds: Option<Seq<String>>,
    pub network_mode: Option<String>,
    pub port_bindings: Option<Seq<PortMapEntry>>,
    pub restart_policy: Option<RestartPolicy>,
    pub auto_remove: Option<bool>,
    pub volume_driver: Option<String>,
    pub volumes_from: Option<Seq<String>>,
    pub cap_add: Option<Seq<String>>,
    pub cap_drop: Option<Seq<String>>,
    pub cgroupns_mode: Option<String>,
    pub dns: Option<Seq<String>>,
    pub dns_options: Option<Seq<String>>,
    pub dns_search: Option<Seq<String>>,
    pub extra_hosts: Option<Seq<String>>,
    pub group_add: Option<Seq<String>>,
    pub ipc_mode: Option<String>,
    pub cgroup: Option<String>,
    pub links: Option<Seq<String>>,
    pub oom_score_adj: Option<i64>,
    pub pid_mode: Option<String>,
    pub privileged: Option<bool>,
    pub publish_all_ports: Option<bool>,
    pub readonly_rootfs: Option<bool>,
    pub security_opt: Option<Seq<String>>,
    pub storage_opt: Option<Seq<KeyVal>>,
    pub tmpfs: Option<Seq<KeyVal>>,
    pub uts_mode: Option<String>,
    pub userns_mode: Option<String>,
    pub shm_size: Option<i64>,
    pub sysctls: Option<Seq<KeyVal>>,
    pub runtime: Option<String>,
    pub isolation: Option<String>,
    pub masked_paths: Option<Seq<String>>,
    pub readonly_paths: Option<Seq<String>>,
    pub memory: Option<u64>,
    pub memory_swap: Option<u64>,
    pub memory_reservation: Option<u64>,
    pub cpu_shares: Option<i64>,
    pub cpuset_cpus: Option<String>,
    pub nano_cpus: Option<i64>,
}

impl View for HostSettings {
    type V = HostSettingsV;

    open spec fn view(&self) -> HostSettingsV {
        HostSettingsV {
            binds: opt_strs(self.binds),
            network_mode: self.network_mode,
            port_bindings: opt_ports(self.port_bindings),
            restart_policy: self.restart_policy,
            auto_remove: self.auto_remove,
            volume_driver: self.volume_driver,
            volumes_from: opt_strs(self.volumes_from),
            cap_add: opt_strs(self.cap_add),
            cap_drop: opt_strs(self.cap_drop),
            cgroupns_mode: self.cgroupns_mode,
            dns: opt_strs(self.dns),
            dns_options: opt_strs(self.dns_options),
            dns_search: opt_strs(self.dns_search),
            extra_hosts: opt_strs(self.extra_hosts),
            group_add: opt_strs(self.group_add),
            ipc_mode: self.ipc_mode,
            cgroup: self.cgroup,
            links: opt_strs(self.links),
            oom_score_adj: self.oom_score_adj,
            pid_mode: self.pid_mode,
            privileged: self.privileged,
            publish_all_ports: self.publish_all_ports,
            readonly_rootfs: self.readonly_rootfs,
            security_opt: opt_strs(self.security_opt),
            storage_opt: opt_kvs(self.storage_opt),
            tmpfs: opt_kvs(self.tmpfs),
            uts_mode: self.uts_mode,
            userns_mode: self.userns_mode,
            shm_size: self.shm_size,
            sysctls: opt_kvs(self.sysctls),
            runtime: self.runtime,
            isolation: self.isolation,
            masked_paths: opt_strs(self.masked_paths),
            readonly_paths: opt_strs(self.readonly_paths),
            memory: self.memory,
            memory_swap: self.memory_swap,
            memory_reservation: self.memory_reservation,
            cpu_shares: self.cpu_shares,
            cpuset_cpus: self.cpuset_cpus,
            nano_cpus: self.nano_cpus,
        }
    }
}

/// Host settings with every field unset.
pub open spec fn host_unset() -> HostSettingsV {
    HostSettingsV {
        binds: None,
        network_mode: None,
        port_bindings: None,
        restart_policy: None,
        auto_remove: None,
        volume_driver: None,
        volumes_from: None,
        cap_add: None,
        cap_drop: None,
        cgroupns_mode: None,
        dns: None,
        dns_options: None,
        dns_search: None,
        extra_hosts: None,
        group_add: None,
        ipc_mode: None,
        cgroup: None,
        links: None,
        oom_score_adj: None,
        pid_mode: None,
        privileged: None,
        publish_all_ports: None,
        readonly_rootfs: None,
        security_opt: None,
        storage_opt: None,
        tmpfs: None,
        uts_mode: None,
        userns_mode: None,
        shm_size: None,
        sysctls: None,
        runtime: None,
        isolation: None,
        masked_paths: None,
        readonly_paths: None,
        memory: None,
        memory_swap: None,
        memory_reservation: None,
        cpu_shares: None,
        cpuset_cpus: None,
        nano_cpus: None,
    }
}

impl HostSettings {
    /// Host settings with every field unset.
    pub fn empty() -> (r: HostSettings)
        ensures
            r@ == host_unset(),
    {
        let r = HostSettings {
            binds: None,
            network_mode: None,
            port_bindings: None,
            restart_policy: None,
            auto_remove: None,
            volume_driver: None,
            volumes_from: None,
            cap_add: None,
            cap_drop: None,
            cgroupns_mode: None,
            dns: None,
            dns_options: None,
            dns_search: None,
            extra_hosts: None,
            group_add: None,
            ipc_mode: None,
            cgroup: None,
            links: None,
            oom_score_adj: None,
            pid_mode: None,
            privileged: None,
            publish_all_ports: None,
            readonly_rootfs: None,
            security_opt: None,
            storage_opt: None,
            tmpfs: None,
            uts_mode: None,
            userns_mode: None,
            shm_size: None,
            sysctls: None,
            runtime: None,
            isolation: None,
            masked_paths: None,
            readonly_paths: None,
            memory: None,
            memory_swap: None,
            memory_reservation: None,
            cpu_shares: None,
            cpuset_cpus: None,
            nano_cpus: None,
        };
        proof {
            assert(r@ =~= host_unset());
        }
        r
    }

    /// An owned copy whose contents equal the original's.
    pub fn duplicate(&self) -> (r: HostSettings)
        ensures
            r@ == self@,
    {
        let r = HostSettings {
            binds: dup_opt_strings(&self.binds),
            network_mode: dup_opt_string(&self.network_mode),
            port_bindings: dup_opt_ports(&self.port_bindings),
            restart_policy: dup_opt_restart(&self.restart_policy),
            auto_remove: self.auto_remove,
            volume_driver: dup_opt_string(&self.volume_driver),
            volumes_from: dup_opt_strings(&self.volumes_from),
            cap_add: dup_opt_strings(&self.cap_add),
            cap_drop: dup_opt_strings(&self.cap_drop),
            cgroupns_mode: dup_opt_string(&self.cgroupns_mode),
            dns: dup_opt_strings(&self.dns),
            dns_options: dup_opt_strings(&self.dns_options),
            dns_search: dup_opt_strings(&self.dns_search),
            extra_hosts: dup_opt_strings(&self.extra_hosts),
            group_add: dup_opt_strings(&self.group_add),
            ipc_mode: dup_opt_string(&self.ipc_mode),
            cgroup: dup_opt_string(&self.cgroup),
            links: dup_opt_strings(&self.links),
            oom_score_adj: self.oom_score_adj,
            pid_mode: dup_opt_string(&self.pid_mode),
            privileged: self.privileged,
            publish_all_ports: self.publish_all_ports,
            readonly_rootfs: self.readonly_rootfs,
            security_opt: dup_opt_strings(&self.security_opt),
            storage_opt: dup_opt_kvs(&self.storage_opt),
            tmpfs: dup_opt_kvs(&self.tmpfs),
            uts_mode: dup_opt_string(&self.uts_mode),
            userns_mode: dup_opt_string(&self.userns_mode),
            shm_size: self.shm_size,
            sysctls: dup_opt_kvs(&self.sysctls),
            runtime: dup_opt_string(&self.runtime),
            isolation: dup_opt_string(&self.isolation),
            masked_paths: dup_opt_strings(&self.masked_paths),
            readonly_paths: dup_opt_strings(&self.readonly_paths),
            memory: self.memory,
            memory_swap: self.memory_swap,
            memory_reservation: self.memory_reservation,
            cpu_shares: self.cpu_shares,
            cpuset_cpus: dup_opt_string(&self.cpuset_cpus),
            nano_cpus: self.nano_cpus,
        };
        proof {
            assert(r@ =~= self@);
        }
        r
    }
}

/// The per-field merge of host settings: a field the override sets replaces
/// the base value wholesale; a field it leaves unset keeps the base value.
pub open spec fn merged_host(b: HostSettingsV, o: HostSettingsV) -> HostSettingsV {
    HostSettingsV {
        binds: if o.binds is Some { o.binds } else { b.binds },
        network_mode: if o.network_mode is Some { o.network_mode } else { b.network_mode },
        port_bindings: if o.port_bindings is Some { o.port_bindings } else { b.port_bindings },
        restart_policy: if o.restart_policy is Some { o.restart_policy } else { b.restart_policy },
        auto_remove: if o.auto_remove is Some { o.auto_remove } else { b.auto_remove },
        volume_driver: if o.volume_driver is Some { o.volume_driver } else { b.volume_driver },
        volumes_from: if o.volumes_from is Some { o.volumes_from } else { b.volumes_from },
        cap_add: if o.cap_add is Some { o.cap_add } else { b.cap_add },
        cap_drop: if o.cap_drop is Some { o.cap_drop } else { b.cap_drop },
        cgroupns_mode: if o.cgroupns_mode is Some { o.cgroupns_mode } else { b.cgroupns_mode },
        dns: if o.dns is Some { o.dns } else { b.dns },
        dns_options: if o.dns_options is Some { o.dns_options } else { b.dns_options },
        dns_search: if o.dns_search is Some { o.dns_search } else { b.dns_search },
        extra_hosts: if o.extra_hosts is Some { o.extra_hosts } else { b.extra_hosts },
        group_add: if o.group_add is Some { o.group_add } else { b.group_add },
        ipc_mode: if o.ipc_mode is Some { o.ipc_mode } else { b.ipc_mode },
        cgroup: if o.cgroup is Some { o.cgroup } else { b.cgroup },
        links: if o.links is Some { o.links } else { b.links },
        oom_score_adj: if o.oom_score_adj is Some { o.oom_score_adj } else { b.oom_score_adj },
        pid_mode: if o.pid_mode is Some { o.pid_mode } else { b.pid_mode },
        privileged: if o.privileged is Some { o.privileged } else { b.privileged },
        publish_all_ports: if o.publish_all_ports is Some {
            o.publish_all_ports
        } else {
            b.publish_all_ports
        },
        readonly_rootfs: if o.readonly_rootfs is Some { o.readonly_rootfs } else { b.readonly_rootfs },
        security_opt: if o.security_opt is Some { o.security_opt } else { b.security_opt },
        storage_opt: if o.storage_opt is Some { o.storage_opt } else { b.storage_opt },
        tmpfs: if o.tmpfs is Some { o.tmpfs } else { b.tmpfs },
        uts_mode: if o.uts_mode is Some { o.uts_mode } else { b.uts_mode },
        userns_mode: if o.userns_mode is Some { o.userns_mode } else { b.userns_mode },
        shm_size: if o.shm_size is Some { o.shm_size } else { b.shm_size },
        sysctls: if o.sysctls is Some { o.sysctls } else { b.sysctls },
        runtime: if o.runtime is Some { o.runtime } else { b.runtime },
        isolation: if o.isolation is Some { o.isolation } else { b.isolation },
        masked_paths: if o.masked_paths is Some { o.masked_paths } else { b.masked_paths },
        readonly_paths: if o.readonly_paths is Some { o.readonly_paths } else { b.readonly_paths },
        memory: if o.memory is Some { o.memory } else { b.memory },
        memory_swap: if o.memory_swap is Some { o.memory_swap } else { b.memory_swap },
        memory_reservation: if o.memory_reservation is Some {
            o.memory_reservation
        } else {
            b.memory_reservation
        },
        cpu_shares: if o.cpu_shares is Some { o.cpu_shares } else { b.cpu_shares },
        cpuset_cpus: if o.cpuset_cpus is Some { o.cpuset_cpus } else { b.cpuset_cpus },
        nano_cpus: if o.nano_cpus is Some { o.nano_cpus } else { b.nano_cpus },
    }
}

/// The override value where set, the base value otherwise.
fn pick<T>(o: Option<T>, b: Option<T>) -> (r: Option<T>)
    ensures
        o is Some ==> r == o,
        o is None ==> r == b,
{
    if o.is_some() {
        o
    } else {
        b
    }
}

/// Merge override host settings into base host settings, field by field.
#[verifier::rlimit(100)]
pub fn merge_host(b: HostSettings, o: HostSettings) -> (r: HostSettings)
    ensures
        r@ == merged_host(b@, o@),
{
    let r = HostSettings {
        binds: pick(o.binds, b.binds),
        network_mode: pick(o.network_mode, b.network_mode),
        port_bindings: pick(o.port_bindings, b.port_bindings),
        restart_policy: pick(o.restart_policy, b.restart_policy),
        auto_remove: pick(o.auto_remove, b.auto_remove),
        volume_driver: pick(o.volume_driver, b.volume_driver),
        volumes_from: pick(o.volumes_from, b.volumes_from),
        cap_add: pick(o.cap_add, b.cap_add),
        cap_drop: pick(o.cap_drop, b.cap_drop),
        cgroupns_mode: pick(o.cgroupns_mode, b.cgroupns_mode),
        dns: pick(o.dns, b.dns),
        dns_options: pick(o.dns_options, b.dns_options),
        dns_search: pick(o.dns_search, b.dns_search),
        extra_hosts: pick(o.extra_hosts, b.extra_hosts),
        group_add: pick(o.group_add, b.group_add),
        ipc_mode: pick(o.ipc_mode, b.ipc_mode),
        cgroup: pick(o.cgroup, b.cgroup),
        links: pick(o.links, b.links),
        oom_score_adj: pick(o.oom_score_adj, b.oom_score_adj),
        pid_mode: pick(o.pid_mode, b.pid_mode),
        privileged: pick(o.privileged, b.privileged),
        publish_all_ports: pick(o.publish_all_ports, b.publish_all_ports),
        readonly_rootfs: pick(o.readonly_rootfs, b.readonly_rootfs),
        security_opt: pick(o.security_opt, b.security_opt),
        storage_opt: pick(o.storage_opt, b.storage_opt),
        tmpfs: pick(o.tmpfs, b.tmpfs),
        uts_mode: pick(o.uts_mode, b.uts_mode),
        userns_mode: pick(o.userns_mode, b.userns_mode),
        shm_size: pick(o.shm_size, b.shm_size),
        sysctls: pick(o.sysctls, b.sysctls),
        runtime: pick(o.runtime, b.runtime),
        isolation: pick(o.isolation, b.isolation),
        masked_paths: pick(o.masked_paths, b.masked_paths),
        readonly_paths: pick(o.readonly_paths, b.readonly_paths),
        memory: pick(o.memory, b.memory),
        memory_swap: pick(o.memory_swap, b.memory_swap),
        memory_reservation: pick(o.memory_reservation, b.memory_reservation),
        cpu_shares: pick(o.cpu_shares, b.cpu_shares),
        cpuset_cpus: pick(o.cpuset_cpus, b.cpuset_cpus),
        nano_cpus: pick(o.nano_cpus, b.nano_cpus),
    };
    proof {
        assert(r@ =~= merged_host(b@, o@));
    }
    r
}

/// Merging the same host-settings override twice yields the same result as
/// merging it once.
pub proof fn lemma_merge_host_idempotent(b: HostSettingsV, o: HostSettingsV)
    ensures
        merged_host(merged_host(b, o), o) == merged_host(b, o),
{
    assert(merged_host(merged_host(b, o), o) =~= merged_host(b, o));
}

/// A creation payload: what is submitted to the engine to create a
/// container. Every field is optional; unset means "use the engine default".
#[derive(Debug)]
pub struct CreateConfig {
    pub hostname: Option<String>,
    pub domainname: Option<String>,
    pub user: Option<String>,
    pub attach_stdin: Option<bool>,
    pub attach_stdout: Option<bool>,
    pub attach_stderr: Option<bool>,
    pub exposed_ports: Option<Vec<String>>,
    pub tty: Option<bool>,
    pub open_stdin: Option<bool>,
    pub stdin_once: Option<bool>,
    pub env: Option<Vec<String>>,
    pub cmd: Option<Vec<String>>,
    pub args_escaped: Option<bool>,
    pub image: Option<String>,
    pub volumes: Option<Vec<String>>,
    pub working_dir: Option<String>,
    pub entrypoint: Option<Vec<String>>,
    pub network_disabled: Option<bool>,
    pub mac_address: Option<String>,
    pub on_build: Option<Vec<String>>,
    pub labels: Option<Vec<KeyVal>>,
    pub stop_signal: Option<String>,
    pub stop_timeout: Option<i64>,
    pub shell: Option<Vec<String>>,
    pub host_config: Option<HostSettings>,
}

/// The abstract contents of a `CreateConfig`.
#[verifier::ext_equal]
pub struct CreateConfigV {
    pub hostname: Option<String>,
    pub domainname: Option<String>,
    pub user: Option<String>,
    pub attach_stdin: Option<bool>,
    pub attach_stdout: Option<bool>,
    pub attach_stderr: Option<bool>,
    pub exposed_ports: Option<Seq<String>>,
    pub tty: Option<bool>,
    pub open_stdin: Option<bool>,
    pub stdin_once: Option<bool>,
    pub env: Option<Seq<String>>,
    pub cmd: Option<Seq<String>>,
    pub args_escaped: Option<bool>,
    pub image: Option<String>,
    pub volumes: Option<Seq<String>>,
    pub working_dir: Option<String>,
    pub entrypoint: Option<Seq<String>>,
    pub network_disabled: Option<bool>,
    pub mac_address: Option<String>,
    pub on_build: Option<Seq<String>>,
    pub labels: Option<Seq<KeyVal>>,
    pub stop_signal: Option<String>,
    pub stop_timeout: Option<i64>,
    pub shell: Option<Seq<String>>,
    pub host_config: Option<HostSettingsV>,
}

/// The contents of an optional host-settings value.
pub open spec fn opt_host(o: Option<HostSettings>) -> Option<HostSettingsV> {
    match o {
        Some(h) => Some(h@),
        None => None,
    }
}

impl View for CreateConfig {
    type V = CreateConfigV;

    open spec fn view(&self) -> CreateConfigV {
        CreateConfigV {
            hostname: self.hostname,
            domainname: self.domainname,
            user: self.user,
            attach_stdin: self.attach_stdin,
            attach_stdout: self.attach_stdout,
            attach_stderr: self.attach_stderr,
            exposed_ports: opt_strs(self.exposed_ports),
            tty: self.tty,
            open_stdin: self.open_stdin,
            stdin_once: self.stdin_once,
            env: opt_strs(self.env),
            cmd: opt_strs(self.cmd),
            args_escaped: self.args_escaped,
            image: self.image,
            volumes: opt_strs(self.volumes),
            working_dir: self.working_dir,
            entrypoint: opt_strs(self.entrypoint),
            network_disabled: self.network_disabled,
            mac_address: self.mac_address,
            on_build: opt_strs(self.on_build),
            labels: opt_kvs(self.labels),
            stop_signal: self.stop_signal,
            stop_timeout: self.stop_timeout,
            shell: opt_strs(self.shell),
            host_config: opt_host(self.host_config),
        }
    }
}

/// A creation payload with every field unset.
pub open spec fn config_unset() -> CreateConfigV {
    CreateConfigV {
        hostname: None,
        domainname: None,
        user: None,
        attach_stdin: None,
        attach_stdout: None,
        attach_stderr: None,
        exposed_ports: None,
        tty: None,
        open_stdin: None,
        stdin_once: None,
        env: None,
        cmd: None,
        args_escaped: None,
        image: None,
        volumes: None,
        working_dir: None,
        entrypoint: None,
        network_disabled: None,
        mac_address: None,
        on_build: None,
        labels: None,
        stop_signal: None,
        stop_timeout: None,
        shell: None,
        host_config: None,
    }
}

impl CreateConfig {
    /// A creation payload with every field unset.
    pub fn empty() -> (r: CreateConfig)
        ensures
            r@ == config_unset(),
    {
        let r = CreateConfig {
            hostname: None,
            domainname: None,
            user: None,
            attach_stdin: None,
            attach_stdout: None,
            attach_stderr: None,
            exposed_ports: None,
            tty: None,
            open_stdin: None,
            stdin_once: None,
            env: None,
            cmd: None,
            args_escaped: None,
            image: None,
            volumes: None,
            working_dir: None,
            entrypoint: None,
            network_disabled: None,
            mac_address: None,
            on_build: None,
            labels: None,
            stop_signal: None,
            stop_timeout: None,
            shell: None,
            host_config: None,
        };
        proof {
            assert(r@ =~= config_unset());
        }
        r
    }

    /// An owned copy whose contents equal the original's.
    #[verifier::rlimit(60)]
    pub fn duplicate(&self) -> (r: CreateConfig)
        ensures
            r@ == self@,
    {
        let host_config = match &self.host_config {
            Some(h) => Some(h.duplicate()),
            None => None,
        };
        let r = CreateConfig {
            hostname: dup_opt_string(&self.hostname),
            domainname: dup_opt_string(&self.domainname),
            user: dup_opt_string(&self.user),
            attach_stdin: self.attach_stdin,
            attach_stdout: self.attach_stdout,
            attach_stderr: self.attach_stderr,
            exposed_ports: dup_opt_strings(&self.exposed_ports),
            tty: self.tty,
            open_stdin: self.open_stdin,
            stdin_once: self.stdin_once,
            env: dup_opt_strings(&self.env),
            cmd: dup_opt_strings(&self.cmd),
            args_escaped: self.args_escaped,
            image: dup_opt_string(&self.image),
            volumes: dup_opt_strings(&self.volumes),
            working_dir: dup_opt_string(&self.working_dir),
            entrypoint: dup_opt_strings(&self.entrypoint),
            network_disabled: self.network_disabled,
            mac_address: dup_opt_string(&self.mac_address),
            on_build: dup_opt_strings(&self.on_build),
            labels: dup_opt_kvs(&self.labels),
            stop_signal: dup_opt_string(&self.stop_signal),
            stop_timeout: self.stop_timeout,
            shell: dup_opt_strings(&self.shell),
            host_config,
        };
        proof {
            assert(r@ =~= self@);
        }
        r
    }
}

/// The per-field merge of two creation payloads: a field the override sets
/// replaces the base value wholesale; a field it leaves unset keeps the base
/// value. Host-level settings are merged by the same rule, one level deep,
/// against unset host settings when the base has none.
pub open spec fn merged_config(b: CreateConfigV, o: CreateConfigV) -> CreateConfigV {
    CreateConfigV {
        hostname: if o.hostname is Some { o.hostname } else { b.hostname },
        domainname: if o.domainname is Some { o.domainname } else { b.domainname },
        user: if o.user is Some { o.user } else { b.user },
        attach_stdin: if o.attach_stdin is Some { o.attach_stdin } else { b.attach_stdin },
        attach_stdout: if o.attach_stdout is Some { o.attach_stdout } else { b.attach_stdout },
        attach_stderr: if o.attach_stderr is Some { o.attach_stderr } else { b.attach_stderr },
        exposed_ports: if o.exposed_ports is Some { o.exposed_ports } else { b.exposed_ports },
        tty: if o.tty is Some { o.tty } else { b.tty },
        open_stdin: if o.open_stdin is Some { o.open_stdin } else { b.open_stdin },
        stdin_once: if o.stdin_once is Some { o.stdin_once } else { b.stdin_once },
        env: if o.env is Some { o.env } else { b.env },
        cmd: if o.cmd is Some { o.cmd } else { b.cmd },
        args_escaped: if o.args_escaped is Some { o.args_escaped } else { b.args_escaped },
        image: if o.image is Some { o.image } else { b.image },
        volumes: if o.volumes is Some { o.volumes } else { b.volumes },
        working_dir: if o.working_dir is Some { o.working_dir } else { b.working_dir },
        entrypoint: if o.entrypoint is Some { o.entrypoint } else { b.entrypoint },
        network_disabled: if o.network_disabled is Some {
            o.network_disabled
        } else {
            b.network_disabled
        },
        mac_address: if o.mac_address is Some { o.mac_address } else { b.mac_address },
        on_build: if o.on_build is Some { o.on_build } else { b.on_build },
        labels: if o.labels is Some { o.labels } else { b.labels },
        stop_signal: if o.stop_signal is Some { o.stop_signal } else { b.stop_signal },
        stop_timeout: if o.stop_timeout is Some { o.stop_timeout } else { b.stop_timeout },
        shell: if o.shell is Some { o.shell } else { b.shell },
        host_config: match o.host_config {
            None => b.host_config,
            Some(oh) => Some(
                merged_host(
                    match b.host_config {
                        Some(bh) => bh,
                        None => host_unset(),
                    },
                    oh,
                ),
            ),
        },
    }
}

/// Merge an override creation payload into a base payload, field by field.
#[verifier::rlimit(100)]
pub fn merge_config(b: CreateConfig, o: CreateConfig) -> (r: CreateConfig)
    ensures
        r@ == merged_config(b@, o@),
{
    let host_config = match o.host_config {
        None => b.host_config,
        Some(oh) => {
            let bh = match b.host_config {
                Some(h) => h,
                None => HostSettings::empty(),
            };
            Some(merge_host(bh, oh))
        },
    };
    let r = CreateConfig {
        hostname: pick(o.hostname, b.hostname),
        domainname: pick(o.domainname, b.domainname),
        user: pick(o.user, b.user),
        attach_stdin: pick(o.attach_stdin, b.attach_stdin),
        attach_stdout: pick(o.attach_stdout, b.attach_stdout),
        attach_stderr: pick(o.attach_stderr, b.attach_stderr),
        exposed_ports: pick(o.exposed_ports, b.exposed_ports),
        tty: pick(o.tty, b.tty),
        open_stdin: pick(o.open_stdin, b.open_stdin),
        stdin_once: pick(o.stdin_once, b.stdin_once),
        env: pick(o.env, b.env),
        cmd: pick(o.cmd, b.cmd),
        args_escaped: pick(o.args_escaped, b.args_escaped),
        image: pick(o.image, b.image),
        volumes: pick(o.volumes, b.volumes),
        working_dir: pick(o.working_dir, b.working_dir),
        entrypoint: pick(o.entrypoint, b.entrypoint),
        network_disabled: pick(o.network_disabled, b.network_disabled),
        mac_address: pick(o.mac_address, b.mac_address),
        on_build: pick(o.on_build, b.on_build),
        labels: pick(o.labels, b.labels),
        stop_signal: pick(o.stop_signal, b.stop_signal),
        stop_timeout: pick(o.stop_timeout, b.stop_timeout),
        shell: pick(o.shell, b.shell),
        host_config,
    };
    proof {
        assert(r@ =~= merged_config(b@, o@));
    }
    r
}

/// Compose the final creation payload: with an override present the base is
/// merged with it; with no override the base passes through untouched.
pub fn compose(base: CreateConfig, overlay: Option<CreateConfig>) -> (r: CreateConfig)
    ensures
        r@ == composed(base@, opt_cfg(overlay)),
        overlay is None ==> r == base,
{
    match overlay {
        None => base,
        Some(o) => merge_config(base, o),
    }
}

/// The contents of an optional creation payload.
pub open spec fn opt_cfg(o: Option<CreateConfig>) -> Option<CreateConfigV> {
    match o {
        Some(c) => Some(c@),
        None => None,
    }
}

/// The composed payload: the base merged with the override where one is
/// present, the base untouched where none is.
pub open spec fn composed(b: CreateConfigV, o: Option<CreateConfigV>) -> CreateConfigV {
    match o {
        Some(ov) => merged_config(b, ov),
        None => b,
    }
}

/// Merging the same override twice yields the same payload as merging it
/// once: composition is idempotent.
pub proof fn lemma_merge_idempotent(b: CreateConfigV, o: CreateConfigV)
    ensures
        merged_config(merged_config(b, o), o) == merged_config(b, o),
{
    if o.host_config is Some {
        lemma_merge_host_idempotent(
            match b.host_config {
                Some(bh) => bh,
                None => host_unset(),
            },
            o.host_config.unwrap(),
        );
    }
    assert(merged_config(merged_config(b, o), o) =~= merged_config(b, o));
}

/// Composing with an absent override returns the base unchanged, field for
/// field.
pub proof fn lemma_compose_absent(b: CreateConfigV)
    ensures
        composed(b, None) == b,
{
}

/// Every field the override sets appears in the merged payload exactly as
/// the override holds it -- for list-valued fields the override's whole
/// list, never a union with the base.
pub proof fn lemma_merge_prefers_override(b: CreateConfigV, o: CreateConfigV)
    ensures
        o.cmd is Some ==> merged_config(b, o).cmd == o.cmd,
        o.env is Some ==> merged_config(b, o).env == o.env,
        o.image is Some ==> merged_config(b, o).image == o.image,
        o.entrypoint is Some ==> merged_config(b, o).entrypoint == o.entrypoint,
        o.labels is Some ==> merged_config(b, o).labels == o.labels,
        o.host_config is Some && o.host_config.unwrap().binds is Some ==> (merged_config(
            b,
            o,
        ).host_config matches Some(mh) && mh.binds == o.host_config.unwrap().binds),
{
}

/// Every field the override leaves unset keeps the base value.
pub proof fn lemma_merge_keeps_base(b: CreateConfigV, o: CreateConfigV)
    ensures
        o.cmd is None ==> merged_config(b, o).cmd == b.cmd,
        o.env is None ==> merged_config(b, o).env == b.env,
        o.image is None ==> merged_config(b, o).image == b.image,
        o.host_config is None ==> merged_config(b, o).host_config == b.host_config,
{
}

} // verus!
