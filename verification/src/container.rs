//! The container entity: status classification, error taxonomy, and the
//! lifecycle state held on the client side.
//!
//! A `Container` here is the client-side state of one workload instance:
//! its engine-assigned identifier (absent until a creation succeeds), its
//! image, and the accumulated options the creation payload is composed
//! from. The engine transport is a collaborator: each lifecycle operation
//! is a pure decision function that tells the caller which engine call, if
//! any, to issue.

use vstd::prelude::*;
use vstd::string::StrSliceExecFns;
use vstd::string::StringExecFns;

use crate::compose::CreateConfig;
use crate::compose::CreateConfigV;
use crate::compose::HostSettingsV;
use crate::compose::PortMapEntry;
use crate::compose::RestartPolicy;
use crate::compose::composed;
use crate::compose::compose;
use crate::compose::config_unset;
use crate::compose::dup_opt_string;
use crate::compose::dup_opt_strings;
use crate::compose::host_unset;
use crate::compose::opt_cfg;
use crate::compose::opt_ports;
use crate::compose::opt_strs;

verus! {

/// Errors surfaced by lifecycle and configuration operations.
///
/// Transport failures reported by the engine client are carried as their
/// message text; wait-specific failures additionally carry the exit status
/// code the engine reported.
#[derive(Debug)]
pub enum Error {
    /// An operation referenced an identifier the engine does not recognize.
    ContainerNotFound,
    /// The engine reported a status string outside the closed enumeration;
    /// carries the offending string.
    BadContainerStatus(String),
    /// A precondition (memory, disk, port) failed; carries a description
    /// naming the deficient resource.
    ValidationError(String),
    /// A resource-limit string failed to parse; carries a message naming the
    /// offending token.
    InvalidResourceLimit(String),
    /// A failure surfaced by the engine transport, passed through as its
    /// message text.
    Transport(String),
    /// The wait stream reported a non-zero exit with an attached error
    /// detail; carries the engine's message and the exit status code.
    WaitFailed { code: i64, message: String },
}

/// The status of a container, parsed losslessly from the engine's lowercase
/// state string.
#[derive(Copy, Clone, Debug, Eq, PartialEq, Structural)]
pub enum ContainerStatus {
    /// Created, but never started
    Created,
    /// Actively running
    Running,
    /// Paused
    Paused,
    /// Restarting according to the restart policy
    Restarting,
    /// Was started, and is no longer running
    Exited,
    /// In the process of being removed
    Removing,
    /// Defunct, partially removed
    Dead,
}

/// The status a state string denotes: exactly the seven lowercase tokens are
/// recognized, anything else is rejected.
pub open spec fn spec_parse_status(s: Seq<char>) -> Option<ContainerStatus> {
    if s == "created"@ {
        Some(ContainerStatus::Created)
    } else if s == "running"@ {
        Some(ContainerStatus::Running)
    } else if s == "paused"@ {
        Some(ContainerStatus::Paused)
    } else if s == "restarting"@ {
        Some(ContainerStatus::Restarting)
    } else if s == "exited"@ {
        Some(ContainerStatus::Exited)
    } else if s == "removing"@ {
        Some(ContainerStatus::Removing)
    } else if s == "dead"@ {
        Some(ContainerStatus::Dead)
    } else {
        None
    }
}

/// Compares two string slices by contents.
fn str_eq(a: &str, b: &str) -> (r: bool)
    ensures
        r == (a@ == b@),
{
    let x = a.to_owned();
    let y = b.to_owned();
    x == y
}

impl ContainerStatus {
    /// The lowercase state string this status prints as.
    pub open spec fn spec_str(self) -> Seq<char> {
        match self {
            ContainerStatus::Created => "created"@,
            ContainerStatus::Running => "running"@,
            ContainerStatus::Paused => "paused"@,
            ContainerStatus::Restarting => "restarting"@,
            ContainerStatus::Exited => "exited"@,
            ContainerStatus::Removing => "removing"@,
            ContainerStatus::Dead => "dead"@,
        }
    }

    /// Parse the engine's textual container state. Exactly the seven
    /// lowercase tokens are accepted; anything else fails with a bad-status
    /// error carrying the offending string.
    pub fn parse(s: &str) -> (res: Result<ContainerStatus, Error>)
        ensures
            match spec_parse_status(s@) {
                Some(c) => res == Ok::<ContainerStatus, Error>(c),
                None => res matches Err(Error::BadContainerStatus(m)) && m@ == s@,
            },
    {
        if str_eq(s, "created") {
            Ok(ContainerStatus::Created)
        } else if str_eq(s, "running") {
            Ok(ContainerStatus::Running)
        } else if str_eq(s, "paused") {
            Ok(ContainerStatus::Paused)
        } else if str_eq(s, "restarting") {
            Ok(ContainerStatus::Restarting)
        } else if str_eq(s, "exited") {
            Ok(ContainerStatus::Exited)
        } else if str_eq(s, "removing") {
            Ok(ContainerStatus::Removing)
        } else if str_eq(s, "dead") {
            Ok(ContainerStatus::Dead)
        } else {
            Err(Error::BadContainerStatus(s.to_owned()))
        }
    }

    /// The lowercase state string for this status.
    pub fn as_str(self) -> (r: &'static str)
        ensures
            r@ == self.spec_str(),
    {
        match self {
            ContainerStatus::Created => "created",
            ContainerStatus::Running => "running",
            ContainerStatus::Paused => "paused",
            ContainerStatus::Restarting => "restarting",
            ContainerStatus::Exited => "exited",
            ContainerStatus::Removing => "removing",
            ContainerStatus::Dead => "dead",
        }
    }

    /// True exactly for `Running`.
    pub fn is_active(self) -> (r: bool)
        ensures
            r == (self == ContainerStatus::Running),
    {
        matches!(self, ContainerStatus::Running)
    }

    /// False exactly for `Removing` and `Dead`.
    pub fn is_usable(self) -> (r: bool)
        ensures
            r == (self != ContainerStatus::Removing && self != ContainerStatus::Dead),
    {
        !matches!(self, ContainerStatus::Removing | ContainerStatus::Dead)
    }
}

/// Every status prints to a string that parses back to the same status.
pub proof fn lemma_status_round_trip(c: ContainerStatus)
    ensures
        spec_parse_status(c.spec_str()) == Some(c),
{
    reveal_strlit("created");
    reveal_strlit("running");
    reveal_strlit("paused");
    reveal_strlit("restarting");
    reveal_strlit("exited");
    reveal_strlit("removing");
    reveal_strlit("dead");
    assert("running"@[0] != "created"@[0]);
    assert("exited"@[0] != "paused"@[0]);
    assert("restarting"@[1] != "running"@[1]);
    assert("removing"@[1] != "running"@[1]);
    assert("removing"@[2] != "restarting"@[2]);
    match c {
        ContainerStatus::Created => {
            assert(spec_parse_status("created"@) == Some(ContainerStatus::Created));
        },
        ContainerStatus::Running => {
            assert(spec_parse_status("running"@) == Some(ContainerStatus::Running));
        },
        ContainerStatus::Paused => {
            assert(spec_parse_status("paused"@) == Some(ContainerStatus::Paused));
        },
        ContainerStatus::Restarting => {
            assert(spec_parse_status("restarting"@) == Some(ContainerStatus::Restarting));
        },
        ContainerStatus::Exited => {
            assert(spec_parse_status("exited"@) == Some(ContainerStatus::Exited));
        },
        ContainerStatus::Removing => {
            assert(spec_parse_status("removing"@) == Some(ContainerStatus::Removing));
        },
        ContainerStatus::Dead => {
            assert(spec_parse_status("dead"@) == Some(ContainerStatus::Dead));
        },
    }
}

/// A string that parses successfully prints back to the identical string.
pub proof fn lemma_status_print_inverse(s: Seq<char>)
    ensures
        spec_parse_status(s) matches Some(c) ==> c.spec_str() == s,
{
}

/// Accumulated, not-yet-submitted configuration for one container. Every
/// field is optional; unset means "use the engine default". Builder-style
/// setters replace a field wholesale.
#[derive(Debug)]
pub struct ContainerOptions {
    pub name: Option<String>,
    pub env: Option<Vec<String>>,
    pub cmd: Option<Vec<String>>,
    pub binds: Option<Vec<String>>,
    pub extra_hosts: Option<Vec<String>>,
    pub runtime: Option<String>,
    pub port_bindings: Option<Vec<PortMapEntry>>,
    pub restart_policy: Option<RestartPolicy>,
    pub config_override: Option<CreateConfig>,
}

impl ContainerOptions {
    /// Options with every field unset.
    pub fn empty() -> (r: ContainerOptions)
        ensures
            r.name is None,
            r.env is None,
            r.cmd is None,
            r.binds is None,
            r.extra_hosts is None,
            r.runtime is None,
            r.port_bindings is None,
            r.restart_policy is None,
            r.config_override is None,
    {
        ContainerOptions {
            name: None,
            env: None,
            cmd: None,
            binds: None,
            extra_hosts: None,
            runtime: None,
            port_bindings: None,
            restart_policy: None,
            config_override: None,
        }
    }
}

/// The request a creation submits to the engine: an optional container name
/// and the composed creation payload.
#[derive(Debug)]
pub struct CreateRequest {
    pub name: Option<String>,
    pub config: CreateConfig,
}

/// What starting a container requires of the caller: a container not yet
/// created must be created first (with the given request) before the start
/// call is issued for the identifier the engine returns; a created one is
/// started directly by its identifier.
#[derive(Debug)]
pub enum StartPlan {
    /// Submit this creation request, record the returned identifier, then
    /// issue the start call for it.
    CreateFirst(CreateRequest),
    /// Issue the start call for this identifier.
    StartOnly(String),
}

/// A container: identity and desired configuration for one workload
/// instance. The identifier is `None` exactly as long as no creation has
/// succeeded and the value was not reconstructed from an existing
/// identifier.
#[derive(Debug)]
pub struct Container {
    pub id: Option<String>,
    pub name: Option<String>,
    pub image: String,
    pub options: ContainerOptions,
}

impl Container {
    /// Create a new `Container` for the given image reference. The result
    /// has no identifier and no options set.
    pub fn new(image: String) -> (r: Container)
        ensures
            r.id is None,
            r.name is None,
            r.image == image,
            r.options.name is None,
            r.options.env is None,
            r.options.cmd is None,
            r.options.binds is None,
            r.options.extra_hosts is None,
            r.options.runtime is None,
            r.options.port_bindings is None,
            r.options.restart_policy is None,
            r.options.config_override is None,
    {
        Container { id: None, name: None, image, options: ContainerOptions::empty() }
    }

    /// Set the environment variables for the container, replacing any
    /// previously set list wholesale.
    pub fn env(self, env: Vec<String>) -> (r: Container)
        ensures
            r == (Container {
                options: ContainerOptions { env: Some(env), ..self.options },
                ..self
            }),
    {
        Container { options: ContainerOptions { env: Some(env), ..self.options }, ..self }
    }

    /// Set the command to run, replacing any previously set command
    /// wholesale.
    pub fn cmd(self, cmd: Vec<String>) -> (r: Container)
        ensures
            r == (Container {
                options: ContainerOptions { cmd: Some(cmd), ..self.options },
                ..self
            }),
    {
        Container { options: ContainerOptions { cmd: Some(cmd), ..self.options }, ..self }
    }

    /// Set the container's name.
    pub fn with_name(self, name: String) -> (r: Container)
        ensures
            r.name == Some(name),
            r.options.name == Some(name),
            r.id == self.id,
            r.image == self.image,
            r.options == (ContainerOptions { name: Some(name), ..self.options }),
    {
        let name2 = name.clone();
        Container {
            name: Some(name2),
            options: ContainerOptions { name: Some(name), ..self.options },
            ..self
        }
    }

    /// Set the list of volume binds, in `host:container[:mode]` form,
    /// replacing any previously set list wholesale.
    pub fn binds(self, binds: Vec<String>) -> (r: Container)
        ensures
            r == (Container {
                options: ContainerOptions { binds: Some(binds), ..self.options },
                ..self
            }),
    {
        Container { options: ContainerOptions { binds: Some(binds), ..self.options }, ..self }
    }

    /// Set extra host-name-to-IP entries (`"hostname:IP"` each), replacing
    /// any previously set list wholesale.
    pub fn extra_hosts(self, hosts: Vec<String>) -> (r: Container)
        ensures
            r == (Container {
                options: ContainerOptions { extra_hosts: Some(hosts), ..self.options },
                ..self
            }),
    {
        Container {
            options: ContainerOptions { extra_hosts: Some(hosts), ..self.options },
            ..self
        }
    }

    /// Set the mapping of container ports to host ports, replacing any
    /// previously set mapping wholesale.
    pub fn port_bindings(self, port_bindings: Vec<PortMapEntry>) -> (r: Container)
        ensures
            r == (Container {
                options: ContainerOptions {
                    port_bindings: Some(port_bindings),
                    ..self.options
                },
                ..self
            }),
    {
        Container {
            options: ContainerOptions { port_bindings: Some(port_bindings), ..self.options },
            ..self
        }
    }

    /// Set the runtime to use for this container.
    pub fn runtime(self, runtime: String) -> (r: Container)
        ensures
            r == (Container {
                options: ContainerOptions { runtime: Some(runtime), ..self.options },
                ..self
            }),
    {
        Container { options: ContainerOptions { runtime: Some(runtime), ..self.options }, ..self }
    }

    /// Set the container's restart policy.
    pub fn restart_policy(self, restart_policy: RestartPolicy) -> (r: Container)
        ensures
            r == (Container {
                options: ContainerOptions {
                    restart_policy: Some(restart_policy),
                    ..self.options
                },
                ..self
            }),
    {
        Container {
            options: ContainerOptions { restart_policy: Some(restart_policy), ..self.options },
            ..self
        }
    }

    /// Apply a configuration override: fields it sets will replace the
    /// generated base payload's fields wholesale during composition.
    pub fn config_override(self, config: CreateConfig) -> (r: Container)
        ensures
            r == (Container {
                options: ContainerOptions { config_override: Some(config), ..self.options },
                ..self
            }),
    {
        Container {
            options: ContainerOptions { config_override: Some(config), ..self.options },
            ..self
        }
    }

    /// The container identifier, present exactly when a creation has
    /// succeeded or the value was reconstructed from an existing
    /// identifier.
    pub fn id(&self) -> (r: Option<&str>)
        ensures
            r is Some <==> self.id is Some,
            r matches Some(s) ==> s@ == self.id.unwrap()@,
    {
        match &self.id {
            Some(s) => Some(s.as_str()),
            None => None,
        }
    }

    /// The container name, if one was set or learned from the engine.
    pub fn name(&self) -> (r: Option<&str>)
        ensures
            r is Some <==> self.name is Some,
            r matches Some(s) ==> s@ == self.name.unwrap()@,
    {
        match &self.name {
            Some(s) => Some(s.as_str()),
            None => None,
        }
    }

    /// The base creation payload generated from the accumulated options:
    /// image, command, environment, standard-output attachment, and the
    /// host-level bind, extra-host, port-binding, restart-policy and
    /// runtime settings.
    pub open spec fn base_payload(&self) -> CreateConfigV {
        CreateConfigV {
            image: Some(self.image),
            cmd: opt_strs(self.options.cmd),
            env: opt_strs(self.options.env),
            attach_stdout: Some(true),
            host_config: Some(
                HostSettingsV {
                    binds: opt_strs(self.options.binds),
                    extra_hosts: opt_strs(self.options.extra_hosts),
                    port_bindings: opt_ports(self.options.port_bindings),
                    restart_policy: self.options.restart_policy,
                    runtime: self.options.runtime,
                    ..host_unset()
                },
            ),
            ..config_unset()
        }
    }

    /// The payload a creation of this container submits: the base payload
    /// composed with the configuration override, if one was applied.
    pub open spec fn create_payload(&self) -> CreateConfigV {
        composed(self.base_payload(), opt_cfg(self.options.config_override))
    }

    /// Build the creation request to submit to the engine. Requires the
    /// unconstructed state: creating a container that already has an
    /// identifier is a caller error. On engine success the caller records
    /// the returned identifier with [`Container::record_created`].
    pub fn create(&self) -> (r: CreateRequest)
        requires
            self.id is None,
        ensures
            r.name == self.options.name,
            r.config@ == self.create_payload(),
    {
        let host = crate::compose::HostSettings {
            binds: dup_opt_strings(&self.options.binds),
            extra_hosts: dup_opt_strings(&self.options.extra_hosts),
            port_bindings: crate::compose::dup_opt_ports(&self.options.port_bindings),
            restart_policy: crate::compose::dup_opt_restart(&self.options.restart_policy),
            runtime: dup_opt_string(&self.options.runtime),
            ..crate::compose::HostSettings::empty()
        };
        let base = CreateConfig {
            image: Some(self.image.clone()),
            cmd: dup_opt_strings(&self.options.cmd),
            env: dup_opt_strings(&self.options.env),
            attach_stdout: Some(true),
            host_config: Some(host),
            ..CreateConfig::empty()
        };
        proof {
            assert(base@ =~= self.base_payload());
        }
        let overlay = match &self.options.config_override {
            Some(c) => Some(c.duplicate()),
            None => None,
        };
        proof {
            assert(opt_cfg(overlay) == opt_cfg(self.options.config_override));
        }
        let config = compose(base, overlay);
        CreateRequest { name: dup_opt_string(&self.options.name), config }
    }

    /// Record the identifier the engine returned for a successful creation,
    /// transitioning to the created state. The identifier is set exactly
    /// once: recording over an existing one is a caller error.
    pub fn record_created(&mut self, id: String)
        requires
            old(self).id is None,
        ensures
            final(self).id == Some(id),
            final(self).name == old(self).name,
            final(self).image == old(self).image,
            final(self).options == old(self).options,
    {
        self.id = Some(id);
    }

    /// Plan a start: a container without an identifier is created first
    /// (transparently) with its creation request; one with an identifier is
    /// started directly.
    pub fn start(&self) -> (r: StartPlan)
        ensures
            self.id is None ==> (r matches StartPlan::CreateFirst(req) && req.name
                == self.options.name && req.config@ == self.create_payload()),
            self.id is Some ==> (r matches StartPlan::StartOnly(s) && s == self.id.unwrap()),
    {
        match &self.id {
            None => StartPlan::CreateFirst(self.create()),
            Some(s) => StartPlan::StartOnly(s.clone()),
        }
    }

    /// The identifier a status query must list: `None` when the container
    /// was never created -- the caller then reports no status without any
    /// engine call. The listing's reported state string is interpreted with
    /// [`Container::status_from_state`].
    pub fn status(&self) -> (r: Option<&String>)
        ensures
            r is Some <==> self.id is Some,
            r matches Some(s) ==> *s == self.id.unwrap(),
    {
        self.id.as_ref()
    }

    /// Interpret the state string the engine's listing reported for a
    /// created container: `None` (no matching record, or one without a
    /// state) is a not-found error; an unrecognized state string is a
    /// bad-status error; never a silent default.
    pub fn status_from_state(state: Option<&String>) -> (r: Result<ContainerStatus, Error>)
        ensures
            state is None ==> r == Err::<ContainerStatus, Error>(Error::ContainerNotFound),
            state matches Some(s) ==> match spec_parse_status(s@) {
                Some(c) => r == Ok::<ContainerStatus, Error>(c),
                None => r matches Err(Error::BadContainerStatus(m)) && m@ == s@,
            },
    {
        match state {
            None => Err(Error::ContainerNotFound),
            Some(s) => ContainerStatus::parse(s.as_str()),
        }
    }

    /// The identifier a stop must address: `None` when the container was
    /// never created -- stopping then succeeds without any engine call.
    pub fn stop(&self) -> (r: Option<&String>)
        ensures
            r is Some <==> self.id is Some,
            r matches Some(s) ==> *s == self.id.unwrap(),
    {
        self.id.as_ref()
    }

    /// The identifier a removal must address: `None` when the container was
    /// never created -- removal then succeeds without any engine call.
    /// Consumes the container: no further lifecycle operation is possible
    /// on it.
    pub fn remove(self) -> (r: Option<String>)
        ensures
            r == self.id,
    {
        self.id
    }

    /// The identifier a wait must subscribe to: `None` when the container
    /// was never created -- waiting then succeeds without any engine call.
    /// The received stream messages are resolved with
    /// [`crate::wait::resolve`] or stepwise with [`crate::wait::wait_step`].
    pub fn wait(&self) -> (r: Option<&String>)
        ensures
            r is Some <==> self.id is Some,
            r matches Some(s) ==> *s == self.id.unwrap(),
    {
        self.id.as_ref()
    }

    /// The identifier a log subscription must address: `None` when the
    /// container was never created -- there are then no logs and no engine
    /// call is issued.
    pub fn logs(&self) -> (r: Option<&String>)
        ensures
            r is Some <==> self.id is Some,
            r matches Some(s) ==> *s == self.id.unwrap(),
    {
        self.id.as_ref()
    }
}

/// One mount record of an engine inspect reply, reduced to what
/// reconstruction reads: whether it is a bind mount, and its source,
/// destination and mode.
#[derive(Debug)]
pub struct MountRecord {
    pub is_bind: bool,
    pub source: Option<String>,
    pub destination: Option<String>,
    pub mode: Option<String>,
}

/// Whether a mount record contributes a bind line: it must be a bind mount
/// with both a source and a destination.
pub open spec fn mount_taken(m: MountRecord) -> bool {
    m.is_bind && m.source is Some && m.destination is Some
}

/// The `host:container[:mode]` line a contributing mount record prints as.
pub open spec fn bind_view(m: MountRecord) -> Seq<char> {
    m.source.unwrap()@ + seq![':'] + m.destination.unwrap()@ + (match m.mode {
        Some(md) => seq![':'] + md@,
        None => Seq::<char>::empty(),
    })
}

/// The bind lines of a mount list, in order, one per contributing record.
pub open spec fn binds_view(ms: Seq<MountRecord>) -> Seq<Seq<char>>
    decreases ms.len(),
{
    if ms.len() == 0 {
        Seq::empty()
    } else {
        let rest = binds_view(ms.drop_last());
        if mount_taken(ms.last()) {
            rest.push(bind_view(ms.last()))
        } else {
            rest
        }
    }
}

/// Format one bind line from a mount's source, destination and optional
/// mode.
fn build_bind(source: &String, destination: &String, mode: &Option<String>) -> (r: String)
    ensures
        r@ == source@ + seq![':'] + destination@ + (match *mode {
            Some(md) => seq![':'] + md@,
            None => Seq::<char>::empty(),
        }),
{
    proof {
        reveal_strlit(":");
        assert(":"@ =~= seq![':']);
    }
    let mut s = source.clone();
    s.append(":");
    s.append(destination.as_str());
    match mode {
        Some(md) => {
            s.append(":");
            s.append(md.as_str());
            proof {
                assert(s@ =~= source@ + seq![':'] + destination@ + (seq![':'] + md@));
            }
        },
        None => {
            proof {
                assert(s@ =~= source@ + seq![':'] + destination@ + Seq::<char>::empty());
            }
        },
    }
    s
}

/// The fields of an engine inspect reply that reconstruction reads. The
/// image is the one named by the reply's configuration section; absence of
/// that section is represented by an absent image.
#[derive(Debug)]
pub struct InspectData {
    pub id: Option<String>,
    pub name: Option<String>,
    pub image: Option<String>,
    pub env: Option<Vec<String>>,
    pub cmd: Option<Vec<String>>,
    pub mounts: Option<Vec<MountRecord>>,
    pub extra_hosts: Option<Vec<String>>,
    pub runtime: Option<String>,
    pub restart_policy: Option<RestartPolicy>,
    pub port_bindings: Option<Vec<PortMapEntry>>,
}

/// Reconstruct a container from the engine's inspect reply for an existing
/// identifier. A reply without an identifier or without an image is a
/// not-found error. On success the container carries the reply's identity
/// and configuration; its bind list is rebuilt from the reply's bind
/// mounts, in order, as `host:container[:mode]` lines; no configuration
/// override is set.
pub fn from_inspect(data: InspectData) -> (r: Result<Container, Error>)
    ensures
        data.id is None || data.image is None ==> r == Err::<Container, Error>(
            Error::ContainerNotFound,
        ),
        data.id is Some && data.image is Some ==> (r matches Ok(c) && c.id == data.id && c.name
            == data.name && c.image == data.image.unwrap() && c.options.name == data.name
            && c.options.env == data.env && c.options.cmd == data.cmd && c.options.extra_hosts
            == data.extra_hosts && c.options.runtime == data.runtime && c.options.port_bindings
            == data.port_bindings && c.options.restart_policy == data.restart_policy
            && c.options.config_override is None && (match data.mounts {
            None => c.options.binds is None,
            Some(v) => c.options.binds matches Some(b) && b.deep_view() == binds_view(v@),
        })),
{
    let id = match data.id {
        Some(i) => i,
        None => {
            return Err(Error::ContainerNotFound);
        },
    };
    let image = match data.image {
        Some(im) => im,
        None => {
            return Err(Error::ContainerNotFound);
        },
    };
    let binds: Option<Vec<String>> = match &data.mounts {
        None => None,
        Some(v) => {
            let mut acc: Vec<String> = Vec::new();
            let mut i: usize = 0;
            proof {
                assert(binds_view(v@.subrange(0, 0)) =~= Seq::<Seq<char>>::empty());
                assert(acc.deep_view() =~= Seq::<Seq<char>>::empty());
            }
            while i < v.len()
                invariant
                    0 <= i <= v@.len(),
                    acc.deep_view() == binds_view(v@.subrange(0, i as int)),
                decreases v@.len() - i,
            {
                let ghost prefix = v@.subrange(0, i as int);
                let ghost prefix1 = v@.subrange(0, i as int + 1);
                proof {
                    assert(prefix1.drop_last() =~= prefix);
                    assert(prefix1.last() == v@[i as int]);
                }
                let m = &v[i];
                if m.is_bind {
                    match (&m.source, &m.destination) {
                        (Some(src), Some(dst)) => {
                            let line = build_bind(src, dst, &m.mode);
                            let ghost old_acc = acc.deep_view();
                            acc.push(line);
                            proof {
                                assert(acc.deep_view() =~= old_acc.push(line@));
                                assert(line@ == bind_view(v@[i as int]));
                            }
                        },
                        _ => {
                            proof {
                                assert(!mount_taken(v@[i as int]));
                            }
                        },
                    }
                } else {
                    proof {
                        assert(!mount_taken(v@[i as int]));
                    }
                }
                i += 1;
            }
            proof {
                assert(v@.subrange(0, v@.len() as int) =~= v@);
            }
            Some(acc)
        },
    };
    let name2 = dup_opt_string(&data.name);
    Ok(
        Container {
            id: Some(id),
            name: data.name,
            image,
            options: ContainerOptions {
                name: name2,
                env: data.env,
                cmd: data.cmd,
                binds,
                extra_hosts: data.extra_hosts,
                runtime: data.runtime,
                port_bindings: data.port_bindings,
                restart_policy: data.restart_policy,
                config_override: None,
            },
        },
    )
}

} // verus!
