//! Host requirement declarations, resource-limit string parsing, and the
//! precondition gate consulted before container creation.

use vstd::prelude::*;
use vstd::string::StrSliceExecFns;
use vstd::string::StringExecFns;

use crate::compose::HostSettings;
use crate::compose::HostSettingsV;
use crate::compose::dup_opt_string;
use crate::compose::host_unset;
use crate::container::Error;

verus! {

/// Whether `c` is a decimal digit.
pub open spec fn is_digit(c: char) -> bool {
    48 <= c as int <= 57
}

/// The value of the decimal digit `c`.
pub open spec fn digit_val(c: char) -> nat {
    (c as int - 48) as nat
}

/// Whether every character of `s` is a decimal digit.
pub open spec fn all_digits(s: Seq<char>) -> bool {
    forall|i: int| 0 <= i < s.len() ==> is_digit(s[i])
}

/// The number denoted by the decimal digit string `s`.
pub open spec fn digits_val(s: Seq<char>) -> nat
    decreases s.len(),
{
    if s.len() == 0 {
        0
    } else {
        digits_val(s.drop_last()) * 10 + digit_val(s.last())
    }
}

/// The byte multiplier a unit suffix stands for: binary (1024-based)
/// multipliers for `K`, `M` and `G`, case-insensitive.
pub open spec fn unit_multiplier(c: char) -> Option<u64> {
    if c == 'K' || c == 'k' {
        Some(1024u64)
    } else if c == 'M' || c == 'm' {
        Some(1048576u64)
    } else if c == 'G' || c == 'g' {
        Some(1073741824u64)
    } else {
        None
    }
}

/// The outcome of parsing a resource-limit string: the exact byte count, or
/// the message of the `InvalidResourceLimit` error. The numeric part is
/// checked first, as its error takes precedence over a bad unit suffix.
pub open spec fn spec_parse_memory(s: Seq<char>) -> Result<u64, Seq<char>> {
    if s.len() == 0 {
        Err("Invalid memory value: "@ + s)
    } else {
        let num = s.subrange(0, s.len() - 1);
        let unit = s[s.len() - 1];
        if num.len() == 0 || !all_digits(num) || digits_val(num) > u64::MAX {
            Err("Invalid memory value: "@ + s)
        } else if unit_multiplier(unit) is None {
            Err("Invalid memory unit: "@ + s.subrange(s.len() - 1, s.len() as int))
        } else if digits_val(num) * unit_multiplier(unit).unwrap() > u64::MAX {
            Err("Invalid memory value: "@ + s)
        } else {
            Ok((digits_val(num) * unit_multiplier(unit).unwrap()) as u64)
        }
    }
}

/// A digit string's value only grows as it is extended to the right.
proof fn lemma_digits_val_prefix_le(s: Seq<char>, i: int)
    requires
        0 <= i <= s.len(),
    ensures
        digits_val(s.subrange(0, i)) <= digits_val(s),
    decreases s.len(),
{
    if i == s.len() {
        assert(s.subrange(0, i) =~= s);
    } else {
        let t = s.drop_last();
        lemma_digits_val_prefix_le(t, i);
        assert(t.subrange(0, i) =~= s.subrange(0, i));
    }
}

/// Extending a digit string by one digit multiplies its value by ten and
/// adds the new digit.
proof fn lemma_digits_val_step(s: Seq<char>, i: int)
    requires
        0 <= i < s.len(),
    ensures
        digits_val(s.subrange(0, i + 1)) == digits_val(s.subrange(0, i)) * 10 + digit_val(s[i]),
{
    let p = s.subrange(0, i + 1);
    assert(p.drop_last() =~= s.subrange(0, i));
    assert(p.last() == s[i]);
}

/// Parse a memory string such as `"1G"` or `"512M"` into an exact byte
/// count, using binary (1024-based) multipliers.
///
/// A string lacking a recognized single-letter unit suffix (`K`, `M`, `G`,
/// case-insensitive), or whose numeric part is not an integer that fits --
/// multiplier applied -- in a `u64`, is rejected with an
/// `InvalidResourceLimit` error naming the offending token.
pub fn parse_memory_string(memory: &str) -> (r: Result<u64, Error>)
    ensures
        match spec_parse_memory(memory@) {
            Ok(v) => r == Ok::<u64, Error>(v),
            Err(msg) => r matches Err(Error::InvalidResourceLimit(m)) && m@ == msg,
        },
{
    let n = memory.unicode_len();
    if n <= 1 {
        return Err(Error::InvalidResourceLimit(
            String::from_str("Invalid memory value: ").concat(memory),
        ));
    }
    let ghost num = memory@.subrange(0, memory@.len() - 1);
    let mut val: u64 = 0;
    let mut i: usize = 0;
    while i < n - 1
        invariant
            2 <= n == memory@.len(),
            0 <= i <= n - 1,
            all_digits(memory@.subrange(0, i as int)),
            val == digits_val(memory@.subrange(0, i as int)),
            num == memory@.subrange(0, memory@.len() - 1),
        decreases n - 1 - i,
    {
        let c = memory.get_char(i);
        let cu = c as u32;
        if cu < 48 || cu > 57 {
            proof {
                assert(!is_digit(num[i as int]));
            }
            return Err(Error::InvalidResourceLimit(
                String::from_str("Invalid memory value: ").concat(memory),
            ));
        }
        let d = (cu - 48) as u64;
        proof {
            lemma_digits_val_step(memory@, i as int);
        }
        if val > (u64::MAX - d) / 10 {
            proof {
                assert(val * 10 + d > u64::MAX) by (nonlinear_arith)
                    requires
                        val > (u64::MAX - d) / 10,
                        d <= 9,
                ;
                lemma_digits_val_prefix_le(num, i + 1);
                assert(num.subrange(0, i + 1) =~= memory@.subrange(0, i + 1));
            }
            return Err(Error::InvalidResourceLimit(
                String::from_str("Invalid memory value: ").concat(memory),
            ));
        }
        proof {
            assert(val * 10 + d <= u64::MAX) by (nonlinear_arith)
                requires
                    val <= (u64::MAX - d) / 10,
                    d <= 9,
            ;
        }
        val = val * 10 + d;
        i += 1;
    }
    proof {
        assert(memory@.subrange(0, i as int) =~= num);
    }
    let u = memory.get_char(n - 1);
    let mult: u64 = if u == 'K' || u == 'k' {
        1024
    } else if u == 'M' || u == 'm' {
        1048576
    } else if u == 'G' || u == 'g' {
        1073741824
    } else {
        return Err(Error::InvalidResourceLimit(
            String::from_str("Invalid memory unit: ").concat(memory.substring_char(n - 1, n)),
        ));
    };
    if val > u64::MAX / mult {
        proof {
            assert(val * mult > u64::MAX) by (nonlinear_arith)
                requires
                    val > u64::MAX / mult,
                    mult >= 1,
            ;
        }
        return Err(Error::InvalidResourceLimit(
            String::from_str("Invalid memory value: ").concat(memory),
        ));
    }
    proof {
        assert(val * mult <= u64::MAX) by (nonlinear_arith)
            requires
                val <= u64::MAX / mult,
                mult >= 1,
        ;
    }
    Ok(val * mult)
}

/// The character a decimal digit prints as.
pub open spec fn digit_char(d: nat) -> char {
    if d == 0 {
        '0'
    } else if d == 1 {
        '1'
    } else if d == 2 {
        '2'
    } else if d == 3 {
        '3'
    } else if d == 4 {
        '4'
    } else if d == 5 {
        '5'
    } else if d == 6 {
        '6'
    } else if d == 7 {
        '7'
    } else if d == 8 {
        '8'
    } else {
        '9'
    }
}

/// The decimal digit string a number prints as, without leading zeros.
pub open spec fn dec_view(n: nat) -> Seq<char>
    decreases n,
{
    if n < 10 {
        seq![digit_char(n)]
    } else {
        dec_view(n / 10).push(digit_char(n % 10))
    }
}

/// The one-character string for a decimal digit.
fn digit_str(d: u64) -> (r: &'static str)
    requires
        d < 10,
    ensures
        r@ == seq![digit_char(d as nat)],
{
    proof {
        reveal_strlit("0");
        reveal_strlit("1");
        reveal_strlit("2");
        reveal_strlit("3");
        reveal_strlit("4");
        reveal_strlit("5");
        reveal_strlit("6");
        reveal_strlit("7");
        reveal_strlit("8");
        reveal_strlit("9");
        assert("0"@ =~= seq!['0']);
        assert("1"@ =~= seq!['1']);
        assert("2"@ =~= seq!['2']);
        assert("3"@ =~= seq!['3']);
        assert("4"@ =~= seq!['4']);
        assert("5"@ =~= seq!['5']);
        assert("6"@ =~= seq!['6']);
        assert("7"@ =~= seq!['7']);
        assert("8"@ =~= seq!['8']);
        assert("9"@ =~= seq!['9']);
    }
    if d == 0 {
        "0"
    } else if d == 1 {
        "1"
    } else if d == 2 {
        "2"
    } else if d == 3 {
        "3"
    } else if d == 4 {
        "4"
    } else if d == 5 {
        "5"
    } else if d == 6 {
        "6"
    } else if d == 7 {
        "7"
    } else if d == 8 {
        "8"
    } else {
        "9"
    }
}

/// Print a number as its decimal digit string.
pub fn u64_to_string(n: u64) -> (r: String)
    ensures
        r@ == dec_view(n as nat),
    decreases n,
{
    if n < 10 {
        digit_str(n).to_owned()
    } else {
        let q = n / 10;
        let d = n % 10;
        let s = u64_to_string(q);
        let r = s.concat(digit_str(d));
        proof {
            assert(r@ =~= dec_view((n / 10) as nat).push(digit_char((n % 10) as nat)));
        }
        r
    }
}

/// The message reported when the host's memory falls short.
pub open spec fn msg_insufficient_memory(available_gb: nat, required_gb: nat) -> Seq<char> {
    "Insufficient memory: "@ + dec_view(available_gb) + " GB available, "@ + dec_view(required_gb)
        + " GB required"@
}

/// The message reported when the configured memory limit exceeds the
/// host's memory.
pub open spec fn msg_limit_exceeds(limit: Seq<char>, total_gb: nat) -> Seq<char> {
    "Memory limit "@ + limit + " exceeds available memory "@ + dec_view(total_gb) + "GB"@
}

/// The message reported when the disk holding the data directory falls
/// short.
pub open spec fn msg_insufficient_disk(available_gb: nat, required_gb: nat) -> Seq<char> {
    "Insufficient disk space: "@ + dec_view(available_gb) + " GB available, "@ + dec_view(
        required_gb,
    ) + " GB required"@
}

/// The message reported when a required port is taken.
pub open spec fn msg_port_in_use(port: nat) -> Seq<char> {
    "Port "@ + dec_view(port) + " is already in use"@
}

/// How the precondition gate fails: a validation failure naming the
/// deficient resource, or a resource-limit string that does not parse.
pub enum CheckFailure {
    Validation(Seq<char>),
    Limit(Seq<char>),
}

/// The limit check: an unparseable limit string fails with its parse
/// message; a limit above the host's memory (taken in whole gigabytes)
/// fails validation.
pub open spec fn limit_failure(limit: Option<String>, total_gb: u64) -> Option<CheckFailure> {
    match limit {
        None => None,
        Some(l) => match spec_parse_memory(l@) {
            Err(m) => Some(CheckFailure::Limit(m)),
            Ok(bytes) => if bytes > total_gb * 1073741824 {
                Some(CheckFailure::Validation(msg_limit_exceeds(l@, total_gb as nat)))
            } else {
                None
            },
        },
    }
}

/// The disk check: skipped when no disk matched the data directory;
/// otherwise the available space, in whole gigabytes, must reach the
/// minimum.
pub open spec fn disk_failure(min_disk_gb: u64, disk_available: Option<u64>) -> Option<
    CheckFailure,
> {
    match disk_available {
        None => None,
        Some(avail) => {
            let avail_gb = avail / 1073741824;
            if avail_gb < min_disk_gb {
                Some(
                    CheckFailure::Validation(
                        msg_insufficient_disk(avail_gb as nat, min_disk_gb as nat),
                    ),
                )
            } else {
                None
            }
        },
    }
}

/// The port check: the first required port that is not free fails
/// validation.
pub open spec fn ports_failure(ports: Seq<u16>, free: Seq<bool>) -> Option<CheckFailure>
    decreases ports.len(),
{
    if ports.len() == 0 {
        None
    } else if !free[0] {
        Some(CheckFailure::Validation(msg_port_in_use(ports[0] as nat)))
    } else {
        ports_failure(ports.drop_first(), free.drop_first())
    }
}

/// The outcome of the precondition gate, checks in order: total memory,
/// the memory limit, disk space, then each required port. The first
/// failure decides.
pub open spec fn spec_check(
    req: SystemRequirements,
    total_memory: u64,
    disk_available: Option<u64>,
    ports_free: Seq<bool>,
) -> Option<CheckFailure> {
    let total_gb = total_memory / 1073741824;
    if total_gb < req.min_memory_gb {
        Some(
            CheckFailure::Validation(
                msg_insufficient_memory(total_gb as nat, req.min_memory_gb as nat),
            ),
        )
    } else {
        match limit_failure(req.memory_limit, total_gb) {
            Some(f) => Some(f),
            None => match disk_failure(req.min_disk_gb, disk_available) {
                Some(f) => Some(f),
                None => ports_failure(req.required_ports@, ports_free),
            },
        }
    }
}

/// Minimum host resources a deployment declares, with optional resource
/// limits for the container itself. Consulted only as a precondition gate
/// before creation. The CPU limit is held in billionths of a CPU, as the
/// engine takes it.
#[derive(Debug)]
pub struct SystemRequirements {
    pub min_memory_gb: u64,
    pub min_disk_gb: u64,
    pub min_bandwidth_mbps: u64,
    pub required_ports: Vec<u16>,
    pub data_directory: String,
    pub nano_cpus: Option<i64>,
    pub memory_limit: Option<String>,
    pub memory_swap: Option<String>,
    pub memory_reservation: Option<String>,
    pub cpu_shares: Option<i64>,
    pub cpuset_cpus: Option<String>,
}

/// The byte count a limit string contributes to the host settings: its
/// parsed value, or nothing when it is absent or does not parse.
pub open spec fn limit_bytes_of(o: Option<String>) -> Option<u64> {
    match o {
        None => None,
        Some(s) => match spec_parse_memory(s@) {
            Ok(v) => Some(v),
            Err(_) => None,
        },
    }
}

/// The parsed byte count of an optional limit string, if it parses.
fn parse_ok(o: &Option<String>) -> (r: Option<u64>)
    ensures
        r == limit_bytes_of(*o),
{
    match o {
        None => None,
        Some(s) => match parse_memory_string(s.as_str()) {
            Ok(v) => Some(v),
            Err(_) => None,
        },
    }
}

impl SystemRequirements {
    /// Check this host's probed resources against the requirements: total
    /// memory in bytes, the available space in bytes of the disk holding
    /// the data directory (absent when no disk matched), and for each
    /// required port, in order, whether it is free.
    ///
    /// Returns the first failure: a validation error naming the deficient
    /// resource, or the parse error of a bad memory-limit string.
    pub fn check(
        &self,
        total_memory: u64,
        disk_available: Option<u64>,
        ports_free: &Vec<bool>,
    ) -> (r: Result<(), Error>)
        requires
            ports_free@.len() == self.required_ports@.len(),
        ensures
            match spec_check(*self, total_memory, disk_available, ports_free@) {
                None => r == Ok::<(), Error>(()),
                Some(CheckFailure::Validation(m)) => r matches Err(Error::ValidationError(s))
                    && s@ == m,
                Some(CheckFailure::Limit(m)) => r matches Err(Error::InvalidResourceLimit(s))
                    && s@ == m,
            },
    {
        let total_gb: u64 = total_memory / 1073741824;
        if total_gb < self.min_memory_gb {
            let msg = String::from_str("Insufficient memory: ").concat(
                u64_to_string(total_gb).as_str(),
            ).concat(" GB available, ").concat(u64_to_string(self.min_memory_gb).as_str()).concat(
                " GB required",
            );
            return Err(Error::ValidationError(msg));
        }
        match &self.memory_limit {
            None => {},
            Some(limit) => {
                let limit_bytes = match parse_memory_string(limit.as_str()) {
                    Ok(v) => v,
                    Err(e) => {
                        return Err(e);
                    },
                };
                proof {
                    assert(total_gb * 1073741824 <= total_memory) by (nonlinear_arith)
                        requires
                            total_gb == total_memory / 1073741824,
                    ;
                }
                let total_bytes: u64 = total_gb * 1073741824;
                if limit_bytes > total_bytes {
                    let msg = String::from_str("Memory limit ").concat(limit.as_str()).concat(
                        " exceeds available memory ",
                    ).concat(u64_to_string(total_gb).as_str()).concat("GB");
                    return Err(Error::ValidationError(msg));
                }
            },
        }
        match disk_available {
            None => {},
            Some(avail) => {
                let avail_gb: u64 = avail / 1073741824;
                if avail_gb < self.min_disk_gb {
                    let msg = String::from_str("Insufficient disk space: ").concat(
                        u64_to_string(avail_gb).as_str(),
                    ).concat(" GB available, ").concat(
                        u64_to_string(self.min_disk_gb).as_str(),
                    ).concat(" GB required");
                    return Err(Error::ValidationError(msg));
                }
            },
        }
        let n = self.required_ports.len();
        let mut i: usize = 0;
        proof {
            assert(self.required_ports@.subrange(0, n as int) =~= self.required_ports@);
            assert(ports_free@.subrange(0, n as int) =~= ports_free@);
        }
        while i < n
            invariant
                0 <= i <= n == self.required_ports@.len(),
                ports_free@.len() == n,
                total_memory / 1073741824 >= self.min_memory_gb,
                limit_failure(self.memory_limit, total_memory / 1073741824) is None,
                disk_failure(self.min_disk_gb, disk_available) is None,
                ports_failure(self.required_ports@, ports_free@) == ports_failure(
                    self.required_ports@.subrange(i as int, n as int),
                    ports_free@.subrange(i as int, n as int),
                ),
            decreases n - i,
        {
            let ghost ports_rest = self.required_ports@.subrange(i as int, n as int);
            let ghost free_rest = ports_free@.subrange(i as int, n as int);
            proof {
                assert(ports_rest[0] == self.required_ports@[i as int]);
                assert(free_rest[0] == ports_free@[i as int]);
                assert(ports_rest.drop_first() =~= self.required_ports@.subrange(
                    i as int + 1,
                    n as int,
                ));
                assert(free_rest.drop_first() =~= ports_free@.subrange(i as int + 1, n as int));
            }
            if !ports_free[i] {
                let port: u16 = self.required_ports[i];
                let msg = String::from_str("Port ").concat(
                    u64_to_string(port as u64).as_str(),
                ).concat(" is already in use");
                return Err(Error::ValidationError(msg));
            }
            i += 1;
        }
        proof {
            assert(self.required_ports@.subrange(i as int, n as int) =~= Seq::<u16>::empty());
            assert(ports_free@.subrange(i as int, n as int) =~= Seq::<bool>::empty());
        }
        Ok(())
    }

    /// The host-level resource-limit settings these requirements ask of
    /// the engine: the parsed memory limit, swap and reservation byte
    /// counts (each omitted when absent or unparseable), CPU shares, the
    /// CPU pinning set, and the CPU limit in billionths. Everything else
    /// is left unset.
    pub fn to_host_config(&self) -> (r: HostSettings)
        ensures
            r@ == (HostSettingsV {
                memory: limit_bytes_of(self.memory_limit),
                memory_swap: limit_bytes_of(self.memory_swap),
                memory_reservation: limit_bytes_of(self.memory_reservation),
                cpu_shares: self.cpu_shares,
                cpuset_cpus: self.cpuset_cpus,
                nano_cpus: self.nano_cpus,
                ..host_unset()
            }),
    {
        let r = HostSettings {
            memory: parse_ok(&self.memory_limit),
            memory_swap: parse_ok(&self.memory_swap),
            memory_reservation: parse_ok(&self.memory_reservation),
            cpu_shares: self.cpu_shares,
            cpuset_cpus: dup_opt_string(&self.cpuset_cpus),
            nano_cpus: self.nano_cpus,
            ..HostSettings::empty()
        };
        proof {
            assert(r@ =~= (HostSettingsV {
                memory: limit_bytes_of(self.memory_limit),
                memory_swap: limit_bytes_of(self.memory_swap),
                memory_reservation: limit_bytes_of(self.memory_reservation),
                cpu_shares: self.cpu_shares,
                cpuset_cpus: self.cpuset_cpus,
                nano_cpus: self.nano_cpus,
                ..host_unset()
            }));
        }
        r
    }
}

} // verus!
