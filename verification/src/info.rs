//! The information record and its field resolvers.
//!
//! Each resolver is a pure function from plain input values (environment
//! variable values, pseudo-file contents, snapshot facts) to the text of one
//! field of the banner. Resolvers for essential fields return a `Result` and
//! report exactly why they failed; the others substitute a documented
//! fallback. [`Info::new`] assembles the full record and propagates the
//! first failure in the fixed resolution order.

use vstd::prelude::*;
use vstd::string::StrSliceExecFns;
use vstd::string::StringExecFns;

use crate::numfmt::dec_digits;
use crate::numfmt::parse_u32;
use crate::numfmt::parses_as_u32;
use crate::numfmt::u32_numeral_val;
use crate::numfmt::u64_to_string;
use crate::text::after_char;
use crate::text::before_char;
use crate::text::find_char;
use crate::text::last_path_segment;
use crate::text::last_segment;
use crate::text::spec_trim;
use crate::text::trim_str;

verus! {

/// One point-in-time read of the facts a system-information query yields.
/// A field is `None` where the underlying query could not answer.
pub struct Snapshot {
    /// Long OS version string.
    pub os: Option<String>,
    /// Kernel version string.
    pub kernel: Option<String>,
    /// Host name.
    pub host_name: Option<String>,
    /// Brand string of the aggregate CPU entry.
    pub cpu_brand: String,
    /// Uptime in whole seconds.
    pub uptime_seconds: u64,
    /// Used memory in bytes.
    pub used_memory: u64,
    /// Total memory in bytes.
    pub total_memory: u64,
}

/// The values read from the environment and from the pseudo-files, each
/// `None` where the variable is unset or the file unreadable.
pub struct EnvInput {
    /// Value of the `USER` environment variable.
    pub user: Option<String>,
    /// Value of the `SHELL` environment variable.
    pub shell: Option<String>,
    /// Value of the `XDG_CURRENT_DESKTOP` environment variable.
    pub de: Option<String>,
    /// Content of the DMI product-name pseudo-file.
    pub product_name: Option<String>,
    /// Content of the DMI product-version pseudo-file.
    pub product_version: Option<String>,
    /// Content of the framebuffer `virtual_size` pseudo-file.
    pub resolution: Option<String>,
}

/// Why building the record failed. Exactly the essential fields can fail;
/// the others fall back to a placeholder.
#[derive(Clone, Copy, Debug, PartialEq, Eq, Structural)]
pub enum InfoError {
    /// The `SHELL` environment variable is unset.
    ShellUnset,
    /// The `XDG_CURRENT_DESKTOP` environment variable is unset.
    DeUnset,
    /// The framebuffer size pseudo-file could not be read.
    ResolutionUnreadable,
    /// The framebuffer size content is not two comma-separated integers.
    ResolutionMalformed,
}

/// The fully resolved record: every banner field as plain text.
pub struct Info {
    /// Title line content, `<user>@<host>`.
    pub current_user_host: String,
    /// Long OS version, or the unknown placeholder.
    pub os: String,
    /// Product name and version, trimmed and space-joined.
    pub host: String,
    /// Kernel version, or the unknown placeholder.
    pub kernel: String,
    /// Uptime decomposed into days, hours and minutes.
    pub uptime: String,
    /// Bare shell name.
    pub shell: String,
    /// Display resolution, `<w>x<h>`.
    pub resolution: String,
    /// Desktop environment name.
    pub de: String,
    /// CPU brand string.
    pub cpu: String,
    /// Used and total memory in MiB.
    pub memory: String,
}

/// The view of an optional string, with the unknown placeholder for `None`.
pub open spec fn or_unknown(o: Option<String>) -> Seq<char> {
    match o {
        Some(s) => s@,
        None => "<unknown>"@,
    }
}

/// The view of an optional string, empty for `None`.
pub open spec fn or_empty(o: Option<String>) -> Seq<char> {
    match o {
        Some(s) => s@,
        None => Seq::empty(),
    }
}

/// Text of the title line: user name and host name joined by `@`, each
/// replaced by the unknown placeholder when missing.
pub open spec fn user_host_text(user: Option<String>, host_name: Option<String>) -> Seq<char> {
    or_unknown(user) + "@"@ + or_unknown(host_name)
}

/// Text of the host field: the two pseudo-file contents, trimmed, joined by
/// one space; an unreadable file counts as empty content.
pub open spec fn host_text(name: Option<String>, version: Option<String>) -> Seq<char> {
    spec_trim(or_empty(name)) + " "@ + spec_trim(or_empty(version))
}

/// Number of whole days in `u` seconds.
pub open spec fn spec_days(u: nat) -> nat {
    u / 86400
}

/// Number of whole hours left once the whole days are taken out.
pub open spec fn spec_hours(u: nat) -> nat {
    (u - spec_days(u) * 86400) as nat / 3600
}

/// Number of whole minutes left once days and hours are taken out.
pub open spec fn spec_minutes(u: nat) -> nat {
    (u - spec_days(u) * 86400 - spec_hours(u) * 3600) as nat / 60
}

/// Text of the uptime field: greedy days/hours/minutes decomposition, then
/// the unchanged total in parentheses.
pub open spec fn uptime_text(u: nat) -> Seq<char> {
    dec_digits(spec_days(u)) + " days "@ + dec_digits(spec_hours(u)) + " hours "@ + dec_digits(
        spec_minutes(u),
    ) + " minutes ("@ + dec_digits(u) + " seconds)"@
}

/// Text of the memory field: used and total bytes converted to MiB by
/// integer division.
pub open spec fn memory_text(used: nat, total: nat) -> Seq<char> {
    dec_digits(used / 1048576) + " MiB / "@ + dec_digits(total / 1048576) + " MiB"@
}

/// The first comma-separated field of the trimmed content `t`.
pub open spec fn res_width_text(t: Seq<char>) -> Seq<char> {
    before_char(t, ',')
}

/// The second comma-separated field of the trimmed content `t`.
pub open spec fn res_height_text(t: Seq<char>) -> Seq<char> {
    before_char(after_char(t, ','), ',')
}

/// Whether the trimmed content `t` of the framebuffer size file is well
/// formed: it splits on commas into at least two fields and the first two
/// parse as 32-bit unsigned integers.
pub open spec fn resolution_ok(t: Seq<char>) -> bool {
    t.contains(',') && parses_as_u32(res_width_text(t)) && parses_as_u32(res_height_text(t))
}

/// Text of the resolution field for well-formed trimmed content `t`:
/// the two parsed numbers re-rendered around an `x`.
pub open spec fn resolution_text(t: Seq<char>) -> Seq<char> {
    dec_digits(u32_numeral_val(res_width_text(t))) + "x"@ + dec_digits(
        u32_numeral_val(res_height_text(t)),
    )
}

/// The failure that aborts the record build, if any: the essential
/// resolvers fail in the fixed resolution order, shell first, then
/// resolution, then desktop environment.
pub open spec fn spec_first_failure(env: EnvInput) -> Option<InfoError> {
    if env.shell is None {
        Some(InfoError::ShellUnset)
    } else if env.resolution is None {
        Some(InfoError::ResolutionUnreadable)
    } else if !resolution_ok(spec_trim(env.resolution->0@)) {
        Some(InfoError::ResolutionMalformed)
    } else if env.de is None {
        Some(InfoError::DeUnset)
    } else {
        None
    }
}

/// Replaces a missing value by the unknown placeholder.
pub fn unwrap_or_unknown(o: &Option<String>) -> (r: String)
    ensures
        r@ == or_unknown(*o),
{
    match o {
        Some(s) => s.clone(),
        None => "<unknown>".to_owned(),
    }
}

/// Greedy decomposition of an uptime in seconds into whole days, hours and
/// minutes: each unit takes as much as it can from what the larger units
/// left, and what remains below a minute is dropped.
pub fn decompose_uptime(u: u64) -> (r: (u64, u64, u64))
    ensures
        r.0 == spec_days(u as nat),
        r.1 == spec_hours(u as nat),
        r.2 == spec_minutes(u as nat),
        r.1 < 24,
        r.2 < 60,
        r.0 * 86400 + r.1 * 3600 + r.2 * 60 <= u,
        u < r.0 * 86400 + r.1 * 3600 + r.2 * 60 + 60,
{
    let days = u / 86400;
    let rem_d = u % 86400;
    let hours = rem_d / 3600;
    let rem_h = rem_d % 3600;
    let minutes = rem_h / 60;
    proof {
        assert(days * 86400 + rem_d == u) by (nonlinear_arith)
            requires
                days == u / 86400,
                rem_d == u % 86400,
        ;
        assert(hours * 3600 + rem_h == rem_d) by (nonlinear_arith)
            requires
                hours == rem_d / 3600,
                rem_h == rem_d % 3600,
        ;
        assert(minutes * 60 + rem_h % 60 == rem_h) by (nonlinear_arith)
            requires
                minutes == rem_h / 60,
        ;
        assert(hours < 24) by (nonlinear_arith)
            requires
                hours == rem_d / 3600,
                rem_d < 86400,
        ;
        assert(minutes < 60) by (nonlinear_arith)
            requires
                minutes == rem_h / 60,
                rem_h < 3600,
        ;
    }
    (days, hours, minutes)
}

impl Info {
    /// Title line: `USER` value and snapshot host name joined by `@`, each
    /// falling back to the unknown placeholder.
    pub fn current_user(user: &Option<String>, host_name: &Option<String>) -> (r: String)
        ensures
            r@ == user_host_text(*user, *host_name),
    {
        let mut s = unwrap_or_unknown(user);
        s.append("@");
        let h = unwrap_or_unknown(host_name);
        s.append(h.as_str());
        proof {
            assert(s@ =~= user_host_text(*user, *host_name));
        }
        s
    }

    /// Kernel version with the unknown placeholder as fallback.
    pub fn get_kernel_version(kernel: &Option<String>) -> (r: String)
        ensures
            r@ == or_unknown(*kernel),
    {
        unwrap_or_unknown(kernel)
    }

    /// CPU brand string, taken from the snapshot unchanged.
    pub fn get_cpu(snap: &Snapshot) -> (r: String)
        ensures
            r@ == snap.cpu_brand@,
    {
        snap.cpu_brand.clone()
    }

    /// Host field: the two DMI pseudo-file contents, each empty when its
    /// file was unreadable, trimmed and joined by one space.
    pub fn get_host(product_name: &Option<String>, product_version: &Option<String>) -> (r: String)
        ensures
            r@ == host_text(*product_name, *product_version),
    {
        proof {
            reveal_strlit("");
        }
        let name: &str = match product_name {
            Some(s) => s.as_str(),
            None => "",
        };
        let version: &str = match product_version {
            Some(s) => s.as_str(),
            None => "",
        };
        proof {
            assert(name@ =~= or_empty(*product_name));
            assert(version@ =~= or_empty(*product_version));
        }
        let mut out = trim_str(name).to_owned();
        out.append(" ");
        out.append(trim_str(version));
        proof {
            assert(out@ =~= host_text(*product_name, *product_version));
        }
        out
    }

    /// Uptime field: whole days, hours and minutes, then the unchanged
    /// total seconds in parentheses.
    pub fn get_uptime(uptime_seconds: u64) -> (r: String)
        ensures
            r@ == uptime_text(uptime_seconds as nat),
    {
        let (days, hours, minutes) = decompose_uptime(uptime_seconds);
        let mut s = u64_to_string(days);
        s.append(" days ");
        let hs = u64_to_string(hours);
        s.append(hs.as_str());
        s.append(" hours ");
        let ms = u64_to_string(minutes);
        s.append(ms.as_str());
        s.append(" minutes (");
        let ts = u64_to_string(uptime_seconds);
        s.append(ts.as_str());
        s.append(" seconds)");
        proof {
            assert(s@ =~= uptime_text(uptime_seconds as nat));
        }
        s
    }

    /// Memory field: used and total bytes converted to MiB by integer
    /// division, no rounding.
    pub fn get_memory(used_memory: u64, total_memory: u64) -> (r: String)
        ensures
            r@ == memory_text(used_memory as nat, total_memory as nat),
    {
        let used = used_memory / 1048576;
        let total = total_memory / 1048576;
        let mut s = u64_to_string(used);
        s.append(" MiB / ");
        let ts = u64_to_string(total);
        s.append(ts.as_str());
        s.append(" MiB");
        proof {
            assert(s@ =~= memory_text(used_memory as nat, total_memory as nat));
        }
        s
    }

    /// Shell field: the last `/`-separated segment of the `SHELL` value.
    /// An unset variable is the first of the failures that abort the run.
    pub fn get_shell_version(shell: &Option<String>) -> (r: Result<String, InfoError>)
        ensures
            match *shell {
                Some(p) => r matches Ok(n) && n@ == last_segment(p@),
                None => r matches Err(e) && e == InfoError::ShellUnset,
            },
    {
        match shell {
            Some(p) => Ok(last_path_segment(p.as_str()).to_owned()),
            None => Err(InfoError::ShellUnset),
        }
    }

    /// Desktop-environment field: the `XDG_CURRENT_DESKTOP` value
    /// unchanged; an unset variable aborts the run.
    pub fn get_de(de: &Option<String>) -> (r: Result<String, InfoError>)
        ensures
            match *de {
                Some(d) => r matches Ok(n) && n@ == d@,
                None => r matches Err(e) && e == InfoError::DeUnset,
            },
    {
        match de {
            Some(d) => Ok(d.clone()),
            None => Err(InfoError::DeUnset),
        }
    }

    /// Resolution field: the pseudo-file content, trimmed, must split on a
    /// comma into two leading fields that parse as 32-bit unsigned
    /// integers; they are re-rendered as `<w>x<h>`. A missing file or
    /// malformed content aborts the run.
    pub fn get_resolution(content: &Option<String>) -> (r: Result<String, InfoError>)
        ensures
            match *content {
                Some(c) => {
                    let t = spec_trim(c@);
                    if resolution_ok(t) {
                        r matches Ok(n) && n@ == resolution_text(t)
                    } else {
                        r matches Err(e) && e == InfoError::ResolutionMalformed
                    }
                },
                None => r matches Err(e) && e == InfoError::ResolutionUnreadable,
            },
    {
        let c = match content {
            Some(c) => c,
            None => {
                return Err(InfoError::ResolutionUnreadable);
            },
        };
        let tr = trim_str(c.as_str());
        let ghost t = spec_trim(c@);
        let len = tr.unicode_len();
        let k = match find_char(tr, ',', 0) {
            Some(k) => k,
            None => {
                proof {
                    crate::text::lemma_no_char(t, ',');
                }
                return Err(InfoError::ResolutionMalformed);
            },
        };
        proof {
            crate::text::lemma_split_at_first(t, ',', k as int);
            assert(t.take(k as int) =~= t.subrange(0, k as int));
        }
        let w_str = tr.substring_char(0, k);
        let ghost rest = after_char(t, ',');
        let h_str = match find_char(tr, ',', k + 1) {
            Some(k2) => {
                proof {
                    assert(forall|i: int|
                        0 <= i < k2 - k - 1 ==> rest[i] == t[i + k as int + 1] && #[trigger] rest[i]
                            != ',');
                    assert(rest[k2 - k - 1] == ',');
                    crate::text::lemma_split_at_first(rest, ',', k2 - k - 1);
                    assert(rest.take(k2 - k - 1) =~= t.subrange(k as int + 1, k2 as int));
                }
                tr.substring_char(k + 1, k2)
            },
            None => {
                proof {
                    assert(forall|i: int|
                        0 <= i < rest.len() ==> rest[i] == t[i + k as int + 1] && #[trigger] rest[i]
                            != ',');
                    crate::text::lemma_no_char(rest, ',');
                    assert(rest =~= t.subrange(k as int + 1, t.len() as int));
                }
                tr.substring_char(k + 1, len)
            },
        };
        proof {
            assert(w_str@ == res_width_text(t));
            assert(h_str@ == res_height_text(t));
            assert(t.contains(',')) by {
                assert(t[k as int] == ',');
            }
        }
        let w = match parse_u32(w_str) {
            Some(w) => w,
            None => {
                return Err(InfoError::ResolutionMalformed);
            },
        };
        let h = match parse_u32(h_str) {
            Some(h) => h,
            None => {
                return Err(InfoError::ResolutionMalformed);
            },
        };
        let mut s = u64_to_string(w as u64);
        s.append("x");
        let hs = u64_to_string(h as u64);
        s.append(hs.as_str());
        proof {
            assert(s@ =~= resolution_text(t));
        }
        Ok(s)
    }

    /// Builds the fully populated record from one snapshot and one set of
    /// environment readings, or reports the first failure in the fixed
    /// resolution order. Every field of a returned record is pinned to its
    /// resolver's text; rendering thus never sees a partial record.
    pub fn new(snap: &Snapshot, env: &EnvInput) -> (r: Result<Info, InfoError>)
        ensures
            match r {
                Ok(info) => spec_first_failure(*env) is None && info.current_user_host@
                    == user_host_text(env.user, snap.host_name) && info.os@ == or_unknown(snap.os)
                    && info.host@ == host_text(env.product_name, env.product_version)
                    && info.kernel@ == or_unknown(snap.kernel) && info.uptime@ == uptime_text(
                    snap.uptime_seconds as nat,
                ) && info.shell@ == last_segment(env.shell->0@) && info.resolution@
                    == resolution_text(spec_trim(env.resolution->0@)) && info.de@ == env.de->0@
                    && info.cpu@ == snap.cpu_brand@ && info.memory@ == memory_text(
                    snap.used_memory as nat,
                    snap.total_memory as nat,
                ),
                Err(e) => spec_first_failure(*env) == Some(e),
            },
    {
        let current_user_host = Info::current_user(&env.user, &snap.host_name);
        let os = unwrap_or_unknown(&snap.os);
        let host = Info::get_host(&env.product_name, &env.product_version);
        let kernel = Info::get_kernel_version(&snap.kernel);
        let uptime = Info::get_uptime(snap.uptime_seconds);
        let shell = match Info::get_shell_version(&env.shell) {
            Ok(s) => s,
            Err(e) => {
                return Err(e);
            },
        };
        let resolution = match Info::get_resolution(&env.resolution) {
            Ok(s) => s,
            Err(e) => {
                return Err(e);
            },
        };
        let de = match Info::get_de(&env.de) {
            Ok(s) => s,
            Err(e) => {
                return Err(e);
            },
        };
        let cpu = Info::get_cpu(snap);
        let memory = Info::get_memory(snap.used_memory, snap.total_memory);
        Ok(
            Info {
                current_user_host,
                os,
                host,
                kernel,
                uptime,
                shell,
                resolution,
                de,
                cpu,
                memory,
            },
        )
    }
}

} // verus!
