//! `kryx doctor`: the checks of the host and the report built from them.
//! The probes themselves (reading files, running `systemctl`, `git`,
//! `zpool`, ...) happen outside; each check here decides from what a probe
//! gave.
use vstd::prelude::*;
use crate::text::{
    before_char, before_char_chars, chars_of, contains, copy_range, str_eq, dec, has_infix,
    has_prefix, idec, join, join_chars, lines, lines_of, owned, parse_i64, parse_i64_chars,
    push_all, push_dec, push_idec, push_str, same_chars, starts_with, strip_trailing,
    strip_trailing_chars, string_from_chars, trim, trim_chars, views, words, words_of,
};

verus! {

/// Outcome of one check.
#[derive(Debug, Clone, Copy, PartialEq, Eq, Structural)]
pub enum CheckStatus {
    Pass,
    Warn,
    Fail,
}

/// One line of the doctor report.
#[derive(Debug)]
pub struct CheckResult {
    pub category: String,
    pub name: String,
    pub status: CheckStatus,
    pub message: String,
}

/// A check as character sequences.
pub struct CheckView {
    pub category: Seq<char>,
    pub name: Seq<char>,
    pub status: CheckStatus,
    pub message: Seq<char>,
}

impl View for CheckResult {
    type V = CheckView;

    open spec fn view(&self) -> CheckView {
        CheckView {
            category: self.category@,
            name: self.name@,
            status: self.status,
            message: self.message@,
        }
    }
}

pub open spec fn check_views(v: Seq<CheckResult>) -> Seq<CheckView> {
    v.map_values(|c: CheckResult| c@)
}

pub open spec fn cv(
    category: Seq<char>,
    name: Seq<char>,
    status: CheckStatus,
    message: Seq<char>,
) -> CheckView {
    CheckView { category, name, status, message }
}

/// Appends one check to the list.
pub fn push(
    checks: &mut Vec<CheckResult>,
    category: &str,
    name: &str,
    status: CheckStatus,
    message: String,
)
    ensures
        check_views(final(checks)@) == check_views(old(checks)@).push(
            cv(category@, name@, status, message@),
        ),
{
    let ghost before = checks@;
    let c = CheckResult { category: owned(category), name: owned(name), status, message };
    checks.push(c);
    assert(check_views(checks@) =~= check_views(before).push(
        cv(category@, name@, status, message@),
    ));
}

/// The first `limit` lines joined by `"; "`, trimmed.
pub open spec fn first_lines_spec(value: Seq<char>, limit: nat) -> Seq<char> {
    let ls = lines(value);
    trim(join(if limit < ls.len() {
        ls.take(limit as int)
    } else {
        ls
    }, "; "@))
}

pub fn first_lines(value: &str, limit: usize) -> (s: String)
    ensures
        s@ == first_lines_spec(value@, limit as nat),
{
    let v = chars_of(value);
    let mut ls = lines_of(v.as_slice());
    if limit < ls.len() {
        ls.truncate(limit);
        assert(views(ls@) =~= lines(value@).take(limit as int));
    }
    let sep = chars_of("; ");
    let j = join_chars(&ls, sep.as_slice());
    let t = trim_chars(j.as_slice());
    string_from_chars(t.as_slice())
}

fn trimmed(s: &str) -> (t: Vec<char>)
    ensures
        t@ == trim(s@),
{
    let v = chars_of(s);
    trim_chars(v.as_slice())
}

fn chars_eq_str(v: &Vec<char>, s: &str) -> (b: bool)
    ensures
        b == (v@ == s@),
{
    let w = chars_of(s);
    same_chars(v.as_slice(), w.as_slice())
}

fn text_has(s: &str, p: &str) -> (b: bool)
    ensures
        b == contains(s@, p@),
{
    let v = chars_of(s);
    let w = chars_of(p);
    has_infix(v.as_slice(), w.as_slice())
}

fn concat2(a: &str, b: &[char]) -> (s: String)
    ensures
        s@ == a@ + b@,
{
    let mut v = chars_of(a);
    push_all(&mut v, b);
    string_from_chars(v.as_slice())
}

// ── systemd units ───────────────────────────────────────────────────────

/// A unit reported `active` passes; any other state warns (when
/// `warn_if_missing`) or fails; a failed probe warns.
pub open spec fn unit_check_spec(
    category: Seq<char>,
    unit: Seq<char>,
    warn_if_missing: bool,
    outcome: Result<String, String>,
) -> CheckView {
    match outcome {
        Ok(o) => if trim(o@) == "active"@ {
            cv(category, unit, CheckStatus::Pass, "active"@)
        } else {
            cv(
                category,
                unit,
                if warn_if_missing {
                    CheckStatus::Warn
                } else {
                    CheckStatus::Fail
                },
                trim(o@),
            )
        },
        Err(e) => cv(category, unit, CheckStatus::Warn, e@),
    }
}

/// The check of a systemd unit from the output of `systemctl is-active`.
pub fn check_systemd_unit(
    checks: &mut Vec<CheckResult>,
    category: &str,
    unit: &str,
    warn_if_missing: bool,
    outcome: &Result<String, String>,
)
    ensures
        check_views(final(checks)@) == check_views(old(checks)@).push(
            unit_check_spec(category@, unit@, warn_if_missing, *outcome),
        ),
{
    match outcome {
        Ok(o) => {
            let t = trimmed(o.as_str());
            if chars_eq_str(&t, "active") {
                push(checks, category, unit, CheckStatus::Pass, owned("active"));
            } else {
                let st = if warn_if_missing {
                    CheckStatus::Warn
                } else {
                    CheckStatus::Fail
                };
                push(checks, category, unit, st, string_from_chars(t.as_slice()));
            }
        },
        Err(e) => push(checks, category, unit, CheckStatus::Warn, e.clone()),
    }
}

/// Units the doctor expects, with whether their absence only warns.
pub open spec fn critical_units_spec() -> Seq<(Seq<char>, bool)> {
    seq![("kryxd.service"@, false), ("NetworkManager.service"@, false), ("sshd.service"@, true)]
}

pub fn critical_units() -> (u: Vec<(String, bool)>)
    ensures
        u@.map_values(|p: (String, bool)| (p.0@, p.1)) == critical_units_spec(),
        u@.len() == 3,
{
    let u = vec![
        (owned("kryxd.service"), false),
        (owned("NetworkManager.service"), false),
        (owned("sshd.service"), true),
    ];
    assert(u@.map_values(|p: (String, bool)| (p.0@, p.1)) =~= critical_units_spec());
    u
}

/// The service checks: one per critical unit, in order, from the
/// `systemctl is-active` outcome given for it (units past the end of
/// `outcomes` are not checked).
pub fn check_services(checks: &mut Vec<CheckResult>, outcomes: Vec<Result<String, String>>)
    ensures
        check_views(final(checks)@) == check_views(old(checks)@) + Seq::new(
            if outcomes@.len() < 3 {
                outcomes@.len()
            } else {
                3
            },
            |i: int|
                unit_check_spec(
                    "services"@,
                    critical_units_spec()[i].0,
                    critical_units_spec()[i].1,
                    outcomes@[i],
                ),
        ),
{
    let units = critical_units();
    let ghost start = check_views(checks@);
    let n: usize = if outcomes.len() < 3 {
        outcomes.len()
    } else {
        3
    };
    let mut i: usize = 0;
    while i < n
        invariant
            i <= n,
            n <= 3,
            n <= outcomes@.len(),
            n == (if outcomes@.len() < 3 {
                outcomes@.len()
            } else {
                3
            }),
            units@.len() == 3,
            units@.map_values(|p: (String, bool)| (p.0@, p.1)) == critical_units_spec(),
            check_views(checks@) == start + Seq::new(
                i as nat,
                |j: int|
                    unit_check_spec(
                        "services"@,
                        critical_units_spec()[j].0,
                        critical_units_spec()[j].1,
                        outcomes@[j],
                    ),
            ),
        decreases n - i,
    {
        assert(units@.map_values(|p: (String, bool)| (p.0@, p.1))[i as int] == (
        units@[i as int].0@, units@[i as int].1));
        check_systemd_unit(checks, "services", units[i].0.as_str(), units[i].1, &outcomes[i]);
        i += 1;
        assert(check_views(checks@) =~= start + Seq::new(
            i as nat,
            |j: int|
                unit_check_spec(
                    "services"@,
                    critical_units_spec()[j].0,
                    critical_units_spec()[j].1,
                    outcomes@[j],
                ),
        ));
    }
}

// ── Identity ────────────────────────────────────────────────────────────

/// Role of a Kryonix host.
#[derive(Debug, Clone, Copy, PartialEq, Eq, Structural)]
pub enum Role {
    Core,
    Node,
    ThinkServer,
    Desktop,
}

/// The identity of the host (`/etc/kryonix/identity.json`).
#[derive(Debug)]
pub struct HostIdentity {
    pub uuid: String,
    pub role: Role,
    pub edition: String,
}

/// The role as its variant name (what `{:?}` prints).
pub open spec fn role_name_spec(r: Role) -> Seq<char> {
    match r {
        Role::Core => "Core"@,
        Role::Node => "Node"@,
        Role::ThinkServer => "ThinkServer"@,
        Role::Desktop => "Desktop"@,
    }
}

pub fn role_name(r: Role) -> (s: String)
    ensures
        s@ == role_name_spec(r),
{
    match r {
        Role::Core => owned("Core"),
        Role::Node => owned("Node"),
        Role::ThinkServer => owned("ThinkServer"),
        Role::Desktop => owned("Desktop"),
    }
}

pub open spec fn identity_check_spec(identity: Result<HostIdentity, String>) -> CheckView {
    match identity {
        Ok(id) => cv(
            "identity"@,
            "host-identity"@,
            CheckStatus::Pass,
            "uuid="@ + id.uuid@ + " role="@ + role_name_spec(id.role) + " edition="@ + id.edition@,
        ),
        Err(e) => cv("identity"@, "host-identity"@, CheckStatus::Fail, e@),
    }
}

/// The identity check: passes with the identity's fields, fails with the
/// error that reading it gave.
pub fn check_identity(checks: &mut Vec<CheckResult>, identity: &Result<HostIdentity, String>)
    ensures
        check_views(final(checks)@) == check_views(old(checks)@).push(
            identity_check_spec(*identity),
        ),
{
    match identity {
        Ok(id) => {
            let mut m = chars_of("uuid=");
            push_str(&mut m, id.uuid.as_str());
            push_str(&mut m, " role=");
            let r = role_name(id.role);
            push_str(&mut m, r.as_str());
            push_str(&mut m, " edition=");
            push_str(&mut m, id.edition.as_str());
            push(checks, "identity", "host-identity", CheckStatus::Pass, string_from_chars(m.as_slice()));
        },
        Err(e) => push(checks, "identity", "host-identity", CheckStatus::Fail, e.clone()),
    }
}

// ── System ──────────────────────────────────────────────────────────────

/// The Home Manager unit of a user.
pub fn home_manager_unit(user: &str) -> (s: String)
    ensures
        s@ == "home-manager-"@ + user@ + ".service"@,
{
    let mut m = chars_of("home-manager-");
    push_str(&mut m, user);
    push_str(&mut m, ".service");
    string_from_chars(m.as_slice())
}

pub open spec fn generation_check_spec(generation: Result<String, String>) -> CheckView {
    match generation {
        Ok(p) => cv("system"@, "generation"@, CheckStatus::Pass, p@),
        Err(e) => cv(
            "system"@,
            "generation"@,
            CheckStatus::Fail,
            "não foi possível ler /run/current-system: "@ + e@,
        ),
    }
}

pub open spec fn failed_units_check_spec(outcome: Result<String, String>) -> CheckView {
    match outcome {
        Ok(o) => if trim(o@).len() == 0 {
            cv("system"@, "failed-units"@, CheckStatus::Pass, "nenhuma unit falhada"@)
        } else {
            cv("system"@, "failed-units"@, CheckStatus::Fail, first_lines_spec(o@, 3))
        },
        Err(e) => cv("system"@, "failed-units"@, CheckStatus::Warn, e@),
    }
}

/// The system checks: the current generation (its target, or the error of
/// reading the link), the failed units (`systemctl --failed`), and the
/// user's Home Manager unit.
pub fn check_system(
    checks: &mut Vec<CheckResult>,
    generation: &Result<String, String>,
    failed_units: &Result<String, String>,
    user: &str,
    home_manager: &Result<String, String>,
)
    ensures
        check_views(final(checks)@) == check_views(old(checks)@) + seq![
            generation_check_spec(*generation),
            failed_units_check_spec(*failed_units),
            unit_check_spec(
                "system"@,
                "home-manager-"@ + user@ + ".service"@,
                true,
                *home_manager,
            ),
        ],
{
    let ghost start = check_views(checks@);
    match generation {
        Ok(p) => push(checks, "system", "generation", CheckStatus::Pass, p.clone()),
        Err(e) => push(
            checks,
            "system",
            "generation",
            CheckStatus::Fail,
            concat2("não foi possível ler /run/current-system: ", chars_of(e.as_str()).as_slice()),
        ),
    }
    match failed_units {
        Ok(o) => {
            let t = trimmed(o.as_str());
            if t.len() == 0 {
                push(checks, "system", "failed-units", CheckStatus::Pass, owned("nenhuma unit falhada"));
            } else {
                push(checks, "system", "failed-units", CheckStatus::Fail, first_lines(o.as_str(), 3));
            }
        },
        Err(e) => push(checks, "system", "failed-units", CheckStatus::Warn, e.clone()),
    }
    let unit = home_manager_unit(user);
    check_systemd_unit(checks, "system", unit.as_str(), true, home_manager);
    assert(check_views(checks@) =~= start + seq![
        generation_check_spec(*generation),
        failed_units_check_spec(*failed_units),
        unit_check_spec("system"@, "home-manager-"@ + user@ + ".service"@, true, *home_manager),
    ]);
}

// ── Git repositories ────────────────────────────────────────────────────

/// A branch line that reports the repository ahead of or behind its remote.
pub open spec fn git_branch_diverged(branch: Seq<char>) -> bool {
    contains(branch, "ahead"@) || contains(branch, "behind"@) || contains(branch, "adelante"@)
        || contains(branch, "detrás"@)
}

/// The check of one repository from `git status -sb`: a missing directory
/// warns; otherwise the branch line is the message, and the check warns
/// when the branch diverged or there are local changes (listed after it).
pub open spec fn git_check_spec(repo: Seq<char>, present: bool, outcome: Result<String, String>) -> CheckView {
    if !present {
        cv("git"@, repo, CheckStatus::Warn, "diretório não existe"@)
    } else {
        match outcome {
            Ok(o) => {
                let ls = lines(o@);
                let branch = if ls.len() > 0 {
                    ls[0]
                } else {
                    "status indisponível"@
                };
                let dirty = if ls.len() > 0 {
                    ls.drop_first()
                } else {
                    Seq::empty()
                };
                let status = if dirty.len() > 0 || git_branch_diverged(branch) {
                    CheckStatus::Warn
                } else {
                    CheckStatus::Pass
                };
                let message = if dirty.len() > 0 {
                    branch + "; mudanças locais: "@ + join(dirty, "; "@)
                } else {
                    branch
                };
                cv("git"@, repo, status, message)
            },
            Err(e) => cv("git"@, repo, CheckStatus::Warn, e@),
        }
    }
}

fn chars_has(v: &Vec<char>, p: &str) -> (b: bool)
    ensures
        b == contains(v@, p@),
{
    let w = chars_of(p);
    has_infix(v.as_slice(), w.as_slice())
}

/// The check of one git repository (`present`: whether its directory
/// exists; `status`: the output of `git status -sb` there).
pub fn check_git(
    checks: &mut Vec<CheckResult>,
    repo: &str,
    present: bool,
    status: &Result<String, String>,
)
    ensures
        check_views(final(checks)@) == check_views(old(checks)@).push(
            git_check_spec(repo@, present, *status),
        ),
{
    if !present {
        push(checks, "git", repo, CheckStatus::Warn, owned("diretório não existe"));
        return;
    }
    match status {
        Ok(o) => {
            let v = chars_of(o.as_str());
            let ls = lines_of(v.as_slice());
            let branch: Vec<char> = if ls.len() > 0 {
                let b = crate::text::copy_range(ls[0].as_slice(), 0, ls[0].len());
                assert(b@ =~= ls@[0]@);
                b
            } else {
                chars_of("status indisponível")
            };
            let mut dirty: Vec<Vec<char>> = Vec::new();
            if ls.len() > 0 {
                let mut i: usize = 1;
                while i < ls.len()
                    invariant
                        1 <= i <= ls@.len(),
                        views(dirty@) == views(ls@).subrange(1, i as int),
                    decreases ls.len() - i,
                {
                    let l = crate::text::copy_range(ls[i].as_slice(), 0, ls[i].len());
                    assert(l@ =~= ls@[i as int]@);
                    let ghost d0 = dirty@;
                    dirty.push(l);
                    assert(views(dirty@) =~= views(d0).push(l@));
                    assert(views(ls@).subrange(1, i + 1) =~= views(ls@).subrange(1, i as int).push(
                        views(ls@)[i as int],
                    ));
                    i += 1;
                }
                assert(views(dirty@) =~= views(ls@).drop_first());
            } else {
                assert(views(dirty@) =~= Seq::<Seq<char>>::empty());
            }
            let diverged = chars_has(&branch, "ahead") || chars_has(&branch, "behind")
                || chars_has(&branch, "adelante") || chars_has(&branch, "detrás");
            let st = if dirty.len() > 0 || diverged {
                CheckStatus::Warn
            } else {
                CheckStatus::Pass
            };
            let mut msg = branch;
            if dirty.len() > 0 {
                push_str(&mut msg, "; mudanças locais: ");
                let sep = chars_of("; ");
                let j = join_chars(&dirty, sep.as_slice());
                push_all(&mut msg, j.as_slice());
            }
            push(checks, "git", repo, st, string_from_chars(msg.as_slice()));
        },
        Err(e) => push(checks, "git", repo, CheckStatus::Warn, e.clone()),
    }
}

// ── ZFS ─────────────────────────────────────────────────────────────────

/// The flake attribute that `nix eval` reads for a host's option.
pub open spec fn host_attr(host: Seq<char>, option: Seq<char>) -> Seq<char> {
    "/etc/kryonixos#nixosConfigurations."@ + host + ".config."@ + option
}

/// Arguments of the `nix eval` that reads one option of the host's
/// configuration (`--raw` or `--json`).
pub open spec fn nix_eval_args(output_flag: Seq<char>, attr: Seq<char>) -> Seq<Seq<char>> {
    seq![
        "--extra-experimental-features"@,
        "nix-command flakes"@,
        "eval"@,
        "--impure"@,
        output_flag,
        attr,
    ]
}

fn nix_eval_args_for(output_flag: &str, host: &str, option: &str) -> (v: Vec<String>)
    ensures
        crate::text::strs(v@) == nix_eval_args(output_flag@, host_attr(host@, option@)),
{
    let mut a = chars_of("/etc/kryonixos#nixosConfigurations.");
    push_str(&mut a, host);
    push_str(&mut a, ".config.");
    push_str(&mut a, option);
    let v = vec![
        owned("--extra-experimental-features"),
        owned("nix-command flakes"),
        owned("eval"),
        owned("--impure"),
        owned(output_flag),
        string_from_chars(a.as_slice()),
    ];
    assert(crate::text::strs(v@) =~= nix_eval_args(output_flag@, host_attr(host@, option@)));
    v
}

/// Arguments that evaluate the host's configured `networking.hostId`.
pub fn hostid_eval_args(host: &str) -> (v: Vec<String>)
    ensures
        crate::text::strs(v@) == nix_eval_args("--raw"@, host_attr(host@, "networking.hostId"@)),
{
    nix_eval_args_for("--raw", host, "networking.hostId")
}

/// Arguments that evaluate the host's `services.zfs.trim.enable`.
pub fn zfs_trim_eval_args(host: &str) -> (v: Vec<String>)
    ensures
        crate::text::strs(v@) == nix_eval_args(
            "--json"@,
            host_attr(host@, "services.zfs.trim.enable"@),
        ),
{
    nix_eval_args_for("--json", host, "services.zfs.trim.enable")
}

/// The host id check: the running host id (`hostid`) and the configured
/// one, both trimmed, must agree; a failed probe warns, the runtime
/// probe's error first.
pub open spec fn hostid_check_spec(
    runtime: Result<String, String>,
    evaluated: Result<String, String>,
) -> CheckView {
    match runtime {
        Err(e) => cv("zfs"@, "hostid"@, CheckStatus::Warn, e@),
        Ok(r) => match evaluated {
            Err(e) => cv("zfs"@, "hostid"@, CheckStatus::Warn, e@),
            Ok(v) => if trim(r@) == trim(v@) {
                cv("zfs"@, "hostid"@, CheckStatus::Pass, "runtime/config="@ + trim(r@))
            } else {
                cv(
                    "zfs"@,
                    "hostid"@,
                    CheckStatus::Fail,
                    "runtime="@ + trim(r@) + " config="@ + trim(v@),
                )
            },
        },
    }
}

/// The pool check from `zpool status -x`.
pub open spec fn pools_check_spec(outcome: Result<String, String>) -> CheckView {
    match outcome {
        Ok(o) => if contains(o@, "all pools are healthy"@) {
            cv("zfs"@, "pools"@, CheckStatus::Pass, trim(o@))
        } else if contains(o@, "no pools available"@) {
            cv("zfs"@, "pools"@, CheckStatus::Warn, "nenhum pool ZFS disponível"@)
        } else {
            cv("zfs"@, "pools"@, CheckStatus::Fail, first_lines_spec(o@, 4))
        },
        Err(e) => cv("zfs"@, "pools"@, CheckStatus::Warn, e@),
    }
}

/// The TRIM check from the evaluated `services.zfs.trim.enable`.
pub open spec fn trim_check_spec(outcome: Result<String, String>) -> CheckView {
    match outcome {
        Ok(o) => if trim(o@) == "true"@ {
            cv("zfs"@, "trim"@, CheckStatus::Pass, "services.zfs.trim.enable=true"@)
        } else {
            cv("zfs"@, "trim"@, CheckStatus::Warn, "services.zfs.trim.enable="@ + trim(o@))
        },
        Err(e) => cv("zfs"@, "trim"@, CheckStatus::Warn, e@),
    }
}

/// The ZFS checks: host id, pools and TRIM, from what the probes gave.
pub fn check_zfs(
    checks: &mut Vec<CheckResult>,
    runtime_hostid: &Result<String, String>,
    eval_hostid: &Result<String, String>,
    pools: &Result<String, String>,
    trim_enabled: &Result<String, String>,
)
    ensures
        check_views(final(checks)@) == check_views(old(checks)@) + seq![
            hostid_check_spec(*runtime_hostid, *eval_hostid),
            pools_check_spec(*pools),
            trim_check_spec(*trim_enabled),
        ],
{
    let ghost start = check_views(checks@);
    match runtime_hostid {
        Err(e) => push(checks, "zfs", "hostid", CheckStatus::Warn, e.clone()),
        Ok(r) => match eval_hostid {
            Err(e) => push(checks, "zfs", "hostid", CheckStatus::Warn, e.clone()),
            Ok(v) => {
                let rt = trimmed(r.as_str());
                let vt = trimmed(v.as_str());
                if same_chars(rt.as_slice(), vt.as_slice()) {
                    push(
                        checks,
                        "zfs",
                        "hostid",
                        CheckStatus::Pass,
                        concat2("runtime/config=", rt.as_slice()),
                    );
                } else {
                    let mut m = chars_of("runtime=");
                    push_all(&mut m, rt.as_slice());
                    push_str(&mut m, " config=");
                    push_all(&mut m, vt.as_slice());
                    push(checks, "zfs", "hostid", CheckStatus::Fail, string_from_chars(m.as_slice()));
                }
            },
        },
    }
    match pools {
        Ok(o) => {
            if text_has(o.as_str(), "all pools are healthy") {
                let t = trimmed(o.as_str());
                push(checks, "zfs", "pools", CheckStatus::Pass, string_from_chars(t.as_slice()));
            } else if text_has(o.as_str(), "no pools available") {
                push(checks, "zfs", "pools", CheckStatus::Warn, owned("nenhum pool ZFS disponível"));
            } else {
                push(checks, "zfs", "pools", CheckStatus::Fail, first_lines(o.as_str(), 4));
            }
        },
        Err(e) => push(checks, "zfs", "pools", CheckStatus::Warn, e.clone()),
    }
    match trim_enabled {
        Ok(o) => {
            let t = trimmed(o.as_str());
            if chars_eq_str(&t, "true") {
                push(checks, "zfs", "trim", CheckStatus::Pass, owned("services.zfs.trim.enable=true"));
            } else {
                push(
                    checks,
                    "zfs",
                    "trim",
                    CheckStatus::Warn,
                    concat2("services.zfs.trim.enable=", t.as_slice()),
                );
            }
        },
        Err(e) => push(checks, "zfs", "trim", CheckStatus::Warn, e.clone()),
    }
    assert(check_views(checks@) =~= start + seq![
        hostid_check_spec(*runtime_hostid, *eval_hostid),
        pools_check_spec(*pools),
        trim_check_spec(*trim_enabled),
    ]);
}

// ── Network ─────────────────────────────────────────────────────────────

/// One line of `ip -o -4 addr show scope global` as `interface=address`:
/// the second field, and the fourth up to its `/`; lines with fewer than
/// four fields give nothing.
pub open spec fn ip_entry(line: Seq<char>) -> Option<Seq<char>> {
    let w = words(line);
    if w.len() >= 4 {
        Some(w[1] + seq!['='] + before_char(w[3], '/'))
    } else {
        None
    }
}

pub open spec fn ip_entries(ls: Seq<Seq<char>>) -> Seq<Seq<char>>
    decreases ls.len(),
{
    if ls.len() == 0 {
        Seq::empty()
    } else {
        let r = ip_entries(ls.drop_last());
        match ip_entry(ls.last()) {
            Some(e) => r.push(e),
            None => r,
        }
    }
}

/// The addresses of the `ip` output, joined by spaces.
pub open spec fn ipv4_summary(output: Seq<char>) -> Seq<char> {
    join(ip_entries(lines(output)), " "@)
}

fn ip_entry_of(line: &[char]) -> (r: Option<Vec<char>>)
    ensures
        match ip_entry(line@) {
            Some(e) => r matches Some(v) && v@ == e,
            None => r is None,
        },
{
    let w = words_of(line);
    if w.len() >= 4 {
        let mut e = crate::text::copy_range(w[1].as_slice(), 0, w[1].len());
        e.push('=');
        let a = before_char_chars(w[3].as_slice(), '/');
        push_all(&mut e, a.as_slice());
        assert(e@ =~= words(line@)[1] + seq!['='] + before_char(words(line@)[3], '/'));
        Some(e)
    } else {
        None
    }
}

pub fn ipv4_summary_of(output: &str) -> (s: String)
    ensures
        s@ == ipv4_summary(output@),
{
    let v = chars_of(output);
    let ls = lines_of(v.as_slice());
    let mut out: Vec<Vec<char>> = Vec::new();
    for i in 0..ls.len()
        invariant
            views(out@) == ip_entries(views(ls@).take(i as int)),
    {
        assert(views(ls@).take(i + 1).drop_last() =~= views(ls@).take(i as int));
        assert(views(ls@).take(i + 1).last() == ls@[i as int]@);
        match ip_entry_of(ls[i].as_slice()) {
            Some(e) => {
                let ghost o0 = out@;
                out.push(e);
                assert(views(out@) =~= views(o0).push(e@));
            },
            None => {},
        }
    }
    assert(views(ls@).take(ls@.len() as int) =~= views(ls@));
    let sep = chars_of(" ");
    let j = join_chars(&out, sep.as_slice());
    string_from_chars(j.as_slice())
}

pub open spec fn ipv4_check_spec(outcome: Result<String, String>) -> CheckView {
    match outcome {
        Ok(o) => if trim(o@).len() > 0 {
            cv("network"@, "ipv4"@, CheckStatus::Pass, ipv4_summary(o@))
        } else {
            cv("network"@, "ipv4"@, CheckStatus::Warn, "nenhum IPv4 global encontrado"@)
        },
        Err(e) => cv("network"@, "ipv4"@, CheckStatus::Warn, e@),
    }
}

pub open spec fn tailscale_check_spec(outcome: Result<String, String>) -> CheckView {
    match outcome {
        Ok(o) => if trim(o@).len() > 0 {
            cv("network"@, "tailscale"@, CheckStatus::Pass, first_lines_spec(o@, 1))
        } else {
            cv("network"@, "tailscale"@, CheckStatus::Warn, "tailscale sem saída para --self"@)
        },
        Err(e) => cv("network"@, "tailscale"@, CheckStatus::Warn, e@),
    }
}

/// Whether some line of the text starts with `nameserver `.
pub open spec fn names_nameserver(content: Seq<char>) -> bool {
    exists|i: int|
        0 <= i < lines(content).len() && starts_with(#[trigger] lines(content)[i], "nameserver "@)
}

/// Whether `/etc/resolv.conf` (when it could be read) names a nameserver.
pub open spec fn has_nameserver(resolv: Option<String>) -> bool {
    match resolv {
        Some(c) => names_nameserver(c@),
        None => false,
    }
}

pub open spec fn dns_check_spec(resolv: Option<String>) -> CheckView {
    if has_nameserver(resolv) {
        cv("network"@, "dns-config"@, CheckStatus::Pass, "/etc/resolv.conf contém nameserver"@)
    } else {
        cv("network"@, "dns-config"@, CheckStatus::Warn, "nenhum nameserver em /etc/resolv.conf"@)
    }
}

fn any_nameserver_line(c: &str) -> (b: bool)
    ensures
        b == names_nameserver(c@),
{
    let v = chars_of(c);
    let ls = lines_of(v.as_slice());
    let p = chars_of("nameserver ");
    for i in 0..ls.len()
        invariant
            views(ls@) == lines(c@),
            p@ == "nameserver "@,
            forall|j: int| 0 <= j < i ==> !starts_with(#[trigger] lines(c@)[j], "nameserver "@),
    {
        if has_prefix(ls[i].as_slice(), p.as_slice()) {
            assert(starts_with(lines(c@)[i as int], "nameserver "@));
            return true;
        }
    }
    false
}

fn any_nameserver(resolv: &Option<String>) -> (b: bool)
    ensures
        b == has_nameserver(*resolv),
{
    match resolv {
        Some(c) => any_nameserver_line(c.as_str()),
        None => false,
    }
}

/// The network checks: global IPv4 addresses, Tailscale, and DNS.
pub fn check_network(
    checks: &mut Vec<CheckResult>,
    addresses: &Result<String, String>,
    tailscale: &Result<String, String>,
    resolv: &Option<String>,
)
    ensures
        check_views(final(checks)@) == check_views(old(checks)@) + seq![
            ipv4_check_spec(*addresses),
            tailscale_check_spec(*tailscale),
            dns_check_spec(*resolv),
        ],
{
    let ghost start = check_views(checks@);
    match addresses {
        Ok(o) => {
            let t = trimmed(o.as_str());
            if t.len() > 0 {
                push(checks, "network", "ipv4", CheckStatus::Pass, ipv4_summary_of(o.as_str()));
            } else {
                push(checks, "network", "ipv4", CheckStatus::Warn, owned("nenhum IPv4 global encontrado"));
            }
        },
        Err(e) => push(checks, "network", "ipv4", CheckStatus::Warn, e.clone()),
    }
    match tailscale {
        Ok(o) => {
            let t = trimmed(o.as_str());
            if t.len() > 0 {
                push(checks, "network", "tailscale", CheckStatus::Pass, first_lines(o.as_str(), 1));
            } else {
                push(
                    checks,
                    "network",
                    "tailscale",
                    CheckStatus::Warn,
                    owned("tailscale sem saída para --self"),
                );
            }
        },
        Err(e) => push(checks, "network", "tailscale", CheckStatus::Warn, e.clone()),
    }
    if any_nameserver(resolv) {
        push(checks, "network", "dns-config", CheckStatus::Pass, owned("/etc/resolv.conf contém nameserver"));
    } else {
        push(
            checks,
            "network",
            "dns-config",
            CheckStatus::Warn,
            owned("nenhum nameserver em /etc/resolv.conf"),
        );
    }
    assert(check_views(checks@) =~= start + seq![
        ipv4_check_spec(*addresses),
        tailscale_check_spec(*tailscale),
        dns_check_spec(*resolv),
    ]);
}

// ── Disk ────────────────────────────────────────────────────────────────

/// The mounts whose usage the doctor watches.
pub open spec fn watched_mount(m: Seq<char>) -> bool {
    m == "/"@ || m == "/nix"@ || m == "/home"@ || m == "/var"@ || m == "/var/log"@ || m
        == "/boot"@
}

fn is_watched_mount(m: &Vec<char>) -> (b: bool)
    ensures
        b == watched_mount(m@),
{
    chars_eq_str(m, "/") || chars_eq_str(m, "/nix") || chars_eq_str(m, "/home") || chars_eq_str(
        m,
        "/var",
    ) || chars_eq_str(m, "/var/log") || chars_eq_str(m, "/boot")
}

/// A line of `df -P`: the mount (sixth field) and its capacity (fifth
/// field without its trailing `%`), for a watched mount whose capacity
/// parses.
pub open spec fn disk_usage(line: Seq<char>) -> Option<(Seq<char>, i64)> {
    let w = words(line);
    if w.len() >= 6 && watched_mount(w[5]) {
        match parse_i64(strip_trailing(w[4], '%')) {
            Some(cap) => Some((w[5], cap)),
            None => None,
        }
    } else {
        None
    }
}

fn disk_usage_of(line: &[char]) -> (r: Option<(Vec<char>, i64)>)
    ensures
        match disk_usage(line@) {
            Some((m, cap)) => r matches Some((v, c)) && v@ == m && c == cap,
            None => r is None,
        },
{
    let w = words_of(line);
    if w.len() >= 6 {
        let m = crate::text::copy_range(w[5].as_slice(), 0, w[5].len());
        assert(m@ =~= words(line@)[5]);
        if is_watched_mount(&m) {
            let c = strip_trailing_chars(w[4].as_slice(), '%');
            match parse_i64_chars(c.as_slice()) {
                Some(cap) => Some((m, cap)),
                None => None,
            }
        } else {
            None
        }
    } else {
        None
    }
}

/// `mount=cap%` for each watched mount at or above 95% (`critical`) or
/// from 85% up to 95% (not `critical`), in the order of the lines.
pub open spec fn disk_marks(ls: Seq<Seq<char>>, critical: bool) -> Seq<Seq<char>>
    decreases ls.len(),
{
    if ls.len() == 0 {
        Seq::empty()
    } else {
        let r = disk_marks(ls.drop_last(), critical);
        match disk_usage(ls.last()) {
            Some((m, cap)) => if (critical && cap >= 95) || (!critical && 85 <= cap < 95) {
                r.push(m + seq!['='] + dec(cap as nat) + seq!['%'])
            } else {
                r
            },
            None => r,
        }
    }
}

/// The lines of the `df -P` output after its header.
pub open spec fn df_body(content: Seq<char>) -> Seq<Seq<char>> {
    if lines(content).len() > 0 {
        lines(content).drop_first()
    } else {
        Seq::empty()
    }
}

/// The disk check from the output of `df -P`: fails listing the critical
/// mounts, else warns listing the high ones, else passes.
pub open spec fn disk_check_spec(content: Seq<char>) -> CheckView {
    let crit = disk_marks(df_body(content), true);
    let high = disk_marks(df_body(content), false);
    if crit.len() > 0 {
        cv("disk"@, "space"@, CheckStatus::Fail, "critico: "@ + join(crit, ", "@))
    } else if high.len() > 0 {
        cv("disk"@, "space"@, CheckStatus::Warn, "alto: "@ + join(high, ", "@))
    } else {
        cv("disk"@, "space"@, CheckStatus::Pass, "mounts criticos ok"@)
    }
}

fn disk_marks_of(body: &Vec<Vec<char>>) -> (r: (Vec<Vec<char>>, Vec<Vec<char>>))
    ensures
        views(r.0@) == disk_marks(views(body@), true),
        views(r.1@) == disk_marks(views(body@), false),
{
    let mut crit: Vec<Vec<char>> = Vec::new();
    let mut high: Vec<Vec<char>> = Vec::new();
    for i in 0..body.len()
        invariant
            views(crit@) == disk_marks(views(body@).take(i as int), true),
            views(high@) == disk_marks(views(body@).take(i as int), false),
    {
        assert(views(body@).take(i + 1).drop_last() =~= views(body@).take(i as int));
        assert(views(body@).take(i + 1).last() == body@[i as int]@);
        match disk_usage_of(body[i].as_slice()) {
            Some((m, cap)) => {
                if cap >= 85 {
                    let ghost mv = m@;
                    let mut e = m;
                    e.push('=');
                    push_dec(&mut e, cap as u64);
                    e.push('%');
                    assert((cap as u64) as nat == cap as nat);
                    assert(e@ =~= mv + seq!['='] + dec(cap as nat) + seq!['%']);
                    if cap >= 95 {
                        let ghost c0 = crit@;
                        crit.push(e);
                        assert(views(crit@) =~= views(c0).push(e@));
                    } else {
                        let ghost h0 = high@;
                        high.push(e);
                        assert(views(high@) =~= views(h0).push(e@));
                    }
                }
            },
            None => {},
        }
    }
    assert(views(body@).take(body@.len() as int) =~= views(body@));
    (crit, high)
}

/// The disk check; nothing is checked when `df` could not be run.
pub fn check_disk(checks: &mut Vec<CheckResult>, df: &Option<String>)
    ensures
        match *df {
            Some(c) => check_views(final(checks)@) == check_views(old(checks)@).push(
                disk_check_spec(c@),
            ),
            None => check_views(final(checks)@) == check_views(old(checks)@),
        },
{
    match df {
        Some(c) => {
            let v = chars_of(c.as_str());
            let ls = lines_of(v.as_slice());
            let mut body: Vec<Vec<char>> = Vec::new();
            if ls.len() > 0 {
                let mut i: usize = 1;
                while i < ls.len()
                    invariant
                        1 <= i <= ls@.len(),
                        views(body@) == views(ls@).subrange(1, i as int),
                    decreases ls.len() - i,
                {
                    let l = crate::text::copy_range(ls[i].as_slice(), 0, ls[i].len());
                    assert(l@ =~= ls@[i as int]@);
                    let ghost b0 = body@;
                    body.push(l);
                    assert(views(body@) =~= views(b0).push(l@));
                    assert(views(ls@).subrange(1, i + 1) =~= views(ls@).subrange(1, i as int).push(
                        views(ls@)[i as int],
                    ));
                    i += 1;
                }
                assert(views(body@) =~= views(ls@).drop_first());
            } else {
                assert(views(body@) =~= Seq::<Seq<char>>::empty());
            }
            let (crit, high) = disk_marks_of(&body);
            let sep = chars_of(", ");
            if crit.len() > 0 {
                let j = join_chars(&crit, sep.as_slice());
                push(checks, "disk", "space", CheckStatus::Fail, concat2("critico: ", j.as_slice()));
            } else if high.len() > 0 {
                let j = join_chars(&high, sep.as_slice());
                push(checks, "disk", "space", CheckStatus::Warn, concat2("alto: ", j.as_slice()));
            } else {
                push(checks, "disk", "space", CheckStatus::Pass, owned("mounts criticos ok"));
            }
        },
        None => {},
    }
}

// ── Security ────────────────────────────────────────────────────────────

pub open spec fn lockdown_check_spec(nix_wrapper: Option<String>) -> CheckView {
    let active = match nix_wrapper {
        Some(c) => contains(c@, "Kryonix Guard"@),
        None => false,
    };
    if active {
        cv("security"@, "lockdown"@, CheckStatus::Pass, "Kryonix Guard v2 ativo em home.packages"@)
    } else {
        cv("security"@, "lockdown"@, CheckStatus::Warn, "Kryonix Guard v2 nao detectado"@)
    }
}

pub open spec fn sudo_check_spec(sudo_mode: Option<u32>) -> CheckView {
    match sudo_mode {
        Some(mode) => if mode & 0o4000u32 != 0 {
            cv("security"@, "sudo-setuid"@, CheckStatus::Pass, "setuid bit presente"@)
        } else {
            cv(
                "security"@,
                "sudo-setuid"@,
                CheckStatus::Fail,
                "setuid bit ausente (nh escalation quebrada)"@,
            )
        },
        None => cv("security"@, "sudo-setuid"@, CheckStatus::Warn, "/run/wrappers/bin/sudo nao encontrado"@),
    }
}

/// The security checks: the Kryonix Guard wrapper in the user's `nix`
/// (its contents, when readable) and the setuid bit of `sudo` (its mode,
/// when it exists).
pub fn check_security(
    checks: &mut Vec<CheckResult>,
    nix_wrapper: &Option<String>,
    sudo_mode: Option<u32>,
)
    ensures
        check_views(final(checks)@) == check_views(old(checks)@) + seq![
            lockdown_check_spec(*nix_wrapper),
            sudo_check_spec(sudo_mode),
        ],
{
    let ghost start = check_views(checks@);
    let active = match nix_wrapper {
        Some(c) => text_has(c.as_str(), "Kryonix Guard"),
        None => false,
    };
    if active {
        push(checks, "security", "lockdown", CheckStatus::Pass, owned("Kryonix Guard v2 ativo em home.packages"));
    } else {
        push(checks, "security", "lockdown", CheckStatus::Warn, owned("Kryonix Guard v2 nao detectado"));
    }
    match sudo_mode {
        Some(mode) => {
            if mode & 0o4000u32 != 0 {
                push(checks, "security", "sudo-setuid", CheckStatus::Pass, owned("setuid bit presente"));
            } else {
                push(
                    checks,
                    "security",
                    "sudo-setuid",
                    CheckStatus::Fail,
                    owned("setuid bit ausente (nh escalation quebrada)"),
                );
            }
        },
        None => push(
            checks,
            "security",
            "sudo-setuid",
            CheckStatus::Warn,
            owned("/run/wrappers/bin/sudo nao encontrado"),
        ),
    }
    assert(check_views(checks@) =~= start + seq![
        lockdown_check_spec(*nix_wrapper),
        sudo_check_spec(sudo_mode),
    ]);
}

// ── CPU ─────────────────────────────────────────────────────────────────

/// The temperature check: above 90°C fails, above 80°C warns.
pub open spec fn temperature_check_spec(c: i64) -> CheckView {
    if c > 90 {
        cv("cpu"@, "temperature"@, CheckStatus::Fail, "CPU "@ + idec(c as int) + "C critico"@)
    } else if c > 80 {
        cv("cpu"@, "temperature"@, CheckStatus::Warn, "CPU "@ + idec(c as int) + "C alto"@)
    } else {
        cv("cpu"@, "temperature"@, CheckStatus::Pass, "CPU "@ + idec(c as int) + seq!['C'])
    }
}

/// The temperature check; nothing is checked when no sensor gave a reading.
pub fn check_cpu_temperature(checks: &mut Vec<CheckResult>, celsius: Option<i64>)
    ensures
        match celsius {
            Some(c) => check_views(final(checks)@) == check_views(old(checks)@).push(
                temperature_check_spec(c),
            ),
            None => check_views(final(checks)@) == check_views(old(checks)@),
        },
{
    if let Some(c) = celsius {
        let mut m = chars_of("CPU ");
        push_idec(&mut m, c);
        if c > 90 {
            push_str(&mut m, "C critico");
            assert(m@ =~= "CPU "@ + idec(c as int) + "C critico"@);
            push(checks, "cpu", "temperature", CheckStatus::Fail, string_from_chars(m.as_slice()));
        } else if c > 80 {
            push_str(&mut m, "C alto");
            assert(m@ =~= "CPU "@ + idec(c as int) + "C alto"@);
            push(checks, "cpu", "temperature", CheckStatus::Warn, string_from_chars(m.as_slice()));
        } else {
            m.push('C');
            assert(m@ =~= "CPU "@ + idec(c as int) + seq!['C']);
            push(checks, "cpu", "temperature", CheckStatus::Pass, string_from_chars(m.as_slice()));
        }
    }
}

/// The leading run of digits and dots of `s`.
pub open spec fn numeric_prefix(s: Seq<char>) -> Seq<char>
    decreases s.len(),
{
    if s.len() > 0 && (crate::text::is_digit(s[0]) || s[0] == '.') {
        seq![s[0]] + numeric_prefix(s.drop_first())
    } else {
        Seq::empty()
    }
}

/// A line of `sensors -A` that gives the package temperature (it names
/// `°C` and `Tctl` or `Package`) yields the number after its first `+`.
pub open spec fn sensor_reading(line: Seq<char>) -> Option<Seq<char>> {
    if contains(line, "°C"@) && (contains(line, "Tctl"@) || contains(line, "Package"@)) {
        match crate::text::find(line, seq!['+']) {
            Some(pos) => Some(numeric_prefix(line.subrange(pos + 1, line.len() as int))),
            None => None,
        }
    } else {
        None
    }
}

pub open spec fn sensor_readings_spec(ls: Seq<Seq<char>>) -> Seq<Seq<char>>
    decreases ls.len(),
{
    if ls.len() == 0 {
        Seq::empty()
    } else {
        let r = sensor_readings_spec(ls.drop_last());
        match sensor_reading(ls.last()) {
            Some(x) => r.push(x),
            None => r,
        }
    }
}

fn numeric_prefix_from(s: &[char], start: usize) -> (r: Vec<char>)
    requires
        start <= s@.len(),
    ensures
        r@ == numeric_prefix(s@.subrange(start as int, s@.len() as int)),
{
    let n = s.len();
    let mut j: usize = start;
    while j < n && (('0' <= s[j] && s[j] <= '9') || s[j] == '.')
        invariant
            start <= j <= n,
            n == s@.len(),
            numeric_prefix(s@.subrange(start as int, n as int)) == s@.subrange(start as int, j as int)
                + numeric_prefix(s@.subrange(j as int, n as int)),
        decreases n - j,
    {
        assert(s@.subrange(j as int, n as int).drop_first() =~= s@.subrange(j + 1, n as int));
        assert(s@.subrange(start as int, j + 1) =~= s@.subrange(start as int, j as int) + seq![
            s@[j as int],
        ]);
        j += 1;
    }
    copy_range(s, start, j)
}

fn sensor_reading_of(line: &[char]) -> (r: Option<Vec<char>>)
    ensures
        match sensor_reading(line@) {
            Some(x) => r matches Some(v) && v@ == x,
            None => r is None,
        },
{
    let deg = chars_of("°C");
    let tctl = chars_of("Tctl");
    let pkg = chars_of("Package");
    if has_infix(line, deg.as_slice()) && (has_infix(line, tctl.as_slice()) || has_infix(
        line,
        pkg.as_slice(),
    )) {
        let plus = vec!['+'];
        assert(plus@ =~= seq!['+']);
        match crate::text::find_in(line, plus.as_slice()) {
            Some(pos) => {
                assert(crate::text::occurs_at(line@, plus@, pos as int));
                assert(plus@.len() == 1);
                let n = line.len();
                assert(pos + 1 <= n);
                Some(numeric_prefix_from(line, pos + 1))
            },
            None => None,
        }
    } else {
        None
    }
}

/// The temperature readings of the output of `sensors -A`, in order; the
/// first one that parses as a number is the CPU temperature.
pub fn sensor_readings(output: &str) -> (r: Vec<String>)
    ensures
        crate::text::strs(r@) == sensor_readings_spec(lines(output@)),
{
    let v = chars_of(output);
    let ls = lines_of(v.as_slice());
    let mut out: Vec<String> = Vec::new();
    for i in 0..ls.len()
        invariant
            crate::text::strs(out@) == sensor_readings_spec(views(ls@).take(i as int)),
            views(ls@) == lines(output@),
    {
        assert(views(ls@).take(i + 1).drop_last() =~= views(ls@).take(i as int));
        assert(views(ls@).take(i + 1).last() == ls@[i as int]@);
        match sensor_reading_of(ls[i].as_slice()) {
            Some(x) => {
                let sx = string_from_chars(x.as_slice());
                proof {
                    crate::text::lemma_strs_push(out@, sx);
                }
                out.push(sx);
            },
            None => {},
        }
    }
    assert(views(ls@).take(ls@.len() as int) =~= views(ls@));
    out
}

/// Division by 1000 rounding toward zero, as `i64 / 1000` does.
pub open spec fn milli_to_unit(m: int) -> int {
    if m >= 0 {
        m / 1000
    } else {
        0 - ((0 - m) / 1000)
    }
}

/// The temperature in a thermal zone's `temp` file (millidegrees).
pub open spec fn thermal_celsius_spec(content: Seq<char>) -> Option<int> {
    match parse_i64(trim(content)) {
        Some(m) => Some(milli_to_unit(m as int)),
        None => None,
    }
}

pub fn thermal_celsius(content: &str) -> (r: Option<i64>)
    ensures
        match thermal_celsius_spec(content@) {
            Some(c) => r matches Some(x) && x as int == c,
            None => r is None,
        },
{
    let t = trimmed(content);
    match parse_i64_chars(t.as_slice()) {
        Some(m) => {
            if m >= 0 {
                Some(((m as u64) / 1000) as i64)
            } else {
                let a: u64 = (0i128 - (m as i128)) as u64;
                let q: u64 = a / 1000;
                assert(q <= 0x8000_0000_0000_0000u64 / 1000);
                Some(0 - (q as i64))
            }
        },
        None => None,
    }
}

// ── Host and probes ─────────────────────────────────────────────────────

/// The host name: the trimmed contents of `/etc/hostname`, or `unknown`
/// when it could not be read.
pub fn hostname_from(content: &Option<String>) -> (h: String)
    ensures
        h@ == match *content {
            Some(c) => trim(c@),
            None => "unknown"@,
        },
{
    match content {
        Some(c) => {
            let t = trimmed(c.as_str());
            string_from_chars(t.as_slice())
        },
        None => owned("unknown"),
    }
}

/// Whether a probe runs `nix`, which is resolved to the real binary in
/// the store so that the lockdown wrapper is bypassed.
pub fn wants_real_nix(command: &str) -> (b: bool)
    ensures
        b == (command@ == "nix"@),
{
    str_eq(command, "nix")
}

/// The program a probe runs: for `nix`, the real binary when one was
/// found.
pub fn resolve_command(command: &str, real_nix: Option<String>) -> (p: String)
    ensures
        p@ == (if command@ == "nix"@ && real_nix is Some {
            real_nix->0@
        } else {
            command@
        }),
{
    if str_eq(command, "nix") {
        match real_nix {
            Some(p) => p,
            None => owned(command),
        }
    } else {
        owned(command)
    }
}

/// The error of a probe that could not be started.
pub fn spawn_failure_message(command: &str, error: &str) -> (m: String)
    ensures
        m@ == "falha ao executar "@ + command@ + ": "@ + error@,
{
    let mut v = chars_of("falha ao executar ");
    push_str(&mut v, command);
    push_str(&mut v, ": ");
    push_str(&mut v, error);
    string_from_chars(v.as_slice())
}

/// The error of a probe that exited unsuccessfully: its trimmed stderr,
/// or its trimmed stdout when stderr is blank.
pub fn exit_failure_message(command: &str, status: &str, stderr: &str, stdout: &str) -> (m: String)
    ensures
        m@ == command@ + " saiu com "@ + status@ + ": "@ + (if trim(stderr@).len() > 0 {
            trim(stderr@)
        } else {
            trim(stdout@)
        }),
{
    let e = trimmed(stderr);
    let detail = if e.len() > 0 {
        e
    } else {
        trimmed(stdout)
    };
    let mut v = chars_of(command);
    push_str(&mut v, " saiu com ");
    push_str(&mut v, status);
    push_str(&mut v, ": ");
    push_all(&mut v, detail.as_slice());
    string_from_chars(v.as_slice())
}

// ── Report ──────────────────────────────────────────────────────────────

/// Counts of the report, and the exit code it implies.
#[derive(Debug, Clone, Copy)]
pub struct DoctorSummary {
    pub pass: usize,
    pub warn: usize,
    pub fail: usize,
    pub exit_code: i32,
}

/// The doctor's report.
#[derive(Debug)]
pub struct DoctorReport {
    pub host: String,
    pub role: Option<String>,
    pub edition: Option<String>,
    pub checks: Vec<CheckResult>,
    pub summary: DoctorSummary,
}

/// How many checks have the given status.
pub open spec fn count_status(v: Seq<CheckView>, st: CheckStatus) -> nat
    decreases v.len(),
{
    if v.len() == 0 {
        0
    } else {
        count_status(v.drop_last(), st) + if v.last().status == st {
            1nat
        } else {
            0nat
        }
    }
}

pub open spec fn opt_view(o: Option<String>) -> Option<Seq<char>> {
    match o {
        Some(s) => Some(s@),
        None => None,
    }
}

proof fn lemma_count_le(v: Seq<CheckView>, st: CheckStatus)
    ensures
        count_status(v, st) <= v.len(),
    decreases v.len(),
{
    if v.len() > 0 {
        lemma_count_le(v.drop_last(), st);
    }
}

/// Every check is counted once: the pass, warn and fail counts add up to
/// the number of checks.
pub proof fn law_summary_counts_every_check(v: Seq<CheckView>)
    ensures
        count_status(v, CheckStatus::Pass) + count_status(v, CheckStatus::Warn) + count_status(
            v,
            CheckStatus::Fail,
        ) == v.len(),
    decreases v.len(),
{
    if v.len() > 0 {
        law_summary_counts_every_check(v.drop_last());
    }
}

/// The fail count is positive exactly when some check failed.
pub proof fn law_failures_counted(v: Seq<CheckView>)
    ensures
        count_status(v, CheckStatus::Fail) > 0 <==> exists|i: int|
            0 <= i < v.len() && (#[trigger] v[i]).status == CheckStatus::Fail,
    decreases v.len(),
{
    if v.len() > 0 {
        law_failures_counted(v.drop_last());
        if count_status(v.drop_last(), CheckStatus::Fail) > 0 {
            let i = choose|i: int|
                0 <= i < v.drop_last().len() && (#[trigger] v.drop_last()[i]).status
                    == CheckStatus::Fail;
            assert(v[i] == v.drop_last()[i]);
        }
        if v.last().status == CheckStatus::Fail {
            assert(v[v.len() - 1].status == CheckStatus::Fail);
        }
        assert forall|i: int|
            0 <= i < v.len() - 1 && (#[trigger] v[i]).status == CheckStatus::Fail implies count_status(
            v.drop_last(),
            CheckStatus::Fail,
        ) > 0 by {
            assert(v.drop_last()[i] == v[i]);
        }
    }
}

fn count_of_status(checks: &Vec<CheckResult>, st: CheckStatus) -> (n: usize)
    ensures
        n == count_status(check_views(checks@), st),
{
    let mut n: usize = 0;
    for i in 0..checks.len()
        invariant
            n == count_status(check_views(checks@).take(i as int), st),
            n <= i,
    {
        assert(check_views(checks@).take(i + 1).drop_last() =~= check_views(checks@).take(i as int));
        assert(check_views(checks@).take(i + 1).last() == checks@[i as int]@);
        if checks[i].status == st {
            n += 1;
        }
    }
    assert(check_views(checks@).take(checks@.len() as int) =~= check_views(checks@));
    n
}

/// The report of the doctor for `host`: its identity's role and edition
/// (when it could be read), the checks as given, and their counts; the exit
/// code is 1 when a check failed.
pub fn build_report(host: String, identity: &Result<HostIdentity, String>, checks: Vec<CheckResult>) -> (r: DoctorReport)
    ensures
        r.host@ == host@,
        check_views(r.checks@) == check_views(checks@),
        r.summary.pass == count_status(check_views(checks@), CheckStatus::Pass),
        r.summary.warn == count_status(check_views(checks@), CheckStatus::Warn),
        r.summary.fail == count_status(check_views(checks@), CheckStatus::Fail),
        r.summary.exit_code == (if r.summary.fail > 0 {
            1i32
        } else {
            0i32
        }),
        opt_view(r.role) == (match *identity {
            Ok(id) => Some(role_name_spec(id.role)),
            Err(_) => None,
        }),
        opt_view(r.edition) == (match *identity {
            Ok(id) => Some(id.edition@),
            Err(_) => None,
        }),
{
    let pass = count_of_status(&checks, CheckStatus::Pass);
    let warn = count_of_status(&checks, CheckStatus::Warn);
    let fail = count_of_status(&checks, CheckStatus::Fail);
    let (role, edition) = match identity {
        Ok(id) => (Some(role_name(id.role)), Some(id.edition.clone())),
        Err(_) => (None, None),
    };
    DoctorReport {
        host,
        role,
        edition,
        checks,
        summary: DoctorSummary {
            pass,
            warn,
            fail,
            exit_code: if fail > 0 {
                1
            } else {
                0
            },
        },
    }
}

/// The result of `kryx doctor`: an error with the number of failed checks
/// when there is one.
pub fn doctor_outcome(summary: &DoctorSummary) -> (r: Result<(), String>)
    ensures
        summary.fail == 0 ==> r is Ok,
        summary.fail > 0 ==> (r matches Err(e) && e@ == "Doctor encontrou "@ + dec(
            summary.fail as nat,
        ) + " falha(s) crítica(s)."@),
{
    if summary.fail > 0 {
        let mut m = chars_of("Doctor encontrou ");
        push_dec(&mut m, summary.fail as u64);
        push_str(&mut m, " falha(s) crítica(s).");
        Err(string_from_chars(m.as_slice()))
    } else {
        Ok(())
    }
}

// ── The real `nix` binary ───────────────────────────────────────────────

/// A directory of the Nix store with the `bin/nix` inside it: the
/// directory's name, the binary's path and its size in bytes.
#[derive(Debug)]
pub struct StoreEntry {
    pub name: String,
    pub bin_path: String,
    pub size: u64,
}

/// Whether a store directory's name is that of a Nix 2 package.
pub open spec fn nix_store_name(name: Seq<char>) -> bool {
    contains(name, "-nix-2."@)
}

pub fn is_nix_store_name(name: &str) -> (b: bool)
    ensures
        b == nix_store_name(name@),
{
    text_has(name, "-nix-2.")
}

/// A real `nix` binary: in a Nix 2 package and at least 1 MB (the lockdown
/// wrappers are a few hundred bytes).
pub open spec fn real_nix_candidate(e: StoreEntry) -> bool {
    nix_store_name(e.name@) && e.size >= 1_000_000
}

/// The chosen binary: the greatest path among the candidates, or none.
pub open spec fn is_best_nix(entries: Seq<StoreEntry>, r: Option<Seq<char>>) -> bool {
    match r {
        None => forall|j: int| 0 <= j < entries.len() ==> !real_nix_candidate(#[trigger] entries[j]),
        Some(p) => (exists|k: int|
            0 <= k < entries.len() && real_nix_candidate(#[trigger] entries[k])
                && entries[k].bin_path@ == p) && forall|j: int|
            0 <= j < entries.len() && real_nix_candidate(#[trigger] entries[j])
                ==> !crate::text::lex_lt(p, entries[j].bin_path@),
    }
}

/// The real `nix` among the store's entries: the lexicographically last
/// path of a candidate.
pub fn pick_real_nix(entries: &Vec<StoreEntry>) -> (r: Option<String>)
    ensures
        is_best_nix(entries@, opt_view(r)),
{
    let mut best: Option<String> = None;
    for i in 0..entries.len()
        invariant
            is_best_nix(entries@.take(i as int), opt_view(best)),
    {
        let e = &entries[i];
        let ghost pre = entries@.take(i as int);
        assert(entries@.take(i + 1) =~= pre.push(entries@[i as int]));
        if is_nix_store_name(e.name.as_str()) && e.size >= 1_000_000 {
            let pv = chars_of(e.bin_path.as_str());
            let take = match &best {
                None => true,
                Some(b) => {
                    let bv = chars_of(b.as_str());
                    crate::text::lex_less(bv.as_slice(), pv.as_slice())
                },
            };
            if take {
                proof {
                    let post = entries@.take(i + 1);
                    assert(post[i as int] == entries@[i as int]);
                    if best is None {
                        {
                            assert forall|j: int|
                                0 <= j < post.len() && real_nix_candidate(#[trigger] post[j])
                                    implies !crate::text::lex_lt(e.bin_path@, post[j].bin_path@) by {
                                if j < i {
                                    assert(post[j] == pre[j]);
                                } else {
                                    crate::text::lemma_lex_lt_irreflexive(e.bin_path@);
                                }
                            }
                        }
                    } else {
                        let b = best->0;
                        {
                            assert forall|j: int|
                                0 <= j < post.len() && real_nix_candidate(#[trigger] post[j])
                                    implies !crate::text::lex_lt(e.bin_path@, post[j].bin_path@) by {
                                if j < i {
                                    assert(post[j] == pre[j]);
                                    if crate::text::lex_lt(e.bin_path@, post[j].bin_path@) {
                                        crate::text::lemma_lex_lt_transitive(
                                            b@,
                                            e.bin_path@,
                                            post[j].bin_path@,
                                        );
                                    }
                                } else {
                                    crate::text::lemma_lex_lt_irreflexive(e.bin_path@);
                                }
                            }
                        }
                    }
                }
                best = Some(e.bin_path.clone());
            } else {
                proof {
                    let post = entries@.take(i + 1);
                    let b = best->0;
                    let k = choose|k: int|
                        0 <= k < pre.len() && real_nix_candidate(#[trigger] pre[k])
                            && pre[k].bin_path@ == b@;
                    assert(post[k] == pre[k]);
                    assert forall|j: int|
                        0 <= j < post.len() && real_nix_candidate(#[trigger] post[j])
                            implies !crate::text::lex_lt(b@, post[j].bin_path@) by {
                        if j < i {
                            assert(post[j] == pre[j]);
                        }
                    }
                }
            }
        } else {
            proof {
                let post = entries@.take(i + 1);
                if best is None {
                    {
                        assert forall|j: int| 0 <= j < post.len() implies !real_nix_candidate(
                            #[trigger] post[j],
                        ) by {
                            if j < i {
                                assert(post[j] == pre[j]);
                            }
                        }
                    }
                } else {
                    let b = best->0;
                    {
                        let k = choose|k: int|
                            0 <= k < pre.len() && real_nix_candidate(#[trigger] pre[k])
                                && pre[k].bin_path@ == b@;
                        assert(post[k] == pre[k]);
                        assert forall|j: int|
                            0 <= j < post.len() && real_nix_candidate(#[trigger] post[j])
                                implies !crate::text::lex_lt(b@, post[j].bin_path@) by {
                            if j < i {
                                assert(post[j] == pre[j]);
                            }
                        }
                    }
                }
            }
        }
    }
    assert(entries@.take(entries@.len() as int) =~= entries@);
    best
}

// ── Memory ──────────────────────────────────────────────────────────────

/// The first line of `/proc/meminfo` that starts with `prefix` and whose
/// first field after it is a number gives the value (in kB).
pub open spec fn meminfo_value(ls: Seq<Seq<char>>, prefix: Seq<char>) -> Option<u64>
    decreases ls.len(),
{
    if ls.len() == 0 {
        None
    } else {
        let l = ls[0];
        let found = if starts_with(l, prefix) {
            let w = words(l.subrange(prefix.len() as int, l.len() as int));
            if w.len() > 0 {
                crate::text::parse_u64(w[0])
            } else {
                None
            }
        } else {
            None
        };
        match found {
            Some(v) => Some(v),
            None => meminfo_value(ls.drop_first(), prefix),
        }
    }
}

/// A value of `/proc/meminfo` (such as `MemTotal:`), in kB.
pub fn meminfo_kb(content: &str, prefix: &str) -> (r: Option<u64>)
    ensures
        r == meminfo_value(lines(content@), prefix@),
{
    let v = chars_of(content);
    let ls = lines_of(v.as_slice());
    let p = chars_of(prefix);
    let n = ls.len();
    let mut i: usize = 0;
    assert(views(ls@).subrange(0, n as int) =~= views(ls@));
    while i < n
        invariant
            i <= n,
            n == ls@.len(),
            views(ls@) == lines(content@),
            p@ == prefix@,
            meminfo_value(lines(content@), prefix@) == meminfo_value(
                views(ls@).subrange(i as int, n as int),
                prefix@,
            ),
        decreases n - i,
    {
        let ghost rest = views(ls@).subrange(i as int, n as int);
        assert(rest[0] == ls@[i as int]@);
        assert(rest.drop_first() =~= views(ls@).subrange(i + 1, n as int));
        let l = &ls[i];
        if crate::text::has_prefix(l.as_slice(), p.as_slice()) {
            let tail = copy_range(l.as_slice(), p.len(), l.len());
            let w = words_of(tail.as_slice());
            if w.len() > 0 {
                let r = crate::text::parse_u64_chars(w[0].as_slice());
                if r.is_some() {
                    return r;
                }
            }
        }
        i += 1;
    }
    None
}

// ── The human report ────────────────────────────────────────────────────

/// A line of the human report: the status tag, the category in a column
/// of 10, the name in a column of 20, then the message.
pub open spec fn check_row_spec(tag: Seq<char>, c: CheckView) -> Seq<char> {
    tag + seq![' '] + crate::text::pad_right(c.category, 10) + seq![' '] + crate::text::pad_right(
        c.name,
        20,
    ) + seq![' '] + c.message
}

pub fn check_row(tag: &str, check: &CheckResult) -> (s: String)
    ensures
        s@ == check_row_spec(tag@, check@),
{
    let mut v = chars_of(tag);
    v.push(' ');
    let c = chars_of(check.category.as_str());
    crate::text::push_padded(&mut v, c.as_slice(), 10);
    v.push(' ');
    let n = chars_of(check.name.as_str());
    crate::text::push_padded(&mut v, n.as_slice(), 20);
    v.push(' ');
    push_str(&mut v, check.message.as_str());
    assert(v@ =~= check_row_spec(tag@, check@));
    string_from_chars(v.as_slice())
}

/// The git check of a present repository warns exactly when `git status
/// -sb` lists a local change after the branch line, or the branch line
/// says the branch is ahead of or behind its remote (in English or
/// Spanish); otherwise it passes. Its message starts with the branch line.
pub proof fn law_git_check_warns_on_divergence(repo: Seq<char>, out: String)
    requires
        lines(out@).len() > 0,
    ensures
        git_check_spec(repo, true, Ok(out)).status == CheckStatus::Warn <==> (lines(out@).len()
            > 1 || contains(lines(out@)[0], "ahead"@) || contains(lines(out@)[0], "behind"@)
            || contains(lines(out@)[0], "adelante"@) || contains(lines(out@)[0], "detrás"@)),
        git_check_spec(repo, true, Ok(out)).status == CheckStatus::Pass <==> !(
        git_check_spec(repo, true, Ok(out)).status == CheckStatus::Warn),
        git_check_spec(repo, true, Ok(out)).message.take(lines(out@)[0].len() as int)
            == lines(out@)[0],
        git_check_spec(repo, true, Ok(out)).category == "git"@,
        git_check_spec(repo, true, Ok(out)).name == repo,
{
    let l0 = lines(out@)[0];
    let m = git_check_spec(repo, true, Ok(out)).message;
    if lines(out@).len() > 1 {
        assert(lines(out@).drop_first().len() > 0);
        assert((l0 + "; mudanças locais: "@ + join(lines(out@).drop_first(), "; "@)).take(
            l0.len() as int,
        ) =~= l0);
    } else {
        assert(m.take(l0.len() as int) =~= l0);
    }
}

} // verus!
