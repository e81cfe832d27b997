//! `kryx status`: what the dashboard shows, from the files and command
//! outputs that it reads (the reading and printing happen outside).
use vstd::prelude::*;
use crate::text::{
    after_prefix_in, after_prefix_of, chars_of, contains, dec, has_infix, has_prefix, join,
    join_chars, lines, lines_of, owned, push_all, push_dec, push_str, same_chars, starts_with,
    str_eq, string_from_chars, strs, trim, trim_chars, trim_matches, trim_matches_chars, views,
    words, words_of,
};

verus! {

/// How many lines of `zpool status` the dashboard shows.
pub const ZPOOL_LINES_SHOWN: usize = 30;

/// How many mounts the dashboard shows.
pub const MOUNTS_SHOWN: usize = 5;

// ── /etc/os-release ─────────────────────────────────────────────────────

/// `PRETTY_NAME` of `/etc/os-release`, without its quotes.
pub open spec fn pretty_name_spec(content: Seq<char>) -> Option<Seq<char>> {
    match after_prefix_in(lines(content), "PRETTY_NAME="@) {
        Some(rest) => Some(trim_matches(rest, '"')),
        None => None,
    }
}

/// `VERSION` of `/etc/os-release`, without its quotes.
pub open spec fn os_version_spec(content: Seq<char>) -> Option<Seq<char>> {
    match after_prefix_in(lines(content), "VERSION="@) {
        Some(rest) => Some(trim_matches(rest, '"')),
        None => None,
    }
}

fn unquoted_field(content: &str, prefix: &str) -> (r: Option<String>)
    ensures
        match after_prefix_in(lines(content@), prefix@) {
            Some(rest) => r matches Some(s) && s@ == trim_matches(rest, '"'),
            None => r is None,
        },
{
    let v = chars_of(content);
    let ls = lines_of(v.as_slice());
    match after_prefix_of(&ls, prefix) {
        Some(rest) => {
            let t = trim_matches_chars(rest.as_slice(), '"');
            Some(string_from_chars(t.as_slice()))
        },
        None => None,
    }
}

pub fn pretty_name(content: &str) -> (r: Option<String>)
    ensures
        match pretty_name_spec(content@) {
            Some(x) => r matches Some(s) && s@ == x,
            None => r is None,
        },
{
    unquoted_field(content, "PRETTY_NAME=")
}

pub fn os_version(content: &str) -> (r: Option<String>)
    ensures
        match os_version_spec(content@) {
            Some(x) => r matches Some(s) && s@ == x,
            None => r is None,
        },
{
    unquoted_field(content, "VERSION=")
}

// ── Host identity ───────────────────────────────────────────────────────

/// `key=value` for a line of the identity JSON whose key is `role` or
/// `edition` (the text around the first `:`, trimmed of blanks, commas and
/// quotes).
#[verifier::opaque]
pub open spec fn identity_entry(line: Seq<char>) -> Option<Seq<char>> {
    match crate::text::find(line, seq![':']) {
        Some(i) => {
            let key = trim_matches(trim(line.take(i)), '"');
            let val = trim_matches(
                trim_matches(trim(line.subrange(i + 1, line.len() as int)), ','),
                '"',
            );
            if key == "role"@ || key == "edition"@ {
                Some(key + seq!['='] + val)
            } else {
                None
            }
        },
        None => None,
    }
}

pub open spec fn identity_entries(ls: Seq<Seq<char>>) -> Seq<Seq<char>>
    decreases ls.len(),
{
    if ls.len() == 0 {
        Seq::empty()
    } else {
        let r = identity_entries(ls.drop_last());
        match identity_entry(ls.last()) {
            Some(e) => r.push(e),
            None => r,
        }
    }
}

/// The role and edition of the identity file, as one line.
pub open spec fn identity_summary_spec(content: Seq<char>) -> Option<Seq<char>> {
    let e = identity_entries(lines(content));
    if e.len() == 0 {
        None
    } else {
        Some(join(e, seq![' ']))
    }
}

fn identity_entry_of(line: &[char]) -> (r: Option<Vec<char>>)
    ensures
        match identity_entry(line@) {
            Some(x) => r matches Some(v) && v@ == x,
            None => r is None,
        },
{
    reveal(identity_entry);
    let colon = vec![':'];
    assert(colon@ =~= seq![':']);
    match crate::text::find_in(line, colon.as_slice()) {
        Some(i) => {
            let n = line.len();
            assert(crate::text::occurs_at(line@, colon@, i as int));
            let k = crate::text::copy_range(line, 0, i);
            assert(k@ =~= line@.take(i as int));
            let kt = trim_chars(k.as_slice());
            let key = trim_matches_chars(kt.as_slice(), '"');
            let v = crate::text::copy_range(line, i + 1, n);
            let vt = trim_chars(v.as_slice());
            let vc = trim_matches_chars(vt.as_slice(), ',');
            let val = trim_matches_chars(vc.as_slice(), '"');
            let role = chars_of("role");
            let edition = chars_of("edition");
            if same_chars(key.as_slice(), role.as_slice()) || same_chars(
                key.as_slice(),
                edition.as_slice(),
            ) {
                let mut e = key;
                e.push('=');
                push_all(&mut e, val.as_slice());
                Some(e)
            } else {
                None
            }
        },
        None => None,
    }
}

/// The `role=… edition=…` summary of the host identity file.
pub fn identity_summary(content: &str) -> (r: Option<String>)
    ensures
        match identity_summary_spec(content@) {
            Some(x) => r matches Some(s) && s@ == x,
            None => r is None,
        },
{
    let v = chars_of(content);
    let ls = lines_of(v.as_slice());
    let mut out: Vec<Vec<char>> = Vec::new();
    for i in 0..ls.len()
        invariant
            views(out@) == identity_entries(views(ls@).take(i as int)),
    {
        assert(views(ls@).take(i + 1).drop_last() =~= views(ls@).take(i as int));
        assert(views(ls@).take(i + 1).last() == ls@[i as int]@);
        match identity_entry_of(ls[i].as_slice()) {
            Some(e) => {
                let ghost o0 = out@;
                out.push(e);
                assert(views(out@) =~= views(o0).push(e@));
            },
            None => {},
        }
    }
    assert(views(ls@).take(ls@.len() as int) =~= views(ls@));
    if out.len() == 0 {
        None
    } else {
        let sep = vec![' '];
        assert(sep@ =~= seq![' ']);
        let j = join_chars(&out, sep.as_slice());
        Some(string_from_chars(j.as_slice()))
    }
}

// ── CPU ─────────────────────────────────────────────────────────────────

/// The load averages and the number of cores.
pub open spec fn loadavg_spec(content: Seq<char>, cores: usize) -> Option<Seq<char>> {
    let w = words(content);
    if w.len() >= 3 {
        Some(w[0] + seq![' '] + w[1] + seq![' '] + w[2] + " (cores: "@ + dec(cores as nat) + seq![')'])
    } else {
        None
    }
}

pub fn loadavg_summary(content: &str, cores: usize) -> (r: Option<String>)
    ensures
        match loadavg_spec(content@, cores) {
            Some(x) => r matches Some(s) && s@ == x,
            None => r is None,
        },
{
    let v = chars_of(content);
    let w = words_of(v.as_slice());
    if w.len() >= 3 {
        let mut m = crate::text::copy_range(w[0].as_slice(), 0, w[0].len());
        m.push(' ');
        push_all(&mut m, w[1].as_slice());
        m.push(' ');
        push_all(&mut m, w[2].as_slice());
        push_str(&mut m, " (cores: ");
        push_dec(&mut m, cores as u64);
        m.push(')');
        assert(m@ =~= words(content@)[0] + seq![' '] + words(content@)[1] + seq![' '] + words(
            content@,
        )[2] + " (cores: "@ + dec(cores as nat) + seq![')']);
        Some(string_from_chars(m.as_slice()))
    } else {
        None
    }
}

/// `model name` of `/proc/cpuinfo`.
pub open spec fn cpu_model_spec(content: Seq<char>) -> Option<Seq<char>> {
    match after_prefix_in(lines(content), "model name"@) {
        Some(rest) => Some(trim(crate::text::strip_leading(rest, ':'))),
        None => None,
    }
}

pub fn cpu_model(content: &str) -> (r: Option<String>)
    ensures
        match cpu_model_spec(content@) {
            Some(x) => r matches Some(s) && s@ == x,
            None => r is None,
        },
{
    let v = chars_of(content);
    let ls = lines_of(v.as_slice());
    match after_prefix_of(&ls, "model name") {
        Some(rest) => {
            let a = crate::text::strip_leading_chars(rest.as_slice(), ':');
            let t = trim_chars(a.as_slice());
            Some(string_from_chars(t.as_slice()))
        },
        None => None,
    }
}

/// The package-temperature line of `sensors -A`, trimmed.
pub open spec fn sensor_line_spec(ls: Seq<Seq<char>>) -> Option<Seq<char>>
    decreases ls.len(),
{
    if ls.len() == 0 {
        None
    } else if contains(ls[0], "°C"@) && (contains(ls[0], "Tctl"@) || contains(ls[0], "Package"@)) {
        Some(trim(ls[0]))
    } else {
        sensor_line_spec(ls.drop_first())
    }
}

pub fn sensor_line(output: &str) -> (r: Option<String>)
    ensures
        match sensor_line_spec(lines(output@)) {
            Some(x) => r matches Some(s) && s@ == x,
            None => r is None,
        },
{
    let v = chars_of(output);
    let ls = lines_of(v.as_slice());
    let deg = chars_of("°C");
    let tctl = chars_of("Tctl");
    let pkg = chars_of("Package");
    let n = ls.len();
    let mut i: usize = 0;
    assert(views(ls@).subrange(0, n as int) =~= views(ls@));
    while i < n
        invariant
            i <= n,
            n == ls@.len(),
            views(ls@) == lines(output@),
            deg@ == "°C"@,
            tctl@ == "Tctl"@,
            pkg@ == "Package"@,
            sensor_line_spec(lines(output@)) == sensor_line_spec(
                views(ls@).subrange(i as int, n as int),
            ),
        decreases n - i,
    {
        let ghost rest = views(ls@).subrange(i as int, n as int);
        assert(rest[0] == ls@[i as int]@);
        assert(rest.drop_first() =~= views(ls@).subrange(i + 1, n as int));
        let l = ls[i].as_slice();
        if has_infix(l, deg.as_slice()) && (has_infix(l, tctl.as_slice()) || has_infix(
            l,
            pkg.as_slice(),
        )) {
            let t = trim_chars(l);
            return Some(string_from_chars(t.as_slice()));
        }
        i += 1;
    }
    None
}

// ── Network ─────────────────────────────────────────────────────────────

/// `interface=address/prefix` for each line of `ip -o -4 addr show` with at
/// least four fields.
pub open spec fn interfaces_in(ls: Seq<Seq<char>>) -> Seq<Seq<char>>
    decreases ls.len(),
{
    if ls.len() == 0 {
        Seq::empty()
    } else {
        let r = interfaces_in(ls.drop_last());
        let w = words(ls.last());
        if w.len() >= 4 {
            r.push(w[1] + seq!['='] + w[3])
        } else {
            r
        }
    }
}

pub fn interfaces(output: &str) -> (r: Vec<String>)
    ensures
        strs(r@) == interfaces_in(lines(output@)),
{
    let v = chars_of(output);
    let ls = lines_of(v.as_slice());
    let mut out: Vec<String> = Vec::new();
    for i in 0..ls.len()
        invariant
            views(ls@) == lines(output@),
            strs(out@) == interfaces_in(views(ls@).take(i as int)),
    {
        assert(views(ls@).take(i + 1).drop_last() =~= views(ls@).take(i as int));
        assert(views(ls@).take(i + 1).last() == ls@[i as int]@);
        let w = words_of(ls[i].as_slice());
        if w.len() >= 4 {
            let mut e = crate::text::copy_range(w[1].as_slice(), 0, w[1].len());
            e.push('=');
            push_all(&mut e, w[3].as_slice());
            let s = string_from_chars(e.as_slice());
            assert(s@ =~= words(ls@[i as int]@)[1] + seq!['='] + words(ls@[i as int]@)[3]);
            proof {
                crate::text::lemma_strs_push(out@, s);
            }
            out.push(s);
        }
    }
    assert(views(ls@).take(ls@.len() as int) =~= views(ls@));
    out
}

/// The first line of the output (the default route).
pub open spec fn first_line_spec(output: Seq<char>) -> Option<Seq<char>> {
    if lines(output).len() > 0 {
        Some(lines(output)[0])
    } else {
        None
    }
}

pub fn first_line(output: &str) -> (r: Option<String>)
    ensures
        match first_line_spec(output@) {
            Some(x) => r matches Some(s) && s@ == x,
            None => r is None,
        },
{
    let v = chars_of(output);
    let ls = lines_of(v.as_slice());
    if ls.len() > 0 {
        Some(string_from_chars(ls[0].as_slice()))
    } else {
        None
    }
}

/// The addresses of the `nameserver` lines, in order.
pub open spec fn nameservers_in(ls: Seq<Seq<char>>) -> Seq<Seq<char>>
    decreases ls.len(),
{
    if ls.len() == 0 {
        Seq::empty()
    } else {
        let r = nameservers_in(ls.drop_last());
        if starts_with(ls.last(), "nameserver "@) {
            r.push(ls.last().subrange(11, ls.last().len() as int))
        } else {
            r
        }
    }
}

/// The first two nameservers of `/etc/resolv.conf`, joined by a space
/// (`None` when there is none).
pub open spec fn dns_summary_spec(content: Seq<char>) -> Option<Seq<char>> {
    let ns = nameservers_in(lines(content));
    if ns.len() == 0 {
        None
    } else if ns.len() <= 2 {
        Some(join(ns, seq![' ']))
    } else {
        Some(join(ns.take(2), seq![' ']))
    }
}

pub fn dns_summary(content: &str) -> (r: Option<String>)
    ensures
        match dns_summary_spec(content@) {
            Some(x) => r matches Some(s) && s@ == x,
            None => r is None,
        },
{
    let v = chars_of(content);
    let ls = lines_of(v.as_slice());
    let p = chars_of("nameserver ");
    proof {
        reveal_strlit("nameserver ");
    }
    let mut out: Vec<Vec<char>> = Vec::new();
    for i in 0..ls.len()
        invariant
            p@ == "nameserver "@,
            p@.len() == 11,
            views(out@) == nameservers_in(views(ls@).take(i as int)),
    {
        assert(views(ls@).take(i + 1).drop_last() =~= views(ls@).take(i as int));
        assert(views(ls@).take(i + 1).last() == ls@[i as int]@);
        if has_prefix(ls[i].as_slice(), p.as_slice()) {
            let e = crate::text::copy_range(ls[i].as_slice(), 11, ls[i].len());
            let ghost o0 = out@;
            out.push(e);
            assert(views(out@) =~= views(o0).push(e@));
        }
    }
    assert(views(ls@).take(ls@.len() as int) =~= views(ls@));
    if out.len() == 0 {
        return None;
    }
    if out.len() > 2 {
        out.truncate(2);
        assert(views(out@) =~= nameservers_in(lines(content@)).take(2));
    }
    let sep = vec![' '];
    assert(sep@ =~= seq![' ']);
    let j = join_chars(&out, sep.as_slice());
    Some(string_from_chars(j.as_slice()))
}

// ── Storage ─────────────────────────────────────────────────────────────

/// The lines of `df -h` after its header that mention a watched mount
/// (`/nix`, `/home`, `/var`, `/boot`).
pub open spec fn disk_lines_in(ls: Seq<Seq<char>>) -> Seq<Seq<char>>
    decreases ls.len(),
{
    if ls.len() == 0 {
        Seq::empty()
    } else {
        let r = disk_lines_in(ls.drop_last());
        let l = ls.last();
        if contains(l, "/nix"@) || contains(l, "/home"@) || contains(l, "/var"@) || contains(
            l,
            "/boot"@,
        ) {
            r.push(l)
        } else {
            r
        }
    }
}

pub open spec fn disk_lines_spec(output: Seq<char>) -> Seq<Seq<char>> {
    if lines(output).len() > 0 {
        disk_lines_in(lines(output).drop_first())
    } else {
        Seq::empty()
    }
}

pub fn disk_lines(output: &str) -> (r: Vec<String>)
    ensures
        strs(r@) == disk_lines_spec(output@),
{
    let v = chars_of(output);
    let ls = lines_of(v.as_slice());
    let mut out: Vec<String> = Vec::new();
    if ls.len() == 0 {
        return out;
    }
    let ghost body = views(ls@).drop_first();
    let nix = chars_of("/nix");
    let home = chars_of("/home");
    let var = chars_of("/var");
    let boot = chars_of("/boot");
    let mut i: usize = 1;
    while i < ls.len()
        invariant
            1 <= i <= ls@.len(),
            body == views(ls@).drop_first(),
            nix@ == "/nix"@,
            home@ == "/home"@,
            var@ == "/var"@,
            boot@ == "/boot"@,
            strs(out@) == disk_lines_in(body.take(i - 1)),
        decreases ls.len() - i,
    {
        assert(body.take(i as int).drop_last() =~= body.take(i - 1));
        assert(body.take(i as int).last() == ls@[i as int]@);
        let l = ls[i].as_slice();
        if has_infix(l, nix.as_slice()) || has_infix(l, home.as_slice()) || has_infix(
            l,
            var.as_slice(),
        ) || has_infix(l, boot.as_slice()) {
            let s = string_from_chars(l);
            proof {
                crate::text::lemma_strs_push(out@, s);
            }
            out.push(s);
        }
        i += 1;
    }
    assert(body.take(body.len() as int) =~= body);
    out
}

// ── Containers ──────────────────────────────────────────────────────────

pub open spec fn running_in(ls: Seq<Seq<char>>) -> nat
    decreases ls.len(),
{
    if ls.len() == 0 {
        0
    } else {
        running_in(ls.drop_last()) + if contains(ls.last(), "RUNNING"@) || contains(
            ls.last(),
            "running"@,
        ) {
            1nat
        } else {
            0nat
        }
    }
}

/// `running/total running` from `incus list --format=csv` (the total is
/// the number of lines less one, not below zero).
pub open spec fn incus_summary_spec(output: Seq<char>) -> Seq<char> {
    let n = lines(output).len();
    let total: nat = if n > 0 {
        (n - 1) as nat
    } else {
        0
    };
    dec(running_in(lines(output))) + seq!['/'] + dec(total) + " running"@
}

proof fn lemma_running_le(ls: Seq<Seq<char>>)
    ensures
        running_in(ls) <= ls.len(),
    decreases ls.len(),
{
    if ls.len() > 0 {
        lemma_running_le(ls.drop_last());
    }
}

pub fn incus_summary(output: &str) -> (s: String)
    ensures
        s@ == incus_summary_spec(output@),
{
    let v = chars_of(output);
    let ls = lines_of(v.as_slice());
    let up = chars_of("RUNNING");
    let low = chars_of("running");
    let mut running: usize = 0;
    for i in 0..ls.len()
        invariant
            up@ == "RUNNING"@,
            low@ == "running"@,
            running == running_in(views(ls@).take(i as int)),
            running <= i,
    {
        assert(views(ls@).take(i + 1).drop_last() =~= views(ls@).take(i as int));
        assert(views(ls@).take(i + 1).last() == ls@[i as int]@);
        if has_infix(ls[i].as_slice(), up.as_slice()) || has_infix(ls[i].as_slice(), low.as_slice()) {
            running += 1;
        }
    }
    assert(views(ls@).take(ls@.len() as int) =~= views(ls@));
    let total: usize = if ls.len() > 0 {
        ls.len() - 1
    } else {
        0
    };
    let mut m: Vec<char> = Vec::new();
    push_dec(&mut m, running as u64);
    m.push('/');
    push_dec(&mut m, total as u64);
    push_str(&mut m, " running");
    assert(m@ =~= incus_summary_spec(output@));
    string_from_chars(m.as_slice())
}

/// `n rodando` from `podman ps` (one line per container).
pub fn podman_summary(output: &str) -> (s: String)
    ensures
        s@ == dec(lines(output@).len()) + " rodando"@,
{
    let v = chars_of(output);
    let ls = lines_of(v.as_slice());
    let mut m: Vec<char> = Vec::new();
    push_dec(&mut m, ls.len() as u64);
    push_str(&mut m, " rodando");
    string_from_chars(m.as_slice())
}

// ── Kernel, uptime, units ───────────────────────────────────────────────

/// The running kernel (trimmed `/proc/sys/kernel/osrelease`), or `?`.
pub fn kernel_release(content: &Option<String>) -> (s: String)
    ensures
        s@ == match *content {
            Some(c) => trim(c@),
            None => "?"@,
        },
{
    match content {
        Some(c) => {
            let v = chars_of(c.as_str());
            let t = trim_chars(v.as_slice());
            string_from_chars(t.as_slice())
        },
        None => owned("?"),
    }
}

/// Uptime in seconds as `Nd Nh Nm`, `Nh Nm` or `Nm`.
pub open spec fn uptime_format(secs: nat) -> Seq<char> {
    let d = secs / 86400;
    let h = (secs % 86400) / 3600;
    let m = (secs % 3600) / 60;
    if d > 0 {
        dec(d) + "d "@ + dec(h) + "h "@ + dec(m) + seq!['m']
    } else if h > 0 {
        dec(h) + "h "@ + dec(m) + seq!['m']
    } else {
        dec(m) + seq!['m']
    }
}

/// The uptime of `/proc/uptime` (its first field, read as whole seconds),
/// or `?` when it cannot be read.
pub open spec fn uptime_spec(content: Option<String>) -> Seq<char> {
    match content {
        Some(c) => {
            let w = words(c@);
            if w.len() > 0 {
                match crate::text::parse_u64(w[0]) {
                    Some(secs) => uptime_format(secs as nat),
                    None => "?"@,
                }
            } else {
                "?"@
            }
        },
        None => "?"@,
    }
}

pub fn uptime_text(content: &Option<String>) -> (s: String)
    ensures
        s@ == uptime_spec(*content),
{
    match content {
        Some(c) => {
            let v = chars_of(c.as_str());
            let w = words_of(v.as_slice());
            if w.len() > 0 {
                match crate::text::parse_u64_chars(w[0].as_slice()) {
                    Some(secs) => {
                        let d = secs / 86400;
                        let h = (secs % 86400) / 3600;
                        let m = (secs % 3600) / 60;
                        let mut out: Vec<char> = Vec::new();
                        if d > 0 {
                            push_dec(&mut out, d);
                            push_str(&mut out, "d ");
                            push_dec(&mut out, h);
                            push_str(&mut out, "h ");
                        } else if h > 0 {
                            push_dec(&mut out, h);
                            push_str(&mut out, "h ");
                        }
                        push_dec(&mut out, m);
                        out.push('m');
                        assert(out@ =~= uptime_format(secs as nat));
                        string_from_chars(out.as_slice())
                    },
                    None => owned("?"),
                }
            } else {
                owned("?")
            }
        },
        None => owned("?"),
    }
}

/// The state `systemctl is-active` printed, trimmed; `?` when it printed
/// nothing or could not be run.
pub fn unit_state(stdout: &Option<String>) -> (s: String)
    ensures
        s@ == match *stdout {
            Some(o) => if trim(o@).len() > 0 {
                trim(o@)
            } else {
                "?"@
            },
            None => "?"@,
        },
{
    match stdout {
        Some(o) => {
            let v = chars_of(o.as_str());
            let t = trim_chars(v.as_slice());
            if t.len() > 0 {
                string_from_chars(t.as_slice())
            } else {
                owned("?")
            }
        },
        None => owned("?"),
    }
}

/// How a unit state is painted.
#[derive(Debug, Clone, Copy, PartialEq, Eq, Structural)]
pub enum StateTone {
    Good,
    Idle,
    Bad,
    Busy,
    Plain,
}

pub open spec fn state_tone_spec(state: Seq<char>) -> StateTone {
    if state == "active"@ {
        StateTone::Good
    } else if state == "inactive"@ || state == "dead"@ {
        StateTone::Idle
    } else if state == "failed"@ {
        StateTone::Bad
    } else if state == "activating"@ || state == "reloading"@ {
        StateTone::Busy
    } else {
        StateTone::Plain
    }
}

/// Green for `active`, dim for `inactive`/`dead`, red for `failed`, yellow
/// for `activating`/`reloading`, plain otherwise.
pub fn state_tone(state: &str) -> (t: StateTone)
    ensures
        t == state_tone_spec(state@),
{
    if str_eq(state, "active") {
        StateTone::Good
    } else if str_eq(state, "inactive") || str_eq(state, "dead") {
        StateTone::Idle
    } else if str_eq(state, "failed") {
        StateTone::Bad
    } else if str_eq(state, "activating") || str_eq(state, "reloading") {
        StateTone::Busy
    } else {
        StateTone::Plain
    }
}

/// Whether the dashboard shows Podman (its unit exists and is not
/// inactive).
pub fn shows_podman(state: &str) -> (b: bool)
    ensures
        b == (state@ != "?"@ && state@ != "inactive"@),
{
    !str_eq(state, "?") && !str_eq(state, "inactive")
}

/// Whether the Incus containers are counted (only when its unit is
/// active).
pub fn shows_incus_containers(state: &str) -> (b: bool)
    ensures
        b == (state@ == "active"@),
{
    str_eq(state, "active")
}

/// Whether a Kryonix unit is listed (its state could be read).
pub fn shows_unit(state: &str) -> (b: bool)
    ensures
        b == (state@ != "?"@),
{
    !str_eq(state, "?")
}

/// The Kryonix units listed under "Serviços Kryonix".
pub open spec fn kryonix_units_spec() -> Seq<Seq<char>> {
    seq!["kryxd.service"@, "kryx-telemetry.service"@]
}

pub fn kryonix_units() -> (u: Vec<String>)
    ensures
        strs(u@) == kryonix_units_spec(),
{
    let u = vec![owned("kryxd.service"), owned("kryx-telemetry.service")];
    assert(strs(u@) =~= kryonix_units_spec());
    u
}

/// A unit's name without its `.service` suffix (every trailing copy).
pub open spec fn unit_display_name(unit: Seq<char>) -> Seq<char>
    decreases unit.len(),
{
    if unit.len() >= 8 && unit.subrange(unit.len() - 8, unit.len() as int) == ".service"@ {
        unit_display_name(unit.take(unit.len() - 8))
    } else {
        unit
    }
}

fn service_suffix_at(v: &[char], j: usize) -> (b: bool)
    requires
        j <= v@.len(),
    ensures
        b == (j >= 8 && v@.take(j as int).subrange(j - 8, j as int) == ".service"@),
{
    if j < 8 {
        return false;
    }
    let tail = crate::text::copy_range(v, j - 8, j);
    assert(tail@ =~= v@.take(j as int).subrange(j - 8, j as int));
    crate::text::str_eq(string_from_chars(tail.as_slice()).as_str(), ".service")
}

pub fn unit_display(unit: &str) -> (s: String)
    ensures
        s@ == unit_display_name(unit@),
{
    let v = chars_of(unit);
    let mut j: usize = v.len();
    assert(v@.take(j as int) =~= v@);
    while service_suffix_at(v.as_slice(), j)
        invariant
            j <= v@.len(),
            v@ == unit@,
            unit_display_name(unit@) == unit_display_name(v@.take(j as int)),
        decreases j,
    {
        assert(v@.take(j as int).take(j - 8) =~= v@.take(j - 8));
        j -= 8;
    }
    let r = crate::text::copy_range(v.as_slice(), 0, j);
    assert(r@ =~= v@.take(j as int));
    string_from_chars(r.as_slice())
}

// ── ZFS pools ───────────────────────────────────────────────────────────

/// How a line of `zpool status` is painted: red when a pool is degraded or
/// faulted, green when online, plain otherwise.
#[derive(Debug, Clone, Copy, PartialEq, Eq, Structural)]
pub enum PoolTone {
    Alarm,
    Healthy,
    Plain,
}

pub open spec fn pool_tone_spec(line: Seq<char>) -> PoolTone {
    if contains(line, "DEGRADED"@) || contains(line, "FAULTED"@) {
        PoolTone::Alarm
    } else if contains(line, "ONLINE"@) {
        PoolTone::Healthy
    } else {
        PoolTone::Plain
    }
}

pub fn pool_tone(line: &str) -> (t: PoolTone)
    ensures
        t == pool_tone_spec(line@),
{
    let v = chars_of(line);
    let d = chars_of("DEGRADED");
    let f = chars_of("FAULTED");
    let o = chars_of("ONLINE");
    if has_infix(v.as_slice(), d.as_slice()) || has_infix(v.as_slice(), f.as_slice()) {
        PoolTone::Alarm
    } else if has_infix(v.as_slice(), o.as_slice()) {
        PoolTone::Healthy
    } else {
        PoolTone::Plain
    }
}

/// A line as painted for its tone (colours on or off).
pub open spec fn painted_line(line: Seq<char>, r: Seq<char>) -> bool {
    match pool_tone_spec(line) {
        PoolTone::Alarm => crate::ui::style_outcome(line, "31"@, r),
        PoolTone::Healthy => crate::ui::style_outcome(line, "32"@, r),
        PoolTone::Plain => r == line,
    }
}

/// The painted lines, each followed by a newline.
pub open spec fn painted_text(rs: Seq<Seq<char>>) -> Seq<char>
    decreases rs.len(),
{
    if rs.len() == 0 {
        Seq::empty()
    } else {
        painted_text(rs.drop_last()) + rs.last() + seq!['\n']
    }
}

/// `zpool status` with each line painted by its tone.
pub fn render_zpool_status(raw: &str) -> (s: String)
    ensures
        exists|rs: Seq<Seq<char>>|
            rs.len() == lines(raw@).len() && (forall|i: int|
                0 <= i < rs.len() ==> painted_line(lines(raw@)[i], #[trigger] rs[i]))
                && s@ == painted_text(rs),
{
    let v = chars_of(raw);
    let ls = lines_of(v.as_slice());
    let mut out: Vec<char> = Vec::new();
    let ghost mut rs: Seq<Seq<char>> = Seq::empty();
    for i in 0..ls.len()
        invariant
            views(ls@) == lines(raw@),
            rs.len() == i,
            forall|j: int| 0 <= j < i ==> painted_line(lines(raw@)[j], #[trigger] rs[j]),
            out@ == painted_text(rs),
    {
        let line = string_from_chars(ls[i].as_slice());
        let r = match pool_tone(line.as_str()) {
            PoolTone::Alarm => crate::ui::paint_red(line.as_str()),
            PoolTone::Healthy => crate::ui::paint_green(line.as_str()),
            PoolTone::Plain => line.clone(),
        };
        assert(painted_line(lines(raw@)[i as int], r@));
        push_str(&mut out, r.as_str());
        out.push('\n');
        proof {
            let old_rs = rs;
            rs = rs.push(r@);
            assert(rs.drop_last() =~= old_rs);
            assert forall|j: int| 0 <= j < i + 1 implies painted_line(
                lines(raw@)[j],
                #[trigger] rs[j],
            ) by {
                if j < i {
                    assert(rs[j] == old_rs[j]);
                }
            }
        }
    }
    string_from_chars(out.as_slice())
}

// ── Security ────────────────────────────────────────────────────────────

/// Whether the user's `nix` is the Kryonix Guard wrapper (its contents,
/// when it could be read).
pub fn lockdown_active(nix_wrapper: &Option<String>) -> (b: bool)
    ensures
        b == match *nix_wrapper {
            Some(c) => contains(c@, "Kryonix Guard"@),
            None => false,
        },
{
    match nix_wrapper {
        Some(c) => {
            let v = chars_of(c.as_str());
            let p = chars_of("Kryonix Guard");
            has_infix(v.as_slice(), p.as_slice())
        },
        None => false,
    }
}

/// Whether a file mode has the setuid bit.
pub fn has_setuid(mode: u32) -> (b: bool)
    ensures
        b == (mode & 0o4000u32 != 0),
{
    mode & 0o4000u32 != 0
}

/// A `df` line shown on the dashboard: one that mentions `/nix`,
/// `/home`, `/var` or `/boot`.
pub open spec fn watched_mount(l: Seq<char>) -> bool {
    contains(l, "/nix"@) || contains(l, "/home"@) || contains(l, "/var"@) || contains(l, "/boot"@)
}

proof fn lemma_disk_lines_filter(ls: Seq<Seq<char>>)
    ensures
        disk_lines_in(ls) == ls.filter(|l: Seq<char>| watched_mount(l)),
    decreases ls.len(),
{
    reveal(Seq::filter);
    if ls.len() > 0 {
        lemma_disk_lines_filter(ls.drop_last());
    }
}

/// The dashboard's disk lines are exactly the lines of `df` after its
/// header that mention `/nix`, `/home`, `/var` or `/boot`, in the order
/// `df` printed them: every such line is shown, and nothing else is.
pub proof fn law_disk_lines_are_the_watched_mounts(output: Seq<char>)
    ensures
        lines(output).len() > 0 ==> disk_lines_spec(output) == lines(output).drop_first().filter(
            |l: Seq<char>| watched_mount(l),
        ),
        forall|i: int|
            1 <= i < lines(output).len() && watched_mount(#[trigger] lines(output)[i])
                ==> disk_lines_spec(output).contains(lines(output)[i]),
        forall|k: int|
            0 <= k < disk_lines_spec(output).len() ==> watched_mount(
                #[trigger] disk_lines_spec(output)[k],
            ) && lines(output).drop_first().contains(disk_lines_spec(output)[k]),
        lines(output).len() == 0 ==> disk_lines_spec(output).len() == 0,
{
    if lines(output).len() > 0 {
        let body = lines(output).drop_first();
        let pred = |l: Seq<char>| watched_mount(l);
        lemma_disk_lines_filter(body);
        assert forall|i: int|
            1 <= i < lines(output).len() && watched_mount(#[trigger] lines(output)[i])
                implies disk_lines_spec(output).contains(lines(output)[i]) by {
            assert(body[i - 1] == lines(output)[i]);
            assert(pred(body[i - 1]));
            body.lemma_filter_contains(pred, i - 1);
        }
        assert forall|k: int|
            0 <= k < disk_lines_spec(output).len() implies watched_mount(
                #[trigger] disk_lines_spec(output)[k],
            ) && body.contains(disk_lines_spec(output)[k]) by {
            body.lemma_filter_pred(pred, k);
            assert(body.filter(pred).contains(body.filter(pred)[k]));
            body.lemma_filter_contains_rev(pred, body.filter(pred)[k]);
        }
    }
}

} // verus!
