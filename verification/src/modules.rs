//! `kryx switch`: the atomic system switch through `nh os switch`, refused
//! on a dirty git tree unless the lock is bypassed.
use vstd::prelude::*;
use crate::passthrough::NH_PATH;
use crate::text::{
    after_prefix_in, after_prefix_of, chars_of, dec, lines, lines_of, owned, parse_u64,
    parse_u64_chars, push_dec, push_str, string_from_chars, strs, trim, trim_chars, words,
    words_of,
};

verus! {

/// The message of a switch refused on a dirty tree.
pub open spec fn dirty_tree_message(porcelain: Seq<char>) -> Seq<char> {
    "A árvore do git não está limpa. Faça commit ou stash das suas alterações antes de executar o switch.\nPara emergências, use: kryx switch --bypass-lock\n"@
        + porcelain
}

/// The refusal for the output of `git status --porcelain`, if it lists
/// anything.
pub fn dirty_tree_error(porcelain: &str) -> (r: Option<String>)
    ensures
        porcelain@.len() == 0 ==> r is None,
        porcelain@.len() > 0 ==> (r matches Some(m) && m@ == dirty_tree_message(porcelain@)),
{
    let v = chars_of(porcelain);
    if v.len() == 0 {
        None
    } else {
        let mut m = chars_of(
            "A árvore do git não está limpa. Faça commit ou stash das suas alterações antes de executar o switch.\nPara emergências, use: kryx switch --bypass-lock\n",
        );
        push_str(&mut m, porcelain);
        Some(string_from_chars(m.as_slice()))
    }
}

/// The error when `git status` could not be run.
pub fn git_status_error(error: &str) -> (m: String)
    ensures
        m@ == "Falha ao executar 'git status': "@ + error@,
{
    let mut v = chars_of("Falha ao executar 'git status': ");
    push_str(&mut v, error);
    string_from_chars(v.as_slice())
}

/// The host to switch: the one asked for, else the trimmed contents of
/// `/etc/hostname`, else `default`.
pub fn switch_target(target: Option<String>, hostname_file: &Option<String>) -> (h: String)
    ensures
        h@ == match target {
            Some(t) => t@,
            None => match *hostname_file {
                Some(c) => trim(c@),
                None => "default"@,
            },
        },
{
    match target {
        Some(t) => t,
        None => match hostname_file {
            Some(c) => {
                let v = chars_of(c.as_str());
                let t = trim_chars(v.as_slice());
                string_from_chars(t.as_slice())
            },
            None => owned("default"),
        },
    }
}

/// The flake reference of a host.
pub open spec fn flake_ref(host: Seq<char>) -> Seq<char> {
    "/etc/kryonixos#"@ + host
}

/// Absolute path of `setpriv`, which drops root before `nh` runs.
pub const SETPRIV_PATH: &'static str = "/run/current-system/sw/bin/setpriv";

/// How `nh` escalates back when it needs root (bootloader step).
pub const ELEVATION_STRATEGY: &'static str = "/run/wrappers/bin/sudo";

/// The switch to run: `nh os switch /etc/kryonixos#<host>` by the absolute
/// path of `nh`; when `kryx` runs as root (effective uid 0) for a `sudo`
/// user whose uid is known, through `setpriv --reuid=<uid> --regid=<uid>
/// --clear-groups`, with `nh` escalating back through the sudo wrapper
/// (`nh` refuses to run as root).
pub open spec fn switch_command_spec(euid: u32, sudo_uid: Option<u32>, host: Seq<char>) -> (
    Seq<char>,
    Seq<Seq<char>>,
) {
    match sudo_uid {
        Some(u) if euid == 0 => (
            SETPRIV_PATH@,
            seq![
                "--reuid="@ + dec(u as nat),
                "--regid="@ + dec(u as nat),
                "--clear-groups"@,
                NH_PATH@,
                "os"@,
                "switch"@,
                "--elevation-strategy"@,
                ELEVATION_STRATEGY@,
                flake_ref(host),
            ],
        ),
        _ => (NH_PATH@, seq!["os"@, "switch"@, flake_ref(host)]),
    }
}

fn with_number(prefix: &str, n: u32) -> (s: String)
    ensures
        s@ == prefix@ + dec(n as nat),
{
    let mut v = chars_of(prefix);
    push_dec(&mut v, n as u64);
    string_from_chars(v.as_slice())
}

/// The program and arguments of the switch (see [`switch_command_spec`]).
pub fn switch_command(euid: u32, sudo_uid: Option<u32>, host: &str) -> (r: (String, Vec<String>))
    ensures
        (r.0@, strs(r.1@)) == switch_command_spec(euid, sudo_uid, host@),
{
    let mut f = chars_of("/etc/kryonixos#");
    push_str(&mut f, host);
    let target = string_from_chars(f.as_slice());
    match sudo_uid {
        Some(u) if euid == 0 => {
            let v = vec![
                with_number("--reuid=", u),
                with_number("--regid=", u),
                owned("--clear-groups"),
                owned(NH_PATH),
                owned("os"),
                owned("switch"),
                owned("--elevation-strategy"),
                owned(ELEVATION_STRATEGY),
                target,
            ];
            assert(strs(v@) =~= switch_command_spec(euid, sudo_uid, host@).1);
            (owned(SETPRIV_PATH), v)
        },
        _ => {
            let v = vec![owned("os"), owned("switch"), target];
            assert(strs(v@) =~= switch_command_spec(euid, sudo_uid, host@).1);
            (owned(NH_PATH), v)
        },
    }
}

/// A uid printed by `id -u`: a decimal number, blanks around it ignored.
pub open spec fn parse_uid_spec(text: Seq<char>) -> Option<u32> {
    match parse_u64(trim(text)) {
        Some(n) => if n <= u32::MAX {
            Some(n as u32)
        } else {
            None
        },
        None => None,
    }
}

pub fn parse_uid(text: &str) -> (r: Option<u32>)
    ensures
        r == parse_uid_spec(text@),
{
    let v = chars_of(text);
    let t = trim_chars(v.as_slice());
    match parse_u64_chars(t.as_slice()) {
        Some(n) => if n <= u32::MAX as u64 {
            Some(n as u32)
        } else {
            None
        },
        None => None,
    }
}

/// The effective uid in `/proc/self/status`: the second number of its
/// `Uid:` line (real, effective, saved, filesystem).
pub open spec fn effective_uid_spec(status: Seq<char>) -> Option<u32> {
    match after_prefix_in(lines(status), "Uid:"@) {
        Some(rest) => if words(rest).len() >= 2 {
            parse_uid_spec(words(rest)[1])
        } else {
            None
        },
        None => None,
    }
}

pub fn effective_uid(status: &str) -> (r: Option<u32>)
    ensures
        r == effective_uid_spec(status@),
{
    let v = chars_of(status);
    let ls = lines_of(v.as_slice());
    match after_prefix_of(&ls, "Uid:") {
        Some(rest) => {
            let w = words_of(rest.as_slice());
            if w.len() >= 2 {
                parse_uid(string_from_chars(w[1].as_slice()).as_str())
            } else {
                None
            }
        },
        None => None,
    }
}

/// Law: as root for a `sudo` user, the switch never runs `nh` itself as
/// root: the program is `setpriv`, dropping to that user's uid and gid.
pub proof fn law_switch_drops_root(sudo_uid: u32, host: Seq<char>)
    ensures
        switch_command_spec(0, Some(sudo_uid), host).0 == SETPRIV_PATH@,
        switch_command_spec(0, Some(sudo_uid), host).1[0] == "--reuid="@ + dec(sudo_uid as nat),
        switch_command_spec(0, Some(sudo_uid), host).1[1] == "--regid="@ + dec(sudo_uid as nat),
{
}

/// The result of the switch from how `nh` ended (`None`: it could not be
/// started, with the error).
pub fn switch_outcome(outcome: &crate::update::ProcOutcome) -> (r: Result<(), String>)
    ensures
        match *outcome {
            crate::update::ProcOutcome::NotStarted { error } => r matches Err(m) && m@
                == "Falha ao invocar '"@ + NH_PATH@ + "': "@ + error@,
            crate::update::ProcOutcome::Exited { success, status, .. } => if success {
                r is Ok
            } else {
                r matches Err(m) && m@ == "nh os switch abortado ou falhou com status: "@ + status@
            },
        },
{
    match outcome {
        crate::update::ProcOutcome::NotStarted { error } => {
            let mut v = chars_of("Falha ao invocar '");
            push_str(&mut v, NH_PATH);
            push_str(&mut v, "': ");
            push_str(&mut v, error.as_str());
            Err(string_from_chars(v.as_slice()))
        },
        crate::update::ProcOutcome::Exited { success, status, .. } => {
            if *success {
                Ok(())
            } else {
                let mut v = chars_of("nh os switch abortado ou falhou com status: ");
                push_str(&mut v, status.as_str());
                Err(string_from_chars(v.as_slice()))
            }
        },
    }
}

} // verus!
