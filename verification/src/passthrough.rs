//! Pass-through wrappers for `nix` / `nh`: argument translation, the
//! destructive-operation gate, the kryx help sections and the routing
//! decision taken before a native binary is invoked.
use vstd::prelude::*;
use crate::help::{
    binary_help, help_for_binary, help_for_nix_subcmd, nix_subcmd_help, HelpView, KryxHelp,
};
use crate::text::{
    chars_of, has_char, is_flag, lemma_strs_push, owned, push_all, push_str, push_strings_from,
    str_eq, str_is_flag, string_from_chars, strs,
};

verus! {

/// Absolute path of the store-backed `nix` binary.
pub const NIX_PATH: &'static str = "/run/current-system/sw/bin/nix";

/// Absolute path of the store-backed `nh` binary.
pub const NH_PATH: &'static str = "/run/current-system/sw/bin/nh";

// ── `kryx shell` argument translation ───────────────────────────────────

/// A package name becomes `nixpkgs#<name>` unless it already looks like a
/// flake reference (holds `#` or `/`).
pub open spec fn rewrite_pkg_spec(pkg: Seq<char>) -> Seq<char> {
    if pkg.contains('#') || pkg.contains('/') {
        pkg
    } else {
        "nixpkgs#"@ + pkg
    }
}

pub open spec fn is_pkg_flag(a: Seq<char>) -> bool {
    a == "-p"@ || a == "--packages"@
}

/// Translation of `args[i..]` while walking the arguments left to right.
pub open spec fn shell_tail(args: Seq<Seq<char>>, i: int) -> Seq<Seq<char>>
    decreases args.len() - i, 1int,
{
    if i < 0 || i >= args.len() {
        Seq::empty()
    } else if args[i] == "--"@ {
        args.subrange(i, args.len() as int)
    } else if is_pkg_flag(args[i]) {
        shell_pkgs(args, i + 1)
    } else if !is_flag(args[i]) {
        seq![rewrite_pkg_spec(args[i])] + shell_tail(args, i + 1)
    } else if i + 1 < args.len() && !is_flag(args[i + 1]) {
        seq![args[i], args[i + 1]] + shell_tail(args, i + 2)
    } else {
        seq![args[i]] + shell_tail(args, i + 1)
    }
}

/// Translation of `args[j..]` right after a `-p` / `--packages` flag: the
/// package names up to the next flag, then the ordinary walk.
pub open spec fn shell_pkgs(args: Seq<Seq<char>>, j: int) -> Seq<Seq<char>>
    decreases args.len() - j, 2int,
{
    if 0 <= j < args.len() && !is_flag(args[j]) {
        seq![rewrite_pkg_spec(args[j])] + shell_pkgs(args, j + 1)
    } else {
        shell_tail(args, j)
    }
}

/// The `nix shell` argument vector for the arguments of `kryx shell`.
pub open spec fn translate_shell(args: Seq<Seq<char>>) -> Seq<Seq<char>> {
    seq!["shell"@] + shell_tail(args, 0)
}

/// Rewrite a single package name to `nixpkgs#<name>` unless it already
/// looks like a flake ref (contains `#` or `/`).
pub fn rewrite_pkg(pkg: &str) -> (r: String)
    ensures
        r@ == rewrite_pkg_spec(pkg@),
{
    let v = chars_of(pkg);
    if has_char(v.as_slice(), '#') || has_char(v.as_slice(), '/') {
        owned(pkg)
    } else {
        let mut out = chars_of("nixpkgs#");
        push_all(&mut out, v.as_slice());
        string_from_chars(out.as_slice())
    }
}

/// Translate kryx shell args to the modern `nix shell` syntax: `-p` /
/// `--packages` are dropped and package names become `nixpkgs#<name>`
/// installables; other flags and their values, and everything from a
/// literal `--` on, are passed verbatim.
pub fn translate_shell_args(args: &[String]) -> (argv: Vec<String>)
    ensures
        strs(argv@) == translate_shell(strs(args@)),
{
    let ghost a = strs(args@);
    let n = args.len();
    let mut argv: Vec<String> = Vec::new();
    let sh = owned("shell");
    proof {
        lemma_strs_push(argv@, sh);
    }
    argv.push(sh);
    assert(strs(argv@) =~= seq!["shell"@]);
    let mut i: usize = 0;
    while i < n
        invariant
            i <= n,
            n == args@.len(),
            a == strs(args@),
            strs(argv@) + shell_tail(a, i as int) == translate_shell(a),
        decreases n - i,
    {
        let arg = args[i].as_str();
        if str_eq(arg, "--") {
            let ghost before = strs(argv@);
            push_strings_from(&mut argv, args, i);
            assert(shell_tail(a, i as int) == a.subrange(i as int, n as int));
            return argv;
        }
        if str_eq(arg, "-p") || str_eq(arg, "--packages") {
            assert(shell_tail(a, i as int) == shell_pkgs(a, i + 1));
            let ghost i_entry = i;
            i += 1;
            while i < n && !str_is_flag(args[i].as_str())
                invariant
                    i <= n,
                    n == args@.len(),
                    a == strs(args@),
                    strs(argv@) + shell_pkgs(a, i as int) == translate_shell(a),
                    i > i_entry,
                decreases n - i,
            {
                let ghost before = strs(argv@);
                let r = rewrite_pkg(args[i].as_str());
                proof {
                    lemma_strs_push(argv@, r);
                }
                argv.push(r);
                assert(strs(argv@) + shell_pkgs(a, i + 1) =~= before + shell_pkgs(a, i as int));
                i += 1;
            }
            assert(shell_pkgs(a, i as int) == shell_tail(a, i as int));
        } else if !str_is_flag(arg) {
            let ghost before = strs(argv@);
            let r = rewrite_pkg(arg);
            proof {
                lemma_strs_push(argv@, r);
            }
            argv.push(r);
            assert(strs(argv@) + shell_tail(a, i + 1) =~= before + shell_tail(a, i as int));
            i += 1;
        } else {
            let ghost before = strs(argv@);
            let ghost i0 = i as int;
            let f = args[i].clone();
            proof {
                lemma_strs_push(argv@, f);
            }
            argv.push(f);
            i += 1;
            if i < n && !str_is_flag(args[i].as_str()) {
                let v = args[i].clone();
                proof {
                    lemma_strs_push(argv@, v);
                }
                argv.push(v);
                i += 1;
                assert(strs(argv@) + shell_tail(a, i as int) =~= before + shell_tail(a, i0));
            } else {
                assert(strs(argv@) + shell_tail(a, i as int) =~= before + shell_tail(a, i0));
            }
        }
    }
    assert(strs(argv@) =~= translate_shell(a));
    argv
}

} // verus!

verus! {

proof fn lemma_flag_literals()
    ensures
        is_flag("--"@),
        is_flag("-p"@),
        is_flag("--packages"@),
        "-p"@ != "--"@,
        "--packages"@ != "--"@,
{
    reveal_strlit("--");
    reveal_strlit("-p");
    reveal_strlit("--packages");
    assert("-p"@[1] != "--"@[1]);
    assert("--packages"@.len() != "--"@.len());
}

/// Right after `-p`, the walk continues exactly as the ordinary walk.
proof fn lemma_pkgs_is_tail(a: Seq<Seq<char>>, j: int)
    ensures
        shell_pkgs(a, j) == shell_tail(a, j),
    decreases a.len() - j,
{
    lemma_flag_literals();
    if 0 <= j < a.len() && !is_flag(a[j]) {
        lemma_pkgs_is_tail(a, j + 1);
    }
}

/// Dropping one argument in front shifts the walk by one position.
proof fn lemma_tail_shift(x: Seq<char>, a: Seq<Seq<char>>, k: int)
    requires
        0 <= k,
    ensures
        shell_tail(seq![x] + a, k + 1) == shell_tail(a, k),
        shell_pkgs(seq![x] + a, k + 1) == shell_pkgs(a, k),
    decreases a.len() - k, 2int,
{
    let p = seq![x] + a;
    assert(p.len() == a.len() + 1);
    if k < a.len() {
        assert(p[k + 1] == a[k]);
        if k + 1 < a.len() {
            assert(p[k + 2] == a[k + 1]);
        }
        lemma_tail_shift(x, a, k + 1);
        if k + 1 < a.len() {
            lemma_tail_shift(x, a, k + 2);
        }
        assert(p.subrange(k + 1, p.len() as int) =~= a.subrange(k, a.len() as int));
    }
}

/// Law: the legacy `-p` / `--packages` flag in front of the arguments is
/// dropped; the package names after it are translated as if it were absent.
pub proof fn law_packages_flag_dropped(args: Seq<Seq<char>>)
    ensures
        translate_shell(seq!["-p"@] + args) == translate_shell(args),
        translate_shell(seq!["--packages"@] + args) == translate_shell(args),
{
    lemma_flag_literals();
    let p1 = seq!["-p"@] + args;
    let p2 = seq!["--packages"@] + args;
    assert(p1[0] == "-p"@);
    assert(p2[0] == "--packages"@);
    lemma_pkgs_is_tail(p1, 1);
    lemma_pkgs_is_tail(p2, 1);
    lemma_tail_shift("-p"@, args, 0);
    lemma_tail_shift("--packages"@, args, 0);
}

proof fn lemma_tail_before_dashdash(a: Seq<Seq<char>>, k: int, j: int)
    requires
        0 <= j <= k < a.len(),
        a[k] == "--"@,
        forall|i: int| 0 <= i < k ==> !is_flag(#[trigger] a[i]),
    ensures
        shell_tail(a, j) == a.subrange(j, k).map_values(|p: Seq<char>| rewrite_pkg_spec(p))
            + a.subrange(k, a.len() as int),
    decreases k - j,
{
    lemma_flag_literals();
    if j < k {
        lemma_tail_before_dashdash(a, k, j + 1);
        assert(a.subrange(j, k).map_values(|p: Seq<char>| rewrite_pkg_spec(p)) =~= seq![
            rewrite_pkg_spec(a[j]),
        ] + a.subrange(j + 1, k).map_values(|p: Seq<char>| rewrite_pkg_spec(p)));
    } else {
        assert(a.subrange(j, k).map_values(|p: Seq<char>| rewrite_pkg_spec(p)) =~= Seq::<
            Seq<char>,
        >::empty());
    }
}

/// Law: package names before a literal `--` are rewritten, and the `--`
/// and everything after it are passed through verbatim.
pub proof fn law_dashdash_verbatim(args: Seq<Seq<char>>, k: int)
    requires
        0 <= k < args.len(),
        args[k] == "--"@,
        forall|i: int| 0 <= i < k ==> !is_flag(#[trigger] args[i]),
    ensures
        translate_shell(args) == seq!["shell"@] + args.take(k).map_values(
            |p: Seq<char>| rewrite_pkg_spec(p),
        ) + args.subrange(k, args.len() as int),
{
    lemma_tail_before_dashdash(args, k, 0);
    assert(args.subrange(0, k) =~= args.take(k));
    assert(seq!["shell"@] + (args.take(k).map_values(|p: Seq<char>| rewrite_pkg_spec(p))
        + args.subrange(k, args.len() as int)) =~= seq!["shell"@] + args.take(k).map_values(
        |p: Seq<char>| rewrite_pkg_spec(p),
    ) + args.subrange(k, args.len() as int));
}

proof fn lemma_prefix_walk(a: Seq<Seq<char>>, k: int, j: int)
    requires
        0 <= j <= k < a.len(),
        a[k] == "--"@,
        forall|i: int| 0 <= i < k ==> #[trigger] a[i] != "--"@,
    ensures
        shell_tail(a, j) == shell_tail(a.take(k), j) + a.subrange(k, a.len() as int),
        shell_pkgs(a, j) == shell_pkgs(a.take(k), j) + a.subrange(k, a.len() as int),
    decreases k - j,
{
    lemma_flag_literals();
    let t = a.take(k);
    assert(shell_tail(t, k) =~= Seq::<Seq<char>>::empty());
    if j < k {
        assert(t[j] == a[j]);
        lemma_prefix_walk(a, k, j + 1);
        if j + 1 < k {
            assert(t[j + 1] == a[j + 1]);
            lemma_prefix_walk(a, k, j + 2);
        }
        let rest = a.subrange(k, a.len() as int);
        if is_pkg_flag(a[j]) {
        } else if !is_flag(a[j]) {
            assert(shell_tail(a, j) =~= seq![rewrite_pkg_spec(a[j])] + (shell_tail(t, j + 1)
                + rest));
        } else if j + 1 < a.len() && !is_flag(a[j + 1]) {
            assert(j + 1 < k);
            assert(shell_tail(a, j) =~= seq![a[j], a[j + 1]] + (shell_tail(t, j + 2) + rest));
        } else {
            assert(shell_tail(a, j) =~= seq![a[j]] + (shell_tail(t, j + 1) + rest));
        }
        if !is_flag(a[j]) {
            assert(shell_pkgs(a, j) =~= seq![rewrite_pkg_spec(a[j])] + (shell_pkgs(t, j + 1)
                + rest));
        }
    }
}

/// Law: everything from the first `--` on is copied verbatim, and what
/// comes before it is translated as if it stood alone.
pub proof fn law_dashdash_suffix_verbatim(args: Seq<Seq<char>>, k: int)
    requires
        0 <= k < args.len(),
        args[k] == "--"@,
        forall|i: int| 0 <= i < k ==> #[trigger] args[i] != "--"@,
    ensures
        translate_shell(args) == translate_shell(args.take(k)) + args.subrange(
            k,
            args.len() as int,
        ),
{
    lemma_prefix_walk(args, k, 0);
    assert(translate_shell(args) =~= translate_shell(args.take(k)) + args.subrange(
        k,
        args.len() as int,
    ));
}

proof fn lemma_rewrite_keeps_non_flag(x: Seq<char>)
    requires
        !is_flag(x),
    ensures
        !is_flag(rewrite_pkg_spec(x)),
        rewrite_pkg_spec(rewrite_pkg_spec(x)) == rewrite_pkg_spec(x),
{
    law_rewrite_pkg_idempotent(x);
    reveal_strlit("nixpkgs#");
    if !(x.contains('#') || x.contains('/')) {
        assert(rewrite_pkg_spec(x)[0] == 'n');
    }
}

/// The walk of a translated vector from position 1 is the walk of its
/// tail when its first element is a non-flag that the walk keeps.
proof fn lemma_walk_after_first(o: Seq<Seq<char>>)
    requires
        o.len() > 0,
        !is_flag(o[0]),
        rewrite_pkg_spec(o[0]) == o[0],
        shell_tail(o, 0) == o,
    ensures
        shell_tail(o, 1) == o.drop_first(),
{
    lemma_flag_literals();
    assert(o[0] != "--"@);
    assert(!is_pkg_flag(o[0]));
    assert(shell_tail(o, 0) == seq![o[0]] + shell_tail(o, 1));
    assert(o.drop_first() =~= shell_tail(o, 1));
}

proof fn lemma_translation_is_fixed(a: Seq<Seq<char>>, j: int)
    ensures
        shell_tail(shell_tail(a, j), 0) == shell_tail(a, j),
        shell_tail(a, j).len() > 0 && !is_flag(shell_tail(a, j)[0]) ==> rewrite_pkg_spec(
            shell_tail(a, j)[0],
        ) == shell_tail(a, j)[0],
        shell_tail(shell_pkgs(a, j), 0) == shell_pkgs(a, j),
        shell_pkgs(a, j).len() > 0 && !is_flag(shell_pkgs(a, j)[0]) ==> rewrite_pkg_spec(
            shell_pkgs(a, j)[0],
        ) == shell_pkgs(a, j)[0],
    decreases a.len() - j,
{
    lemma_flag_literals();
    if 0 <= j < a.len() {
        lemma_translation_is_fixed(a, j + 1);
        if j + 2 <= a.len() {
            lemma_translation_is_fixed(a, j + 2);
        }
        let x = a[j];
        // the ordinary walk
        if x == "--"@ {
            let o = a.subrange(j, a.len() as int);
            assert(o[0] == "--"@);
        } else if is_pkg_flag(x) {
        } else if !is_flag(x) {
            lemma_rewrite_keeps_non_flag(x);
            let r = rewrite_pkg_spec(x);
            let y = shell_tail(a, j + 1);
            let o = seq![r] + y;
            assert(o[0] == r);
            assert(r != "--"@);
            assert(!is_pkg_flag(r));
            lemma_tail_shift(r, y, 0);
            assert(shell_tail(o, 0) == seq![r] + shell_tail(o, 1));
        } else if j + 1 < a.len() && !is_flag(a[j + 1]) {
            let v = a[j + 1];
            let y = shell_tail(a, j + 2);
            let o = seq![x, v] + y;
            assert(o =~= seq![x] + (seq![v] + y));
            assert(o[0] == x && o[1] == v);
            lemma_tail_shift(v, y, 0);
            lemma_tail_shift(x, seq![v] + y, 1);
            assert(shell_tail(o, 0) == seq![x, v] + shell_tail(o, 2));
        } else {
            let y = shell_tail(a, j + 1);
            let o = seq![x] + y;
            assert(o[0] == x);
            lemma_tail_shift(x, y, 0);
            if y.len() > 0 && !is_flag(y[0]) {
                assert(o[1] == y[0]);
                lemma_walk_after_first(y);
                lemma_tail_shift(y[0], y.drop_first(), 0);
                assert(y =~= seq![y[0]] + y.drop_first());
                lemma_tail_shift(x, y, 1);
                assert(shell_tail(o, 0) == seq![x, y[0]] + shell_tail(o, 2));
                assert(shell_tail(o, 2) == shell_tail(y, 1));
                assert(shell_tail(o, 0) =~= o);
            } else {
                assert(shell_tail(o, 0) == seq![x] + shell_tail(o, 1));
            }
        }
        // the walk after `-p`
        if !is_flag(x) {
            lemma_rewrite_keeps_non_flag(x);
            let r = rewrite_pkg_spec(x);
            let y = shell_pkgs(a, j + 1);
            let o = seq![r] + y;
            assert(o[0] == r);
            assert(r != "--"@);
            assert(!is_pkg_flag(r));
            lemma_tail_shift(r, y, 0);
            assert(shell_tail(o, 0) == seq![r] + shell_tail(o, 1));
        }
    }
}

/// Law: translating an already translated argument vector (without its
/// leading `shell`) changes nothing.
pub proof fn law_translation_idempotent(args: Seq<Seq<char>>)
    ensures
        translate_shell(translate_shell(args).drop_first()) == translate_shell(args),
{
    lemma_translation_is_fixed(args, 0);
    assert(translate_shell(args).drop_first() =~= shell_tail(args, 0));
}

/// Law: rewriting a package name twice gives the same as rewriting it once.
pub proof fn law_rewrite_pkg_idempotent(pkg: Seq<char>)
    ensures
        rewrite_pkg_spec(rewrite_pkg_spec(pkg)) == rewrite_pkg_spec(pkg),
{
    reveal_strlit("nixpkgs#");
    let r = "nixpkgs#"@ + pkg;
    assert(r[7] == '#');
    assert(r.contains('#'));
}

} // verus!

verus! {

// ── Destructive-operation gate ──────────────────────────────────────────

/// `args[i]`, or the empty string past the end.
pub open spec fn arg_or_empty(args: Seq<Seq<char>>, i: int) -> Seq<char> {
    if 0 <= i < args.len() {
        args[i]
    } else {
        Seq::empty()
    }
}

/// Whether invoking `binary` with `args` is destructive and needs an
/// explicit confirmation: `nixos-install` and `nixos-enter` always,
/// `nixos-rebuild boot`, `nix store gc` and `nix store delete`.
pub open spec fn requires_confirm_spec(binary: Seq<char>, args: Seq<Seq<char>>) -> bool {
    let first = arg_or_empty(args, 0);
    let second = arg_or_empty(args, 1);
    ||| binary == "nixos-install"@
    ||| binary == "nixos-enter"@
    ||| binary == "nixos-rebuild"@ && first == "boot"@
    ||| binary == "nix"@ && first == "store"@ && (second == "gc"@ || second == "delete"@)
}

fn str_arg_is(args: &[String], i: usize, lit: &str) -> (r: bool)
    ensures
        r == (arg_or_empty(strs(args@), i as int) == lit@),
{
    if i < args.len() {
        assert(strs(args@)[i as int] == args@[i as int]@);
        str_eq(args[i].as_str(), lit)
    } else {
        proof {
            reveal_strlit("");
        }
        assert(""@ =~= Seq::<char>::empty());
        str_eq("", lit)
    }
}

/// Return `true` when the (binary, args[0..]) pair is destructive and the
/// user must pass `--confirm` / `--yes` / `-y` before it is invoked.
pub fn requires_confirm(binary: &str, args: &[String]) -> (r: bool)
    ensures
        r == requires_confirm_spec(binary@, strs(args@)),
{
    if str_eq(binary, "nixos-install") || str_eq(binary, "nixos-enter") {
        return true;
    }
    if str_eq(binary, "nixos-rebuild") && str_arg_is(args, 0, "boot") {
        return true;
    }
    str_eq(binary, "nix") && str_arg_is(args, 0, "store") && (str_arg_is(args, 1, "gc")
        || str_arg_is(args, 1, "delete"))
}

/// What the confirmation gate inspects: the subcommand label followed by
/// the arguments, unless they already begin with that label.
pub open spec fn gate_args(label: Seq<char>, args: Seq<Seq<char>>) -> Seq<Seq<char>> {
    if args.len() > 0 && args[0] == label {
        args
    } else {
        seq![label] + args
    }
}

pub open spec fn gate_is_active_spec(binary: Seq<char>, label: Seq<char>, args: Seq<Seq<char>>) -> bool {
    requires_confirm_spec(binary, gate_args(label, args))
}

/// `requires_confirm` on the arguments with the subcommand label in front
/// (unless it already is there).
pub fn gate_is_active(binary: &str, subcommand_label: &str, args: &[String]) -> (r: bool)
    ensures
        r == gate_is_active_spec(binary@, subcommand_label@, strs(args@)),
{
    let already = args.len() > 0 && str_eq(args[0].as_str(), subcommand_label);
    if already {
        requires_confirm(binary, args)
    } else {
        let mut synth: Vec<String> = Vec::new();
        let l = owned(subcommand_label);
        proof {
            lemma_strs_push(synth@, l);
        }
        synth.push(l);
        push_strings_from(&mut synth, args, 0);
        assert(strs(args@).subrange(0, strs(args@).len() as int) =~= strs(args@));
        assert(strs(synth@) =~= seq![subcommand_label@] + strs(args@));
        requires_confirm(binary, synth.as_slice())
    }
}

/// Whether the arguments hold an explicit confirmation.
pub open spec fn confirmed(args: Seq<Seq<char>>) -> bool {
    exists|i: int|
        0 <= i < args.len() && (#[trigger] args[i] == "--confirm"@ || args[i] == "--yes"@
            || args[i] == "-y"@)
}

fn has_confirmation(args: &[String]) -> (r: bool)
    ensures
        r == confirmed(strs(args@)),
{
    let mut i: usize = 0;
    while i < args.len()
        invariant
            i <= args@.len(),
            forall|j: int|
                0 <= j < i ==> !(strs(args@)[j] == "--confirm"@ || strs(args@)[j] == "--yes"@
                    || strs(args@)[j] == "-y"@),
        decreases args.len() - i,
    {
        let a = args[i].as_str();
        if str_eq(a, "--confirm") || str_eq(a, "--yes") || str_eq(a, "-y") {
            assert(strs(args@)[i as int] == args@[i as int]@);
            return true;
        }
        i += 1;
    }
    false
}

// ── Routing decision before a catch-all runs ────────────────────────────

/// `kryx <cmd> --help` or `kryx <cmd> <subcmd> --help` (also with `-h`).
pub open spec fn is_help_request(args: Seq<Seq<char>>) -> bool {
    ||| args.len() == 1 && (args[0] == "--help"@ || args[0] == "-h"@)
    ||| args.len() == 2 && (args[1] == "--help"@ || args[1] == "-h"@)
}

/// What happens before a catch-all hands its arguments to the binary.
pub enum PassthroughDecision {
    /// Resolve the binary and run it with the arguments.
    Forward,
    /// Print the hybrid help with this kryx section, then exit with success.
    ShowHelp(KryxHelp),
    /// Stop with this error message.
    Fail(String),
}

pub enum DecisionView {
    Forward,
    ShowHelp(HelpView),
    Fail(Seq<char>),
}

impl View for PassthroughDecision {
    type V = DecisionView;

    open spec fn view(&self) -> DecisionView {
        match self {
            PassthroughDecision::Forward => DecisionView::Forward,
            PassthroughDecision::ShowHelp(h) => DecisionView::ShowHelp(h@),
            PassthroughDecision::Fail(m) => DecisionView::Fail(m@),
        }
    }
}

/// The help section looked up for a help request.
pub open spec fn help_lookup(binary: Seq<char>, label: Seq<char>) -> Option<HelpView> {
    if binary == "nix"@ {
        nix_subcmd_help(label)
    } else {
        binary_help(binary)
    }
}

pub open spec fn no_help_message(binary: Seq<char>, label: Seq<char>) -> Seq<char> {
    if binary == "nix"@ {
        "no help defined for `kryx nix "@ + label + "` — try `kryx nix "@ + label
            + " -- --help` for native help"@
    } else {
        "no help defined for binary: "@ + binary
    }
}

/// The word the user typed after the subcommand: the first argument, or
/// the second when the arguments already begin with the label.
pub open spec fn typed_word(label: Seq<char>, args: Seq<Seq<char>>) -> Seq<char> {
    arg_or_empty(gate_args(label, args), 1)
}

/// The refusal of an unconfirmed destructive operation, naming what the
/// user typed (`kryx store gc …`).
pub open spec fn destructive_message(label: Seq<char>, args: Seq<Seq<char>>) -> Seq<char> {
    "kryx "@ + label + " "@ + typed_word(label, args)
        + " é destrutivo e exige --confirm explícito (ou --yes / -y). Use --dry-run pra simular sem executar. Bypass intencional via --confirm."@
}

/// The decision, in order: an explicit `--` on the command line forwards
/// untouched; a help request shows the kryx help (or fails when there is
/// none); a destructive operation without confirmation fails; anything else
/// is forwarded.
pub open spec fn decide_spec(
    binary: Seq<char>,
    args: Seq<Seq<char>>,
    label: Seq<char>,
    explicit_dashdash: bool,
) -> DecisionView {
    if explicit_dashdash {
        DecisionView::Forward
    } else if is_help_request(args) {
        match help_lookup(binary, label) {
            Some(h) => DecisionView::ShowHelp(h),
            None => DecisionView::Fail(no_help_message(binary, label)),
        }
    } else if gate_is_active_spec(binary, label, args) && !confirmed(args) {
        DecisionView::Fail(destructive_message(label, args))
    } else {
        DecisionView::Forward
    }
}

fn is_help_arg(a: &str) -> (r: bool)
    ensures
        r == (a@ == "--help"@ || a@ == "-h"@),
{
    str_eq(a, "--help") || str_eq(a, "-h")
}

/// The routing decision of a catch-all: `explicit_dashdash` tells whether
/// the user typed a literal `--` on the kryx command line.
pub fn decide_passthrough(
    binary_name: &str,
    args: &[String],
    subcommand_label: &str,
    explicit_dashdash: bool,
) -> (d: PassthroughDecision)
    ensures
        d@ == decide_spec(binary_name@, strs(args@), subcommand_label@, explicit_dashdash),
{
    if explicit_dashdash {
        return PassthroughDecision::Forward;
    }
    let help_request = (args.len() == 1 && is_help_arg(args[0].as_str())) || (args.len() == 2
        && is_help_arg(args[1].as_str()));
    if help_request {
        if str_eq(binary_name, "nix") {
            match help_for_nix_subcmd(subcommand_label) {
                Some(h) => return PassthroughDecision::ShowHelp(h),
                None => {
                    let mut m = chars_of("no help defined for `kryx nix ");
                    push_str(&mut m, subcommand_label);
                    push_str(&mut m, "` — try `kryx nix ");
                    push_str(&mut m, subcommand_label);
                    push_str(&mut m, " -- --help` for native help");
                    return PassthroughDecision::Fail(string_from_chars(m.as_slice()));
                },
            }
        } else {
            match help_for_binary(binary_name) {
                Some(h) => return PassthroughDecision::ShowHelp(h),
                None => {
                    let mut m = chars_of("no help defined for binary: ");
                    push_str(&mut m, binary_name);
                    return PassthroughDecision::Fail(string_from_chars(m.as_slice()));
                },
            }
        }
    }
    if gate_is_active(binary_name, subcommand_label, args) && !has_confirmation(args) {
        let mut m = chars_of("kryx ");
        push_str(&mut m, subcommand_label);
        push_str(&mut m, " ");
        let ghost g = gate_args(subcommand_label@, strs(args@));
        if args.len() > 0 && str_eq(args[0].as_str(), subcommand_label) {
            assert(strs(args@)[0] == args@[0]@);
            if args.len() > 1 {
                assert(g[1] == args@[1]@);
                push_str(&mut m, args[1].as_str());
            } else {
                assert(arg_or_empty(g, 1) =~= Seq::<char>::empty());
            }
        } else if args.len() > 0 {
            assert(strs(args@)[0] == args@[0]@);
            assert(g[1] == args@[0]@);
            push_str(&mut m, args[0].as_str());
        } else {
            assert(arg_or_empty(g, 1) =~= Seq::<char>::empty());
        }
        push_str(
            &mut m,
            " é destrutivo e exige --confirm explícito (ou --yes / -y). Use --dry-run pra simular sem executar. Bypass intencional via --confirm.",
        );
        return PassthroughDecision::Fail(string_from_chars(m.as_slice()));
    }
    PassthroughDecision::Forward
}

/// The error when a catch-all finds no binary of the name.
pub fn binary_not_found_message(binary_name: &str) -> (m: String)
    ensures
        m@ == "Falha: binário '"@ + binary_name@
            + "' não encontrado no PATH nem em /run/current-system/sw/bin."@,
{
    let mut m = chars_of("Falha: binário '");
    push_str(&mut m, binary_name);
    push_str(&mut m, "' não encontrado no PATH nem em /run/current-system/sw/bin.");
    string_from_chars(m.as_slice())
}

// ── Finding the real binaries ───────────────────────────────────────────

/// The fixed directories probed first for a native binary.
pub open spec fn bin_probe_paths_spec() -> Seq<Seq<char>> {
    seq![
        "/run/current-system/sw/bin"@,
        "/run/wrappers/bin"@,
        "/usr/bin"@,
        "/usr/local/bin"@,
    ]
}

/// The directories searched for a native binary, in order: the fixed ones,
/// then those of `$PATH` (when it is set).
pub open spec fn probe_dirs_spec(path_env: Option<String>) -> Seq<Seq<char>> {
    bin_probe_paths_spec() + match path_env {
        Some(p) => crate::text::split_on(p@, ':'),
        None => Seq::empty(),
    }
}

pub fn probe_dirs(path_env: &Option<String>) -> (v: Vec<String>)
    ensures
        strs(v@) == probe_dirs_spec(*path_env),
{
    let mut v = vec![
        owned("/run/current-system/sw/bin"),
        owned("/run/wrappers/bin"),
        owned("/usr/bin"),
        owned("/usr/local/bin"),
    ];
    assert(strs(v@) =~= bin_probe_paths_spec());
    match path_env {
        Some(p) => {
            let c = chars_of(p.as_str());
            let parts = crate::text::split_on_chars(c.as_slice(), ':');
            let ghost start = strs(v@);
            for i in 0..parts.len()
                invariant
                    strs(v@) == start + crate::text::views(parts@).take(i as int),
            {
                let x = string_from_chars(parts[i].as_slice());
                proof {
                    lemma_strs_push(v@, x);
                }
                v.push(x);
                assert(crate::text::views(parts@).take(i + 1) =~= crate::text::views(parts@).take(
                    i as int,
                ).push(parts@[i as int]@));
                assert(strs(v@) =~= start + crate::text::views(parts@).take(i + 1));
            }
            assert(crate::text::views(parts@).take(parts@.len() as int) =~= crate::text::views(
                parts@,
            ));
        },
        None => {
            assert(strs(v@) =~= probe_dirs_spec(*path_env));
        },
    }
    v
}

/// A found file is taken for the real binary when it is a regular file of
/// at least 1000 bytes (the lockdown wrappers are a few hundred).
pub fn is_real_binary(is_file: bool, len: u64) -> (b: bool)
    ensures
        b == (is_file && len >= 1000),
{
    is_file && len >= 1000
}

/// Whether a probe found the real binary: its metadata could be read, it
/// is a regular file and it has at least 1000 bytes.
pub open spec fn real_binary_probe(p: Option<(bool, u64)>) -> bool {
    match p {
        Some((is_file, len)) => is_file && len >= 1000,
        None => false,
    }
}

/// The binary used for a native call: the first probed directory (in the
/// order of [`probe_dirs`]) where the real binary was found.
pub fn first_real_binary(probes: &Vec<Option<(bool, u64)>>) -> (r: Option<usize>)
    ensures
        match r {
            Some(i) => i < probes@.len() && real_binary_probe(probes@[i as int]) && forall|j: int|
                0 <= j < i ==> !real_binary_probe(#[trigger] probes@[j]),
            None => forall|j: int| 0 <= j < probes@.len() ==> !real_binary_probe(#[trigger] probes@[j]),
        },
{
    for i in 0..probes.len()
        invariant
            forall|j: int| 0 <= j < i ==> !real_binary_probe(#[trigger] probes@[j]),
    {
        let hit = match probes[i] {
            Some((is_file, len)) => is_real_binary(is_file, len),
            None => false,
        };
        if hit {
            return Some(i);
        }
    }
    None
}

/// The error when the native binary of a pass-through could not be
/// started.
pub fn passthrough_spawn_error(binary_path: &str, label: &str, error: &str) -> (m: String)
    ensures
        m@ == "Falha ao invocar '"@ + binary_path@ + "' para 'kryx "@ + label@ + "': "@ + error@,
{
    let mut m = chars_of("Falha ao invocar '");
    push_str(&mut m, binary_path);
    push_str(&mut m, "' para 'kryx ");
    push_str(&mut m, label);
    push_str(&mut m, "': ");
    push_str(&mut m, error);
    string_from_chars(m.as_slice())
}

} // verus!

verus! {

// ── Routes of the pass-through commands ─────────────────────────────────

/// How a pass-through command reaches its native binary.
pub enum Route {
    /// Run the binary at this absolute path with these arguments.
    Direct { binary_path: String, args: Vec<String>, label: String },
    /// Go through the help / confirmation pipeline (`decide_passthrough`)
    /// for the binary of this name, then run it with these arguments.
    Managed { binary_name: String, args: Vec<String>, label: String },
}

pub enum RouteView {
    Direct(Seq<char>, Seq<Seq<char>>, Seq<char>),
    Managed(Seq<char>, Seq<Seq<char>>, Seq<char>),
}

impl View for Route {
    type V = RouteView;

    open spec fn view(&self) -> RouteView {
        match self {
            Route::Direct { binary_path, args, label } => RouteView::Direct(
                binary_path@,
                strs(args@),
                label@,
            ),
            Route::Managed { binary_name, args, label } => RouteView::Managed(
                binary_name@,
                strs(args@),
                label@,
            ),
        }
    }
}

fn prefixed(first: &str, args: Vec<String>) -> (v: Vec<String>)
    ensures
        strs(v@) == seq![first@] + strs(args@),
{
    let mut v: Vec<String> = Vec::new();
    let f = owned(first);
    proof {
        lemma_strs_push(v@, f);
    }
    v.push(f);
    push_strings_from(&mut v, args.as_slice(), 0);
    assert(strs(args@).subrange(0, strs(args@).len() as int) =~= strs(args@));
    assert(strs(v@) =~= seq![first@] + strs(args@));
    v
}

fn direct(path: &str, sub: &str, args: Vec<String>) -> (r: Route)
    ensures
        r@ == RouteView::Direct(path@, seq![sub@] + strs(args@), sub@),
{
    Route::Direct { binary_path: owned(path), args: prefixed(sub, args), label: owned(sub) }
}

fn managed(name: &str, args: Vec<String>, label: &str) -> (r: Route)
    ensures
        r@ == RouteView::Managed(name@, strs(args@), label@),
{
    Route::Managed { binary_name: owned(name), args, label: owned(label) }
}

/// The route of `nix <sub> <args>` run through the help / gate pipeline.
fn nix_managed(sub: &str, args: Vec<String>) -> (r: Route)
    ensures
        r@ == RouteView::Managed("nix"@, seq![sub@] + strs(args@), sub@),
{
    Route::Managed { binary_name: owned("nix"), args: prefixed(sub, args), label: owned(sub) }
}

pub open spec fn any_help_flag(args: Seq<Seq<char>>) -> bool {
    exists|i: int| 0 <= i < args.len() && (#[trigger] args[i] == "--help"@ || args[i] == "-h"@)
}

/// `kryx shell`: with `--help` / `-h` anywhere, the help pipeline of
/// `nix` sees the raw arguments; otherwise `nix` runs the translated ones.
pub fn shell(args: Vec<String>) -> (r: Route)
    ensures
        any_help_flag(strs(args@)) ==> r@ == RouteView::Managed("nix"@, strs(args@), "shell"@),
        !any_help_flag(strs(args@)) ==> r@ == RouteView::Direct(
            NIX_PATH@,
            translate_shell(strs(args@)),
            "shell"@,
        ),
{
    let mut i: usize = 0;
    let mut help = false;
    while i < args.len()
        invariant
            i <= args@.len(),
            help ==> any_help_flag(strs(args@)),
            !help ==> forall|j: int|
                0 <= j < i ==> !(strs(args@)[j] == "--help"@ || strs(args@)[j] == "-h"@),
        decreases args.len() - i,
    {
        let a = args[i].as_str();
        assert(strs(args@)[i as int] == args@[i as int]@);
        if str_eq(a, "--help") || str_eq(a, "-h") {
            help = true;
        }
        i += 1;
    }
    if help {
        managed("nix", args, "shell")
    } else {
        let argv = translate_shell_args(args.as_slice());
        Route::Direct { binary_path: owned(NIX_PATH), args: argv, label: owned("shell") }
    }
}

/// `kryx build` → `nix build <args>`.
pub fn build(args: Vec<String>) -> (r: Route)
    ensures
        r@ == RouteView::Direct(NIX_PATH@, seq!["build"@] + strs(args@), "build"@),
{
    direct(NIX_PATH, "build", args)
}

/// `kryx check <path>` → `nix flake check` with the flakes feature enabled.
pub fn check(args: Vec<String>) -> (r: Route)
    ensures
        r@ == RouteView::Direct(
            NIX_PATH@,
            seq![
                "--extra-experimental-features"@,
                "nix-command flakes"@,
                "flake"@,
                "check"@,
                "--keep-going"@,
                "--impure"@,
            ] + strs(args@),
            "check"@,
        ),
{
    let v = prefixed("--impure", args);
    let v = prefixed("--keep-going", v);
    let v = prefixed("check", v);
    let v = prefixed("flake", v);
    let v = prefixed("nix-command flakes", v);
    let v = prefixed("--extra-experimental-features", v);
    let r = Route::Direct { binary_path: owned(NIX_PATH), args: v, label: owned("check") };
    assert(strs(v@) =~= seq![
        "--extra-experimental-features"@,
        "nix-command flakes"@,
        "flake"@,
        "check"@,
        "--keep-going"@,
        "--impure"@,
    ] + strs(args@));
    r
}

/// `kryx run` → `nix run <args>`.
pub fn run(args: Vec<String>) -> (r: Route)
    ensures
        r@ == RouteView::Direct(NIX_PATH@, seq!["run"@] + strs(args@), "run"@),
{
    direct(NIX_PATH, "run", args)
}

/// `kryx develop` → `nix develop <args>`.
pub fn develop(args: Vec<String>) -> (r: Route)
    ensures
        r@ == RouteView::Direct(NIX_PATH@, seq!["develop"@] + strs(args@), "develop"@),
{
    direct(NIX_PATH, "develop", args)
}

/// `kryx repl` → `nix repl <args>`.
pub fn repl(args: Vec<String>) -> (r: Route)
    ensures
        r@ == RouteView::Direct(NIX_PATH@, seq!["repl"@] + strs(args@), "repl"@),
{
    direct(NIX_PATH, "repl", args)
}

/// `kryx fmt` → `nix fmt <args>`.
pub fn fmt(args: Vec<String>) -> (r: Route)
    ensures
        r@ == RouteView::Direct(NIX_PATH@, seq!["fmt"@] + strs(args@), "fmt"@),
{
    direct(NIX_PATH, "fmt", args)
}

/// `kryx search` → `nh search <args>`.
pub fn search(args: Vec<String>) -> (r: Route)
    ensures
        r@ == RouteView::Direct(NH_PATH@, seq!["search"@] + strs(args@), "search"@),
{
    direct(NH_PATH, "search", args)
}

/// `kryx clean <args>` → `nh clean <args>`.
pub fn clean(args: Vec<String>) -> (r: Route)
    ensures
        r@ == RouteView::Direct(NH_PATH@, seq!["clean"@] + strs(args@), "clean"@),
{
    direct(NH_PATH, "clean", args)
}

/// `kryx gc` → `nix-collect-garbage <args>`.
pub fn gc(args: Vec<String>) -> (r: Route)
    ensures
        r@ == RouteView::Managed("nix-collect-garbage"@, strs(args@), "gc"@),
{
    managed("nix-collect-garbage", args, "gc")
}

/// `kryx home-manager` → `home-manager <args>`.
pub fn home_manager(args: Vec<String>) -> (r: Route)
    ensures
        r@ == RouteView::Managed("home-manager"@, strs(args@), "home-manager"@),
{
    managed("home-manager", args, "home-manager")
}

/// `kryx copy-closure` → `nix-copy-closure <args>`.
pub fn copy_closure(args: Vec<String>) -> (r: Route)
    ensures
        r@ == RouteView::Managed("nix-copy-closure"@, strs(args@), "copy-closure"@),
{
    managed("nix-copy-closure", args, "copy-closure")
}

/// `kryx nix-env` → `nix-env <args>`.
pub fn nix_env(args: Vec<String>) -> (r: Route)
    ensures
        r@ == RouteView::Managed("nix-env"@, strs(args@), "nix-env"@),
{
    managed("nix-env", args, "nix-env")
}

/// `kryx nix-channel` → `nix-channel <args>`.
pub fn nix_channel(args: Vec<String>) -> (r: Route)
    ensures
        r@ == RouteView::Managed("nix-channel"@, strs(args@), "nix-channel"@),
{
    managed("nix-channel", args, "nix-channel")
}

/// `kryx eval` → `nix eval <args>`.
pub fn eval(args: Vec<String>) -> (r: Route)
    ensures
        r@ == RouteView::Managed("nix"@, seq!["eval"@] + strs(args@), "eval"@),
{
    nix_managed("eval", args)
}

/// `kryx flake` → `nix flake <args>`.
pub fn flake(args: Vec<String>) -> (r: Route)
    ensures
        r@ == RouteView::Managed("nix"@, seq!["flake"@] + strs(args@), "flake"@),
{
    nix_managed("flake", args)
}

/// `kryx path-info` → `nix path-info <args>`.
pub fn path_info(args: Vec<String>) -> (r: Route)
    ensures
        r@ == RouteView::Managed("nix"@, seq!["path-info"@] + strs(args@), "path-info"@),
{
    nix_managed("path-info", args)
}

/// `kryx hash` → `nix hash <args>`.
pub fn hash(args: Vec<String>) -> (r: Route)
    ensures
        r@ == RouteView::Managed("nix"@, seq!["hash"@] + strs(args@), "hash"@),
{
    nix_managed("hash", args)
}

/// `kryx store` → `nix store <args>`; `store gc` and `store delete` need
/// a confirmation (see `decide_passthrough`).
pub fn store(args: Vec<String>) -> (r: Route)
    ensures
        r@ == RouteView::Managed("nix"@, seq!["store"@] + strs(args@), "store"@),
{
    nix_managed("store", args)
}

// ── Laws of the confirmation gate ────────────────────────────────────────────────────

/// Law: a destructive request without `--confirm` / `--yes` / `-y` is
/// refused, unless it is a help request or the user typed a raw `--`.
pub proof fn law_unconfirmed_destructive_refused(
    binary: Seq<char>,
    args: Seq<Seq<char>>,
    label: Seq<char>,
)
    requires
        !is_help_request(args),
        gate_is_active_spec(binary, label, args),
        !confirmed(args),
    ensures
        decide_spec(binary, args, label, false) == DecisionView::Fail(
            destructive_message(label, args),
        ),
{
}

/// Law: a help request is answered by the help (or its absence) before the
/// gate is consulted.
pub proof fn law_help_before_gate(binary: Seq<char>, args: Seq<Seq<char>>, label: Seq<char>)
    requires
        is_help_request(args),
    ensures
        decide_spec(binary, args, label, false) is ShowHelp || decide_spec(
            binary,
            args,
            label,
            false,
        ) == DecisionView::Fail(no_help_message(binary, label)),
{
}

/// Law: `kryx store gc ...` and `kryx store delete ...` are refused without a
/// confirmation flag and forwarded with one (help requests aside).
pub proof fn law_store_deletion_needs_confirmation(rest: Seq<Seq<char>>)
    requires
        rest.len() > 0,
        rest[0] == "gc"@ || rest[0] == "delete"@,
        !is_help_request(seq!["store"@] + rest),
    ensures
        !confirmed(rest) ==> decide_spec("nix"@, seq!["store"@] + rest, "store"@, false)
            == DecisionView::Fail(destructive_message("store"@, seq!["store"@] + rest)),
        confirmed(rest) ==> decide_spec("nix"@, seq!["store"@] + rest, "store"@, false)
            == DecisionView::Forward,
{
    let a = seq!["store"@] + rest;
    assert(a[0] == "store"@);
    assert(a[1] == rest[0]);
    assert(gate_args("store"@, a) == a);
    assert(gate_is_active_spec("nix"@, "store"@, a));
    reveal_strlit("store");
    reveal_strlit("--confirm");
    reveal_strlit("--yes");
    reveal_strlit("-y");
    if confirmed(rest) {
        let i = choose|i: int|
            0 <= i < rest.len() && (#[trigger] rest[i] == "--confirm"@ || rest[i] == "--yes"@
                || rest[i] == "-y"@);
        assert(a[i + 1] == rest[i]);
        assert(confirmed(a));
    } else {
        assert forall|i: int| 0 <= i < a.len() implies !(#[trigger] a[i] == "--confirm"@
            || a[i] == "--yes"@ || a[i] == "-y"@) by {
            if i == 0 {
                assert(a[0][0] == 's');
            } else {
                assert(a[i] == rest[i - 1]);
            }
        }
    }
}

/// Law: confirmation is asked per operation — `nix store optimise` and
/// `nix store repair` delete no store path and never need it.
pub proof fn law_store_rewrites_not_gated(rest: Seq<Seq<char>>)
    requires
        rest.len() > 0,
        rest[0] == "optimise"@ || rest[0] == "repair"@,
    ensures
        !requires_confirm_spec("nix"@, seq!["store"@] + rest),
{
    let a = seq!["store"@] + rest;
    assert(a[1] == rest[0]);
    reveal_strlit("nix");
    reveal_strlit("nixos-install");
    reveal_strlit("nixos-enter");
    reveal_strlit("nixos-rebuild");
    reveal_strlit("optimise");
    reveal_strlit("repair");
    reveal_strlit("gc");
    reveal_strlit("delete");
    assert("nix"@.len() != "nixos-install"@.len());
    assert("nix"@.len() != "nixos-enter"@.len());
    assert("nix"@.len() != "nixos-rebuild"@.len());
    assert(arg_or_empty(a, 1) == rest[0]);
    assert("optimise"@.len() != "gc"@.len() && "optimise"@.len() != "delete"@.len());
    assert("repair"@.len() != "gc"@.len() && "repair"@[0] != "delete"@[0]);
}

/// Law: installing and entering a system are gated whatever the arguments,
/// even none.
pub proof fn law_installers_always_gated(args: Seq<Seq<char>>)
    ensures
        requires_confirm_spec("nixos-install"@, args),
        requires_confirm_spec("nixos-enter"@, args),
{
}

} // verus!
