//! The kryx section of the hybrid help of the catch-all wrappers, and the
//! combined help text (kryx section followed by the native `--help`).
use vstd::prelude::*;
use crate::text::{
    chars_of, lemma_strs_push, owned, pad_right, push_padded, push_str, string_from_chars, strs,
};
use crate::ui::VERSION;

verus! {

/// Help section of one kryx catch-all command.
pub struct KryxHelp {
    pub command: String,
    pub description: String,
    pub version: String,
    /// (flag, description) pairs.
    pub kryx_options: Vec<(String, String)>,
    pub examples: Vec<String>,
    pub notes: Vec<String>,
}

/// The content of a `KryxHelp`, as character sequences.
pub struct HelpView {
    pub command: Seq<char>,
    pub description: Seq<char>,
    pub version: Seq<char>,
    pub options: Seq<(Seq<char>, Seq<char>)>,
    pub examples: Seq<Seq<char>>,
    pub notes: Seq<Seq<char>>,
}

pub open spec fn option_views(v: Seq<(String, String)>) -> Seq<(Seq<char>, Seq<char>)> {
    v.map_values(|p: (String, String)| (p.0@, p.1@))
}

impl View for KryxHelp {
    type V = HelpView;

    open spec fn view(&self) -> HelpView {
        HelpView {
            command: self.command@,
            description: self.description@,
            version: self.version@,
            options: option_views(self.kryx_options@),
            examples: strs(self.examples@),
            notes: strs(self.notes@),
        }
    }
}

impl HelpView {
    /// A section with a command and a description, the current version, and
    /// no options, examples or notes.
    pub open spec fn fresh(command: Seq<char>, description: Seq<char>) -> HelpView {
        HelpView {
            command,
            description,
            version: VERSION@,
            options: Seq::empty(),
            examples: Seq::empty(),
            notes: Seq::empty(),
        }
    }

    pub open spec fn with_option(self, flag: Seq<char>, desc: Seq<char>) -> HelpView {
        HelpView { options: self.options.push((flag, desc)), ..self }
    }

    pub open spec fn with_example(self, example: Seq<char>) -> HelpView {
        HelpView { examples: self.examples.push(example), ..self }
    }

    pub open spec fn with_note(self, note: Seq<char>) -> HelpView {
        HelpView { notes: self.notes.push(note), ..self }
    }
}

impl KryxHelp {
    pub fn new(command: &str, description: &str) -> (h: Self)
        ensures
            h@ == HelpView::fresh(command@, description@),
    {
        let h = KryxHelp {
            command: owned(command),
            description: owned(description),
            version: owned(VERSION),
            kryx_options: Vec::new(),
            examples: Vec::new(),
            notes: Vec::new(),
        };
        assert(option_views(h.kryx_options@) =~= Seq::empty());
        assert(strs(h.examples@) =~= Seq::empty());
        assert(strs(h.notes@) =~= Seq::empty());
        h
    }

    pub fn option(self, flag: &str, desc: &str) -> (h: Self)
        ensures
            h@ == self@.with_option(flag@, desc@),
    {
        let mut h = self;
        let ghost before = h.kryx_options@;
        h.kryx_options.push((owned(flag), owned(desc)));
        assert(option_views(h.kryx_options@) =~= option_views(before).push((flag@, desc@)));
        h
    }

    pub fn example(self, example: &str) -> (h: Self)
        ensures
            h@ == self@.with_example(example@),
    {
        let mut h = self;
        let x = owned(example);
        proof {
            lemma_strs_push(h.examples@, x);
        }
        h.examples.push(x);
        h
    }

    pub fn note(self, note: &str) -> (h: Self)
        ensures
            h@ == self@.with_note(note@),
    {
        let mut h = self;
        let x = owned(note);
        proof {
            lemma_strs_push(h.notes@, x);
        }
        h.notes.push(x);
        h
    }
}

/// One line per option: four spaces, the flag padded to 32 characters,
/// the description.
pub open spec fn options_block(opts: Seq<(Seq<char>, Seq<char>)>) -> Seq<char>
    decreases opts.len(),
{
    if opts.len() == 0 {
        Seq::empty()
    } else {
        options_block(opts.drop_last()) + "    "@ + pad_right(opts.last().0, 32) + opts.last().1
            + "\n"@
    }
}

/// One line per item, indented by four spaces.
pub open spec fn indented_lines(items: Seq<Seq<char>>) -> Seq<char>
    decreases items.len(),
{
    if items.len() == 0 {
        Seq::empty()
    } else {
        indented_lines(items.drop_last()) + "    "@ + items.last() + "\n"@
    }
}

/// First lines: title, usage, options heading.
pub open spec fn help_head(h: HelpView) -> Seq<char> {
    "kryx-"@ + h.command + " ("@ + h.version + ") — "@ + h.description + "\n"@ + "\n"@
        + "USAGE:\n"@ + "    kryx "@ + h.command + " [KRYX_OPTIONS] [-- NATIVE_ARGS...]\n"@
        + "\n"@ + "KRYX OPTIONS:\n"@
}

/// The option lines and the native pass-through paragraph.
pub open spec fn help_body(h: HelpView) -> Seq<char> {
    options_block(h.options) + "\n"@ + "NATIVE PASSTHROUGH:\n"@
        + "    All other arguments are forwarded verbatim to the native binary.\n"@
        + "    Use `--` to separate kryx options from native args if needed.\n"@
}

/// Notes, then examples, each block only when there is something in it.
pub open spec fn help_tail(h: HelpView) -> Seq<char> {
    (if h.notes.len() > 0 {
        "\n"@ + indented_lines(h.notes)
    } else {
        Seq::empty()
    }) + (if h.examples.len() > 0 {
        "\n"@ + "EXAMPLES:\n"@ + indented_lines(h.examples)
    } else {
        Seq::empty()
    })
}

/// The rendered kryx help section.
pub open spec fn render_help(h: HelpView) -> Seq<char> {
    help_head(h) + help_body(h) + help_tail(h)
}

fn push_indented(out: &mut Vec<char>, items: &Vec<String>)
    ensures
        final(out)@ == old(out)@ + indented_lines(strs(items@)),
{
    let ghost start = out@;
    for i in 0..items.len()
        invariant
            out@ == start + indented_lines(strs(items@).take(i as int)),
    {
        assert(strs(items@).take(i + 1).drop_last() =~= strs(items@).take(i as int));
        push_str(out, "    ");
        push_str(out, items[i].as_str());
        push_str(out, "\n");
        assert(out@ =~= start + indented_lines(strs(items@).take(i + 1)));
    }
    assert(strs(items@).take(items@.len() as int) =~= strs(items@));
}

fn push_options(out: &mut Vec<char>, opts: &Vec<(String, String)>)
    ensures
        final(out)@ == old(out)@ + options_block(option_views(opts@)),
{
    let ghost start = out@;
    for i in 0..opts.len()
        invariant
            out@ == start + options_block(option_views(opts@).take(i as int)),
    {
        assert(option_views(opts@).take(i + 1).drop_last() =~= option_views(opts@).take(
            i as int,
        ));
        push_str(out, "    ");
        let flag = chars_of(opts[i].0.as_str());
        push_padded(out, flag.as_slice(), 32);
        push_str(out, opts[i].1.as_str());
        push_str(out, "\n");
        assert(out@ =~= start + options_block(option_views(opts@).take(i + 1)));
    }
    assert(option_views(opts@).take(opts@.len() as int) =~= option_views(opts@));
}

impl KryxHelp {
    fn render_head(&self, out: &mut Vec<char>)
        ensures
            final(out)@ == old(out)@ + help_head(self@),
    {
        let ghost start = out@;
        push_str(out, "kryx-");
        push_str(out, self.command.as_str());
        push_str(out, " (");
        push_str(out, self.version.as_str());
        push_str(out, ") — ");
        push_str(out, self.description.as_str());
        push_str(out, "\n");
        push_str(out, "\n");
        let ghost p1 = out@;
        assert(p1 =~= start + ("kryx-"@ + self@.command + " ("@ + self@.version + ") — "@
            + self@.description + "\n"@ + "\n"@));
        push_str(out, "USAGE:\n");
        push_str(out, "    kryx ");
        push_str(out, self.command.as_str());
        push_str(out, " [KRYX_OPTIONS] [-- NATIVE_ARGS...]\n");
        push_str(out, "\n");
        push_str(out, "KRYX OPTIONS:\n");
        assert(out@ =~= start + help_head(self@));
    }

    fn render_body(&self, out: &mut Vec<char>)
        ensures
            final(out)@ == old(out)@ + help_body(self@),
    {
        let ghost start = out@;
        push_options(out, &self.kryx_options);
        push_str(out, "\n");
        push_str(out, "NATIVE PASSTHROUGH:\n");
        push_str(out, "    All other arguments are forwarded verbatim to the native binary.\n");
        push_str(out, "    Use `--` to separate kryx options from native args if needed.\n");
        assert(out@ =~= start + help_body(self@));
    }

    fn render_tail(&self, out: &mut Vec<char>)
        ensures
            final(out)@ == old(out)@ + help_tail(self@),
    {
        let ghost start = out@;
        if self.notes.len() > 0 {
            push_str(out, "\n");
            push_indented(out, &self.notes);
        }
        let ghost mid = out@;
        assert(mid =~= start + (if self@.notes.len() > 0 {
            "\n"@ + indented_lines(self@.notes)
        } else {
            Seq::empty()
        }));
        if self.examples.len() > 0 {
            push_str(out, "\n");
            push_str(out, "EXAMPLES:\n");
            push_indented(out, &self.examples);
        }
        assert(out@ =~= start + help_tail(self@));
    }

    pub fn render_chars(&self, out: &mut Vec<char>)
        ensures
            final(out)@ == old(out)@ + render_help(self@),
    {
        let ghost start = out@;
        self.render_head(out);
        self.render_body(out);
        self.render_tail(out);
        assert(out@ =~= start + render_help(self@));
    }

    /// The rendered help section (what `Display` prints for it).
    pub fn render(&self) -> (s: String)
        ensures
            s@ == render_help(self@),
    {
        let mut out: Vec<char> = Vec::new();
        self.render_chars(&mut out);
        assert(out@ =~= render_help(self@));
        string_from_chars(out.as_slice())
    }
}

// ── Help sections of the catch-all commands ─────────────────────────────

/// The kryx section of the help of `kryx gc`.
pub open spec fn gc_help() -> HelpView {
    HelpView::fresh("gc"@, "Garbage collection wrapper (nix-collect-garbage)"@)
        .with_option("--confirm, --yes, -y"@, "Bypass destructive-operation gate (no-op for `gc` — never requires confirm)"@)
        .with_option("--dry-run"@, "Print the command, don't run"@)
        .with_option("--verbose"@, "Log the command to stderr before executing"@)
        .with_option("--explain"@, "Show resolved binary + full argv, then exit"@)
        .with_example("kryx gc --delete-older-than 30d"@)
        .with_example("kryx gc --max-freed 10G --dry-run"@)
        .with_example("kryx gc --explain"@)
        .with_note("Use `kryx gc -- --help` to show ONLY the native nix-collect-garbage help."@)
}

pub fn help_gc() -> (h: KryxHelp)
    ensures
        h@ == gc_help(),
{
    KryxHelp::new("gc", "Garbage collection wrapper (nix-collect-garbage)")
        .option("--confirm, --yes, -y", "Bypass destructive-operation gate (no-op for `gc` — never requires confirm)")
        .option("--dry-run", "Print the command, don't run")
        .option("--verbose", "Log the command to stderr before executing")
        .option("--explain", "Show resolved binary + full argv, then exit")
        .example("kryx gc --delete-older-than 30d")
        .example("kryx gc --max-freed 10G --dry-run")
        .example("kryx gc --explain")
        .note("Use `kryx gc -- --help` to show ONLY the native nix-collect-garbage help.")
}

/// The kryx section of the help of `kryx home-manager`.
pub open spec fn home_manager_help() -> HelpView {
    HelpView::fresh("home-manager"@, "Wrapper for home-manager (user-level config manager)"@)
        .with_option("--confirm, --yes, -y"@, "Bypass destructive-operation gate (no-op for `home-manager`)"@)
        .with_option("--dry-run"@, "Print the command, don't run"@)
        .with_option("--verbose"@, "Log the command to stderr"@)
        .with_option("--explain"@, "Show resolved binary + full argv, then exit"@)
        .with_example("kryx home-manager switch"@)
        .with_example("kryx home-manager build"@)
        .with_example("kryx home-manager generations"@)
        .with_note("home-manager must be installed (e.g., via `nix profile install nixpkgs#home-manager`)."@)
}

pub fn help_home_manager() -> (h: KryxHelp)
    ensures
        h@ == home_manager_help(),
{
    KryxHelp::new("home-manager", "Wrapper for home-manager (user-level config manager)")
        .option("--confirm, --yes, -y", "Bypass destructive-operation gate (no-op for `home-manager`)")
        .option("--dry-run", "Print the command, don't run")
        .option("--verbose", "Log the command to stderr")
        .option("--explain", "Show resolved binary + full argv, then exit")
        .example("kryx home-manager switch")
        .example("kryx home-manager build")
        .example("kryx home-manager generations")
        .note("home-manager must be installed (e.g., via `nix profile install nixpkgs#home-manager`).")
}

/// The kryx section of the help of `kryx copy-closure`.
pub open spec fn copy_closure_help() -> HelpView {
    HelpView::fresh("copy-closure"@, "Copy store closure between machines (nix-copy-closure)"@)
        .with_option("--confirm, --yes, -y"@, "Bypass destructive-operation gate (no-op)"@)
        .with_option("--dry-run"@, "Print the command, don't run"@)
        .with_option("--verbose"@, "Log the command to stderr"@)
        .with_option("--explain"@, "Show resolved binary + full argv, then exit"@)
        .with_example("kryx copy-closure --to user@host /nix/store/...-hello"@)
        .with_example("kryx copy-closure --from user@host /nix/store/...-hello"@)
}

pub fn help_copy_closure() -> (h: KryxHelp)
    ensures
        h@ == copy_closure_help(),
{
    KryxHelp::new("copy-closure", "Copy store closure between machines (nix-copy-closure)")
        .option("--confirm, --yes, -y", "Bypass destructive-operation gate (no-op)")
        .option("--dry-run", "Print the command, don't run")
        .option("--verbose", "Log the command to stderr")
        .option("--explain", "Show resolved binary + full argv, then exit")
        .example("kryx copy-closure --to user@host /nix/store/...-hello")
        .example("kryx copy-closure --from user@host /nix/store/...-hello")
}

/// The kryx section of the help of `kryx nix-env`.
pub open spec fn nix_env_help() -> HelpView {
    HelpView::fresh("nix-env"@, "Legacy user-level package manager (nix-env)"@)
        .with_option("--confirm, --yes, -y"@, "Bypass destructive-operation gate (no-op)"@)
        .with_option("--dry-run"@, "Print the command, don't run"@)
        .with_option("--verbose"@, "Log the command to stderr"@)
        .with_option("--explain"@, "Show resolved binary + full argv, then exit"@)
        .with_example("kryx nix-env -qa 'ripgrep'"@)
        .with_example("kryx nix-env -iA nixpkgs.ripgrep"@)
        .with_example("kryx nix-env --list-generations"@)
        .with_note("Prefer `kryx profile` (modern) over `kryx nix-env` (legacy)."@)
}

pub fn help_nix_env() -> (h: KryxHelp)
    ensures
        h@ == nix_env_help(),
{
    KryxHelp::new("nix-env", "Legacy user-level package manager (nix-env)")
        .option("--confirm, --yes, -y", "Bypass destructive-operation gate (no-op)")
        .option("--dry-run", "Print the command, don't run")
        .option("--verbose", "Log the command to stderr")
        .option("--explain", "Show resolved binary + full argv, then exit")
        .example("kryx nix-env -qa 'ripgrep'")
        .example("kryx nix-env -iA nixpkgs.ripgrep")
        .example("kryx nix-env --list-generations")
        .note("Prefer `kryx profile` (modern) over `kryx nix-env` (legacy).")
}

/// The kryx section of the help of `kryx nix-channel`.
pub open spec fn nix_channel_help() -> HelpView {
    HelpView::fresh("nix-channel"@, "Legacy channel manager (nix-channel)"@)
        .with_option("--confirm, --yes, -y"@, "Bypass destructive-operation gate (no-op)"@)
        .with_option("--dry-run"@, "Print the command, don't run"@)
        .with_option("--verbose"@, "Log the command to stderr"@)
        .with_option("--explain"@, "Show resolved binary + full argv, then exit"@)
        .with_example("kryx nix-channel --list"@)
        .with_example("kryx nix-channel --update"@)
        .with_example("kryx nix-channel --add nixpkgs https://channels.nixos.org/nixpkgs-unstable"@)
        .with_note("Prefer `kryx flake` / `kryx registry` (modern) over `kryx nix-channel` (legacy)."@)
}

pub fn help_nix_channel() -> (h: KryxHelp)
    ensures
        h@ == nix_channel_help(),
{
    KryxHelp::new("nix-channel", "Legacy channel manager (nix-channel)")
        .option("--confirm, --yes, -y", "Bypass destructive-operation gate (no-op)")
        .option("--dry-run", "Print the command, don't run")
        .option("--verbose", "Log the command to stderr")
        .option("--explain", "Show resolved binary + full argv, then exit")
        .example("kryx nix-channel --list")
        .example("kryx nix-channel --update")
        .example("kryx nix-channel --add nixpkgs https://channels.nixos.org/nixpkgs-unstable")
        .note("Prefer `kryx flake` / `kryx registry` (modern) over `kryx nix-channel` (legacy).")
}

/// The kryx section of the help of `kryx eval`.
pub open spec fn eval_help() -> HelpView {
    HelpView::fresh("eval"@, "Evaluate a Nix expression and print the result (nix eval)"@)
        .with_option("--confirm, --yes, -y"@, "Bypass destructive-operation gate (no-op for `eval`)"@)
        .with_option("--dry-run"@, "Print the command, don't run"@)
        .with_option("--verbose"@, "Log the command to stderr"@)
        .with_option("--explain"@, "Show resolved binary + full argv, then exit"@)
        .with_example("kryx eval --impure --expr 'builtins.toString (1 + 1)'"@)
        .with_example("kryx eval --impure --json '.#pkgs.hello.name'"@)
        .with_example("kryx eval --impure '.#nixosConfigurations.\"my-host\".config.networking.hostName'"@)
        .with_note("Use `kryx eval -- --help` to show ONLY the native nix eval help."@)
}

pub fn help_eval() -> (h: KryxHelp)
    ensures
        h@ == eval_help(),
{
    KryxHelp::new("eval", "Evaluate a Nix expression and print the result (nix eval)")
        .option("--confirm, --yes, -y", "Bypass destructive-operation gate (no-op for `eval`)")
        .option("--dry-run", "Print the command, don't run")
        .option("--verbose", "Log the command to stderr")
        .option("--explain", "Show resolved binary + full argv, then exit")
        .example("kryx eval --impure --expr 'builtins.toString (1 + 1)'")
        .example("kryx eval --impure --json '.#pkgs.hello.name'")
        .example("kryx eval --impure '.#nixosConfigurations.\"my-host\".config.networking.hostName'")
        .note("Use `kryx eval -- --help` to show ONLY the native nix eval help.")
}

/// The kryx section of the help of `kryx shell`.
pub open spec fn shell_help() -> HelpView {
    HelpView::fresh("shell"@, "Run a command in an environment with the specified packages (nix shell)"@)
        .with_option("--confirm, --yes, -y"@, "Bypass destructive-operation gate (no-op for `shell`)"@)
        .with_option("--dry-run"@, "Print the command, don't run"@)
        .with_option("--verbose"@, "Log the command to stderr"@)
        .with_option("--explain"@, "Show resolved binary + full argv, then exit"@)
        .with_option("-p, --packages PKG"@, "(legacy) Packages to put in the shell environment; nix 2.18+ removed this flag, kryx strips it and converts each PKG to a positional `nixpkgs#<PKG>` installable"@)
        .with_option("-c CMD"@, "Run CMD in the shell environment (nix 2.18+ replacement for --command)"@)
        .with_example("kryx shell git -c git --version"@)
        .with_example("kryx shell -p git hello -c bash"@)
        .with_example("kryx shell nixpkgs#youtube-dl --command youtube-dl --version"@)
        .with_note("KCR-CLI-3-SHELL: nix 2.18+ renamed `nix shell` (was `nix-shell`) and dropped the `-p`/`--packages` flag.              kryx transparently translates legacy `-p <pkg>` to modern positional `nixpkgs#<pkg>` installables.              Use `kryx shell -- --help` to show ONLY the native nix shell help."@)
}

pub fn help_shell() -> (h: KryxHelp)
    ensures
        h@ == shell_help(),
{
    KryxHelp::new("shell", "Run a command in an environment with the specified packages (nix shell)")
        .option("--confirm, --yes, -y", "Bypass destructive-operation gate (no-op for `shell`)")
        .option("--dry-run", "Print the command, don't run")
        .option("--verbose", "Log the command to stderr")
        .option("--explain", "Show resolved binary + full argv, then exit")
        .option("-p, --packages PKG", "(legacy) Packages to put in the shell environment; nix 2.18+ removed this flag, kryx strips it and converts each PKG to a positional `nixpkgs#<PKG>` installable")
        .option("-c CMD", "Run CMD in the shell environment (nix 2.18+ replacement for --command)")
        .example("kryx shell git -c git --version")
        .example("kryx shell -p git hello -c bash")
        .example("kryx shell nixpkgs#youtube-dl --command youtube-dl --version")
        .note("KCR-CLI-3-SHELL: nix 2.18+ renamed `nix shell` (was `nix-shell`) and dropped the `-p`/`--packages` flag.              kryx transparently translates legacy `-p <pkg>` to modern positional `nixpkgs#<pkg>` installables.              Use `kryx shell -- --help` to show ONLY the native nix shell help.")
}

/// The kryx section of the help of `kryx flake`.
pub open spec fn flake_help() -> HelpView {
    HelpView::fresh("flake"@, "Manage Nix flakes (nix flake)"@)
        .with_option("--confirm, --yes, -y"@, "Bypass destructive-operation gate (no-op for `flake` subcommands)"@)
        .with_option("--dry-run"@, "Print the command, don't run"@)
        .with_option("--verbose"@, "Log the command to stderr"@)
        .with_option("--explain"@, "Show resolved binary + full argv, then exit"@)
        .with_example("kryx flake show github:kryonix-dev/kryx"@)
        .with_example("kryx flake update --commit-lock-file"@)
        .with_example("kryx flake lock --refresh"@)
        .with_example("kryx flake metadata ."@)
        .with_note("Common subcommands: archive, check, info, init, lock, metadata, new, show, update."@)
        .with_note("Use `kryx flake -- --help` to show ONLY the native nix flake help."@)
}

pub fn help_flake() -> (h: KryxHelp)
    ensures
        h@ == flake_help(),
{
    KryxHelp::new("flake", "Manage Nix flakes (nix flake)")
        .option("--confirm, --yes, -y", "Bypass destructive-operation gate (no-op for `flake` subcommands)")
        .option("--dry-run", "Print the command, don't run")
        .option("--verbose", "Log the command to stderr")
        .option("--explain", "Show resolved binary + full argv, then exit")
        .example("kryx flake show github:kryonix-dev/kryx")
        .example("kryx flake update --commit-lock-file")
        .example("kryx flake lock --refresh")
        .example("kryx flake metadata .")
        .note("Common subcommands: archive, check, info, init, lock, metadata, new, show, update.")
        .note("Use `kryx flake -- --help` to show ONLY the native nix flake help.")
}

/// The kryx section of the help of `kryx path-info`.
pub open spec fn path_info_help() -> HelpView {
    HelpView::fresh("path-info"@, "Query info about store paths (nix path-info)"@)
        .with_option("--confirm, --yes, -y"@, "Bypass destructive-operation gate (no-op)"@)
        .with_option("--dry-run"@, "Print the command, don't run"@)
        .with_option("--verbose"@, "Log the command to stderr"@)
        .with_option("--explain"@, "Show resolved binary + full argv, then exit"@)
        .with_example("kryx path-info /nix/store/...-hello"@)
        .with_example("kryx path-info --closure-size /nix/store/...-hello"@)
        .with_example("kryx path-info -r /nix/store/...-hello"@)
        .with_note("Use `kryx path-info -- --help` to show ONLY the native nix path-info help."@)
}

pub fn help_path_info() -> (h: KryxHelp)
    ensures
        h@ == path_info_help(),
{
    KryxHelp::new("path-info", "Query info about store paths (nix path-info)")
        .option("--confirm, --yes, -y", "Bypass destructive-operation gate (no-op)")
        .option("--dry-run", "Print the command, don't run")
        .option("--verbose", "Log the command to stderr")
        .option("--explain", "Show resolved binary + full argv, then exit")
        .example("kryx path-info /nix/store/...-hello")
        .example("kryx path-info --closure-size /nix/store/...-hello")
        .example("kryx path-info -r /nix/store/...-hello")
        .note("Use `kryx path-info -- --help` to show ONLY the native nix path-info help.")
}

/// The kryx section of the help of `kryx hash`.
pub open spec fn hash_help() -> HelpView {
    HelpView::fresh("hash"@, "Compute cryptographic hashes (nix hash)"@)
        .with_option("--confirm, --yes, -y"@, "Bypass destructive-operation gate (no-op)"@)
        .with_option("--dry-run"@, "Print the command, don't run"@)
        .with_option("--verbose"@, "Log the command to stderr"@)
        .with_option("--explain"@, "Show resolved binary + full argv, then exit"@)
        .with_example("kryx hash file ./foo.tar.gz"@)
        .with_example("kryx hash path /nix/store/...-hello"@)
        .with_example("kryx hash base32 ./foo.tar.gz"@)
        .with_example("kryx hash base16 --type sha256 ./foo.tar.gz"@)
        .with_note("Common subcommands: base16, base32, file, path."@)
        .with_note("Use `kryx hash -- --help` to show ONLY the native nix hash help."@)
}

pub fn help_hash() -> (h: KryxHelp)
    ensures
        h@ == hash_help(),
{
    KryxHelp::new("hash", "Compute cryptographic hashes (nix hash)")
        .option("--confirm, --yes, -y", "Bypass destructive-operation gate (no-op)")
        .option("--dry-run", "Print the command, don't run")
        .option("--verbose", "Log the command to stderr")
        .option("--explain", "Show resolved binary + full argv, then exit")
        .example("kryx hash file ./foo.tar.gz")
        .example("kryx hash path /nix/store/...-hello")
        .example("kryx hash base32 ./foo.tar.gz")
        .example("kryx hash base16 --type sha256 ./foo.tar.gz")
        .note("Common subcommands: base16, base32, file, path.")
        .note("Use `kryx hash -- --help` to show ONLY the native nix hash help.")
}

/// The kryx section of the help of `kryx store`.
pub open spec fn store_help() -> HelpView {
    HelpView::fresh("store"@, "Operate on the Nix store (nix store)"@)
        .with_option("--confirm, --yes, -y"@, "Bypass destructive-operation gate (REQUIRED for `store gc` and `store delete`)"@)
        .with_option("--dry-run"@, "Print the command, don't run"@)
        .with_option("--verbose"@, "Log the command to stderr"@)
        .with_option("--explain"@, "Show resolved binary + full argv, then exit"@)
        .with_example("kryx store gc --confirm"@)
        .with_example("kryx store gc --confirm --max-freed 10G"@)
        .with_example("kryx store optimise"@)
        .with_example("kryx store repair /nix/store/...-hello"@)
        .with_example("kryx store ls /nix/store/...-hello"@)
        .with_note("Common subcommands: add-file, add-path, copy, delete, gc, info, ls, optimise, repair, serve, verify."@)
        .with_note("DESTRUCTIVE: `store gc` and `store delete` will fail without --confirm."@)
        .with_note("Use `kryx store -- --help` to show ONLY the native nix store help."@)
}

pub fn help_store() -> (h: KryxHelp)
    ensures
        h@ == store_help(),
{
    KryxHelp::new("store", "Operate on the Nix store (nix store)")
        .option("--confirm, --yes, -y", "Bypass destructive-operation gate (REQUIRED for `store gc` and `store delete`)")
        .option("--dry-run", "Print the command, don't run")
        .option("--verbose", "Log the command to stderr")
        .option("--explain", "Show resolved binary + full argv, then exit")
        .example("kryx store gc --confirm")
        .example("kryx store gc --confirm --max-freed 10G")
        .example("kryx store optimise")
        .example("kryx store repair /nix/store/...-hello")
        .example("kryx store ls /nix/store/...-hello")
        .note("Common subcommands: add-file, add-path, copy, delete, gc, info, ls, optimise, repair, serve, verify.")
        .note("DESTRUCTIVE: `store gc` and `store delete` will fail without --confirm.")
        .note("Use `kryx store -- --help` to show ONLY the native nix store help.")
}

// ── Lookups ──────────────────────────────────────────────────────────────

pub open spec fn opt_help_view(r: Option<KryxHelp>) -> Option<HelpView> {
    match r {
        Some(h) => Some(h@),
        None => None,
    }
}

/// The help section of a catch-all wrapping a native binary other than `nix`.
pub open spec fn binary_help(binary: Seq<char>) -> Option<HelpView> {
    if binary == "nix-collect-garbage"@ {
        Some(gc_help())
    } else if binary == "home-manager"@ {
        Some(home_manager_help())
    } else if binary == "nix-copy-closure"@ {
        Some(copy_closure_help())
    } else if binary == "nix-env"@ {
        Some(nix_env_help())
    } else if binary == "nix-channel"@ {
        Some(nix_channel_help())
    } else {
        None
    }
}

/// The help section of a catch-all wrapping a `nix` subcommand.
pub open spec fn nix_subcmd_help(subcmd: Seq<char>) -> Option<HelpView> {
    if subcmd == "eval"@ {
        Some(eval_help())
    } else if subcmd == "shell"@ {
        Some(shell_help())
    } else if subcmd == "flake"@ {
        Some(flake_help())
    } else if subcmd == "path-info"@ {
        Some(path_info_help())
    } else if subcmd == "hash"@ {
        Some(hash_help())
    } else if subcmd == "store"@ {
        Some(store_help())
    } else {
        None
    }
}

/// The help section for a binary wrapped by a catch-all (`None` for a binary
/// no catch-all wraps).
pub fn help_for_binary(binary_name: &str) -> (r: Option<KryxHelp>)
    ensures
        opt_help_view(r) == binary_help(binary_name@),
{
    if crate::text::str_eq(binary_name, "nix-collect-garbage") {
        Some(help_gc())
    } else if crate::text::str_eq(binary_name, "home-manager") {
        Some(help_home_manager())
    } else if crate::text::str_eq(binary_name, "nix-copy-closure") {
        Some(help_copy_closure())
    } else if crate::text::str_eq(binary_name, "nix-env") {
        Some(help_nix_env())
    } else if crate::text::str_eq(binary_name, "nix-channel") {
        Some(help_nix_channel())
    } else {
        None
    }
}

/// The help section for a `nix` subcommand wrapped by a catch-all.
pub fn help_for_nix_subcmd(subcmd: &str) -> (r: Option<KryxHelp>)
    ensures
        opt_help_view(r) == nix_subcmd_help(subcmd@),
{
    if crate::text::str_eq(subcmd, "eval") {
        Some(help_eval())
    } else if crate::text::str_eq(subcmd, "shell") {
        Some(help_shell())
    } else if crate::text::str_eq(subcmd, "flake") {
        Some(help_flake())
    } else if crate::text::str_eq(subcmd, "path-info") {
        Some(help_path_info())
    } else if crate::text::str_eq(subcmd, "hash") {
        Some(help_hash())
    } else if crate::text::str_eq(subcmd, "store") {
        Some(help_store())
    } else {
        None
    }
}

// ── Combined help text ───────────────────────────────────────────────────

/// Line between the kryx section and the native help.
pub const HELP_SEPARATOR: &'static str =
    "═══════════════════════════════════════════════════════════════════════════════";

/// What became of running `<binary> --help`.
pub enum NativeHelp {
    /// The binary ran; its standard output and standard error.
    Output { stdout: String, stderr: String },
    /// The binary was found at this path but could not be started.
    SpawnFailed { binary_path: String, error: String },
    /// No binary of that name was found.
    NotFound,
}

pub open spec fn native_section(binary: Seq<char>, native: NativeHelp) -> Seq<char> {
    match native {
        NativeHelp::Output { stdout, stderr } => stdout@ + (if stderr@.len() > 0 {
            "\n--- stderr from native binary ---\n"@ + stderr@
        } else {
            Seq::empty()
        }),
        NativeHelp::SpawnFailed { binary_path, error } => "(failed to invoke `"@ + binary_path@
            + " --help`: "@ + error@ + ")\n"@,
        NativeHelp::NotFound => "(binary `"@ + binary
            + "` not found via `discover_real_bin` — install it or set KRYX_BIN_DIR)\n"@,
    }
}

/// The hybrid help: kryx section, separator, heading, native help.
pub open spec fn help_text_spec(binary: Seq<char>, h: HelpView, native: NativeHelp) -> Seq<
    char,
> {
    render_help(h) + "\n"@ + HELP_SEPARATOR@ + "\nNATIVE BINARY HELP ("@ + binary
        + " --help):\n"@ + HELP_SEPARATOR@ + "\n"@ + "\n"@ + native_section(binary, native)
}

fn push_native(out: &mut Vec<char>, binary: &str, native: &NativeHelp)
    ensures
        final(out)@ == old(out)@ + native_section(binary@, *native),
{
    let ghost start = out@;
    match native {
        NativeHelp::Output { stdout, stderr } => {
            push_str(out, stdout.as_str());
            let e = chars_of(stderr.as_str());
            if e.len() > 0 {
                push_str(out, "\n--- stderr from native binary ---\n");
                push_str(out, stderr.as_str());
            }
        },
        NativeHelp::SpawnFailed { binary_path, error } => {
            push_str(out, "(failed to invoke `");
            push_str(out, binary_path.as_str());
            push_str(out, " --help`: ");
            push_str(out, error.as_str());
            push_str(out, ")\n");
        },
        NativeHelp::NotFound => {
            push_str(out, "(binary `");
            push_str(out, binary);
            push_str(
                out,
                "` not found via `discover_real_bin` — install it or set KRYX_BIN_DIR)\n",
            );
        },
    }
    assert(out@ =~= start + native_section(binary@, *native));
}

/// The hybrid help text: the kryx section, then the native `--help` of the
/// binary (or a note saying why it is missing).
pub fn help_text(binary: &str, kryx_help: &KryxHelp, native: &NativeHelp) -> (s: String)
    ensures
        s@ == help_text_spec(binary@, kryx_help@, *native),
{
    let mut out: Vec<char> = Vec::new();
    kryx_help.render_chars(&mut out);
    let ghost r = out@;
    push_str(&mut out, "\n");
    push_str(&mut out, HELP_SEPARATOR);
    push_str(&mut out, "\nNATIVE BINARY HELP (");
    push_str(&mut out, binary);
    push_str(&mut out, " --help):\n");
    push_str(&mut out, HELP_SEPARATOR);
    push_str(&mut out, "\n");
    push_str(&mut out, "\n");
    push_native(&mut out, binary, native);
    assert(out@ =~= help_text_spec(binary@, kryx_help@, *native));
    string_from_chars(out.as_slice())
}

} // verus!
