//! `kryx update`: pulling the two configuration repositories, the
//! `kryx-auto:` stashes it makes on the way, and the flake update.
//!
//! Pulling a repository alternates `git` runs with decisions; the decisions
//! are [`pull_step`], a function from the request and the last outcome to
//! the next `git` run (or the result).
use vstd::prelude::*;
use crate::text::{
    chars_of, dec, lines, lines_of, owned, push_dec, push_str, starts_with, string_from_chars, strs,
    trim, trim_chars, utf8_len, views,
};

verus! {

/// Marker at the start of every stash message that `kryx update` creates,
/// so that `--cleanup-stash` removes those stashes and no others.
pub const STASH_MARKER: &'static str = "kryx-auto:";

// ── Working-tree changes ────────────────────────────────────────────────

/// The path of a `git status --porcelain` line: what follows its first
/// three bytes (status letters and a space), trimmed; empty when the
/// line is shorter or byte 3 falls inside a character.
pub open spec fn porcelain_path(line: Seq<char>) -> Seq<char> {
    if line.len() >= 1 && utf8_len(line.take(1)) == 3 {
        trim(line.subrange(1, line.len() as int))
    } else if line.len() >= 2 && utf8_len(line.take(2)) == 3 {
        trim(line.subrange(2, line.len() as int))
    } else if line.len() >= 3 && utf8_len(line.take(3)) == 3 {
        trim(line.subrange(3, line.len() as int))
    } else {
        Seq::empty()
    }
}

/// A porcelain line that names a changed file other than `flake.lock`.
pub open spec fn change_outside_lock(line: Seq<char>) -> bool {
    porcelain_path(line).len() > 0 && porcelain_path(line) != "flake.lock"@
}

/// Whether the tree has changes outside `flake.lock`, from the output of
/// `git status --porcelain` (`None` when it could not be run or failed,
/// which counts as changed: over-stashing is safer than losing work).
pub open spec fn has_changes_outside_lock_spec(porcelain: Option<String>) -> bool {
    match porcelain {
        Some(o) => exists|i: int|
            0 <= i < lines(o@).len() && change_outside_lock(#[trigger] lines(o@)[i]),
        None => true,
    }
}

fn porcelain_path_of(line: &[char]) -> (p: Vec<char>)
    ensures
        p@ == porcelain_path(line@),
{
    let n = line.len();
    let mut k: usize = 1;
    while k <= 3 && k <= n
        invariant
            1 <= k <= 4,
            n == line@.len(),
            forall|j: int| 1 <= j < k && j <= n ==> utf8_len(#[trigger] line@.take(j)) != 3,
        decreases 4 - k,
    {
        let head = crate::text::copy_range(line, 0, k);
        assert(head@ =~= line@.take(k as int));
        if head.len() <= 3 && crate::text::utf8_len_exec(head.as_slice()) == 3 {
            let tail = crate::text::copy_range(line, k, n);
            return trim_chars(tail.as_slice());
        }
        k += 1;
    }
    Vec::new()
}

fn change_outside_lock_of(line: &[char]) -> (b: bool)
    ensures
        b == change_outside_lock(line@),
{
    let p = porcelain_path_of(line);
    let lock = chars_of("flake.lock");
    p.len() > 0 && !crate::text::same_chars(p.as_slice(), lock.as_slice())
}

/// Whether a repository has changes outside `flake.lock`.
pub fn has_changes_outside_lock(porcelain: &Option<String>) -> (b: bool)
    ensures
        b == has_changes_outside_lock_spec(*porcelain),
{
    match porcelain {
        Some(o) => any_change_outside_lock(o.as_str()),
        None => true,
    }
}

fn any_change_outside_lock(o: &str) -> (b: bool)
    ensures
        b == exists|i: int|
            0 <= i < lines(o@).len() && change_outside_lock(#[trigger] lines(o@)[i]),
{
    let v = chars_of(o);
    let ls = lines_of(v.as_slice());
    for i in 0..ls.len()
        invariant
            views(ls@) == lines(o@),
            forall|j: int| 0 <= j < i ==> !change_outside_lock(#[trigger] lines(o@)[j]),
    {
        if change_outside_lock_of(ls[i].as_slice()) {
            assert(change_outside_lock(lines(o@)[i as int]));
            return true;
        }
    }
    false
}

// ── Automatic stashes ───────────────────────────────────────────────────

/// The part of a line before its first `": "` and the part after it.
pub open spec fn split_colon_space(line: Seq<char>) -> Option<(Seq<char>, Seq<char>)> {
    match crate::text::find(line, ": "@) {
        Some(i) => Some((line.take(i), line.subrange(i + 2, line.len() as int))),
        None => None,
    }
}

/// The stash reference of a `git stash list` line whose subject carries
/// the marker.
pub open spec fn auto_stash_ref(line: Seq<char>) -> Option<Seq<char>> {
    match split_colon_space(line) {
        Some((r, subject)) => if starts_with(subject, STASH_MARKER@) {
            Some(r)
        } else {
            None
        },
        None => None,
    }
}

pub open spec fn auto_stash_refs_in(ls: Seq<Seq<char>>) -> Seq<Seq<char>>
    decreases ls.len(),
{
    if ls.len() == 0 {
        Seq::empty()
    } else {
        let r = auto_stash_refs_in(ls.drop_last());
        match auto_stash_ref(ls.last()) {
            Some(x) => r.push(x),
            None => r,
        }
    }
}

/// The stashes to drop, from the output of `git stash list`: those whose
/// subject starts with the marker, last first (dropping from the end keeps
/// the indices of the others valid).
pub open spec fn auto_stash_refs_spec(list: Seq<char>) -> Seq<Seq<char>> {
    auto_stash_refs_in(lines(list)).reverse()
}

fn auto_stash_ref_of(line: &[char]) -> (r: Option<Vec<char>>)
    ensures
        match auto_stash_ref(line@) {
            Some(x) => r matches Some(v) && v@ == x,
            None => r is None,
        },
{
    let sep = chars_of(": ");
    match crate::text::find_in(line, sep.as_slice()) {
        Some(i) => {
            let n = line.len();
            proof {
                reveal_strlit(": ");
            }
            assert(sep@.len() == 2);
            assert(crate::text::occurs_at(line@, sep@, i as int));
            let subject = crate::text::copy_range(line, i + 2, n);
            let marker = chars_of(STASH_MARKER);
            if crate::text::has_prefix(subject.as_slice(), marker.as_slice()) {
                let r = crate::text::copy_range(line, 0, i);
                assert(r@ =~= line@.take(i as int));
                Some(r)
            } else {
                None
            }
        },
        None => None,
    }
}

/// The references (`stash@{N}`) of the automatic stashes, last first.
#[verifier::spinoff_prover]
pub fn auto_stash_refs(list: &str) -> (r: Vec<String>)
    ensures
        strs(r@) == auto_stash_refs_spec(list@),
{
    let v = chars_of(list);
    let ls = lines_of(v.as_slice());
    let mut found: Vec<Vec<char>> = Vec::new();
    for i in 0..ls.len()
        invariant
            views(found@) == auto_stash_refs_in(views(ls@).take(i as int)),
    {
        assert(views(ls@).take(i + 1).drop_last() =~= views(ls@).take(i as int));
        assert(views(ls@).take(i + 1).last() == ls@[i as int]@);
        match auto_stash_ref_of(ls[i].as_slice()) {
            Some(x) => {
                let ghost f0 = found@;
                found.push(x);
                assert(views(found@) =~= views(f0).push(x@));
            },
            None => {},
        }
    }
    assert(views(ls@).take(ls@.len() as int) =~= views(ls@));
    let ghost all = views(found@);
    let mut out: Vec<String> = Vec::new();
    let mut j: usize = found.len();
    while j > 0
        invariant
            j <= found@.len(),
            all == views(found@),
            strs(out@) == all.subrange(j as int, all.len() as int).reverse(),
        decreases j,
    {
        j -= 1;
        let s = string_from_chars(found[j].as_slice());
        proof {
            crate::text::lemma_strs_push(out@, s);
        }
        out.push(s);
        assert(all.subrange(j as int, all.len() as int).reverse() =~= all.subrange(
            j + 1,
            all.len() as int,
        ).reverse().push(all[j as int]));
    }
    assert(all.subrange(0, all.len() as int) =~= all);
    out
}

/// `{:?}` of an exit code.
pub open spec fn code_debug(code: Option<i32>) -> Seq<char> {
    match code {
        Some(c) => "Some("@ + crate::text::idec(c as int) + seq![')'],
        None => "None"@,
    }
}

fn push_code_debug(out: &mut Vec<char>, code: Option<i32>)
    ensures
        final(out)@ == old(out)@ + code_debug(code),
{
    let ghost start = out@;
    match code {
        Some(c) => {
            push_str(out, "Some(");
            crate::text::push_idec(out, c as i64);
            out.push(')');
            assert(final(out)@ =~= start + code_debug(code));
        },
        None => push_str(out, "None"),
    }
}

/// The error of `git stash list` that could not be started.
pub fn stash_list_spawn_error(repo: &str, error: &str) -> (m: String)
    ensures
        m@ == "git stash list falhou em "@ + repo@ + ": "@ + error@,
{
    let mut v = chars_of("git stash list falhou em ");
    push_str(&mut v, repo);
    push_str(&mut v, ": ");
    push_str(&mut v, error);
    string_from_chars(v.as_slice())
}

/// The error of `git stash list` that exited unsuccessfully.
pub fn stash_list_exit_error(repo: &str, code: Option<i32>) -> (m: String)
    ensures
        m@ == "git stash list falhou em "@ + repo@ + " (exit "@ + code_debug(code) + seq![')'],
{
    let mut v = chars_of("git stash list falhou em ");
    push_str(&mut v, repo);
    push_str(&mut v, " (exit ");
    push_code_debug(&mut v, code);
    v.push(')');
    string_from_chars(v.as_slice())
}

/// What a `git` run gave: its exit (success, the status as printed, and
/// the code when there is one), or the error that kept it from starting.
pub enum ProcOutcome {
    Exited { success: bool, status: String, code: Option<i32> },
    NotStarted { error: String },
}

/// After one `git stash drop`: keep going (with the new count, and a
/// warning when the drop failed), or stop with an error.
pub enum DropStep {
    Continue { removed: usize, warning: Option<String> },
    Abort { error: String },
}

pub open spec fn drop_warning_spec(stash: Seq<char>, repo: Seq<char>, code: Option<i32>) -> Seq<char> {
    "Não foi possível remover stash "@ + stash + " em "@ + repo + " (exit "@ + code_debug(code)
        + "); seguindo."@
}

/// The cleanup after dropping `stash`: a drop that could not start ends the
/// cleanup with an error; a failed one is reported and skipped; a
/// successful one is counted.
pub fn after_drop(repo: &str, stash: &str, outcome: &ProcOutcome, removed: usize) -> (s: DropStep)
    requires
        removed < usize::MAX,
    ensures
        match *outcome {
            ProcOutcome::NotStarted { error } => s matches DropStep::Abort { error: m } && m@
                == "git stash drop "@ + stash@ + " falhou em "@ + repo@ + ": "@ + error@,
            ProcOutcome::Exited { success, code, .. } => if success {
                s matches DropStep::Continue { removed: n, warning: None } && n == removed + 1
            } else {
                s matches DropStep::Continue { removed: n, warning: Some(w) } && n == removed
                    && w@ == drop_warning_spec(stash@, repo@, code)
            },
        },
{
    match outcome {
        ProcOutcome::NotStarted { error } => {
            let mut v = chars_of("git stash drop ");
            push_str(&mut v, stash);
            push_str(&mut v, " falhou em ");
            push_str(&mut v, repo);
            push_str(&mut v, ": ");
            push_str(&mut v, error.as_str());
            DropStep::Abort { error: string_from_chars(v.as_slice()) }
        },
        ProcOutcome::Exited { success, code, .. } => {
            if *success {
                DropStep::Continue { removed: removed + 1, warning: None }
            } else {
                let mut v = chars_of("Não foi possível remover stash ");
                push_str(&mut v, stash);
                push_str(&mut v, " em ");
                push_str(&mut v, repo);
                push_str(&mut v, " (exit ");
                push_code_debug(&mut v, *code);
                push_str(&mut v, "); seguindo.");
                assert(v@ =~= drop_warning_spec(stash@, repo@, *code));
                DropStep::Continue { removed, warning: Some(string_from_chars(v.as_slice())) }
            }
        },
    }
}

/// The line `kryx update --cleanup-stash` prints for a repository.
pub open spec fn cleanup_line_spec(repo: Seq<char>, removed: usize) -> Seq<char> {
    if removed > 0 {
        repo + ": "@ + dec(removed as nat) + " stash(es) automático(s) removido(s)"@
    } else {
        repo + ": nenhum stash automático para limpar"@
    }
}

pub fn cleanup_line(repo: &str, removed: usize) -> (m: String)
    ensures
        m@ == cleanup_line_spec(repo@, removed),
{
    let mut v = chars_of(repo);
    if removed > 0 {
        push_str(&mut v, ": ");
        push_dec(&mut v, removed as u64);
        push_str(&mut v, " stash(es) automático(s) removido(s)");
    } else {
        push_str(&mut v, ": nenhum stash automático para limpar");
    }
    string_from_chars(v.as_slice())
}

// ── Pulling a repository ────────────────────────────────────────────────

/// How a repository is pulled: `ff_only` (when nothing was stashed),
/// `force_sync` (stash everything first) and `no_stash` (refuse when the
/// tree has changes).
pub struct PullRequest {
    pub repo: String,
    pub ff_only: bool,
    pub force_sync: bool,
    pub no_stash: bool,
}

/// What the last step's `git` run gave. `Begin` starts the pull; `dirty`
/// says whether the tree has changes outside `flake.lock` (it is only
/// consulted without `force_sync`, see [`pull_needs_status`]).
pub enum PullEvent {
    Begin { dirty: bool },
    Stashed(ProcOutcome),
    Pulled(ProcOutcome),
}

/// Level of a message printed along the way.
#[derive(Debug, Clone, Copy, PartialEq, Eq, Structural)]
pub enum NoticeLevel {
    Info,
    Warn,
    Pass,
}

/// The next thing to do: stash with `git` (these arguments), pull with
/// `git`, or finish.
pub enum PullAction {
    Stash { args: Vec<String> },
    Pull { args: Vec<String> },
    Finish { result: Result<(), String> },
}

/// One step of a pull: an optional message to print, then the action.
pub struct PullStep {
    pub notice: Option<(NoticeLevel, String)>,
    pub action: PullAction,
}

/// Ghost form of an action.
pub enum PullActionView {
    Stash(Seq<Seq<char>>),
    Pull(Seq<Seq<char>>),
    Done(Result<(), Seq<char>>),
}

pub open spec fn action_view(a: PullAction) -> PullActionView {
    match a {
        PullAction::Stash { args } => PullActionView::Stash(strs(args@)),
        PullAction::Pull { args } => PullActionView::Pull(strs(args@)),
        PullAction::Finish { result } => PullActionView::Done(
            match result {
                Ok(()) => Ok(()),
                Err(e) => Err(e@),
            },
        ),
    }
}

pub open spec fn notice_view(n: Option<(NoticeLevel, String)>) -> Option<(NoticeLevel, Seq<char>)> {
    match n {
        Some((l, t)) => Some((l, t@)),
        None => None,
    }
}

/// `git -C <repo> pull origin main <mode>`.
pub open spec fn pull_args(repo: Seq<char>, mode: Seq<char>) -> Seq<Seq<char>> {
    seq!["-C"@, repo, "pull"@, "origin"@, "main"@, mode]
}

/// `git -C <repo> stash push -u -m "kryx-auto: <why>"`.
pub open spec fn stash_args(repo: Seq<char>, why: Seq<char>) -> Seq<Seq<char>> {
    seq!["-C"@, repo, "stash"@, "push"@, "-u"@, "-m"@, STASH_MARKER@ + seq![' '] + why]
}

pub open spec fn refusal_spec(repo: Seq<char>) -> Seq<char> {
    repo + " tem alterações locais fora de flake.lock e --no-stash foi passado. Faça commit, git restore, ou rode sem --no-stash."@
}

pub open spec fn stash_notice_spec(repo: Seq<char>, force_sync: bool) -> (NoticeLevel, Seq<char>) {
    if force_sync {
        (
            NoticeLevel::Warn,
            "Stash criado em "@ + repo + ". As alterações serão perdidas se o switch falhar."@,
        )
    } else {
        (
            NoticeLevel::Info,
            "Stash automático criado em "@ + repo + " (marcado "@ + STASH_MARKER@
                + "). Use --cleanup-stash para remover."@,
        )
    }
}

pub open spec fn pull_failure_spec(repo: Seq<char>, status: Seq<char>, stashed: bool) -> Seq<char> {
    if stashed {
        "git pull falhou em "@ + repo + " (exit "@ + status
            + "). Suas alterações estão no stash — recupere com: git -C "@ + repo + " stash pop"@
    } else {
        "git pull falhou em "@ + repo + " (exit "@ + status
            + "). Use 'kryx update --force-sync' para fazer stash das alterações locais."@
    }
}

/// The decisions of a pull, from the request and the last event:
/// - at the start, `force_sync` stashes everything; `no_stash` refuses a
///   tree with changes, else pulls fast-forward only; otherwise a tree with
///   changes is stashed, and a clean one is pulled fast-forward only
///   (`ff_only`) or by merge;
/// - a stash that could not run or failed ends the pull with an error; one
///   that succeeded is announced and followed by a fast-forward pull;
/// - the pull's failure ends it with an error (which, under `force_sync`
///   or `no_stash`, points at the stash); its success ends it.
pub open spec fn pull_step_spec(
    repo: Seq<char>,
    ff_only: bool,
    force_sync: bool,
    no_stash: bool,
    event: PullEvent,
) -> (Option<(NoticeLevel, Seq<char>)>, PullActionView) {
    match event {
        PullEvent::Begin { dirty } => (
            None,
            if force_sync {
                PullActionView::Stash(stash_args(repo, "force-sync"@))
            } else if no_stash {
                if dirty {
                    PullActionView::Done(Err(refusal_spec(repo)))
                } else {
                    PullActionView::Pull(pull_args(repo, "--ff-only"@))
                }
            } else if dirty {
                PullActionView::Stash(stash_args(repo, "local changes before pull"@))
            } else if ff_only {
                PullActionView::Pull(pull_args(repo, "--ff-only"@))
            } else {
                PullActionView::Pull(pull_args(repo, "--no-rebase"@))
            },
        ),
        PullEvent::Stashed(o) => match o {
            ProcOutcome::NotStarted { error } => (
                None,
                PullActionView::Done(Err("git stash push falhou em "@ + repo + ": "@ + error@)),
            ),
            ProcOutcome::Exited { success, status, .. } => if success {
                (
                    Some(stash_notice_spec(repo, force_sync)),
                    PullActionView::Pull(pull_args(repo, "--ff-only"@)),
                )
            } else {
                (
                    None,
                    PullActionView::Done(
                        Err(
                            "git stash push falhou em "@ + repo + " (exit "@ + status@
                                + "). Abortando."@,
                        ),
                    ),
                )
            },
        },
        PullEvent::Pulled(o) => match o {
            ProcOutcome::NotStarted { error } => (
                None,
                PullActionView::Done(Err("Falha ao invocar git em "@ + repo + ": "@ + error@)),
            ),
            ProcOutcome::Exited { success, status, .. } => if success {
                (None, PullActionView::Done(Ok(())))
            } else {
                (
                    None,
                    PullActionView::Done(
                        Err(pull_failure_spec(repo, status@, force_sync || no_stash)),
                    ),
                )
            },
        },
    }
}

/// Whether the pull needs `git status --porcelain` before it starts.
pub fn pull_needs_status(force_sync: bool) -> (b: bool)
    ensures
        b == !force_sync,
{
    !force_sync
}

fn make_pull_args(repo: &str, mode: &str) -> (v: Vec<String>)
    ensures
        strs(v@) == pull_args(repo@, mode@),
{
    let v = vec![owned("-C"), owned(repo), owned("pull"), owned("origin"), owned("main"), owned(mode)];
    assert(strs(v@) =~= pull_args(repo@, mode@));
    v
}

fn make_stash_args(repo: &str, why: &str) -> (v: Vec<String>)
    ensures
        strs(v@) == stash_args(repo@, why@),
{
    let mut m = chars_of(STASH_MARKER);
    m.push(' ');
    push_str(&mut m, why);
    assert(m@ =~= STASH_MARKER@ + seq![' '] + why@);
    let v = vec![
        owned("-C"),
        owned(repo),
        owned("stash"),
        owned("push"),
        owned("-u"),
        owned("-m"),
        string_from_chars(m.as_slice()),
    ];
    assert(strs(v@) =~= stash_args(repo@, why@));
    v
}

fn cat3(a: &str, b: &str, c: &str) -> (s: String)
    ensures
        s@ == a@ + b@ + c@,
{
    let mut v = chars_of(a);
    push_str(&mut v, b);
    push_str(&mut v, c);
    string_from_chars(v.as_slice())
}

fn cat5(a: &str, b: &str, c: &str, d: &str, e: &str) -> (s: String)
    ensures
        s@ == a@ + b@ + c@ + d@ + e@,
{
    let mut v = chars_of(a);
    push_str(&mut v, b);
    push_str(&mut v, c);
    push_str(&mut v, d);
    push_str(&mut v, e);
    string_from_chars(v.as_slice())
}

/// One step of pulling `req.repo`.
pub fn pull_step(req: &PullRequest, event: &PullEvent) -> (s: PullStep)
    ensures
        (notice_view(s.notice), action_view(s.action)) == pull_step_spec(
            req.repo@,
            req.ff_only,
            req.force_sync,
            req.no_stash,
            *event,
        ),
{
    let repo = req.repo.as_str();
    match event {
        PullEvent::Begin { dirty } => {
            let action = if req.force_sync {
                PullAction::Stash { args: make_stash_args(repo, "force-sync") }
            } else if req.no_stash {
                if *dirty {
                    let e = cat3(
                        repo,
                        " tem alterações locais fora de flake.lock e --no-stash foi passado. Faça commit, git restore, ou rode sem --no-stash.",
                        "",
                    );
                    proof {
                        reveal_strlit("");
                    }
                    assert(e@ =~= refusal_spec(repo@));
                    return PullStep { notice: None, action: PullAction::Finish { result: Err(e) } };
                }
                PullAction::Pull { args: make_pull_args(repo, "--ff-only") }
            } else if *dirty {
                PullAction::Stash { args: make_stash_args(repo, "local changes before pull") }
            } else if req.ff_only {
                PullAction::Pull { args: make_pull_args(repo, "--ff-only") }
            } else {
                PullAction::Pull { args: make_pull_args(repo, "--no-rebase") }
            };
            PullStep { notice: None, action: action }
        },
        PullEvent::Stashed(o) => match o {
            ProcOutcome::NotStarted { error } => {
                let e = cat5("git stash push falhou em ", repo, ": ", error.as_str(), "");
                proof {
                    reveal_strlit("");
                }
                assert(e@ =~= "git stash push falhou em "@ + repo@ + ": "@ + error@);
                PullStep { notice: None, action: PullAction::Finish { result: Err(e) } }
            },
            ProcOutcome::Exited { success, status, .. } => {
                if *success {
                    let text = if req.force_sync {
                        cat3(
                            "Stash criado em ",
                            repo,
                            ". As alterações serão perdidas se o switch falhar.",
                        )
                    } else {
                        cat5(
                            "Stash automático criado em ",
                            repo,
                            " (marcado ",
                            STASH_MARKER,
                            "). Use --cleanup-stash para remover.",
                        )
                    };
                    let level = if req.force_sync {
                        NoticeLevel::Warn
                    } else {
                        NoticeLevel::Info
                    };
                    PullStep {
                        notice: Some((level, text)),
                        action: PullAction::Pull { args: make_pull_args(repo, "--ff-only") },
                    }
                } else {
                    let e = cat5(
                        "git stash push falhou em ",
                        repo,
                        " (exit ",
                        status.as_str(),
                        "). Abortando.",
                    );
                    PullStep { notice: None, action: PullAction::Finish { result: Err(e) } }
                }
            },
        },
        PullEvent::Pulled(o) => match o {
            ProcOutcome::NotStarted { error } => {
                let e = cat5("Falha ao invocar git em ", repo, ": ", error.as_str(), "");
                proof {
                    reveal_strlit("");
                }
                assert(e@ =~= "Falha ao invocar git em "@ + repo@ + ": "@ + error@);
                PullStep { notice: None, action: PullAction::Finish { result: Err(e) } }
            },
            ProcOutcome::Exited { success, status, .. } => {
                if *success {
                    PullStep { notice: None, action: PullAction::Finish { result: Ok(()) } }
                } else {
                    let mut v = chars_of("git pull falhou em ");
                    push_str(&mut v, repo);
                    push_str(&mut v, " (exit ");
                    push_str(&mut v, status.as_str());
                    if req.force_sync || req.no_stash {
                        push_str(&mut v, "). Suas alterações estão no stash — recupere com: git -C ");
                        push_str(&mut v, repo);
                        push_str(&mut v, " stash pop");
                    } else {
                        push_str(
                            &mut v,
                            "). Use 'kryx update --force-sync' para fazer stash das alterações locais.",
                        );
                    }
                    let e = string_from_chars(v.as_slice());
                    assert(e@ =~= pull_failure_spec(repo@, status@, req.force_sync || req.no_stash));
                    PullStep { notice: None, action: PullAction::Finish { result: Err(e) } }
                }
            },
        },
    }
}

// ── Laws ────────────────────────────────────────────────────────────────

/// With `--no-stash` (and without `--force-sync`) no step of a pull ever
/// runs `git stash`.
pub proof fn law_no_stash_never_stashes(repo: Seq<char>, ff_only: bool, event: PullEvent)
    ensures
        !(pull_step_spec(repo, ff_only, false, true, event).1 is Stash),
{
}

/// With `--force-sync` the first step stashes whatever the state of the
/// tree.
pub proof fn law_force_sync_stashes_first(
    repo: Seq<char>,
    ff_only: bool,
    no_stash: bool,
    dirty: bool,
)
    ensures
        pull_step_spec(repo, ff_only, true, no_stash, PullEvent::Begin { dirty }).1
            == PullActionView::Stash(stash_args(repo, "force-sync"@)),
{
}

/// A tree whose only change is `flake.lock` (the file `kryx update`
/// itself rewrites) is pulled without a stash.
pub proof fn law_lock_only_changes_are_not_stashed(
    repo: Seq<char>,
    ff_only: bool,
    no_stash: bool,
    porcelain: String,
)
    requires
        forall|i: int|
            0 <= i < lines(porcelain@).len() ==> !change_outside_lock(
                #[trigger] lines(porcelain@)[i],
            ),
    ensures
        pull_step_spec(
            repo,
            ff_only,
            false,
            no_stash,
            PullEvent::Begin { dirty: has_changes_outside_lock_spec(Some(porcelain)) },
        ).1 == PullActionView::Pull(
            pull_args(
                repo,
                if no_stash || ff_only {
                    "--ff-only"@
                } else {
                    "--no-rebase"@
                },
            ),
        ),
{
}

proof fn lemma_refs_in_come_from_marked_lines(ls: Seq<Seq<char>>, k: int)
    requires
        0 <= k < auto_stash_refs_in(ls).len(),
    ensures
        exists|i: int| 0 <= i < ls.len() && auto_stash_ref(#[trigger] ls[i]) == Some(
            auto_stash_refs_in(ls)[k],
        ),
    decreases ls.len(),
{
    let prev = auto_stash_refs_in(ls.drop_last());
    if k < prev.len() {
        lemma_refs_in_come_from_marked_lines(ls.drop_last(), k);
        let i = choose|i: int|
            0 <= i < ls.drop_last().len() && auto_stash_ref(#[trigger] ls.drop_last()[i]) == Some(
                prev[k],
            );
        assert(ls[i] == ls.drop_last()[i]);
    } else {
        assert(auto_stash_ref(ls[ls.len() - 1]) == Some(auto_stash_refs_in(ls)[k]));
    }
}

/// `--cleanup-stash` drops only stashes whose subject carries the
/// `kryx-auto:` marker: every reference it drops is that of such a line of
/// `git stash list`, so stashes made by the user are kept.
pub proof fn law_cleanup_drops_only_marked_stashes(list: Seq<char>, k: int)
    requires
        0 <= k < auto_stash_refs_spec(list).len(),
    ensures
        exists|i: int|
            0 <= i < lines(list).len() && auto_stash_ref(#[trigger] lines(list)[i]) == Some(
                auto_stash_refs_spec(list)[k],
            ),
{
    let inner = auto_stash_refs_in(lines(list));
    assert(auto_stash_refs_spec(list)[k] == inner[inner.len() - 1 - k]);
    lemma_refs_in_come_from_marked_lines(lines(list), inner.len() - 1 - k);
}

// ── The flake update ────────────────────────────────────────────────────

/// The repositories that `kryx update` pulls, in order.
pub open spec fn config_repos_spec() -> Seq<Seq<char>> {
    seq!["/etc/kryonix"@, "/etc/kryonixos"@]
}

pub fn config_repos() -> (v: Vec<String>)
    ensures
        strs(v@) == config_repos_spec(),
{
    let v = vec![owned("/etc/kryonix"), owned("/etc/kryonixos")];
    assert(strs(v@) =~= config_repos_spec());
    v
}

/// `nix flake update --flake /etc/kryonixos`.
pub fn flake_update_args() -> (v: Vec<String>)
    ensures
        strs(v@) == seq!["flake"@, "update"@, "--flake"@, "/etc/kryonixos"@],
{
    let v = vec![owned("flake"), owned("update"), owned("--flake"), owned("/etc/kryonixos")];
    assert(strs(v@) =~= seq!["flake"@, "update"@, "--flake"@, "/etc/kryonixos"@]);
    v
}

/// The `PATH` of the flake update: the real `nix`'s directory first.
pub fn flake_update_path(real_nix_dir: &str, current_path: &str) -> (p: String)
    ensures
        p@ == real_nix_dir@ + seq![':'] + current_path@,
{
    let mut v = chars_of(real_nix_dir);
    v.push(':');
    push_str(&mut v, current_path);
    string_from_chars(v.as_slice())
}

/// The `HOME` of the flake update: that of the user who ran `sudo`
/// (`rocha` when unknown), so that `/root/.gitconfig` is not read.
pub fn flake_update_home(sudo_user: &Option<String>) -> (h: String)
    ensures
        h@ == "/home/"@ + match *sudo_user {
            Some(u) => u@,
            None => "rocha"@,
        },
{
    let mut v = chars_of("/home/");
    match sudo_user {
        Some(u) => push_str(&mut v, u.as_str()),
        None => push_str(&mut v, "rocha"),
    }
    string_from_chars(v.as_slice())
}

/// The error when no real `nix` binary is found in the store.
pub const NO_REAL_NIX: &'static str = "Could not locate a real nix binary in /nix/store. The Kryonix cli-lockdown may have removed it, which would break `kryx update`. Run the build outside of `kryx` using /run/current-system/sw/bin/nixos-rebuild.";

/// The result of the flake update.
pub fn flake_update_result(outcome: &ProcOutcome) -> (r: Result<(), String>)
    ensures
        match *outcome {
            ProcOutcome::NotStarted { error } => r matches Err(m) && m@
                == "Falha ao invocar nix flake update: "@ + error@,
            ProcOutcome::Exited { success, .. } => if success {
                r is Ok
            } else {
                r matches Err(m) && m@ == "Falha ao atualizar flake lock"@
            },
        },
{
    match outcome {
        ProcOutcome::NotStarted { error } => {
            let mut v = chars_of("Falha ao invocar nix flake update: ");
            push_str(&mut v, error.as_str());
            Err(string_from_chars(v.as_slice()))
        },
        ProcOutcome::Exited { success, .. } => {
            if *success {
                Ok(())
            } else {
                Err(owned("Falha ao atualizar flake lock"))
            }
        },
    }
}

// ── The whole update ────────────────────────────────────────────────────

/// How `kryx update` was asked to run.
pub struct UpdateOptions {
    pub force_sync: bool,
    pub no_stash: bool,
    pub cleanup_stash: bool,
}

/// What the last step's work gave. `Begin` starts the update; the
/// repositories are numbered as in [`config_repos`], and each event gives
/// back the number of the action it answers.
pub enum UpdateEvent {
    Begin,
    CleanedUp { repo: usize, result: Result<usize, String> },
    Pulled { repo: usize, result: Result<(), String> },
    RealNixFound { dir: Option<String> },
    FlakeUpdated(ProcOutcome),
}

/// The next thing to do.
pub enum UpdateAction {
    /// Drop the automatic stashes of repository number `index`.
    CleanupStashes { index: usize, repo: String },
    /// Pull repository number `index` (driving [`pull_step`]).
    Pull { index: usize, request: PullRequest },
    /// Look for the real `nix` binary in the store.
    LocateRealNix,
    /// Run `nix flake update` with this directory first on `PATH`.
    FlakeUpdate { real_nix_dir: String },
    Finish { result: Result<(), String> },
}

/// One step of the update: messages to print, then the action.
pub struct UpdateStep {
    pub notices: Vec<(NoticeLevel, String)>,
    pub action: UpdateAction,
}

pub enum UpdateActionView {
    Cleanup(int, Seq<char>),
    Pull(int, Seq<char>, bool, bool, bool),
    Locate,
    Flake(Seq<char>),
    Done(Result<(), Seq<char>>),
}

pub open spec fn update_action_view(a: UpdateAction) -> UpdateActionView {
    match a {
        UpdateAction::CleanupStashes { index, repo } => UpdateActionView::Cleanup(
            index as int,
            repo@,
        ),
        UpdateAction::Pull { index, request } => UpdateActionView::Pull(
            index as int,
            request.repo@,
            request.ff_only,
            request.force_sync,
            request.no_stash,
        ),
        UpdateAction::LocateRealNix => UpdateActionView::Locate,
        UpdateAction::FlakeUpdate { real_nix_dir } => UpdateActionView::Flake(real_nix_dir@),
        UpdateAction::Finish { result } => UpdateActionView::Done(
            match result {
                Ok(()) => Ok(()),
                Err(e) => Err(e@),
            },
        ),
    }
}

pub open spec fn notices_view(n: Seq<(NoticeLevel, String)>) -> Seq<(NoticeLevel, Seq<char>)> {
    n.map_values(|p: (NoticeLevel, String)| (p.0, p.1@))
}

/// The name of repository number `i` (empty past the last one).
pub open spec fn repo_name(i: int) -> Seq<char> {
    if 0 <= i < config_repos_spec().len() {
        config_repos_spec()[i]
    } else {
        Seq::empty()
    }
}

/// Pulling repository `i` (announced), fast-forward only unless forced.
pub open spec fn pull_repo_spec(o: UpdateOptions, i: int) -> (
    Seq<(NoticeLevel, Seq<char>)>,
    UpdateActionView,
) {
    (
        seq![(NoticeLevel::Info, "Sincronizando "@ + repo_name(i) + "..."@)],
        UpdateActionView::Pull(i, repo_name(i), !o.force_sync, o.force_sync, o.no_stash),
    )
}

/// After the last pull: announce the flake update and look for `nix`.
pub open spec fn locate_spec() -> (Seq<(NoticeLevel, Seq<char>)>, UpdateActionView) {
    (
        seq![(NoticeLevel::Info, "Atualizando locks de flake em /etc/kryonixos..."@)],
        UpdateActionView::Locate,
    )
}

/// The order of `kryx update`: with `--cleanup-stash`, the automatic
/// stashes of each repository are dropped first (a failure is only
/// reported); then each repository is pulled in turn, and the first pull
/// that fails ends the update with its error; then the real `nix` is
/// located (its absence ends the update) and `nix flake update` is run.
pub open spec fn update_step_spec(o: UpdateOptions, event: UpdateEvent) -> (
    Seq<(NoticeLevel, Seq<char>)>,
    UpdateActionView,
) {
    match event {
        UpdateEvent::Begin => {
            let start = seq![(NoticeLevel::Info, "Atualizando repositórios e locks de flake..."@)];
            if o.cleanup_stash {
                (start, UpdateActionView::Cleanup(0, repo_name(0)))
            } else {
                (start + pull_repo_spec(o, 0).0, pull_repo_spec(o, 0).1)
            }
        },
        UpdateEvent::CleanedUp { repo, result } => {
            let report = match result {
                Ok(n) => (NoticeLevel::Info, cleanup_line_spec(repo_name(repo as int), n)),
                Err(e) => (NoticeLevel::Warn, e@),
            };
            if repo + 1 < config_repos_spec().len() {
                (seq![report], UpdateActionView::Cleanup(repo + 1, repo_name(repo + 1)))
            } else {
                (seq![report] + pull_repo_spec(o, 0).0, pull_repo_spec(o, 0).1)
            }
        },
        UpdateEvent::Pulled { repo, result } => match result {
            Err(e) => (Seq::empty(), UpdateActionView::Done(Err(e@))),
            Ok(()) => if repo + 1 < config_repos_spec().len() {
                pull_repo_spec(o, repo + 1)
            } else {
                locate_spec()
            },
        },
        UpdateEvent::RealNixFound { dir } => match dir {
            None => (Seq::empty(), UpdateActionView::Done(Err(NO_REAL_NIX@))),
            Some(d) => (
                seq![(NoticeLevel::Info, "Real nix path: "@ + d@)],
                UpdateActionView::Flake(d@),
            ),
        },
        UpdateEvent::FlakeUpdated(p) => match p {
            ProcOutcome::NotStarted { error } => (
                Seq::empty(),
                UpdateActionView::Done(Err("Falha ao invocar nix flake update: "@ + error@)),
            ),
            ProcOutcome::Exited { success, .. } => if success {
                (
                    seq![(NoticeLevel::Pass, "Atualização concluída com sucesso!"@)],
                    UpdateActionView::Done(Ok(())),
                )
            } else {
                (Seq::empty(), UpdateActionView::Done(Err("Falha ao atualizar flake lock"@)))
            },
        },
    }
}

fn repo_name_of(i: usize) -> (r: String)
    ensures
        r@ == repo_name(i as int),
{
    let repos = config_repos();
    if i < repos.len() {
        assert(strs(repos@)[i as int] == repos@[i as int]@);
        repos[i].clone()
    } else {
        let e: Vec<char> = Vec::new();
        assert(e@ =~= Seq::<char>::empty());
        string_from_chars(e.as_slice())
    }
}

fn push_notice(notices: &mut Vec<(NoticeLevel, String)>, level: NoticeLevel, text: String)
    ensures
        notices_view(final(notices)@) == notices_view(old(notices)@).push((level, text@)),
{
    let ghost n0 = notices@;
    notices.push((level, text));
    assert(notices_view(notices@) =~= notices_view(n0).push((level, text@)));
}

fn pull_repo(o: &UpdateOptions, i: usize, notices: &mut Vec<(NoticeLevel, String)>) -> (a: UpdateAction)
    ensures
        notices_view(final(notices)@) == notices_view(old(notices)@) + pull_repo_spec(*o, i as int).0,
        update_action_view(a) == pull_repo_spec(*o, i as int).1,
{
    let repo = repo_name_of(i);
    let mut m = chars_of("Sincronizando ");
    push_str(&mut m, repo.as_str());
    push_str(&mut m, "...");
    let ghost n0 = notices_view(notices@);
    push_notice(notices, NoticeLevel::Info, string_from_chars(m.as_slice()));
    assert(notices_view(notices@) =~= n0 + pull_repo_spec(*o, i as int).0);
    UpdateAction::Pull {
        index: i,
        request: PullRequest {
            repo,
            ff_only: !o.force_sync,
            force_sync: o.force_sync,
            no_stash: o.no_stash,
        },
    }
}

/// One step of `kryx update` (see [`update_step_spec`]).
pub fn update_step(o: &UpdateOptions, event: UpdateEvent) -> (s: UpdateStep)
    ensures
        (notices_view(s.notices@), update_action_view(s.action)) == update_step_spec(*o, event),
{
    let ghost ev = event;
    let mut notices: Vec<(NoticeLevel, String)> = Vec::new();
    assert(notices_view(notices@) =~= Seq::<(NoticeLevel, Seq<char>)>::empty());
    match event {
        UpdateEvent::Begin => {
            push_notice(
                &mut notices,
                NoticeLevel::Info,
                owned("Atualizando repositórios e locks de flake..."),
            );
            if o.cleanup_stash {
                UpdateStep {
                    notices,
                    action: UpdateAction::CleanupStashes { index: 0, repo: repo_name_of(0) },
                }
            } else {
                let action = pull_repo(o, 0, &mut notices);
                UpdateStep { notices, action }
            }
        },
        UpdateEvent::CleanedUp { repo, result } => {
            let name = repo_name_of(repo);
            match result {
                Ok(n) => push_notice(&mut notices, NoticeLevel::Info, cleanup_line(name.as_str(), n)),
                Err(e) => push_notice(&mut notices, NoticeLevel::Warn, e),
            }
            if repo < 1 {
                UpdateStep {
                    notices,
                    action: UpdateAction::CleanupStashes { index: repo + 1, repo: repo_name_of(repo + 1) },
                }
            } else {
                let action = pull_repo(o, 0, &mut notices);
                UpdateStep { notices, action }
            }
        },
        UpdateEvent::Pulled { repo, result } => match result {
            Err(e) => UpdateStep { notices, action: UpdateAction::Finish { result: Err(e) } },
            Ok(()) => {
                if repo < 1 {
                    let action = pull_repo(o, repo + 1, &mut notices);
                    UpdateStep { notices, action }
                } else {
                    push_notice(
                        &mut notices,
                        NoticeLevel::Info,
                        owned("Atualizando locks de flake em /etc/kryonixos..."),
                    );
                    UpdateStep { notices, action: UpdateAction::LocateRealNix }
                }
            },
        },
        UpdateEvent::RealNixFound { dir } => match dir {
            None => UpdateStep {
                notices,
                action: UpdateAction::Finish { result: Err(owned(NO_REAL_NIX)) },
            },
            Some(d) => {
                let mut m = chars_of("Real nix path: ");
                push_str(&mut m, d.as_str());
                push_notice(&mut notices, NoticeLevel::Info, string_from_chars(m.as_slice()));
                UpdateStep { notices, action: UpdateAction::FlakeUpdate { real_nix_dir: d } }
            },
        },
        UpdateEvent::FlakeUpdated(p) => {
            let r = flake_update_result(&p);
            match r {
                Ok(()) => {
                    push_notice(
                        &mut notices,
                        NoticeLevel::Pass,
                        owned("Atualização concluída com sucesso!"),
                    );
                    UpdateStep { notices, action: UpdateAction::Finish { result: Ok(()) } }
                },
                Err(e) => UpdateStep { notices, action: UpdateAction::Finish { result: Err(e) } },
            }
        },
    }
}

/// Law: the update stops at the first pull that fails, with that pull's
/// error, and nothing after it runs.
pub proof fn law_failed_pull_stops_update(o: UpdateOptions, repo: usize, e: String)
    ensures
        update_step_spec(o, UpdateEvent::Pulled { repo, result: Err(e) }).1
            == UpdateActionView::Done(Err(e@)),
{
}

/// Law: the repositories are pulled in order, `/etc/kryonix` first, and
/// the flake is updated only after the last one was pulled.
pub proof fn law_pulls_in_order(o: UpdateOptions)
    ensures
        !o.cleanup_stash ==> update_step_spec(o, UpdateEvent::Begin).1 == UpdateActionView::Pull(
            0,
            "/etc/kryonix"@,
            !o.force_sync,
            o.force_sync,
            o.no_stash,
        ),
        update_step_spec(o, UpdateEvent::Pulled { repo: 0, result: Ok(()) }).1
            == UpdateActionView::Pull(1, "/etc/kryonixos"@, !o.force_sync, o.force_sync, o.no_stash),
        update_step_spec(o, UpdateEvent::Pulled { repo: 1, result: Ok(()) }).1
            == UpdateActionView::Locate,
{
}

/// The first `n` characters of `line` are ASCII (one byte each).
pub open spec fn ascii_head(line: Seq<char>, n: int) -> bool {
    forall|k: int| 0 <= k < n && k < line.len() ==> ((#[trigger] line[k]) as u32) < 0x80
}

proof fn lemma_porcelain_path_ascii(line: Seq<char>)
    requires
        ascii_head(line, 3),
    ensures
        line.len() >= 3 ==> porcelain_path(line) == trim(line.subrange(3, line.len() as int)),
        line.len() < 3 ==> porcelain_path(line) == Seq::<char>::empty(),
{
    if line.len() >= 1 {
        let t1 = line.take(1);
        assert(t1.drop_last() =~= Seq::<char>::empty());
        assert(t1.last() == line[0]);
        assert(((line[0]) as u32) < 0x80);
        assert(utf8_len(t1.drop_last()) == 0);
        assert(utf8_len(t1) == 1);
    }
    if line.len() >= 2 {
        let t2 = line.take(2);
        assert(t2.drop_last() =~= line.take(1));
        assert(t2.last() == line[1]);
        assert(((line[1]) as u32) < 0x80);
        assert(utf8_len(t2) == 2);
    }
    if line.len() >= 3 {
        let t3 = line.take(3);
        assert(t3.drop_last() =~= line.take(2));
        assert(t3.last() == line[2]);
        assert(((line[2]) as u32) < 0x80);
        assert(utf8_len(t3) == 3);
    }
}

/// Wherever it stands in the output of `git status --porcelain`, one line
/// `XY <path>` (status letters and a space, ASCII) whose trimmed path is
/// neither empty nor `flake.lock` makes the tree count as changed outside
/// `flake.lock`.
pub proof fn law_any_line_outside_lock_counts(porcelain: String, i: int)
    requires
        0 <= i < lines(porcelain@).len(),
        lines(porcelain@)[i].len() >= 3,
        ascii_head(lines(porcelain@)[i], 3),
        trim(lines(porcelain@)[i].subrange(3, lines(porcelain@)[i].len() as int)).len() > 0,
        trim(lines(porcelain@)[i].subrange(3, lines(porcelain@)[i].len() as int))
            != "flake.lock"@,
    ensures
        has_changes_outside_lock_spec(Some(porcelain)),
{
    lemma_porcelain_path_ascii(lines(porcelain@)[i]);
    assert(change_outside_lock(lines(porcelain@)[i]));
    assert(exists|j: int|
        0 <= j < lines(porcelain@).len() && change_outside_lock(#[trigger] lines(porcelain@)[j]));
    let p = Some(porcelain);
    assert(p->0@ == porcelain@);
    assert(lines(p->0@)[i] == lines(porcelain@)[i]);
}

/// When every line of the output of `git status --porcelain` begins with
/// ASCII status letters and names no path or only `flake.lock`, the tree
/// does not count as changed outside `flake.lock`; a failed `git status`
/// (no output) always counts as changed.
pub proof fn law_only_lock_lines_count_as_clean(porcelain: String)
    requires
        forall|i: int|
            0 <= i < lines(porcelain@).len() ==> ascii_head(#[trigger] lines(porcelain@)[i], 3),
        forall|i: int|
            0 <= i < lines(porcelain@).len() && (#[trigger] lines(porcelain@)[i]).len() >= 3 ==> (
            trim(lines(porcelain@)[i].subrange(3, lines(porcelain@)[i].len() as int)).len() == 0
                || trim(lines(porcelain@)[i].subrange(3, lines(porcelain@)[i].len() as int))
                == "flake.lock"@),
    ensures
        !has_changes_outside_lock_spec(Some(porcelain)),
        has_changes_outside_lock_spec(None),
{
    assert forall|i: int| 0 <= i < lines(porcelain@).len() implies !change_outside_lock(
        #[trigger] lines(porcelain@)[i],
    ) by {
        lemma_porcelain_path_ascii(lines(porcelain@)[i]);
    }
}

} // verus!
