//! Cleanup pass: the report of what a garbage collection and temp-file
//! sweep removed, its one-line summary, and the rules that pick what to
//! remove.
use vstd::prelude::*;
use crate::text::{
    chars_of, contains, dec, digit_char, find, find_in, has_infix, has_prefix, join, join_chars,
    lemma_strs_push, lines, lines_of, lower, lower_chars, owned, push_dec, push_str, same_chars,
    starts_with, string_from_chars, utf8_len, utf8_len_exec, views, words, words_of,
    lemma_utf8_len_ge, is_ws, ascii_lower, occurs_at, split_nl, strip_cr,
};

verus! {

/// Default GC retention window passed to `nix-collect-garbage`.
pub const DEFAULT_GC_KEEP: &'static str = "2d";

// ── Byte counts in binary units ─────────────────────────────────────────

pub open spec fn p2(e: nat) -> nat
    decreases e,
{
    if e == 0 {
        1
    } else {
        2 * p2((e - 1) as nat)
    }
}

/// Number of low bits a `u64` loses when converted to `f64` (53-bit
/// significand).
pub open spec fn f64_shift(n: nat) -> nat
    decreases n,
{
    if n < 0x20_0000_0000_0000 {
        0
    } else {
        1 + f64_shift(n / 2)
    }
}

/// The value of `n as f64`: `n` rounded to 53 significant bits, ties to even.
pub open spec fn f64_value(n: nat) -> nat {
    let e = f64_shift(n);
    let p = p2(e);
    let q = n / p;
    let r = n % p;
    if e == 0 {
        n
    } else if 2 * r > p || (2 * r == p && q % 2 == 1) {
        (q + 1) * p
    } else {
        q * p
    }
}

/// Index of the binary unit (`B`, `KiB`, `MiB`, `GiB`, `TiB`) a value is
/// shown in: the largest unit not above it, at most `TiB`.
pub open spec fn unit_index(m: nat) -> nat {
    if m >= 0x100_0000_0000 {
        4
    } else if m >= 0x4000_0000 {
        3
    } else if m >= 0x10_0000 {
        2
    } else if m >= 0x400 {
        1
    } else {
        0
    }
}

pub open spec fn unit_scale(idx: nat) -> nat {
    if idx == 4 {
        0x100_0000_0000
    } else if idx == 3 {
        0x4000_0000
    } else if idx == 2 {
        0x10_0000
    } else if idx == 1 {
        0x400
    } else {
        1
    }
}

pub open spec fn unit_name(idx: nat) -> Seq<char> {
    if idx == 4 {
        "TiB"@
    } else if idx == 3 {
        "GiB"@
    } else if idx == 2 {
        "MiB"@
    } else if idx == 1 {
        "KiB"@
    } else {
        "B"@
    }
}

/// `m / d` in tenths, rounded to nearest, ties to an even last digit (how
/// `{:.1}` rounds).
pub open spec fn tenths(m: nat, d: nat) -> nat {
    let t = (10 * m) / d;
    let r = (10 * m) % d;
    if 2 * r > d || (2 * r == d && t % 2 == 1) {
        t + 1
    } else {
        t
    }
}

/// Human-readable byte count: `"<n> B"` below 1024, otherwise the value in
/// the largest binary unit with one decimal (`"1.5 KiB"`), computed from
/// the count as a double.
pub open spec fn human_bytes_spec(n: u64) -> Seq<char> {
    let m = f64_value(n as nat);
    let idx = unit_index(m);
    if idx == 0 {
        dec(n as nat) + " B"@
    } else {
        let t = tenths(m, unit_scale(idx));
        dec(t / 10) + "."@ + seq![digit_char((t % 10) as int)] + " "@ + unit_name(idx)
    }
}

proof fn lemma_p2_ge2(e: nat)
    requires
        e > 0,
    ensures
        p2(e) >= 2,
    decreases e,
{
    assert(p2(0) == 1);
    if e > 1 {
        lemma_p2_ge2((e - 1) as nat);
    }
}

fn f64_value_exec(n: u64) -> (m: u128)
    ensures
        m as nat == f64_value(n as nat),
        m <= 0x1_0000_0000_0000_1000,
{
    let mut x: u64 = n;
    let mut p: u128 = 1;
    let ghost mut e: nat = 0;
    while x >= 0x20_0000_0000_0000
        invariant
            f64_shift(n as nat) == e + f64_shift(x as nat),
            p == p2(e),
            p * (x as nat) <= n,
            1 <= p <= 0x1000,
        decreases x,
    {
        assert(p <= n) by (nonlinear_arith)
            requires
                p * (x as nat) <= n,
                x >= 1,
        ;
        assert(p * 2 * ((x / 2) as nat) <= n) by (nonlinear_arith)
            requires
                p * (x as nat) <= n,
        ;
        assert(p < 0x800) by (nonlinear_arith)
            requires
                p * (x as nat) <= n,
                x >= 0x20_0000_0000_0000,
                n < 0x1_0000_0000_0000_0000,
        ;
        x = x / 2;
        p = p * 2;
        proof {
            e = e + 1;
        }
    }
    if p == 1 {
        assert(e == 0) by {
            if e > 0 {
                lemma_p2_ge2(e);
            }
        }
        return n as u128;
    }
    let q = (n as u128) / p;
    let r = (n as u128) % p;
    assert(q * p <= n) by (nonlinear_arith)
        requires
            q == (n as int) / (p as int),
            p > 0,
    ;
    assert((q + 1) * p <= 0x1_0000_0000_0000_1000) by (nonlinear_arith)
        requires
            q == (n as int) / (p as int),
            p > 0,
            p <= 0x1000,
            n < 0x1_0000_0000_0000_0000,
    ;
    if 2 * r > p || (2 * r == p && q % 2 == 1) {
        (q + 1) * p
    } else {
        q * p
    }
}

/// Convert a byte count to a human-readable string in binary units
/// (`B`, `KiB`, `MiB`, `GiB`, `TiB`), one decimal above bytes.
pub fn human_bytes(n: u64) -> (s: String)
    ensures
        s@ == human_bytes_spec(n),
{
    let m = f64_value_exec(n);
    let (idx, d): (u64, u128) = if m >= 0x100_0000_0000 {
        (4, 0x100_0000_0000)
    } else if m >= 0x4000_0000 {
        (3, 0x4000_0000)
    } else if m >= 0x10_0000 {
        (2, 0x10_0000)
    } else if m >= 0x400 {
        (1, 0x400)
    } else {
        (0, 1)
    };
    assert(idx as nat == unit_index(m as nat));
    assert(d as nat == unit_scale(idx as nat));
    let mut out: Vec<char> = Vec::new();
    if idx == 0 {
        push_dec(&mut out, n);
        push_str(&mut out, " B");
    } else {
        let t0 = (10 * m) / d;
        let r = (10 * m) % d;
        assert(t0 <= 10 * m);
        let t: u128 = if 2 * r > d || (2 * r == d && t0 % 2 == 1) {
            t0 + 1
        } else {
            t0
        };
        assert(t as nat == tenths(m as nat, d as nat));
        assert(t <= 0x10_0000_0000_0000_0000_0000) by (nonlinear_arith)
            requires
                t0 == (10 * (m as int)) / (d as int),
                d >= 0x400,
                m <= 0x1_0000_0000_0000_1000,
                t <= t0 + 1,
        ;
        let whole = (t / 10) as u64;
        let frac = (t % 10) as u64;
        push_dec(&mut out, whole);
        push_str(&mut out, ".");
        let c = if frac == 0 {
            '0'
        } else if frac == 1 {
            '1'
        } else if frac == 2 {
            '2'
        } else if frac == 3 {
            '3'
        } else if frac == 4 {
            '4'
        } else if frac == 5 {
            '5'
        } else if frac == 6 {
            '6'
        } else if frac == 7 {
            '7'
        } else if frac == 8 {
            '8'
        } else {
            '9'
        };
        assert(c == digit_char(frac as int));
        out.push(c);
        push_str(&mut out, " ");
        if idx == 4 {
            push_str(&mut out, "TiB");
        } else if idx == 3 {
            push_str(&mut out, "GiB");
        } else if idx == 2 {
            push_str(&mut out, "MiB");
        } else {
            push_str(&mut out, "KiB");
        }
    }
    assert(out@ =~= human_bytes_spec(n));
    string_from_chars(out.as_slice())
}

/// Law: below one KiB the count is printed as an integer number of bytes.
pub proof fn law_human_bytes_small(n: u64)
    requires
        n < 1024,
    ensures
        human_bytes_spec(n) == dec(n as nat) + " B"@,
{
    assert(f64_shift(n as nat) == 0);
}

/// Law: a multiple `k` KiB of at most 1023 KiB (k ≥ 1) is shown as
/// `"<k>.0 KiB"`.
pub proof fn law_human_bytes_whole_kib(k: u64)
    requires
        1 <= k < 1024,
    ensures
        human_bytes_spec((k * 1024) as u64) == dec(k as nat) + ".0 KiB"@,
{
    let n = (k * 1024) as nat;
    assert(f64_shift(n) == 0);
    assert(unit_index(n) == 1);
    assert((10 * n) / 1024 == 10 * k) by (nonlinear_arith)
        requires
            n == k * 1024,
    ;
    assert((10 * n) % 1024 == 0) by (nonlinear_arith)
        requires
            n == k * 1024,
    ;
    assert((10 * k) / 10 == k && (10 * k) % 10 == 0) by (nonlinear_arith);
    reveal_strlit(".0 KiB");
    reveal_strlit(".");
    reveal_strlit(" ");
    reveal_strlit("KiB");
    assert(human_bytes_spec((k * 1024) as u64) =~= dec(k as nat) + ".0 KiB"@);
}

} // verus!

verus! {

// ── Cleanup report ──────────────────────────────────────────────────────

/// What one cleanup pass did.
#[derive(Debug)]
pub struct CleanupReport {
    pub gc_runs: u32,
    pub gc_bytes_freed: u64,
    pub hm_baks_removed: u32,
    pub result_symlinks_removed: u32,
    pub tmp_files_removed: u32,
    pub errors: Vec<String>,
}

impl Default for CleanupReport {
    fn default() -> (r: Self)
        ensures
            r.gc_runs == 0 && r.gc_bytes_freed == 0 && r.hm_baks_removed == 0
                && r.result_symlinks_removed == 0 && r.tmp_files_removed == 0 && r.errors@.len()
                == 0,
    {
        CleanupReport {
            gc_runs: 0,
            gc_bytes_freed: 0,
            hm_baks_removed: 0,
            result_symlinks_removed: 0,
            tmp_files_removed: 0,
            errors: Vec::new(),
        }
    }
}

pub open spec fn report_is_empty(r: &CleanupReport) -> bool {
    r.gc_runs == 0 && r.hm_baks_removed == 0 && r.result_symlinks_removed == 0
        && r.tmp_files_removed == 0 && r.errors@.len() == 0
}

pub open spec fn opt_part(cond: bool, p: Seq<char>) -> Seq<Seq<char>> {
    if cond {
        seq![p]
    } else {
        Seq::empty()
    }
}

/// The parts of the one-line summary, in order.
pub open spec fn summary_parts(r: &CleanupReport) -> Seq<Seq<char>> {
    opt_part(r.gc_runs > 0, "gc×"@ + dec(r.gc_runs as nat)) + opt_part(
        r.gc_bytes_freed > 0,
        human_bytes_spec(r.gc_bytes_freed) + " freed"@,
    ) + opt_part(r.hm_baks_removed > 0, dec(r.hm_baks_removed as nat) + " hm-bak"@) + opt_part(
        r.result_symlinks_removed > 0,
        dec(r.result_symlinks_removed as nat) + " result"@,
    ) + opt_part(r.tmp_files_removed > 0, dec(r.tmp_files_removed as nat) + " tmp"@) + opt_part(
        r.errors@.len() > 0,
        dec(r.errors@.len()) + " errors"@,
    )
}

/// `"nothing to clean"` for an empty report, otherwise the parts joined
/// by `" · "`.
pub open spec fn summary_spec(r: &CleanupReport) -> Seq<char> {
    if report_is_empty(r) {
        "nothing to clean"@
    } else {
        join(summary_parts(r), " · "@)
    }
}

fn push_part(parts: &mut Vec<Vec<char>>, cond: bool, p: Vec<char>)
    ensures
        views(final(parts)@) == views(old(parts)@) + opt_part(cond, p@),
{
    let ghost before = views(parts@);
    if cond {
        parts.push(p);
        assert(views(parts@) =~= before + opt_part(cond, p@));
    } else {
        assert(views(parts@) =~= before + opt_part(cond, p@));
    }
}

fn count_part(n: u64, suffix: &str) -> (v: Vec<char>)
    ensures
        v@ == dec(n as nat) + suffix@,
{
    let mut v: Vec<char> = Vec::new();
    push_dec(&mut v, n);
    push_str(&mut v, suffix);
    assert(v@ =~= dec(n as nat) + suffix@);
    v
}

impl CleanupReport {
    pub fn is_empty(&self) -> (b: bool)
        ensures
            b == report_is_empty(self),
    {
        self.gc_runs == 0 && self.hm_baks_removed == 0 && self.result_symlinks_removed == 0
            && self.tmp_files_removed == 0 && self.errors.len() == 0
    }

    /// Compact one-line summary, used in the post-cleanup log line.
    pub fn summary(&self) -> (s: String)
        ensures
            s@ == summary_spec(self),
    {
        if self.is_empty() {
            return owned("nothing to clean");
        }
        let mut parts: Vec<Vec<char>> = Vec::new();
        let ghost p0 = views(parts@);
        let mut gc = chars_of("gc×");
        push_dec(&mut gc, self.gc_runs as u64);
        push_part(&mut parts, self.gc_runs > 0, gc);
        let hb = human_bytes(self.gc_bytes_freed);
        let mut freed = chars_of(hb.as_str());
        push_str(&mut freed, " freed");
        push_part(&mut parts, self.gc_bytes_freed > 0, freed);
        push_part(
            &mut parts,
            self.hm_baks_removed > 0,
            count_part(self.hm_baks_removed as u64, " hm-bak"),
        );
        push_part(
            &mut parts,
            self.result_symlinks_removed > 0,
            count_part(self.result_symlinks_removed as u64, " result"),
        );
        push_part(
            &mut parts,
            self.tmp_files_removed > 0,
            count_part(self.tmp_files_removed as u64, " tmp"),
        );
        push_part(
            &mut parts,
            self.errors.len() > 0,
            count_part(self.errors.len() as u64, " errors"),
        );
        assert(views(parts@) =~= summary_parts(self));
        let sep = chars_of(" · ");
        let joined = join_chars(&parts, sep.as_slice());
        string_from_chars(joined.as_slice())
    }
}

proof fn lemma_join_starts_with_first(parts: Seq<Seq<char>>, sep: Seq<char>)
    requires
        parts.len() > 0,
    ensures
        join(parts, sep).len() >= parts[0].len(),
        forall|i: int| 0 <= i < parts[0].len() ==> join(parts, sep)[i] == parts[0][i],
    decreases parts.len(),
{
    if parts.len() > 1 {
        lemma_join_starts_with_first(parts.drop_last(), sep);
    }
}

proof fn lemma_dec_starts_with_digit(n: nat)
    ensures
        dec(n).len() > 0,
        '0' <= dec(n)[0] && dec(n)[0] <= '9',
    decreases n,
{
    if n >= 10 {
        lemma_dec_starts_with_digit(n / 10);
    }
}

/// Law: the summary is `"nothing to clean"` exactly when the report is
/// empty.
pub proof fn law_summary_nothing_iff_empty(r: &CleanupReport)
    ensures
        (summary_spec(r) == "nothing to clean"@) == report_is_empty(r),
{
    reveal_strlit("nothing to clean");
    if !report_is_empty(r) {
        let parts = summary_parts(r);
        reveal_strlit("gc×");
        reveal_strlit(".");
        lemma_dec_starts_with_digit(r.gc_runs as nat);
        lemma_dec_starts_with_digit(r.hm_baks_removed as nat);
        lemma_dec_starts_with_digit(r.result_symlinks_removed as nat);
        lemma_dec_starts_with_digit(r.tmp_files_removed as nat);
        lemma_dec_starts_with_digit(r.errors@.len());
        let m = f64_value(r.gc_bytes_freed as nat);
        let t = tenths(m, unit_scale(unit_index(m)));
        lemma_dec_starts_with_digit(r.gc_bytes_freed as nat);
        lemma_dec_starts_with_digit(t / 10);
        assert(parts.len() > 0);
        assert(parts[0].len() > 0 && (parts[0][0] == 'g' || ('0' <= parts[0][0] && parts[0][0]
            <= '9')));
        lemma_join_starts_with_first(parts, " · "@);
        assert(summary_spec(r)[0] != "nothing to clean"@[0]);
    }
}

/// The report of a cleanup pass, from what each step gave: the garbage
/// collection (`None` when it was skipped, else the bytes it freed or its
/// error), then the `.hm-bak-*`, `result*` and `/tmp/kryx-*` sweeps (how
/// many entries each removed, or its error).
pub open spec fn step_error(prefix: Seq<char>, outcome: Result<u32, String>) -> Seq<Seq<char>> {
    match outcome {
        Ok(_) => Seq::empty(),
        Err(e) => seq![prefix + e@],
    }
}

pub open spec fn gc_error(outcome: Option<Result<u64, String>>) -> Seq<Seq<char>> {
    match outcome {
        Some(Err(e)) => seq!["gc: "@ + e@],
        _ => Seq::empty(),
    }
}

pub open spec fn count_of(outcome: Result<u32, String>) -> u32 {
    match outcome {
        Ok(n) => n,
        Err(_) => 0,
    }
}

fn push_error(errors: &mut Vec<String>, prefix: &str, e: &String)
    ensures
        crate::text::strs(final(errors)@) == crate::text::strs(old(errors)@).push(prefix@ + e@),
{
    let mut m = chars_of(prefix);
    push_str(&mut m, e.as_str());
    let s = string_from_chars(m.as_slice());
    proof {
        lemma_strs_push(errors@, s);
    }
    errors.push(s);
}

/// Builds the report of a full cleanup pass from the outcome of each step.
pub fn run_full_cleanup(
    gc: Option<Result<u64, String>>,
    hm: Result<u32, String>,
    result: Result<u32, String>,
    tmp: Result<u32, String>,
) -> (r: CleanupReport)
    ensures
        r.gc_runs == (if gc matches Some(Ok(_)) {
            1u32
        } else {
            0u32
        }),
        r.gc_bytes_freed == (match gc {
            Some(Ok(b)) => b,
            _ => 0u64,
        }),
        r.hm_baks_removed == count_of(hm),
        r.result_symlinks_removed == count_of(result),
        r.tmp_files_removed == count_of(tmp),
        crate::text::strs(r.errors@) == gc_error(gc) + step_error("hm-bak: "@, hm) + step_error(
            "result: "@,
            result,
        ) + step_error("tmp: "@, tmp),
{
    let mut report = CleanupReport::default();
    let ghost e0 = crate::text::strs(report.errors@);
    assert(e0 =~= Seq::empty());
    match &gc {
        Some(Ok(freed)) => {
            report.gc_runs = 1;
            report.gc_bytes_freed = *freed;
        },
        Some(Err(e)) => {
            push_error(&mut report.errors, "gc: ", e);
        },
        None => {},
    }
    let ghost e1 = crate::text::strs(report.errors@);
    assert(e1 =~= gc_error(gc));
    match &hm {
        Ok(n) => report.hm_baks_removed = *n,
        Err(e) => push_error(&mut report.errors, "hm-bak: ", e),
    }
    let ghost e2 = crate::text::strs(report.errors@);
    assert(e2 =~= e1 + step_error("hm-bak: "@, hm));
    match &result {
        Ok(n) => report.result_symlinks_removed = *n,
        Err(e) => push_error(&mut report.errors, "result: ", e),
    }
    let ghost e3 = crate::text::strs(report.errors@);
    assert(e3 =~= e2 + step_error("result: "@, result));
    match &tmp {
        Ok(n) => report.tmp_files_removed = *n,
        Err(e) => push_error(&mut report.errors, "tmp: ", e),
    }
    assert(crate::text::strs(report.errors@) =~= e3 + step_error("tmp: "@, tmp));
    report
}

} // verus!

verus! {

// ── What the sweeps remove ──────────────────────────────────────────────

/// A Home Manager backup left in `$HOME`: starts with `.` and holds
/// `.hm-bak-`.
pub open spec fn is_hm_backup_name_spec(name: Seq<char>) -> bool {
    starts_with(name, "."@) && contains(name, ".hm-bak-"@)
}

/// A `nix build` result link: `result`, or `result-…` of at most 12 bytes.
pub open spec fn is_result_link_name_spec(name: Seq<char>) -> bool {
    name == "result"@ || (starts_with(name, "result-"@) && utf8_len(name) <= 12)
}

/// A temporary file of kryx itself: starts with `kryx-`.
pub open spec fn is_kryx_tmp_name_spec(name: Seq<char>) -> bool {
    starts_with(name, "kryx-"@)
}

pub fn is_hm_backup_name(name: &str) -> (b: bool)
    ensures
        b == is_hm_backup_name_spec(name@),
{
    let v = chars_of(name);
    let dot = chars_of(".");
    let mark = chars_of(".hm-bak-");
    has_prefix(v.as_slice(), dot.as_slice()) && has_infix(v.as_slice(), mark.as_slice())
}

pub fn is_result_link_name(name: &str) -> (b: bool)
    ensures
        b == is_result_link_name_spec(name@),
{
    let v = chars_of(name);
    let exact = chars_of("result");
    if same_chars(v.as_slice(), exact.as_slice()) {
        return true;
    }
    let prefix = chars_of("result-");
    if !has_prefix(v.as_slice(), prefix.as_slice()) {
        return false;
    }
    if v.len() > 12 {
        proof {
            lemma_utf8_len_ge(v@);
        }
        return false;
    }
    utf8_len_exec(v.as_slice()) <= 12
}

pub fn is_kryx_tmp_name(name: &str) -> (b: bool)
    ensures
        b == is_kryx_tmp_name_spec(name@),
{
    let v = chars_of(name);
    let prefix = chars_of("kryx-");
    has_prefix(v.as_slice(), prefix.as_slice())
}

// ── Freed-bytes figure in the garbage collector's output ────────────────

/// Bytes per unit word (lower case) in a `"<n> <unit> freed"` line; an
/// unknown unit counts as bytes.
pub open spec fn unit_multiplier(unit: Seq<char>) -> u64 {
    if unit == "b"@ {
        1
    } else if unit == "kib"@ || unit == "kb"@ {
        1024
    } else if unit == "mib"@ || unit == "mb"@ {
        0x10_0000
    } else if unit == "gib"@ || unit == "gb"@ {
        0x4000_0000
    } else {
        1
    }
}

/// For a line holding `freed` (in any case): the number word and the
/// multiplier of the unit word that come last before it (`"0"` and `""`
/// when missing).
pub open spec fn freed_candidate(line: Seq<char>) -> Option<(Seq<char>, u64)> {
    let l = lower(line);
    match find(l, "freed"@) {
        Some(idx) => {
            let w = words(l.take(idx));
            let unit = if w.len() >= 1 {
                w[w.len() - 1]
            } else {
                Seq::empty()
            };
            let num = if w.len() >= 2 {
                w[w.len() - 2]
            } else {
                "0"@
            };
            Some((num, unit_multiplier(unit)))
        },
        None => None,
    }
}

pub open spec fn freed_candidates_of(ls: Seq<Seq<char>>) -> Seq<(Seq<char>, u64)>
    decreases ls.len(),
{
    if ls.len() == 0 {
        Seq::empty()
    } else {
        let init = freed_candidates_of(ls.drop_last());
        match freed_candidate(ls.last()) {
            Some(c) => init.push(c),
            None => init,
        }
    }
}

fn unit_multiplier_exec(unit: &[char]) -> (m: u64)
    ensures
        m == unit_multiplier(unit@),
{
    let u = crate::text::string_from_chars(unit);
    let s = u.as_str();
    if crate::text::str_eq(s, "b") {
        1
    } else if crate::text::str_eq(s, "kib") || crate::text::str_eq(s, "kb") {
        1024
    } else if crate::text::str_eq(s, "mib") || crate::text::str_eq(s, "mb") {
        1024 * 1024
    } else if crate::text::str_eq(s, "gib") || crate::text::str_eq(s, "gb") {
        1024 * 1024 * 1024
    } else {
        1
    }
}

fn freed_candidate_exec(line: &[char]) -> (r: Option<(String, u64)>)
    ensures
        r matches Some(p) ==> freed_candidate(line@) == Some((p.0@, p.1)),
        r is None ==> freed_candidate(line@) is None,
{
    let l = lower_chars(line);
    let key = chars_of("freed");
    match find_in(l.as_slice(), key.as_slice()) {
        Some(idx) => {
            let head = crate::text::copy_range(l.as_slice(), 0, idx);
            assert(head@ =~= l@.take(idx as int));
            let w = words_of(head.as_slice());
            let n = w.len();
            let mult = if n >= 1 {
                unit_multiplier_exec(w[n - 1].as_slice())
            } else {
                let e: Vec<char> = Vec::new();
                assert(e@ =~= Seq::<char>::empty());
                unit_multiplier_exec(e.as_slice())
            };
            let num = if n >= 2 {
                crate::text::string_from_chars(w[n - 2].as_slice())
            } else {
                owned("0")
            };
            Some((num, mult))
        },
        None => None,
    }
}

pub open spec fn candidate_views(c: Seq<(String, u64)>) -> Seq<(Seq<char>, u64)> {
    c.map_values(|p: (String, u64)| (p.0@, p.1))
}

proof fn lemma_candidate_views_push(c: Seq<(String, u64)>, p: (String, u64))
    ensures
        candidate_views(c.push(p)) == candidate_views(c).push((p.0@, p.1)),
{
    assert(candidate_views(c.push(p)) =~= candidate_views(c).push((p.0@, p.1)));
}

/// The `(number, multiplier)` pairs of the lines of the garbage collector's
/// output that report freed space, in order. The caller reads the first
/// number that parses as a decimal and scales it by its multiplier.
#[verifier::spinoff_prover]
pub fn freed_candidates(stdout: &str) -> (c: Vec<(String, u64)>)
    ensures
        candidate_views(c@) == freed_candidates_of(lines(stdout@)),
{
    let v = chars_of(stdout);
    let ls = lines_of(v.as_slice());
    let ghost lv = views(ls@);
    let mut out: Vec<(String, u64)> = Vec::new();
    for i in 0..ls.len()
        invariant
            lv == views(ls@),
            candidate_views(out@) == freed_candidates_of(lv.take(i as int)),
    {
        assert(lv.take(i + 1).drop_last() =~= lv.take(i as int));
        assert(lv.take(i + 1).last() == ls@[i as int]@);
        match freed_candidate_exec(ls[i].as_slice()) {
            Some(p) => {
                proof {
                    lemma_candidate_views_push(out@, p);
                }
                out.push(p);
            },
            None => {},
        }
    }
    assert(lv.take(lv.len() as int) =~= lv);
    out
}

} // verus!

verus! {

// ── The garbage collector's run ─────────────────────────────────────────

/// `nix-collect-garbage -d --delete-older-than <window>`.
pub fn gc_args(older_than: &str) -> (v: Vec<String>)
    ensures
        crate::text::strs(v@) == seq!["-d"@, "--delete-older-than"@, older_than@],
{
    let v = vec![owned("-d"), owned("--delete-older-than"), owned(older_than)];
    assert(crate::text::strs(v@) =~= seq!["-d"@, "--delete-older-than"@, older_than@]);
    v
}

/// The error of a garbage collection that exited unsuccessfully.
pub fn gc_exit_error(status: &str, stderr: &str) -> (m: String)
    ensures
        m@ == "exit "@ + status@ + ": "@ + crate::text::trim(stderr@),
{
    let mut v = chars_of("exit ");
    push_str(&mut v, status);
    push_str(&mut v, ": ");
    let e = chars_of(stderr);
    let t = crate::text::trim_chars(e.as_slice());
    crate::text::push_all(&mut v, t.as_slice());
    string_from_chars(v.as_slice())
}

/// The error when the garbage collector could not be started.
pub fn gc_spawn_error(error: &str) -> (m: String)
    ensures
        m@ == "failed to spawn nix-collect-garbage: "@ + error@,
{
    let mut v = chars_of("failed to spawn nix-collect-garbage: ");
    push_str(&mut v, error);
    string_from_chars(v.as_slice())
}

/// The end of the progress line of a collection: what it freed, or `done`.
pub fn gc_summary(bytes_freed: u64) -> (m: String)
    ensures
        m@ == (if bytes_freed > 0 {
            "freed "@ + human_bytes_spec(bytes_freed)
        } else {
            "done"@
        }),
{
    if bytes_freed > 0 {
        let h = human_bytes(bytes_freed);
        let mut v = chars_of("freed ");
        push_str(&mut v, h.as_str());
        string_from_chars(v.as_slice())
    } else {
        owned("done")
    }
}

/// `kryx clean` with no arguments runs the full cleanup pass; with
/// arguments it passes them on to `nh clean`.
pub fn full_cleanup_requested(args: &Vec<String>) -> (b: bool)
    ensures
        b == (args@.len() == 0),
{
    args.len() == 0
}

proof fn lemma_no_freed_no_candidates(ls: Seq<Seq<char>>)
    requires
        forall|i: int| 0 <= i < ls.len() ==> !contains(lower(#[trigger] ls[i]), "freed"@),
    ensures
        freed_candidates_of(ls).len() == 0,
    decreases ls.len(),
{
    if ls.len() > 0 {
        assert(!contains(lower(ls[ls.len() - 1]), "freed"@));
        assert forall|i: int| 0 <= i < ls.drop_last().len() implies !contains(
            lower(#[trigger] ls.drop_last()[i]),
            "freed"@,
        ) by {
            assert(ls.drop_last()[i] == ls[i]);
        }
        lemma_no_freed_no_candidates(ls.drop_last());
    }
}

/// Law: output of the garbage collector in which no line mentions `freed`
/// (in any case) gives no candidate, so no freed space is read from it.
pub proof fn law_no_freed_line_no_candidate(stdout: Seq<char>)
    requires
        forall|i: int|
            0 <= i < lines(stdout).len() ==> !contains(lower(#[trigger] lines(stdout)[i]), "freed"@),
    ensures
        freed_candidates_of(lines(stdout)).len() == 0,
{
    lemma_no_freed_no_candidates(lines(stdout));
}

proof fn lemma_lower_add(a: Seq<char>, b: Seq<char>)
    ensures
        lower(a + b) == lower(a) + lower(b),
{
    assert(lower(a + b) =~= lower(a) + lower(b));
}

proof fn lemma_lower_keeps_ws(c: char)
    ensures
        is_ws(ascii_lower(c)) == is_ws(c),
{
    if 'A' <= c && c <= 'Z' {
        let v = (c as int) + 32;
        assert(97 <= v <= 122);
        assert((v as char) as int == v);
        assert(!is_ws(ascii_lower(c)));
    }
}

proof fn lemma_words_push_word(x: Seq<char>, w: Seq<char>)
    requires
        w.len() > 0,
        forall|k: int| 0 <= k < w.len() ==> !is_ws(#[trigger] w[k]),
        x.len() == 0 || is_ws(x.last()),
    ensures
        words(x + w) == words(x).push(w),
    decreases w.len(),
{
    let s = x + w;
    assert(s.last() == w.last());
    if w.len() == 1 {
        assert(s.drop_last() =~= x);
        if s.len() >= 2 {
            assert(s[s.len() - 2] == x.last());
        }
        assert(seq![w.last()] =~= w);
    } else {
        let w0 = w.drop_last();
        assert forall|k: int| 0 <= k < w0.len() implies !is_ws(#[trigger] w0[k]) by {
            assert(w0[k] == w[k]);
        }
        lemma_words_push_word(x, w0);
        assert(s.drop_last() =~= x + w0);
        assert(s[s.len() - 2] == w[w.len() - 2]);
        assert(w0.push(w.last()) =~= w);
    }
}

proof fn lemma_lines_single(s: Seq<char>)
    requires
        s.len() > 0,
        forall|k: int| 0 <= k < s.len() ==> #[trigger] s[k] != '\n',
    ensures
        lines(s) == seq![s],
{
    lemma_split_nl_single(s);
    assert(split_nl(s).drop_last() =~= Seq::<Seq<char>>::empty());
    assert(split_nl(s).drop_last().map_values(|l: Seq<char>| strip_cr(l)) =~= Seq::<
        Seq<char>,
    >::empty());
    assert(Seq::<Seq<char>>::empty().push(s) =~= seq![s]);
}

proof fn lemma_split_nl_single(s: Seq<char>)
    requires
        forall|k: int| 0 <= k < s.len() ==> #[trigger] s[k] != '\n',
    ensures
        split_nl(s) == seq![s],
    decreases s.len(),
{
    if s.len() == 0 {
        assert(s =~= Seq::<char>::empty());
    } else {
        let d = s.drop_last();
        assert forall|k: int| 0 <= k < d.len() implies #[trigger] d[k] != '\n' by {
            assert(d[k] == s[k]);
        }
        lemma_split_nl_single(d);
        assert(s.last() == s[s.len() - 1]);
        assert(d.push(s.last()) =~= s);
        assert(seq![d].update(0, d.push(s.last())) =~= seq![s]);
    }
}

proof fn lemma_no_early_freed(a: Seq<char>, tail: Seq<char>, j: int)
    requires
        !contains(a, "freed"@),
        0 <= j <= a.len(),
    ensures
        !occurs_at(a + " "@ + "freed"@ + tail, "freed"@, j),
{
    reveal_strlit("freed");
    reveal_strlit(" ");
    let l = a + " "@ + "freed"@ + tail;
    if occurs_at(l, "freed"@, j) {
        if j + 5 <= a.len() {
            assert(a.subrange(j, j + 5) =~= l.subrange(j, j + 5));
            assert(occurs_at(a, "freed"@, j));
        } else {
            let k = a.len() - j;
            assert(l[a.len() as int] == ' ');
            assert(l.subrange(j, j + 5)[k] == l[a.len() as int]);
            assert("freed"@[k] != ' ');
        }
    }
}

/// `freed` is found right after `a` and a space when `a` holds none.
proof fn lemma_find_freed(a: Seq<char>, tail: Seq<char>)
    requires
        !contains(a, "freed"@),
    ensures
        find(a + " "@ + "freed"@ + tail, "freed"@) == Some(a.len() as int + 1),
{
    reveal_strlit("freed");
    reveal_strlit(" ");
    let l = a + " "@ + "freed"@ + tail;
    let at: int = a.len() as int + 1;
    assert(l.subrange(at, at + 5) =~= "freed"@);
    assert(occurs_at(l, "freed"@, at));
    assert forall|j: int| 0 <= j < at implies !#[trigger] occurs_at(l, "freed"@, j) by {
        lemma_no_early_freed(a, tail, j);
    }
    assert(contains(l, "freed"@));
    let c = choose|i: int|
        occurs_at(l, "freed"@, i) && forall|j: int| 0 <= j < i ==> !#[trigger] occurs_at(l, "freed"@, j);
    assert(occurs_at(l, "freed"@, c) && forall|j: int|
        0 <= j < c ==> !#[trigger] occurs_at(l, "freed"@, j));
    if c < at {
        assert(!occurs_at(l, "freed"@, c));
    }
    if c > at {
        assert(!occurs_at(l, "freed"@, at));
    }
}

/// The words of `<pre><n> <unit>`, lower-cased, end with `n` and `unit`.
proof fn lemma_words_before_freed(pre: Seq<char>, num: Seq<char>, unit: Seq<char>)
    requires
        pre.len() == 0 || is_ws(pre.last()),
        num.len() > 0,
        unit.len() > 0,
        forall|k: int| 0 <= k < num.len() ==> !is_ws(#[trigger] num[k]),
        forall|k: int| 0 <= k < unit.len() ==> !is_ws(#[trigger] unit[k]),
    ensures
        words(lower(pre + num + " "@ + unit) + " "@) == words(lower(pre)).push(lower(num)).push(
            lower(unit),
        ),
{
    reveal_strlit(" ");
    let a = pre + num + " "@ + unit;
    let head = lower(a) + " "@;
    assert(head.drop_last() =~= lower(a));
    assert(head.last() == ' ');
    assert(words(head) == words(lower(a)));
    lemma_lower_add(pre + num + " "@, unit);
    lemma_lower_add(pre + num, " "@);
    lemma_lower_add(pre, num);
    assert(lower(" "@) =~= " "@);
    let ln = lower(num);
    let lu = lower(unit);
    assert forall|k: int| 0 <= k < ln.len() implies !is_ws(#[trigger] ln[k]) by {
        lemma_lower_keeps_ws(num[k]);
    }
    assert forall|k: int| 0 <= k < lu.len() implies !is_ws(#[trigger] lu[k]) by {
        lemma_lower_keeps_ws(unit[k]);
    }
    if pre.len() > 0 {
        lemma_lower_keeps_ws(pre.last());
        assert(lower(pre).last() == ascii_lower(pre.last()));
    }
    lemma_words_push_word(lower(pre), ln);
    let x2 = lower(pre) + ln + " "@;
    assert(x2.drop_last() =~= lower(pre) + ln);
    assert(x2.last() == ' ');
    assert(words(x2) == words(lower(pre) + ln));
    lemma_words_push_word(x2, lu);
    assert(lower(a) =~= x2 + lu);
}

/// The line, lower-cased: `freed` right after `<pre><n> <unit>` and a space.
proof fn lemma_lower_freed_line(a: Seq<char>, freed_word: Seq<char>, post: Seq<char>)
    requires
        lower(freed_word) == "freed"@,
    ensures
        lower(a + " "@ + freed_word + post) == lower(a) + " "@ + "freed"@ + lower(post),
{
    reveal_strlit(" ");
    lemma_lower_add(a + " "@ + freed_word, post);
    lemma_lower_add(a + " "@, freed_word);
    lemma_lower_add(a, " "@);
    assert(lower(" "@) =~= " "@);
}

#[verifier::spinoff_prover]
#[verifier::rlimit(40)]
proof fn lemma_freed_candidate_of_line(
    pre: Seq<char>,
    num: Seq<char>,
    unit: Seq<char>,
    freed_word: Seq<char>,
    post: Seq<char>,
)
    requires
        pre.len() == 0 || is_ws(pre.last()),
        num.len() > 0,
        unit.len() > 0,
        forall|k: int| 0 <= k < num.len() ==> !is_ws(#[trigger] num[k]),
        forall|k: int| 0 <= k < unit.len() ==> !is_ws(#[trigger] unit[k]),
        lower(freed_word) == "freed"@,
        !contains(lower(pre + num + " "@ + unit), "freed"@),
    ensures
        freed_candidate(pre + num + " "@ + unit + " "@ + freed_word + post) == Some(
            (lower(num), unit_multiplier(lower(unit))),
        ),
{
    reveal_strlit(" ");
    let a = pre + num + " "@ + unit;
    let line = a + " "@ + freed_word + post;
    assert(line =~= pre + num + " "@ + unit + " "@ + freed_word + post);
    lemma_lower_freed_line(a, freed_word, post);
    let l = lower(line);
    lemma_find_freed(lower(a), lower(post));
    let idx: int = lower(a).len() as int + 1;
    assert(l.take(idx) =~= lower(a) + " "@);
    lemma_words_before_freed(pre, num, unit);
    let w = words(l.take(idx));
    assert(w[w.len() - 1] == lower(unit));
    assert(w[w.len() - 2] == lower(num));
}

/// Law: in a line `<n> <unit> freed` of the garbage collector's output
/// (anything before it ending in whitespace, the word `freed` in any
/// case, anything after it), the candidate is `n` (lower-cased) scaled by
/// the unit: 1 for `b`, 1024 for `kib`/`kb`, 2^20 for `mib`/`mb`, 2^30 for
/// `gib`/`gb` (in any case), and 1 for any other word.
pub proof fn law_freed_unit_scales(
    pre: Seq<char>,
    num: Seq<char>,
    unit: Seq<char>,
    freed_word: Seq<char>,
    post: Seq<char>,
)
    requires
        pre.len() == 0 || is_ws(pre.last()),
        num.len() > 0,
        unit.len() > 0,
        forall|k: int| 0 <= k < num.len() ==> !is_ws(#[trigger] num[k]),
        forall|k: int| 0 <= k < unit.len() ==> !is_ws(#[trigger] unit[k]),
        lower(freed_word) == "freed"@,
        !contains(lower(pre + num + " "@ + unit), "freed"@),
        forall|k: int|
            0 <= k < (pre + num + " "@ + unit + " "@ + freed_word + post).len() ==> #[trigger] (pre
                + num + " "@ + unit + " "@ + freed_word + post)[k] != '\n',
    ensures
        ({
            let c = freed_candidates_of(lines(pre + num + " "@ + unit + " "@ + freed_word + post));
            let u = lower(unit);
            &&& c.len() == 1
            &&& c[0].0 == lower(num)
            &&& u == "b"@ ==> c[0].1 == 1
            &&& (u == "kib"@ || u == "kb"@) ==> c[0].1 == 1024
            &&& (u == "mib"@ || u == "mb"@) ==> c[0].1 == 1048576
            &&& (u == "gib"@ || u == "gb"@) ==> c[0].1 == 1073741824
            &&& !(u == "b"@ || u == "kib"@ || u == "kb"@ || u == "mib"@ || u == "mb"@ || u == "gib"@
                || u == "gb"@) ==> c[0].1 == 1
        }),
{
    reveal_strlit("b");
    reveal_strlit("kib");
    reveal_strlit("kb");
    reveal_strlit("mib");
    reveal_strlit("mb");
    reveal_strlit("gib");
    reveal_strlit("gb");
    assert("b"@.len() == 1 && "kb"@.len() == 2 && "mb"@.len() == 2 && "gb"@.len() == 2);
    assert("kib"@.len() == 3 && "mib"@.len() == 3 && "gib"@.len() == 3);
    assert("kb"@[0] == 'k' && "mb"@[0] == 'm' && "gb"@[0] == 'g');
    assert("kib"@[0] == 'k' && "mib"@[0] == 'm' && "gib"@[0] == 'g');
    let line = pre + num + " "@ + unit + " "@ + freed_word + post;
    lemma_freed_candidate_of_line(pre, num, unit, freed_word, post);
    lemma_lines_single(line);
    assert(seq![line].drop_last() =~= Seq::<Seq<char>>::empty());
    assert(seq![line].last() == line);
    assert(freed_candidates_of(Seq::<Seq<char>>::empty()) == Seq::<(Seq<char>, u64)>::empty());
    assert(freed_candidates_of(seq![line]) == Seq::<(Seq<char>, u64)>::empty().push(
        (lower(num), unit_multiplier(lower(unit))),
    ));
}

proof fn lemma_candidates_keep_each_line(ls: Seq<Seq<char>>, i: int)
    requires
        0 <= i < ls.len(),
        freed_candidate(ls[i]) is Some,
    ensures
        freed_candidates_of(ls).contains(freed_candidate(ls[i])->0),
    decreases ls.len(),
{
    let c = freed_candidate(ls[i])->0;
    if i == ls.len() - 1 {
        let r = freed_candidates_of(ls);
        assert(r[r.len() - 1] == c);
    } else {
        assert(ls.drop_last()[i] == ls[i]);
        lemma_candidates_keep_each_line(ls.drop_last(), i);
        let init = freed_candidates_of(ls.drop_last());
        let k = choose|k: int| 0 <= k < init.len() && init[k] == c;
        match freed_candidate(ls.last()) {
            Some(d) => assert(init.push(d)[k] == c),
            None => {},
        }
    }
}

/// Law: whichever line of the garbage collector's output reads
/// `<n> <unit> freed` (as in [`law_freed_unit_scales`]), the candidates
/// hold `n` with the multiplier of its unit: 1 for `b`, 1024 for
/// `kib`/`kb`, 2^20 for `mib`/`mb`, 2^30 for `gib`/`gb`, in any case.
pub proof fn law_freed_line_in_output(
    stdout: Seq<char>,
    i: int,
    pre: Seq<char>,
    num: Seq<char>,
    unit: Seq<char>,
    freed_word: Seq<char>,
    post: Seq<char>,
)
    requires
        0 <= i < lines(stdout).len(),
        lines(stdout)[i] == pre + num + " "@ + unit + " "@ + freed_word + post,
        pre.len() == 0 || is_ws(pre.last()),
        num.len() > 0,
        unit.len() > 0,
        forall|k: int| 0 <= k < num.len() ==> !is_ws(#[trigger] num[k]),
        forall|k: int| 0 <= k < unit.len() ==> !is_ws(#[trigger] unit[k]),
        lower(freed_word) == "freed"@,
        !contains(lower(pre + num + " "@ + unit), "freed"@),
    ensures
        ({
            let c = freed_candidates_of(lines(stdout));
            let u = lower(unit);
            &&& u == "b"@ ==> c.contains((lower(num), 1u64))
            &&& (u == "kib"@ || u == "kb"@) ==> c.contains((lower(num), 1024u64))
            &&& (u == "mib"@ || u == "mb"@) ==> c.contains((lower(num), 1048576u64))
            &&& (u == "gib"@ || u == "gb"@) ==> c.contains((lower(num), 1073741824u64))
        }),
{
    reveal_strlit("b");
    reveal_strlit("kib");
    reveal_strlit("kb");
    reveal_strlit("mib");
    reveal_strlit("mb");
    reveal_strlit("gib");
    reveal_strlit("gb");
    assert("b"@.len() == 1 && "kb"@.len() == 2 && "mb"@.len() == 2 && "gb"@.len() == 2);
    assert("kib"@.len() == 3 && "mib"@.len() == 3 && "gib"@.len() == 3);
    assert("kb"@[0] == 'k' && "mb"@[0] == 'm' && "gb"@[0] == 'g');
    assert("kib"@[0] == 'k' && "mib"@[0] == 'm' && "gib"@[0] == 'g');
    lemma_freed_candidate_of_line(pre, num, unit, freed_word, post);
    lemma_candidates_keep_each_line(lines(stdout), i);
}

} // verus!
