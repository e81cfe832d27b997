//! Pass-through of the `nix` subcommands that the main pass-through layer
//! does not cover. Each one is a call of a native binary: the names to
//! look for (in order), the arguments, and the error when none is found.
use vstd::prelude::*;
use crate::text::{
    chars_of, owned, push_str, push_strings_from, str_eq, string_from_chars, strs,
};

verus! {

/// A call of a native binary.
pub struct NativeCall {
    /// Binary names to look up, the first one found is run.
    pub binaries: Vec<String>,
    pub args: Vec<String>,
    /// The error when none of them is found.
    pub missing: String,
}

pub struct NativeCallView {
    pub binaries: Seq<Seq<char>>,
    pub args: Seq<Seq<char>>,
    pub missing: Seq<char>,
}

impl View for NativeCall {
    type V = NativeCallView;

    open spec fn view(&self) -> NativeCallView {
        NativeCallView { binaries: strs(self.binaries@), args: strs(self.args@), missing: self.missing@ }
    }
}

pub open spec fn call_view(
    binaries: Seq<Seq<char>>,
    args: Seq<Seq<char>>,
    missing: Seq<char>,
) -> NativeCallView {
    NativeCallView { binaries, args, missing }
}

fn with_prefix(prefix: Vec<String>, args: &[String]) -> (v: Vec<String>)
    ensures
        strs(v@) == strs(prefix@) + strs(args@),
{
    let mut v = prefix;
    push_strings_from(&mut v, args, 0);
    assert(strs(args@).subrange(0, args@.len() as int) =~= strs(args@));
    v
}

fn one(a: &str) -> (v: Vec<String>)
    ensures
        strs(v@) == seq![a@],
{
    let v = vec![owned(a)];
    assert(strs(v@) =~= seq![a@]);
    v
}

/// The error when a binary is not found.
pub open spec fn not_found(name: Seq<char>) -> Seq<char> {
    name + " not found in PATH"@
}

fn missing_of(name: &str) -> (m: String)
    ensures
        m@ == not_found(name@),
{
    let mut v = chars_of(name);
    push_str(&mut v, " not found in PATH");
    string_from_chars(v.as_slice())
}

/// `nix <sub> <args>`, through the real `nix`.
fn nix_sub(sub: &str, args: &[String]) -> (c: NativeCall)
    ensures
        c@ == call_view(seq!["nix"@], seq![sub@] + strs(args@), not_found("nix"@)),
{
    NativeCall { binaries: one("nix"), args: with_prefix(one(sub), args), missing: missing_of("nix") }
}

/// `nix-prefetch-url` (or `nix` when it is missing) with the arguments as
/// given.
pub fn prefetch(args: &[String]) -> (c: NativeCall)
    ensures
        c@ == call_view(
            seq!["nix-prefetch-url"@, "nix"@],
            strs(args@),
            not_found("nix-prefetch-url"@),
        ),
{
    let b = vec![owned("nix-prefetch-url"), owned("nix")];
    assert(strs(b@) =~= seq!["nix-prefetch-url"@, "nix"@]);
    let e: Vec<String> = Vec::new();
    assert(strs(e@) =~= Seq::<Seq<char>>::empty());
    let a = with_prefix(e, args);
    assert(strs(a@) =~= strs(args@));
    NativeCall { binaries: b, args: a, missing: missing_of("nix-prefetch-url") }
}

/// `nix registry <args>`.
pub fn registry(args: &[String]) -> (c: NativeCall)
    ensures
        c@ == call_view(seq!["nix"@], seq!["registry"@] + strs(args@), not_found("nix"@)),
{
    nix_sub("registry", args)
}

/// `nix edit <args>`.
pub fn edit(args: &[String]) -> (c: NativeCall)
    ensures
        c@ == call_view(seq!["nix"@], seq!["edit"@] + strs(args@), not_found("nix"@)),
{
    nix_sub("edit", args)
}

/// `nix sign-paths <args>`.
pub fn sign_paths(args: &[String]) -> (c: NativeCall)
    ensures
        c@ == call_view(seq!["nix"@], seq!["sign-paths"@] + strs(args@), not_found("nix"@)),
{
    nix_sub("sign-paths", args)
}

/// `nix copy <args>`.
pub fn copy(args: &[String]) -> (c: NativeCall)
    ensures
        c@ == call_view(seq!["nix"@], seq!["copy"@] + strs(args@), not_found("nix"@)),
{
    nix_sub("copy", args)
}

/// `nix doctor <args>` (the upstream tool, not `kryx doctor`).
pub fn nix_doctor(args: &[String]) -> (c: NativeCall)
    ensures
        c@ == call_view(seq!["nix"@], seq!["doctor"@] + strs(args@), not_found("nix"@)),
{
    nix_sub("doctor", args)
}

/// `nh clean all <args>`.
pub fn nh_clean_all(args: &[String]) -> (c: NativeCall)
    ensures
        c@ == call_view(seq!["nh"@], seq!["clean"@, "all"@] + strs(args@), not_found("nh"@)),
{
    let p = vec![owned("clean"), owned("all")];
    assert(strs(p@) =~= seq!["clean"@, "all"@]);
    NativeCall { binaries: one("nh"), args: with_prefix(p, args), missing: missing_of("nh") }
}

/// `nixos-rebuild <args>`, the escape hatch when `nh` is broken.
pub fn nixos_rebuild(args: &[String]) -> (c: NativeCall)
    ensures
        c@ == call_view(seq!["nixos-rebuild"@], strs(args@), not_found("nixos-rebuild"@)),
{
    let e: Vec<String> = Vec::new();
    assert(strs(e@) =~= Seq::<Seq<char>>::empty());
    let a = with_prefix(e, args);
    assert(strs(a@) =~= strs(args@));
    NativeCall { binaries: one("nixos-rebuild"), args: a, missing: missing_of("nixos-rebuild") }
}

/// The variants of `nh os` that `kryx` passes on.
pub open spec fn nh_os_variant_known(variant: Seq<char>) -> bool {
    variant == "boot"@ || variant == "test"@ || variant == "dry-activate"@ || variant
        == "dry-build"@ || variant == "build"@
}

/// `nh os <variant> <args>` for a known variant; any other variant is
/// refused.
pub fn nh_os_variant(variant: &str, args: &[String]) -> (r: Result<NativeCall, String>)
    ensures
        nh_os_variant_known(variant@) ==> (r matches Ok(c) && c@ == call_view(
            seq!["nh"@],
            seq!["os"@, variant@] + strs(args@),
            not_found("nh"@),
        )),
        !nh_os_variant_known(variant@) ==> (r matches Err(m) && m@ == "unknown nh os variant '"@
            + variant@ + "'. Valid: boot, test, dry-activate, dry-build, build"@),
{
    if !(str_eq(variant, "boot") || str_eq(variant, "test") || str_eq(variant, "dry-activate")
        || str_eq(variant, "dry-build") || str_eq(variant, "build")) {
        let mut m = chars_of("unknown nh os variant '");
        push_str(&mut m, variant);
        push_str(&mut m, "'. Valid: boot, test, dry-activate, dry-build, build");
        return Err(string_from_chars(m.as_slice()));
    }
    let p = vec![owned("os"), owned(variant)];
    assert(strs(p@) =~= seq!["os"@, variant@]);
    Ok(NativeCall { binaries: one("nh"), args: with_prefix(p, args), missing: missing_of("nh") })
}

/// The error when the binary could not be started.
pub fn spawn_error(binary: &str, error: &str) -> (m: String)
    ensures
        m@ == "failed to spawn "@ + binary@ + ": "@ + error@,
{
    let mut v = chars_of("failed to spawn ");
    push_str(&mut v, binary);
    push_str(&mut v, ": ");
    push_str(&mut v, error);
    string_from_chars(v.as_slice())
}

/// The exit code `kryx` ends with when the child failed: the child's own,
/// or 1 when it was killed by a signal.
pub fn child_exit_code(code: Option<i32>) -> (c: i32)
    ensures
        c == match code {
            Some(x) => x,
            None => 1,
        },
{
    match code {
        Some(x) => x,
        None => 1,
    }
}

/// `kryx nhos <variant> <args>`: the variant and the rest of the
/// arguments, or the error when no variant is given.
pub fn nhos_split(args: &[String]) -> (r: Result<(String, Vec<String>), String>)
    ensures
        args@.len() == 0 ==> (r matches Err(m) && m@
            == "kryx nhos: missing variant. Use: boot, test, dry-activate, dry-build, build"@),
        args@.len() > 0 ==> (r matches Ok((v, rest)) && v@ == args@[0]@ && strs(rest@) == strs(
            args@,
        ).drop_first()),
{
    if args.len() == 0 {
        return Err(owned("kryx nhos: missing variant. Use: boot, test, dry-activate, dry-build, build"));
    }
    let v = args[0].clone();
    let mut rest: Vec<String> = Vec::new();
    push_strings_from(&mut rest, args, 1);
    assert(strs(rest@) =~= strs(args@).drop_first());
    Ok((v, rest))
}

} // verus!
