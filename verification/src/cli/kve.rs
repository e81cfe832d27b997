//! `kryx kve` (and its `vm` / `ct` aliases): the Incus instances and
//! storage pools that `kryxd` reports (`/api/v2/kve/*`). The daemon's JSON
//! is read outside into the fields below; what is listed, found and shown
//! is decided here.
use vstd::prelude::*;
use crate::text::{
    chars_of, join, join_chars, owned, push_str, str_eq, string_from_chars, strs, views,
};

verus! {

/// `kryx kve …`.
pub enum KveCommand {
    Health { json: bool },
    Instances { json: bool },
    Containers { json: bool },
    Vms { json: bool },
    Instance { name: String, json: bool },
    Storage { json: bool },
}

/// `kryx vm …`.
pub enum VmSubcommand {
    List { json: bool },
    Info { name: String, json: bool },
}

/// `kryx ct …`.
pub enum CtSubcommand {
    List { json: bool },
    Info { name: String, json: bool },
}

/// `kryx vm list` lists the virtual machines; `kryx vm info` shows one
/// instance.
pub fn map_vm_to_kve(cmd: VmSubcommand) -> (k: KveCommand)
    ensures
        match cmd {
            VmSubcommand::List { json } => k == KveCommand::Vms { json },
            VmSubcommand::Info { name, json } => k matches KveCommand::Instance { name: n, json: j }
                && n@ == name@ && j == json,
        },
{
    match cmd {
        VmSubcommand::List { json } => KveCommand::Vms { json },
        VmSubcommand::Info { name, json } => KveCommand::Instance { name, json },
    }
}

/// `kryx ct list` lists the containers; `kryx ct info` shows one instance.
pub fn map_ct_to_kve(cmd: CtSubcommand) -> (k: KveCommand)
    ensures
        match cmd {
            CtSubcommand::List { json } => k == KveCommand::Containers { json },
            CtSubcommand::Info { name, json } => k matches KveCommand::Instance { name: n, json: j }
                && n@ == name@ && j == json,
        },
{
    match cmd {
        CtSubcommand::List { json } => KveCommand::Containers { json },
        CtSubcommand::Info { name, json } => KveCommand::Instance { name, json },
    }
}

/// The endpoint a subcommand reads.
pub open spec fn kve_endpoint_spec(cmd: KveCommand) -> Seq<char> {
    match cmd {
        KveCommand::Health { .. } => "kve/health"@,
        KveCommand::Storage { .. } => "kve/storage"@,
        _ => "kve/instances"@,
    }
}

pub fn kve_endpoint(cmd: &KveCommand) -> (p: String)
    ensures
        p@ == kve_endpoint_spec(*cmd),
{
    match cmd {
        KveCommand::Health { .. } => owned("kve/health"),
        KveCommand::Storage { .. } => owned("kve/storage"),
        _ => owned("kve/instances"),
    }
}

/// The kind a listing keeps (`None`: all instances).
pub open spec fn kind_filter_spec(cmd: KveCommand) -> Option<Seq<char>> {
    match cmd {
        KveCommand::Containers { .. } => Some("container"@),
        KveCommand::Vms { .. } => Some("virtual-machine"@),
        _ => None,
    }
}

pub fn kind_filter(cmd: &KveCommand) -> (k: Option<String>)
    ensures
        match kind_filter_spec(*cmd) {
            Some(x) => k matches Some(s) && s@ == x,
            None => k is None,
        },
{
    match cmd {
        KveCommand::Containers { .. } => Some(owned("container")),
        KveCommand::Vms { .. } => Some(owned("virtual-machine")),
        _ => None,
    }
}

/// Whether the subcommand prints JSON.
pub fn wants_json(cmd: &KveCommand) -> (b: bool)
    ensures
        b == match *cmd {
            KveCommand::Health { json } => json,
            KveCommand::Instances { json } => json,
            KveCommand::Containers { json } => json,
            KveCommand::Vms { json } => json,
            KveCommand::Instance { json, .. } => json,
            KveCommand::Storage { json } => json,
        },
{
    match cmd {
        KveCommand::Health { json } => *json,
        KveCommand::Instances { json } => *json,
        KveCommand::Containers { json } => *json,
        KveCommand::Vms { json } => *json,
        KveCommand::Instance { json, .. } => *json,
        KveCommand::Storage { json } => *json,
    }
}

// ── Instances ───────────────────────────────────────────────────────────

/// What an instance of the answer holds: each field when it is a string
/// (`ipv4`: the string elements, when it is an array).
pub struct InstanceFields {
    pub name: Option<String>,
    pub kind: Option<String>,
    pub state: Option<String>,
    pub ipv4: Option<Vec<String>>,
    pub architecture: Option<String>,
}

/// A row of the instance table.
pub struct InstanceRow {
    pub name: String,
    pub kind: String,
    pub state: String,
    pub ipv4: String,
    pub arch: String,
}

pub open spec fn or_default(s: Option<String>, d: Seq<char>) -> Seq<char> {
    match s {
        Some(x) => x@,
        None => d,
    }
}

fn text_or(s: &Option<String>, d: &str) -> (r: String)
    ensures
        r@ == or_default(*s, d@),
{
    match s {
        Some(x) => x.clone(),
        None => owned(d),
    }
}

/// The addresses of an instance, joined by `", "` (empty when none).
pub open spec fn ipv4_text(ipv4: Option<Vec<String>>) -> Seq<char> {
    match ipv4 {
        Some(v) => join(strs(v@), ", "@),
        None => Seq::empty(),
    }
}

/// The row of an instance: `?` for a missing name, kind, state or
/// architecture.
pub fn row_of_instance(v: &InstanceFields) -> (r: InstanceRow)
    ensures
        r.name@ == or_default(v.name, "?"@),
        r.kind@ == or_default(v.kind, "?"@),
        r.state@ == or_default(v.state, "?"@),
        r.ipv4@ == ipv4_text(v.ipv4),
        r.arch@ == or_default(v.architecture, "?"@),
{
    let ipv4 = match &v.ipv4 {
        Some(addrs) => {
            let mut parts: Vec<Vec<char>> = Vec::new();
            for i in 0..addrs.len()
                invariant
                    views(parts@) == strs(addrs@).take(i as int),
            {
                let c = chars_of(addrs[i].as_str());
                let ghost p0 = parts@;
                parts.push(c);
                assert(views(parts@) =~= views(p0).push(c@));
                assert(strs(addrs@).take(i + 1) =~= strs(addrs@).take(i as int).push(addrs@[i as int]@));
            }
            assert(strs(addrs@).take(addrs@.len() as int) =~= strs(addrs@));
            let sep = chars_of(", ");
            let j = join_chars(&parts, sep.as_slice());
            string_from_chars(j.as_slice())
        },
        None => {
            let e: Vec<char> = Vec::new();
            assert(e@ =~= Seq::<char>::empty());
            string_from_chars(e.as_slice())
        },
    };
    InstanceRow {
        name: text_or(&v.name, "?"),
        kind: text_or(&v.kind, "?"),
        state: text_or(&v.state, "?"),
        ipv4,
        arch: text_or(&v.architecture, "?"),
    }
}

/// Whether an instance is kept by the filter (its kind must be that
/// string).
pub open spec fn kept_by(v: InstanceFields, filter: Option<Seq<char>>) -> bool {
    match filter {
        Some(k) => v.kind matches Some(x) && x@ == k,
        None => true,
    }
}

pub open spec fn opt_chars(o: Option<String>) -> Option<Seq<char>> {
    match o {
        Some(s) => Some(s@),
        None => None,
    }
}

fn kind_is(v: &InstanceFields, k: &str) -> (b: bool)
    ensures
        b == (v.kind matches Some(x) && x@ == k@),
{
    match &v.kind {
        Some(x) => str_eq(x.as_str(), k),
        None => false,
    }
}

/// The positions of the instances kept by the filter, in order.
pub fn select_instances(items: &Vec<InstanceFields>, filter: &Option<String>) -> (r: Vec<usize>)
    ensures
        forall|k: int|
            #![trigger r@[k]]
            0 <= k < r@.len() ==> r@[k] < items@.len() && kept_by(
                items@[r@[k] as int],
                opt_chars(*filter),
            ),
        forall|k: int, l: int| 0 <= k < l < r@.len() ==> r@[k] < r@[l],
        forall|i: int|
            0 <= i < items@.len() && kept_by(#[trigger] items@[i], opt_chars(*filter)) ==> r@.contains(
                i as usize,
            ),
{
    let mut r: Vec<usize> = Vec::new();
    let n = items.len();
    let mut i: usize = 0;
    while i < n
        invariant
            i <= n,
            n == items@.len(),
            forall|k: int|
                #![trigger r@[k]]
                0 <= k < r@.len() ==> r@[k] < i && kept_by(items@[r@[k] as int], opt_chars(*filter)),
            forall|k: int, l: int| 0 <= k < l < r@.len() ==> r@[k] < r@[l],
            forall|j: int|
                0 <= j < i && kept_by(#[trigger] items@[j], opt_chars(*filter)) ==> r@.contains(
                    j as usize,
                ),
        decreases n - i,
    {
        let keep = match filter {
            Some(k) => kind_is(&items[i], k.as_str()),
            None => true,
        };
        let ghost r0 = r@;
        if keep {
            assert(kept_by(items@[i as int], opt_chars(*filter)));
            r.push(i);
            assert forall|k: int|
                #![trigger r@[k]]
                0 <= k < r@.len() implies r@[k] < i + 1 && kept_by(
                items@[r@[k] as int],
                opt_chars(*filter),
            ) by {
                if k < r0.len() {
                    assert(r@[k] == r0[k]);
                } else {
                    assert(k == r0.len());
                    assert(r@[k] == i);
                    assert(items@[r@[k] as int] == items@[i as int]);
                }
            }
            assert forall|j: int|
                0 <= j < i + 1 && kept_by(#[trigger] items@[j], opt_chars(*filter)) implies r@.contains(
                j as usize,
            ) by {
                if j < i {
                    let w = choose|w: int| 0 <= w < r0.len() && r0[w] == j as usize;
                    assert(r@[w] == j as usize);
                } else {
                    assert(r@[r0.len() as int] == i);
                }
            }
        } else {
            assert(!kept_by(items@[i as int], opt_chars(*filter)));
        }
        i += 1;
    }
    r
}

/// The position of the first instance with that name.
pub fn find_instance(items: &Vec<InstanceFields>, name: &str) -> (r: Option<usize>)
    ensures
        match r {
            Some(i) => i < items@.len() && (items@[i as int].name matches Some(x) && x@ == name@)
                && forall|j: int|
                0 <= j < i ==> !(#[trigger] items@[j].name matches Some(x) && x@ == name@),
            None => forall|j: int|
                0 <= j < items@.len() ==> !(#[trigger] items@[j].name matches Some(x) && x@
                    == name@),
        },
{
    for i in 0..items.len()
        invariant
            forall|j: int|
                0 <= j < i ==> !(#[trigger] items@[j].name matches Some(x) && x@ == name@),
    {
        let hit = match &items[i].name {
            Some(x) => str_eq(x.as_str(), name),
            None => false,
        };
        if hit {
            return Some(i);
        }
    }
    None
}

/// The error for an instance that is not there.
pub fn instance_not_found(name: &str) -> (m: String)
    ensures
        m@ == "instance '"@ + name@ + "' nao encontrada"@,
{
    let mut v = chars_of("instance '");
    push_str(&mut v, name);
    push_str(&mut v, "' nao encontrada");
    string_from_chars(v.as_slice())
}

/// The error for an answer that does not have the expected shape.
pub fn invalid_response(error: &str) -> (m: String)
    ensures
        m@ == "resposta kryxd invalida: "@ + error@,
{
    let mut v = chars_of("resposta kryxd invalida: ");
    push_str(&mut v, error);
    string_from_chars(v.as_slice())
}

/// Printed when a listing is empty.
pub const NO_INSTANCES: &'static str = "(no instances)";

/// Printed when there is no storage pool.
pub const NO_STORAGE_POOLS: &'static str = "(no storage pools)";

// ── Storage and health ──────────────────────────────────────────────────

/// What a storage pool of the answer holds.
pub struct StorageFields {
    pub name: Option<String>,
    pub driver: Option<String>,
    pub state: Option<String>,
    pub description: Option<String>,
}

/// A row of the storage table.
pub struct StorageRow {
    pub name: String,
    pub driver: String,
    pub state: String,
    pub description: String,
}

/// The row of a pool: `?` for a missing name, driver or state, nothing for
/// a missing description.
pub fn row_of_storage(v: &StorageFields) -> (r: StorageRow)
    ensures
        r.name@ == or_default(v.name, "?"@),
        r.driver@ == or_default(v.driver, "?"@),
        r.state@ == or_default(v.state, "?"@),
        r.description@ == or_default(v.description, Seq::empty()),
{
    let e = owned("");
    proof {
        reveal_strlit("");
    }
    StorageRow {
        name: text_or(&v.name, "?"),
        driver: text_or(&v.driver, "?"),
        state: text_or(&v.state, "?"),
        description: match &v.description {
            Some(d) => d.clone(),
            None => e,
        },
    }
}

/// The health answer.
pub struct HealthEnvelope {
    pub status: String,
    pub source: String,
    pub socket: Option<String>,
}

/// The lines printed for the health answer.
pub fn health_lines(h: &HealthEnvelope) -> (v: Vec<String>)
    ensures
        strs(v@) == seq!["status : "@ + h.status@, "source : "@ + h.source@] + match h.socket {
            Some(s) => seq!["socket : "@ + s@],
            None => Seq::empty(),
        },
{
    let mut a = chars_of("status : ");
    push_str(&mut a, h.status.as_str());
    let mut b = chars_of("source : ");
    push_str(&mut b, h.source.as_str());
    let mut v = vec![string_from_chars(a.as_slice()), string_from_chars(b.as_slice())];
    match &h.socket {
        Some(s) => {
            let mut c = chars_of("socket : ");
            push_str(&mut c, s.as_str());
            let ghost v0 = v@;
            v.push(string_from_chars(c.as_slice()));
            assert(strs(v@) =~= strs(v0).push("socket : "@ + s@));
        },
        None => {},
    }
    assert(strs(v@) =~= seq!["status : "@ + h.status@, "source : "@ + h.source@] + match h.socket {
        Some(s) => seq!["socket : "@ + s@],
        None => Seq::empty(),
    });
    v
}

} // verus!
