//! `kryx node`: the PXE clients' leases, the publication of the diskless
//! image, the reload of the boot services and the remote reboot.
use vstd::prelude::*;
use crate::update::ProcOutcome;
use crate::text::{
    chars_of, lines, lines_of, owned, pad_right, push_padded, push_str, string_from_chars, strs,
    trim, trim_chars, views, words, words_of,
};

verus! {

/// What `kryx node` is asked to do.
pub enum NodeAction {
    List,
    Publish,
    Reload,
    Reboot { target: Option<String> },
}

// ── Leases ──────────────────────────────────────────────────────────────

/// The lease files that are read, in order.
pub open spec fn lease_files_spec() -> Seq<Seq<char>> {
    seq![
        "/var/lib/dnsmasq/dnsmasq.leases"@,
        "/var/lib/misc/dnsmasq.leases"@,
        "/var/lib/dhcp/dhcpd.leases"@,
    ]
}

pub fn lease_files() -> (v: Vec<String>)
    ensures
        strs(v@) == lease_files_spec(),
{
    let v = vec![
        owned("/var/lib/dnsmasq/dnsmasq.leases"),
        owned("/var/lib/misc/dnsmasq.leases"),
        owned("/var/lib/dhcp/dhcpd.leases"),
    ];
    assert(strs(v@) =~= lease_files_spec());
    v
}

/// Whether a lease file holds anything but blanks.
pub fn has_leases(content: &str) -> (b: bool)
    ensures
        b == (trim(content@).len() > 0),
{
    let v = chars_of(content);
    let t = trim_chars(v.as_slice());
    t.len() > 0
}

/// A line of a dnsmasq lease file as a table row: address, MAC and host
/// name in columns of 15, 17 and 20; a line with fewer than four fields is
/// shown as it is.
pub open spec fn lease_row(line: Seq<char>) -> Seq<char> {
    let w = words(line);
    if w.len() >= 4 {
        "IP: "@ + pad_right(w[2], 15) + " MAC: "@ + pad_right(w[1], 17) + " Hostname: "@
            + pad_right(w[3], 20)
    } else {
        line
    }
}

fn lease_row_of(line: &[char]) -> (r: Vec<char>)
    ensures
        r@ == lease_row(line@),
{
    let w = words_of(line);
    if w.len() >= 4 {
        let mut r = chars_of("IP: ");
        push_padded(&mut r, w[2].as_slice(), 15);
        push_str(&mut r, " MAC: ");
        push_padded(&mut r, w[1].as_slice(), 17);
        push_str(&mut r, " Hostname: ");
        push_padded(&mut r, w[3].as_slice(), 20);
        r
    } else {
        crate::text::copy_range(line, 0, line.len())
    }
}

/// The rows of a lease file, one per line.
pub fn lease_rows(content: &str) -> (r: Vec<String>)
    ensures
        r@.len() == lines(content@).len(),
        forall|i: int| 0 <= i < r@.len() ==> (#[trigger] r@[i])@ == lease_row(lines(content@)[i]),
{
    let v = chars_of(content);
    let ls = lines_of(v.as_slice());
    let mut out: Vec<String> = Vec::new();
    for i in 0..ls.len()
        invariant
            views(ls@) == lines(content@),
            out@.len() == i,
            forall|j: int| 0 <= j < i ==> (#[trigger] out@[j])@ == lease_row(lines(content@)[j]),
    {
        let row = lease_row_of(ls[i].as_slice());
        assert(ls@[i as int]@ == lines(content@)[i as int]);
        out.push(string_from_chars(row.as_slice()));
    }
    out
}

// ── Publication ─────────────────────────────────────────────────────────

/// Where the build of the image is left.
pub const BUILD_LINK: &'static str = "/tmp/kryonix-node-build";

/// `nix build` of the `node-client` system, linked at [`BUILD_LINK`].
pub open spec fn publish_build_args_spec() -> Seq<Seq<char>> {
    seq![
        "build"@,
        "/etc/kryonixos#nixosConfigurations.node-client.config.system.build.toplevel"@,
        "-o"@,
        BUILD_LINK@,
    ]
}

pub fn publish_build_args() -> (v: Vec<String>)
    ensures
        strs(v@) == publish_build_args_spec(),
{
    let v = vec![
        owned("build"),
        owned("/etc/kryonixos#nixosConfigurations.node-client.config.system.build.toplevel"),
        owned("-o"),
        owned(BUILD_LINK),
    ];
    assert(strs(v@) =~= publish_build_args_spec());
    v
}

/// The published link: under `/srv/data/images` when that directory
/// exists, else under `/var/lib/kryonix/pxe`.
pub open spec fn publish_link_spec(images_dir_exists: bool) -> Seq<char> {
    if images_dir_exists {
        "/srv/data/images/latest"@
    } else {
        "/var/lib/kryonix/pxe/latest"@
    }
}

pub fn publish_link(images_dir_exists: bool) -> (p: String)
    ensures
        p@ == publish_link_spec(images_dir_exists),
{
    if images_dir_exists {
        owned("/srv/data/images/latest")
    } else {
        owned("/var/lib/kryonix/pxe/latest")
    }
}

/// The directory that holds the published link.
pub fn publish_link_dir(images_dir_exists: bool) -> (p: String)
    ensures
        p@ == (if images_dir_exists {
            "/srv/data/images"@
        } else {
            "/var/lib/kryonix/pxe"@
        }),
{
    if images_dir_exists {
        owned("/srv/data/images")
    } else {
        owned("/var/lib/kryonix/pxe")
    }
}

/// `ln -sfn <build> <link>`.
pub fn link_args(link: &str) -> (v: Vec<String>)
    ensures
        strs(v@) == seq!["-sfn"@, BUILD_LINK@, link@],
{
    let v = vec![owned("-sfn"), owned(BUILD_LINK), owned(link)];
    assert(strs(v@) =~= seq!["-sfn"@, BUILD_LINK@, link@]);
    v
}

fn prefixed(prefix: &str, s: &str) -> (m: String)
    ensures
        m@ == prefix@ + s@,
{
    let mut v = chars_of(prefix);
    push_str(&mut v, s);
    string_from_chars(v.as_slice())
}

/// The build step: it must start and succeed.
pub fn publish_build_result(outcome: &ProcOutcome) -> (r: Result<(), String>)
    ensures
        match *outcome {
            ProcOutcome::NotStarted { error } => r matches Err(m) && m@
                == "Falha ao invocar nix build: "@ + error@,
            ProcOutcome::Exited { success, .. } => if success {
                r is Ok
            } else {
                r matches Err(m) && m@
                    == "Configuração 'node-client' não encontrada no Flake /etc/kryonixos ou build falhou."@
            },
        },
{
    match outcome {
        ProcOutcome::NotStarted { error } => Err(
            prefixed("Falha ao invocar nix build: ", error.as_str()),
        ),
        ProcOutcome::Exited { success, .. } => {
            if *success {
                Ok(())
            } else {
                Err(
                    owned(
                        "Configuração 'node-client' não encontrada no Flake /etc/kryonixos ou build falhou.",
                    ),
                )
            }
        },
    }
}

/// The link step: on success, the message that names where the image is.
pub fn publish_link_result(outcome: &ProcOutcome, link: &str) -> (r: Result<String, String>)
    ensures
        match *outcome {
            ProcOutcome::NotStarted { error } => r matches Err(m) && m@ == "Falha ao invocar ln: "@
                + error@,
            ProcOutcome::Exited { success, .. } => if success {
                r matches Ok(m) && m@ == "Publicação concluída com sucesso! Imagem disponível em "@
                    + link@
            } else {
                r matches Err(m) && m@ == "Falha ao atualizar o link simbólico da imagem."@
            },
        },
{
    match outcome {
        ProcOutcome::NotStarted { error } => Err(prefixed("Falha ao invocar ln: ", error.as_str())),
        ProcOutcome::Exited { success, .. } => {
            if *success {
                Ok(prefixed("Publicação concluída com sucesso! Imagem disponível em ", link))
            } else {
                Err(owned("Falha ao atualizar o link simbólico da imagem."))
            }
        },
    }
}

// ── Reload and reboot ───────────────────────────────────────────────────

/// `systemctl restart ipxe-http-server tftpd`.
pub fn reload_args() -> (v: Vec<String>)
    ensures
        strs(v@) == seq!["restart"@, "ipxe-http-server"@, "tftpd"@],
{
    let v = vec![owned("restart"), owned("ipxe-http-server"), owned("tftpd")];
    assert(strs(v@) =~= seq!["restart"@, "ipxe-http-server"@, "tftpd"@]);
    v
}

pub fn reload_result(outcome: &ProcOutcome) -> (r: Result<(), String>)
    ensures
        match *outcome {
            ProcOutcome::NotStarted { error } => r matches Err(m) && m@
                == "Falha ao invocar systemctl restart: "@ + error@,
            ProcOutcome::Exited { success, .. } => if success {
                r is Ok
            } else {
                r matches Err(m) && m@ == "Falha ao reiniciar serviços de boot."@
            },
        },
{
    match outcome {
        ProcOutcome::NotStarted { error } => Err(
            prefixed("Falha ao invocar systemctl restart: ", error.as_str()),
        ),
        ProcOutcome::Exited { success, .. } => {
            if *success {
                Ok(())
            } else {
                Err(owned("Falha ao reiniciar serviços de boot."))
            }
        },
    }
}

/// The stations a reboot is asked for (all of them by default).
pub fn reboot_target(target: Option<String>) -> (t: String)
    ensures
        t@ == match target {
            Some(x) => x@,
            None => "all"@,
        },
{
    match target {
        Some(x) => x,
        None => owned("all"),
    }
}

} // verus!
