use kryx::status::render_zpool_status;
use kryx::ui::{divider, render_banner, section_header};

#[test]
fn painted_output_with_colours_on_and_off() {
    colored::control::set_override(true);
    let b = render_banner();
    assert!(b.contains("v\u{1b}[1;36m0.1.0\u{1b}[0m · KryonixOS Unified CLI\n"));
    let h = section_header("Phase A");
    assert_eq!(h, format!("\u{1b}[1;4mPhase A\u{1b}[0m\n\u{1b}[2m{}\u{1b}[0m", divider()));
    assert_eq!(
        render_zpool_status("tank ONLINE\nsda DEGRADED\nerrors: none\n"),
        "\u{1b}[32mtank ONLINE\u{1b}[0m\n\u{1b}[31msda DEGRADED\u{1b}[0m\nerrors: none\n"
    );

    colored::control::set_override(false);
    let b = render_banner();
    assert!(b.ends_with("  v0.1.0 · KryonixOS Unified CLI\n"));
    assert_eq!(section_header("Phase A"), format!("Phase A\n{}", divider()));
    assert_eq!(render_zpool_status("tank ONLINE\n"), "tank ONLINE\n");
    colored::control::unset_override();
}
