use desktop_launcher::launch::{open_launch, shell_launch, strip_field_codes};

#[test]
fn strip_drops_field_codes() {
    assert_eq!(strip_field_codes("firefox %u"), "firefox ");
    assert_eq!(strip_field_codes("code --new-window %F"), "code --new-window ");
    assert_eq!(strip_field_codes("plain"), "plain");
    assert_eq!(strip_field_codes(""), "");
}

#[test]
fn strip_drops_character_after_percent() {
    assert_eq!(strip_field_codes("a%%b"), "a");
    assert_eq!(strip_field_codes("%f%U"), "");
    assert_eq!(strip_field_codes("x%"), "x");
    assert_eq!(strip_field_codes("%ab"), "b");
}

#[test]
fn strip_twice_is_strip_once() {
    for s in ["firefox %u", "a%%b%c d", "%%%", "no codes", "50% off"] {
        let once = strip_field_codes(s);
        assert_eq!(strip_field_codes(&once), once);
        assert!(!once.contains('%'));
    }
}

#[test]
fn shell_launch_runs_stripped_command() {
    let l = shell_launch("gimp %U");
    assert_eq!(l.program, "/bin/sh");
    assert_eq!(l.args, vec!["-c".to_string(), "gimp ".to_string()]);
}

#[test]
fn open_launch_uses_xdg_open() {
    let l = open_launch("/tmp/a.pdf");
    assert_eq!(l.program, "xdg-open");
    assert_eq!(l.args, vec!["/tmp/a.pdf".to_string()]);
}

#[test]
fn stripped_command_keeps_order() {
    let cmd = "env A=1 prog %f --x %%y";
    let out = strip_field_codes(cmd);
    let mut rest = cmd.chars();
    for c in out.chars() {
        assert!(rest.any(|d| d == c));
    }
}
