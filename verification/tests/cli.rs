use tetra::args::{long_flag, push_option, push_switch, tls_pair, UnpairedTls};
use tetra::listing::{dry_run_listing, RenderedResource};

fn resource(filename: &str, contents: &str) -> RenderedResource {
    RenderedResource { filename: filename.into(), contents: contents.into() }
}

#[test]
fn dry_run_separates_files() {
    assert_eq!(dry_run_listing(&vec![]), "");
    assert_eq!(
        dry_run_listing(&vec![
            resource("a.container", "[Container]\n"),
            resource("b.env", "X=1"),
            resource("empty", ""),
        ]),
        "--- a.container\n[Container]\n--- b.env\nX=1\n--- empty\n\n"
    );
}

#[test]
fn listings_follow_one_another() {
    let first = vec![resource("a", "1"), resource("b", "2\n")];
    let second = vec![resource("c", "")];
    let both = vec![resource("a", "1"), resource("b", "2\n"), resource("c", "")];
    assert_eq!(
        dry_run_listing(&both),
        dry_run_listing(&first) + &dry_run_listing(&second)
    );
}

#[test]
fn flags_are_added_when_set() {
    let mut args = vec!["useradd".to_string()];
    push_switch(&mut args, long_flag("system"), true);
    push_switch(&mut args, long_flag("create-home"), false);
    push_option(&mut args, long_flag("shell"), Some("/bin/sh".to_string()));
    push_option(&mut args, "--home-dir".to_string(), Some("/home/a".to_string()));
    push_option(&mut args, long_flag("uid"), None);
    assert_eq!(
        args,
        ["useradd", "--system", "--shell", "/bin/sh", "--home-dir", "/home/a"]
    );
}

#[test]
fn certificate_and_key_come_together() {
    assert_eq!(tls_pair(Some(1), Some(2)), Ok(Some((1, 2))));
    assert_eq!(tls_pair::<u8>(None, None), Ok(None));
    assert_eq!(tls_pair(Some(1), None), Err(UnpairedTls));
    assert_eq!(tls_pair(None, Some(2)), Err(UnpairedTls));
    assert_eq!(
        UnpairedTls.message(),
        "--tls-cert and --tls-key must be supplied together"
    );
}
