use nux::disk::duct_util::Cmd;

fn strings(v: &[&str]) -> Vec<String> {
    v.iter().map(|s| s.to_string()).collect()
}

#[test]
fn builder_collects_arguments_in_order() {
    let e = Cmd::new("mkfs.fat").opt("-F", "32").arg("/dev/sda1").to_expr();
    assert_eq!(e.program, "mkfs.fat");
    assert_eq!(e.args, strings(&["-F", "32", "/dev/sda1"]));
    assert_eq!(e.stdin, None);
    assert_eq!(e.wait_ms, None);
}

#[test]
fn opt_is_two_args() {
    let a = Cmd::new("x").opt("p", "q").to_expr();
    let b = Cmd::new("x").arg("p").arg("q").to_expr();
    assert_eq!(a.args, b.args);
}

#[test]
fn args_appends_all_items() {
    let e = Cmd::new("zpool").arg("create").args(&strings(&["-o", "a=b"])).arg("tank").to_expr();
    assert_eq!(e.args, strings(&["create", "-o", "a=b", "tank"]));
    let empty: Vec<String> = vec![];
    let f = Cmd::new("ls").args(&empty).to_expr();
    assert!(f.args.is_empty());
}

#[test]
fn wait_and_input_are_recorded() {
    let e = Cmd::new("mount").arg("x").to_expr_with_wait(500);
    assert_eq!(e.wait_ms, Some(500));
    let f = Cmd::new("cryptsetup").arg("open").to_expr().input("secret words");
    assert_eq!(f.stdin, Some("secret words".to_string()));
    assert_eq!(f.args, strings(&["open"]));
}

#[test]
fn to_duct_builds_the_command() {
    let e = Cmd::new("zpool").arg("create").arg("tank").to_expr();
    let d = format!("{:?}", e.to_duct());
    assert!(d.contains("zpool"), "{}", d);
    assert!(d.contains("create"), "{}", d);
    assert!(d.contains("tank"), "{}", d);
    assert!(!d.contains("StdinBytes"), "{}", d);
}

#[test]
fn to_duct_feeds_the_input() {
    let e = Cmd::new("cryptsetup").arg("open").to_expr().input("ab");
    let d = format!("{:?}", e.to_duct());
    assert!(d.contains("StdinBytes"), "{}", d);
    assert!(d.contains("cryptsetup"), "{}", d);
}
