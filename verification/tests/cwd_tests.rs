use catfish::cwd::{cd_commit, cd_decide, CdKind, DirState};

fn b(s: &str) -> Vec<u8> {
    s.as_bytes().to_vec()
}

fn st(cur: &str, prev: &str) -> DirState {
    DirState { current: b(cur), previous: b(prev) }
}

#[test]
fn cd_then_dash_restores_the_old_directory() {
    let s0 = st("/home/user", "/var");
    let home = b("/home/user");
    // cd /tmp
    let plan1 = cd_decide(&s0, &home, Some(&b("/tmp")));
    assert_eq!(plan1.kind, CdKind::Path);
    assert_eq!(plan1.target, b("/tmp"));
    let s1 = cd_commit(&s0, &plan1, true);
    assert_eq!(s1.current, b("/tmp"));
    assert_eq!(s1.previous, b("/home/user"));
    // cd -
    let plan2 = cd_decide(&s1, &home, Some(&b("-")));
    assert_eq!(plan2.target, b("/home/user"));
    let s2 = cd_commit(&s1, &plan2, true);
    assert_eq!(s2.current, b("/home/user"));
    assert_eq!(s2.previous, b("/tmp"));
}

#[test]
fn cd_without_argument_targets_home() {
    let s0 = st("/var", "/etc");
    let home = b("/home/user");
    let p = cd_decide(&s0, &home, None);
    assert_eq!(p.target, b("/home/user"));
    let s1 = cd_commit(&s0, &p, true);
    assert_eq!(s1.current, b("/home/user"));
    assert_eq!(s1.previous, b("/var"));
}

#[test]
fn cd_tilde_targets_home() {
    let s0 = st("/var", "/etc");
    let home = b("/home/user");
    let p = cd_decide(&s0, &home, Some(&b("~")));
    assert_eq!(p.kind, CdKind::Home);
    assert_eq!(p.target, b("/home/user"));
}

#[test]
fn cd_to_current_directory_toggles_like_dash() {
    let s0 = st("/home/user", "/var");
    let home = b("/home/user");
    let plan_same = cd_decide(&s0, &home, Some(&b("/home/user")));
    assert_eq!(plan_same.kind, CdKind::Toggle);
    assert_eq!(plan_same.target, b("/var"));
    let plan_dash = cd_decide(&s0, &home, Some(&b("-")));
    assert_eq!(plan_dash.target, b("/var"));
    // same outcome whether the attempt succeeds or fails
    assert_eq!(cd_commit(&s0, &plan_same, true), cd_commit(&s0, &plan_dash, true));
    assert_eq!(cd_commit(&s0, &plan_same, false), cd_commit(&s0, &plan_dash, false));
}

#[test]
fn cd_tilde_when_already_home_toggles() {
    let s0 = st("/home/user", "/var");
    let home = b("/home/user");
    let p = cd_decide(&s0, &home, Some(&b("~")));
    assert_eq!(p.kind, CdKind::Toggle);
    assert_eq!(p.target, b("/var"));
}

#[test]
fn failed_cd_to_plain_path_changes_nothing() {
    // input `cd /nonexistent`: directory unchanged, previous kept
    let s0 = st("/home/user", "/var");
    let home = b("/home/user");
    let p = cd_decide(&s0, &home, Some(&b("/nonexistent")));
    assert_eq!(p.kind, CdKind::Path);
    assert_eq!(p.target, b("/nonexistent"));
    let s1 = cd_commit(&s0, &p, false);
    assert_eq!(s1, s0);
}

#[test]
fn failed_cd_dash_keeps_current_but_resets_previous() {
    let s0 = st("/home/user", "/gone");
    let home = b("/home/user");
    let p = cd_decide(&s0, &home, Some(&b("-")));
    assert_eq!(p.kind, CdKind::Back);
    let s1 = cd_commit(&s0, &p, false);
    assert_eq!(s1.current, b("/home/user"));
    assert_eq!(s1.previous, b("/home/user"));
}
