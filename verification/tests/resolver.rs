use skctx::resolve::expand_tilde;
use skctx::resolve::resolve_path;

#[test]
fn relative_path_unchanged() {
    assert_eq!(expand_tilde("foo/bar", "/home/alice"), "foo/bar");
}

#[test]
fn absolute_path_unchanged() {
    assert_eq!(expand_tilde("/etc/kube/configs", "/home/alice"), "/etc/kube/configs");
}

#[test]
fn empty_path_unchanged() {
    assert_eq!(expand_tilde("", "/home/alice"), "");
}

#[test]
fn tilde_inside_a_name_unchanged() {
    assert_eq!(expand_tilde("~abc/foo", "/home/alice"), "~abc/foo");
}

#[test]
fn tilde_alone_gives_home() {
    assert_eq!(expand_tilde("~", "/home/alice"), "/home/alice");
}

#[test]
fn tilde_slash_joins_home() {
    assert_eq!(expand_tilde("~/foo/bar", "/home/alice"), "/home/alice/foo/bar");
}

#[test]
fn default_config_dir_joins_home() {
    assert_eq!(expand_tilde("~/.kube/configs", "/home/alice"), "/home/alice/.kube/configs");
}

#[test]
fn root_home_no_doubled_separator() {
    assert_eq!(expand_tilde("~/foo", "/"), "/foo");
}

#[test]
fn tilde_slash_only_keeps_trailing_separator() {
    assert_eq!(expand_tilde("~/", "/home/alice"), "/home/alice/");
}

#[test]
fn non_ascii_path_and_home() {
    assert_eq!(expand_tilde("~/ünïcode", "/home/ßob"), "/home/ßob/ünïcode");
}

#[test]
fn resolve_without_tilde_never_fails() {
    assert_eq!(resolve_path("configs/here"), Some("configs/here".to_string()));
}

#[test]
fn resolve_tilde_inside_a_name_never_fails() {
    assert_eq!(resolve_path("~abc"), Some("~abc".to_string()));
}
