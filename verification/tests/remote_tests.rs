use gitph::remote::parse_github_owner_and_repo;

#[test]
fn ssh_url_resolves() {
    let r = parse_github_owner_and_repo("git@github.com:acme/widget.git").unwrap();
    assert_eq!(r.0, "acme");
    assert_eq!(r.1, "widget");
}

#[test]
fn https_url_resolves() {
    let r = parse_github_owner_and_repo("https://github.com/acme/widget.git").unwrap();
    assert_eq!(r.0, "acme");
    assert_eq!(r.1, "widget");
}

#[test]
fn foreign_host_is_rejected() {
    let r = parse_github_owner_and_repo("https://gitlab.com/acme/widget.git");
    let e = r.unwrap_err();
    assert!(e.contains("https://gitlab.com/acme/widget.git"));
    assert!(e.contains("unrecognized"));
}

#[test]
fn missing_git_suffix_is_rejected() {
    assert!(parse_github_owner_and_repo("https://github.com/acme/widget").is_err());
    assert!(parse_github_owner_and_repo("git@github.com:acme/widget").is_err());
}

#[test]
fn missing_slash_is_rejected() {
    assert!(parse_github_owner_and_repo("git@github.com:acmewidget.git").is_err());
}

#[test]
fn empty_input_is_rejected() {
    assert!(parse_github_owner_and_repo("").is_err());
}

#[test]
fn nested_path_splits_at_first_slash() {
    let r = parse_github_owner_and_repo("https://github.com/acme/widget/extra.git").unwrap();
    assert_eq!(r.0, "acme");
    assert_eq!(r.1, "widget/extra");
}
