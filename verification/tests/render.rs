use alias_rs::config::{Alias, ShellList};
use alias_rs::shell::{Family, Shell};

fn alias(name: &str, value: &str, shells: Option<ShellList>) -> Alias {
    Alias { alias: name.to_string(), equals: value.to_string(), shells }
}

const ALL_SHELLS: [Shell; 7] = [
    Shell::Bash,
    Shell::Fish,
    Shell::Zsh,
    Shell::Tcsh,
    Shell::Ksh,
    Shell::Dash,
    Shell::Ash,
];

#[test]
fn bash_renders_posix_assignment() {
    let a = alias("ll", "ls -la", None);
    assert_eq!(
        Shell::Bash.create_alias(&a),
        Some("alias ll=\"ls -la\";".to_string())
    );
}

#[test]
fn fish_renders_space_argument() {
    let a = alias("ll", "ls -la", None);
    assert_eq!(
        Shell::Fish.create_alias(&a),
        Some("alias ll \"ls -la\";".to_string())
    );
}

#[test]
fn no_scope_present_for_every_shell() {
    let a = alias("g", "git", None);
    for shell in ALL_SHELLS {
        assert!(shell.create_alias(&a).is_some());
    }
}

#[test]
fn blacklist_suppresses_exactly_members() {
    let a = alias(
        "x",
        "y",
        Some(ShellList::Blacklist(vec![Shell::Bash, Shell::Fish])),
    );
    for shell in ALL_SHELLS {
        let listed = shell == Shell::Bash || shell == Shell::Fish;
        assert_eq!(shell.create_alias(&a).is_none(), listed);
    }
}

#[test]
fn blacklisted_shell_is_suppressed() {
    let a = alias("x", "y", Some(ShellList::Blacklist(vec![Shell::Bash])));
    assert_eq!(Shell::Bash.create_alias(&a), None);
}

#[test]
fn whitelist_admits_exactly_members() {
    let a = alias(
        "x",
        "y",
        Some(ShellList::Whitelist(vec![Shell::Zsh, Shell::Tcsh])),
    );
    for shell in ALL_SHELLS {
        let listed = shell == Shell::Zsh || shell == Shell::Tcsh;
        assert_eq!(shell.create_alias(&a).is_some(), listed);
    }
}

#[test]
fn whitelist_without_target_suppresses() {
    let a = alias("x", "y", Some(ShellList::Whitelist(vec![Shell::Bash])));
    assert_eq!(Shell::Fish.create_alias(&a), None);
}

#[test]
fn empty_lists_edge_cases() {
    let black = alias("x", "y", Some(ShellList::Blacklist(vec![])));
    let white = alias("x", "y", Some(ShellList::Whitelist(vec![])));
    for shell in ALL_SHELLS {
        assert!(shell.create_alias(&black).is_some());
        assert!(shell.create_alias(&white).is_none());
    }
}

#[test]
fn rendering_is_deterministic() {
    let a = alias("ll", "ls -la", Some(ShellList::Whitelist(vec![Shell::Bash])));
    for shell in ALL_SHELLS {
        assert_eq!(shell.create_alias(&a), shell.create_alias(&a));
    }
}

#[test]
fn posix_family_members_render_identically() {
    let a = alias("ll", "ls -la", None);
    let expected = Shell::Bash.create_alias(&a);
    for shell in [Shell::Zsh, Shell::Ksh, Shell::Dash, Shell::Ash] {
        assert_eq!(shell.create_alias(&a), expected);
    }
}

#[test]
fn space_family_members_render_identically() {
    let a = alias("ll", "ls -la", None);
    assert_eq!(Shell::Tcsh.create_alias(&a), Shell::Fish.create_alias(&a));
}

#[test]
fn render_template_formats_each_family() {
    assert_eq!(
        alias_rs::shell::render_template(Family::PosixAssignment, "ll", "ls -la"),
        "alias ll=\"ls -la\";"
    );
    assert_eq!(
        alias_rs::shell::render_template(Family::SpaceArgument, "ll", "ls -la"),
        "alias ll \"ls -la\";"
    );
}

#[test]
fn concatenation_preserves_source_order() {
    let aliases = vec![alias("ll", "ls -la", None), alias("ll", "ls -lah", None)];
    assert_eq!(
        Shell::Bash.create_aliases(&aliases),
        "alias ll=\"ls -la\";alias ll=\"ls -lah\";"
    );
}

#[test]
fn concatenation_skips_suppressed_aliases() {
    let aliases = vec![
        alias("a", "1", None),
        alias("b", "2", Some(ShellList::Blacklist(vec![Shell::Bash]))),
        alias("c", "3", None),
    ];
    assert_eq!(
        Shell::Bash.create_aliases(&aliases),
        "alias a=\"1\";alias c=\"3\";"
    );
    assert_eq!(Shell::Bash.create_aliases(&vec![]), "");
}
