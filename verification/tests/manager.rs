use shim_dispatch::manager::{token_in, PackageManager};

#[test]
fn npm_runs_the_npm_binary() {
    assert_eq!(PackageManager::Npm.binary(), "npm");
}

#[test]
fn npm_global_flags_are_short_and_long() {
    assert_eq!(PackageManager::Npm.global_flag_table(), vec!["-g", "--global"]);
}

#[test]
fn npm_install_aliases_include_the_common_typo() {
    assert_eq!(
        PackageManager::Npm.install_alias_table(),
        vec!["install", "i", "add", "isntall"]
    );
}

#[test]
fn token_is_looked_up_in_a_table() {
    let table = vec!["install", "i"];
    assert!(token_in(b"install", &table));
    assert!(token_in(b"i", &table));
    assert!(!token_in(b"add", &table));
    assert!(!token_in(b"", &table));
    assert!(!token_in(b"i\xff", &table));
    assert!(!token_in(b"i", &Vec::new()));
}
