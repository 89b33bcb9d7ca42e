use proc_macro_crate::{
    extract_crate_names, parse_toml, sanitize_crate_name, Cache, FoundCrate, ResolveError, Toml,
};

fn names(manifest: &str, integration_test: bool) -> proc_macro_crate::CrateNames {
    let doc = parse_toml(manifest).expect("Parses `Cargo.toml`");
    extract_crate_names(&doc, integration_test)
}

fn found(manifest: &str, name: &str) -> Option<FoundCrate> {
    names(manifest, false).get(name)
}

fn cache(manifest: &str) -> Cache {
    Cache::new(
        "/work/pkg".to_string(),
        "/work/pkg/Cargo.toml".to_string(),
        manifest,
        false,
    )
    .expect("Parses `Cargo.toml`")
}

#[test]
fn deps_with_crate() {
    let m = "\n[dependencies]\nmy_crate = \"0.1\"\n";
    assert_eq!(found(m, "my_crate"), Some(FoundCrate::Name("my_crate".to_string())));
}

#[test]
fn dev_deps_with_crate() {
    let m = "\n[dev-dependencies]\nmy_crate = \"0.1\"\n";
    assert_eq!(found(m, "my_crate"), Some(FoundCrate::Name("my_crate".to_string())));
}

#[test]
fn deps_with_crate_renamed() {
    let m = "\n[dependencies]\ncool = { package = \"my_crate\", version = \"0.1\" }\n";
    assert_eq!(found(m, "my_crate"), Some(FoundCrate::Name("cool".to_string())));
}

#[test]
fn deps_with_crate_renamed_second() {
    let m = "\n[dependencies.cool]\npackage = \"my_crate\"\nversion = \"0.1\"\n";
    assert_eq!(found(m, "my_crate"), Some(FoundCrate::Name("cool".to_string())));
}

#[test]
fn deps_empty() {
    assert_eq!(found("\n[dependencies]\n", "my_crate"), None);
}

#[test]
fn crate_not_found() {
    assert_eq!(found("\n[dependencies]\nserde = \"1.0\"\n", "my_crate"), None);
}

#[test]
fn target_dependency() {
    let m = "\n[target.'cfg(target_os=\"android\")'.dependencies]\nmy_crate = \"0.1\"\n";
    assert_eq!(found(m, "my_crate"), Some(FoundCrate::Name("my_crate".to_string())));
}

#[test]
fn target_dependency2() {
    let m = "\n[target.x86_64-pc-windows-gnu.dependencies]\nmy_crate = \"0.1\"\n";
    assert_eq!(found(m, "my_crate"), Some(FoundCrate::Name("my_crate".to_string())));
}

#[test]
fn own_crate() {
    let m = "\n[package]\nname = \"my_crate\"\n";
    assert_eq!(found(m, "my_crate"), Some(FoundCrate::Itself));
}

#[test]
fn plain_dependency_resolves_to_itself_name() {
    let c = cache("[dependencies]\nfoo = \"0.1\"");
    assert_eq!(c.crate_name("/work/pkg", "foo").unwrap(), FoundCrate::Name("foo".to_string()));
}

#[test]
fn renamed_inline_dependency() {
    let c = cache("[dependencies]\ncool = { package = \"foo\", version = \"0.1\" }");
    assert_eq!(c.crate_name("/work/pkg", "foo").unwrap(), FoundCrate::Name("cool".to_string()));
    match c.crate_name("/work/pkg", "cool") {
        Err(ResolveError::CrateNotFound { crate_name, path }) => {
            assert_eq!(crate_name, "cool");
            assert_eq!(path, "/work/pkg/Cargo.toml");
        }
        other => panic!("unexpected result: {:?}", other),
    }
}

#[test]
fn renamed_expanded_dependency_matches_inline() {
    let inline = cache("[dependencies]\ncool = { package = \"foo\", version = \"0.1\" }");
    let expanded = cache("[dependencies.cool]\npackage = \"foo\"\nversion = \"0.1\"");
    assert_eq!(
        inline.crate_name("/work/pkg", "foo").unwrap(),
        expanded.crate_name("/work/pkg", "foo").unwrap()
    );
    assert!(expanded.crate_name("/work/pkg", "cool").is_err());
}

#[test]
fn empty_dependencies_find_nothing() {
    let c = cache("[dependencies]");
    for name in ["foo", "", "dependencies", "my-crate"] {
        assert!(matches!(
            c.crate_name("/work/pkg", name),
            Err(ResolveError::CrateNotFound { .. })
        ));
    }
}

#[test]
fn platform_keys_do_not_matter() {
    let a = cache("[target.'cfg(target_os=\"android\")'.dependencies]\nfoo = \"0.1\"");
    let b = cache("[target.x86_64-pc-windows-gnu.dependencies]\nfoo = \"0.1\"");
    assert_eq!(a.crate_name("/work/pkg", "foo").unwrap(), FoundCrate::Name("foo".to_string()));
    assert_eq!(b.crate_name("/work/pkg", "foo").unwrap(), FoundCrate::Name("foo".to_string()));
}

#[test]
fn own_package_is_itself_in_primary_build() {
    let c = cache("[package]\nname = \"foo\"");
    assert_eq!(c.crate_name("/work/pkg", "foo").unwrap(), FoundCrate::Itself);
}

#[test]
fn own_package_is_named_in_integration_test() {
    let doc = parse_toml("[package]\nname = \"my-pkg\"").unwrap();
    let t = extract_crate_names(&doc, true);
    assert_eq!(t.get("my-pkg"), Some(FoundCrate::Name("my_pkg".to_string())));
}

#[test]
fn dashes_sanitized_everywhere() {
    let m = "[dependencies]\nmy-dep = \"1\"\n[dev-dependencies]\nother-dep = { package = \"x-y\", version = \"1\" }\n[target.'cfg(unix)'.dev-dependencies]\nthird-one = \"2\"";
    let t = names(m, false);
    assert_eq!(t.get("my-dep"), Some(FoundCrate::Name("my_dep".to_string())));
    assert_eq!(t.get("x-y"), Some(FoundCrate::Name("other_dep".to_string())));
    assert_eq!(t.get("third-one"), Some(FoundCrate::Name("third_one".to_string())));
    assert_eq!(t.get("my_dep"), None);
}

#[test]
fn repeated_lookups_agree() {
    let c = cache("[dependencies]\nfoo-bar = \"0.1\"");
    let first = c.crate_name("/work/pkg", "foo-bar").unwrap();
    let second = c.crate_name("/work/pkg", "foo-bar").unwrap();
    assert_eq!(first, second);
    assert_eq!(first, FoundCrate::Name("foo_bar".to_string()));
}

#[test]
fn later_declaration_overwrites_earlier() {
    let m = "[package]\nname = \"foo\"\n[dependencies]\nfoo = \"1\"";
    assert_eq!(found(m, "foo"), Some(FoundCrate::Name("foo".to_string())));
}

#[test]
fn target_entry_not_a_table_is_skipped() {
    let m = "target = \"x\"\n[dependencies]\nfoo = \"1\"";
    assert_eq!(found(m, "foo"), Some(FoundCrate::Name("foo".to_string())));
}

#[test]
fn package_key_that_is_not_a_string_is_ignored() {
    let m = "[dependencies]\nbar = { package = 3, version = \"1\" }";
    assert_eq!(found(m, "bar"), Some(FoundCrate::Name("bar".to_string())));
}

#[test]
fn invalid_manifest_is_rejected() {
    assert!(matches!(parse_toml("[dependencies"), Err(ResolveError::InvalidToml { .. })));
    let r = Cache::new("d".to_string(), "d/Cargo.toml".to_string(), "= =", false);
    assert!(matches!(r, Err(ResolveError::InvalidToml { .. })));
}

#[test]
fn decoded_tree_holds_tables_strings_and_arrays() {
    match parse_toml("a = \"x\"\nb = [1, 2]\nc = 4\n[t]\nk = \"v\"").unwrap() {
        Toml::Nested(entries) => {
            let keys: Vec<&str> = entries.iter().map(|(k, _)| k.as_str()).collect();
            assert_eq!(keys, vec!["a", "b", "c", "t"]);
            assert!(matches!(&entries[0].1, Toml::Value(s) if s == "x"));
            assert!(matches!(&entries[1].1, Toml::Array(a) if a.len() == 2));
            assert!(matches!(&entries[2].1, Toml::Empty));
            assert!(matches!(&entries[3].1, Toml::Nested(t) if t.len() == 1));
        }
        other => panic!("unexpected tree: {:?}", other),
    }
}

#[test]
fn cache_knows_its_directory() {
    let c = cache("[dependencies]");
    assert!(c.is_for("/work/pkg"));
    assert!(!c.is_for("/work/other"));
}

#[test]
fn sanitize_replaces_every_dash() {
    assert_eq!(sanitize_crate_name("a-b--c"), "a_b__c");
    assert_eq!(sanitize_crate_name(""), "");
    assert_eq!(sanitize_crate_name("plain"), "plain");
}
