use jet_host::errors::ResolutionError;
use jet_host::specifier::{resolve, ModuleSpecifier, Scheme};

fn file_referrer(path: &str) -> ModuleSpecifier {
    ModuleSpecifier { scheme: Scheme::File, path: path.to_string() }
}

#[test]
fn resolving_twice_is_deterministic() {
    let referrer = file_referrer("/app/main.ts");
    let first = resolve("./lib/util.ts", &referrer);
    let second = resolve("./lib/util.ts", &referrer);
    assert_eq!(first, second);
    let first = resolve("jet:runtime", &referrer);
    let second = resolve("jet:runtime", &referrer);
    assert_eq!(first, second);
    let first = resolve("not a specifier", &referrer);
    let second = resolve("not a specifier", &referrer);
    assert_eq!(first, second);
}

#[test]
fn virtual_names_resolve_directly() {
    let referrer = file_referrer("/app/main.ts");
    let m = resolve("jet:runtime", &referrer).unwrap();
    assert_eq!(m.scheme, Scheme::Virtual);
    assert_eq!(m.path, "runtime");
    let m = resolve("jet:query", &referrer).unwrap();
    assert_eq!(m.scheme, Scheme::Virtual);
    assert_eq!(m.path, "query");
    // Unreserved virtual names still resolve; the loader refuses them.
    let m = resolve("jet:missing", &referrer).unwrap();
    assert_eq!(m.scheme, Scheme::Virtual);
    assert_eq!(m.path, "missing");
}

#[test]
fn relative_specifiers_join_the_referrer_directory() {
    let referrer = file_referrer("/app/main.ts");
    let m = resolve("./lib/util.ts", &referrer).unwrap();
    assert_eq!(m.scheme, Scheme::File);
    assert_eq!(m.path, "/app/lib/util.ts");

    let referrer = file_referrer("/a/b/c.ts");
    let m = resolve("../x.js", &referrer).unwrap();
    assert_eq!(m.path, "/a/x.js");

    let m = resolve("./d/../e/./f.ts", &referrer).unwrap();
    assert_eq!(m.path, "/a/b/e/f.ts");
}

#[test]
fn absolute_paths_resolve_against_a_file_referrer() {
    let referrer = file_referrer("/app/main.ts");
    let m = resolve("/srv/mod.ts", &referrer).unwrap();
    assert_eq!(m.scheme, Scheme::File);
    assert_eq!(m.path, "/srv/mod.ts");
}

#[test]
fn file_urls_normalize_their_paths() {
    let referrer = file_referrer("/app/main.ts");
    let m = resolve("file:///tmp/./a/../b.ts", &referrer).unwrap();
    assert_eq!(m.scheme, Scheme::File);
    assert_eq!(m.path, "/tmp/b.ts");
    // Dotdot at the root stays at the root.
    let m = resolve("file:///../up.ts", &referrer).unwrap();
    assert_eq!(m.path, "/up.ts");
}

#[test]
fn other_urls_pass_through_unchanged() {
    let referrer = file_referrer("/app/main.ts");
    let m = resolve("https://example.com/mod.ts", &referrer).unwrap();
    assert_eq!(m.scheme, Scheme::OtherNetwork);
    assert_eq!(m.path, "https://example.com/mod.ts");
}

#[test]
fn scheme_only_urls_pass_through_unchanged() {
    let referrer = file_referrer("/app/main.ts");
    let m = resolve("data:text/plain,hello", &referrer).unwrap();
    assert_eq!(m.scheme, Scheme::OtherNetwork);
    assert_eq!(m.path, "data:text/plain,hello");
    let m = resolve("about:blank", &referrer).unwrap();
    assert_eq!(m.scheme, Scheme::OtherNetwork);
    assert_eq!(m.path, "about:blank");
}

#[test]
fn a_file_url_with_a_host_is_an_absolute_url() {
    let referrer = file_referrer("/app/main.ts");
    let m = resolve("file://host/share/mod.ts", &referrer).unwrap();
    assert_eq!(m.scheme, Scheme::OtherNetwork);
    assert_eq!(m.path, "file://host/share/mod.ts");
}

#[test]
fn a_relative_specifier_containing_url_punctuation_stays_relative() {
    let referrer = file_referrer("/app/main.ts");
    let m = resolve("./odd://name.ts", &referrer).unwrap();
    assert_eq!(m.scheme, Scheme::File);
    assert_eq!(m.path, "/app/odd:/name.ts");
}

#[test]
fn bare_specifiers_resolve_like_relative_ones() {
    let referrer = file_referrer("/app/main.ts");
    let m = resolve("util.ts", &referrer).unwrap();
    assert_eq!(m.scheme, Scheme::File);
    assert_eq!(m.path, "/app/util.ts");
    let m = resolve("lib/helper.mjs", &referrer).unwrap();
    assert_eq!(m.path, "/app/lib/helper.mjs");
}

#[test]
fn an_empty_specifier_is_invalid() {
    let referrer = file_referrer("/app/main.ts");
    assert_eq!(resolve("", &referrer), Err(ResolutionError::InvalidSpecifier));
}

#[test]
fn relative_specifiers_need_a_usable_referrer() {
    let virtual_referrer = ModuleSpecifier { scheme: Scheme::Virtual, path: "query".to_string() };
    assert_eq!(
        resolve("./sibling.ts", &virtual_referrer),
        Err(ResolutionError::InvalidSpecifier)
    );
    assert_eq!(resolve("/abs.ts", &virtual_referrer), Err(ResolutionError::InvalidSpecifier));
    assert_eq!(resolve("bare.ts", &virtual_referrer), Err(ResolutionError::InvalidSpecifier));
}
