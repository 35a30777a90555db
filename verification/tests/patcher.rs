use nx_wrapper::patcher::{add_option_to_config, add_package_to_config, PACKAGE_LIST_MARKER};

fn occurrences(text: &str, pattern: &str) -> usize {
    text.matches(pattern).count()
}

#[test]
fn package_goes_behind_the_marker() {
    let document = "{ config, pkgs, ... }:\n{\n  environment.systemPackages = with pkgs; [\n    vim\n  ];\n}\n";
    let patched = add_package_to_config(document, "git");
    assert_eq!(
        patched,
        "{ config, pkgs, ... }:\n{\n  environment.systemPackages = with pkgs; [\n    git\n    vim\n  ];\n}\n"
    );
}

#[test]
fn package_is_the_only_insertion() {
    let document = "a environment.systemPackages = with pkgs; [ b ]; }";
    let patched = add_package_to_config(document, "hello");
    let at = document.find(PACKAGE_LIST_MARKER).unwrap() + PACKAGE_LIST_MARKER.len();
    assert_eq!(&patched[..at], &document[..at]);
    assert_eq!(&patched[at..at + 10], "\n    hello");
    assert_eq!(&patched[at + 10..], &document[at..]);
    assert_eq!(patched.len(), document.len() + 10);
}

#[test]
fn package_list_is_created_before_the_last_brace() {
    let document = "{ config, pkgs, ... }:\n{\n}\n";
    let patched = add_package_to_config(document, "git");
    assert_eq!(
        patched,
        "{ config, pkgs, ... }:\n{\n\n  environment.systemPackages = with pkgs; [\n    git\n  ];\n}"
    );
    assert!(patched.contains("environment.systemPackages = with pkgs; [\n    git\n  ];"));
    assert!(patched.ends_with('}'));
    assert_eq!(occurrences(&patched, "}"), occurrences(document, "}"));
}

#[test]
fn package_list_is_created_in_a_document_without_a_brace() {
    let patched = add_package_to_config("# nothing here", "git");
    assert_eq!(
        patched,
        "# nothing here\n  environment.systemPackages = with pkgs; [\n    git\n  ];\n}"
    );
    assert_eq!(occurrences(&patched, "}"), 1);
}

#[test]
fn package_list_is_created_in_an_empty_document() {
    let patched = add_package_to_config("", "git");
    assert_eq!(patched, "\n  environment.systemPackages = with pkgs; [\n    git\n  ];\n}");
}

#[test]
fn text_behind_the_last_brace_is_dropped_with_a_new_list() {
    let patched = add_package_to_config("{ a = { b = 1; }; } # end\n", "git");
    assert_eq!(
        patched,
        "{ a = { b = 1; }; \n  environment.systemPackages = with pkgs; [\n    git\n  ];\n}"
    );
}

#[test]
fn package_twice_stands_twice() {
    let document = "{ config, pkgs, ... }:\n{\n}\n";
    let once = add_package_to_config(document, "git");
    let twice = add_package_to_config(&once, "git");
    assert_eq!(occurrences(&once, "\n    git"), 1);
    assert_eq!(occurrences(&twice, "\n    git"), 2);
    assert_eq!(
        twice,
        "{ config, pkgs, ... }:\n{\n\n  environment.systemPackages = with pkgs; [\n    git\n    git\n  ];\n}"
    );
}

#[test]
fn package_twice_stands_twice_in_an_existing_list() {
    let document = "{\n  environment.systemPackages = with pkgs; [ vim ];\n}\n";
    let twice = add_package_to_config(&add_package_to_config(document, "git"), "git");
    assert_eq!(
        twice,
        "{\n  environment.systemPackages = with pkgs; [\n    git\n    git vim ];\n}\n"
    );
}

#[test]
fn package_goes_behind_every_marker() {
    let document = "environment.systemPackages = with pkgs; [];environment.systemPackages = with pkgs; []";
    let patched = add_package_to_config(document, "jq");
    assert_eq!(
        patched,
        "environment.systemPackages = with pkgs; [\n    jq];environment.systemPackages = with pkgs; [\n    jq]"
    );
}

#[test]
fn package_in_a_document_with_wide_characters() {
    let document = "# caf\u{e9} \u{1F600}\n{\n  environment.systemPackages = with pkgs; [ \u{e9} ];\n}\n";
    let patched = add_package_to_config(document, "gr\u{fc}n");
    assert_eq!(
        patched,
        "# caf\u{e9} \u{1F600}\n{\n  environment.systemPackages = with pkgs; [\n    gr\u{fc}n \u{e9} ];\n}\n"
    );
    let created = add_package_to_config("# caf\u{e9}\n{\n}\u{e9}", "git");
    assert_eq!(
        created,
        "# caf\u{e9}\n{\n\n  environment.systemPackages = with pkgs; [\n    git\n  ];\n}"
    );
}

#[test]
fn marker_cut_short_is_no_marker() {
    let document = "{ environment.systemPackages = with pkgs; }";
    let patched = add_package_to_config(document, "git");
    assert_eq!(
        patched,
        "{ environment.systemPackages = with pkgs; \n  environment.systemPackages = with pkgs; [\n    git\n  ];\n}"
    );
}

#[test]
fn option_goes_before_the_last_brace() {
    let patched = add_option_to_config(
        "{ config, pkgs, ... }:\n{\n}\n",
        "networking.hostName",
        "\"myhost\"",
    );
    assert_eq!(
        patched,
        "{ config, pkgs, ... }:\n{\n  networking.hostName = \"myhost\";\n}\n"
    );
    let line = patched.find("networking.hostName = \"myhost\";").unwrap();
    assert!(line < patched.rfind('}').unwrap());
}

#[test]
fn option_in_a_document_without_a_brace() {
    assert_eq!(add_option_to_config("", "a.b", "1"), "  a.b = 1;\n}");
    assert_eq!(add_option_to_config("# note\n", "a.b", "1"), "# note\n  a.b = 1;\n}");
}

#[test]
fn option_goes_before_the_last_of_several_braces() {
    let patched = add_option_to_config("{ a = { b = 1; }; }\n", "c", "{ d = 2; }");
    assert_eq!(patched, "{ a = { b = 1; };   c = { d = 2; };\n}\n");
    assert_eq!(patched.rfind('}').unwrap(), patched.len() - 2);
}

#[test]
fn option_twice_stands_twice() {
    let once = add_option_to_config("{\n}\n", "a", "true");
    let twice = add_option_to_config(&once, "a", "true");
    assert_eq!(twice, "{\n  a = true;\n  a = true;\n}\n");
}

#[test]
fn option_in_a_document_with_wide_characters() {
    let patched = add_option_to_config("# \u{1F600}\n{\n}\u{e9}\n", "a", "\"\u{fc}\"");
    assert_eq!(patched, "# \u{1F600}\n{\n  a = \"\u{fc}\";\n}\u{e9}\n");
}
