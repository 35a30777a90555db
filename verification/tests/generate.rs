use nx_wrapper::generate::expression::{
    generate_expression, generate_git_expression, generate_gitea_expression,
    generate_github_expression, generate_gitlab_expression, generate_url_expression,
};
use nx_wrapper::generate::fetcher::{
    analyze_url, calculate_hash, classify, extract_version, first_of, github_prefetch,
    has_repository, hash_from_output, repository_parts, FetcherInfo, FetcherType, GenerateError,
    GitHubRepo, HashSource, USER_AGENT,
};
use nx_wrapper::session::Invocation;

fn info(url: &str, fetcher_type: FetcherType, version: Option<&str>) -> FetcherInfo {
    FetcherInfo { url: url.to_string(), fetcher_type, hash: None, version: version.map(String::from) }
}

fn expression(name: &str, version: &str, source: &str, homepage: &str) -> String {
    format!(
        "{{ pkgs ? import <nixpkgs> {{}} }}:

pkgs.stdenv.mkDerivation rec {{
  pname = \"{}\";
  version = \"{}\";

  src = pkgs.{}

  buildInputs = with pkgs; [
    # Add your dependencies here
  ];

  meta = with pkgs.lib; {{
    description = \"\";
    homepage = \"{}\";
    license = licenses.mit;  # Adjust license accordingly
    maintainers = with maintainers; [ ];
    platforms = platforms.all;
  }};
}}
",
        name, version, source, homepage
    )
}

#[test]
fn address_of_the_first_hosting_service() {
    let found = analyze_url("https://github.com/owner/repo").unwrap();
    assert_eq!(found, info("https://github.com/owner/repo", FetcherType::GitHub, None));
    let tagged = analyze_url("https://github.com/owner/repo/releases/tag/2.0.1").unwrap();
    assert_eq!(tagged.fetcher_type, FetcherType::GitHub);
    assert_eq!(tagged.version, Some("2.0.1".to_string()));
    assert_eq!(tagged.hash, None);
}

#[test]
fn address_of_other_kinds() {
    assert_eq!(analyze_url("https://gitlab.com/o/r.git").unwrap().fetcher_type, FetcherType::GitLab);
    assert_eq!(analyze_url("https://gitea.example.org/o/r").unwrap().fetcher_type, FetcherType::FromGitea);
    assert_eq!(analyze_url("https://my-gitea.io/o/r.git").unwrap().fetcher_type, FetcherType::FromGitea);
    assert_eq!(analyze_url("https://example.org/o/r.git").unwrap().fetcher_type, FetcherType::Git);
    assert_eq!(analyze_url("https://example.org/gitea/r.tar.gz").unwrap().fetcher_type, FetcherType::URL);
    assert_eq!(analyze_url("mailto:someone@example.org").unwrap().fetcher_type, FetcherType::URL);
    assert_eq!(analyze_url("unix:/run/x.git").unwrap().fetcher_type, FetcherType::Git);
    // The host is compared as the parser gives it: in lower case.
    assert_eq!(analyze_url("https://GitHub.com/o/r").unwrap().fetcher_type, FetcherType::GitHub);
    assert_eq!(analyze_url("https://GitHub.com/o/r").unwrap().url, "https://GitHub.com/o/r");
}

#[test]
fn address_that_is_no_url_is_refused() {
    match analyze_url("not a url") {
        Err(GenerateError::InvalidUrl { reason }) => {
            assert_eq!(reason, "relative URL without a base");
        }
        other => panic!("{:?}", other),
    }
    assert!(matches!(analyze_url(""), Err(GenerateError::InvalidUrl { .. })));
    assert!(matches!(analyze_url("https://"), Err(GenerateError::InvalidUrl { .. })));
    let error = analyze_url("github.com/owner/repo").unwrap_err();
    assert_eq!(error.message(), "relative URL without a base");
    assert_eq!(GenerateError::InvalidGitHubUrl.message(), "Invalid GitHub URL");
}

#[test]
fn kind_by_host_and_ending() {
    assert_eq!(classify(&Some("github.com".to_string()), "x.git"), FetcherType::GitHub);
    assert_eq!(classify(&Some("gitlab.com".to_string()), "x"), FetcherType::GitLab);
    assert_eq!(classify(&Some("www.github.com".to_string()), "x"), FetcherType::URL);
    assert_eq!(classify(&Some("gitea".to_string()), "x"), FetcherType::FromGitea);
    assert_eq!(classify(&Some("example.org".to_string()), "x.git"), FetcherType::Git);
    assert_eq!(classify(&Some("example.org".to_string()), "x.git/"), FetcherType::URL);
    assert_eq!(classify(&None, "x.git"), FetcherType::Git);
    assert_eq!(classify(&None, "gitea"), FetcherType::URL);
}

#[test]
fn version_in_the_path() {
    assert_eq!(extract_version("/owner/repo/archive/v1.2.3.tar.gz"), Some("1.2.3".to_string()));
    assert_eq!(extract_version("/owner/repo/releases/tag/10.20.30"), Some("10.20.30".to_string()));
    assert_eq!(extract_version("/pkg/version-4.5.6/src"), Some("4.5.6".to_string()));
    assert_eq!(extract_version("/pkg/version/7.8.9"), Some("7.8.9".to_string()));
    assert_eq!(extract_version("/owner/repo"), None);
    assert_eq!(extract_version("/owner/repo/1.2.3"), None);
    assert_eq!(extract_version("/v1.2"), None);
    assert_eq!(extract_version(""), None);
}

#[test]
fn version_patterns_are_tried_in_order() {
    assert_eq!(
        extract_version("/releases/tag/1.1.1/version-2.2.2/v3.3.3"),
        Some("3.3.3".to_string())
    );
    assert_eq!(extract_version("/version-2.2.2/releases/tag/1.1.1"), Some("1.1.1".to_string()));
    assert_eq!(extract_version("/v1.0.0/v2.0.0"), Some("1.0.0".to_string()));
    let a = Some("a".to_string());
    let b = Some("b".to_string());
    assert_eq!(first_of(a.clone(), b.clone(), None), a);
    assert_eq!(first_of(None, b.clone(), a.clone()), b);
    assert_eq!(first_of(None, None, a.clone()), a);
    assert_eq!(first_of(None, None, None), None);
}

#[test]
fn owner_and_repository() {
    assert_eq!(
        repository_parts("https://github.com/owner/repo.git"),
        Some(("github.com".to_string(), "owner".to_string(), "repo".to_string()))
    );
    assert_eq!(
        repository_parts("https://h/o/r.git.git/tree/main"),
        Some(("h".to_string(), "o".to_string(), "r".to_string()))
    );
    assert_eq!(repository_parts("https://github.com/owner"), None);
    assert!(has_repository("https://github.com/owner/"));
    assert!(!has_repository("https://github.com/owner"));
    assert!(!has_repository(""));
}

#[test]
fn hash_comes_from_a_program() {
    let download = info("https://example.org/a.tar.gz", FetcherType::URL, None);
    assert_eq!(
        calculate_hash(&download),
        Ok(HashSource::Program {
            invocation: Invocation {
                program: "nix-prefetch-url".to_string(),
                args: vec!["https://example.org/a.tar.gz".to_string()],
                env: vec![],
            }
        })
    );
    for kind in [FetcherType::Git, FetcherType::GitLab, FetcherType::FromGitea] {
        let repository = info("https://example.org/o/r.git", kind, None);
        assert_eq!(
            calculate_hash(&repository),
            Ok(HashSource::Program {
                invocation: Invocation {
                    program: "nix-prefetch-git".to_string(),
                    args: vec!["https://example.org/o/r.git".to_string()],
                    env: vec![],
                }
            })
        );
    }
}

#[test]
fn hash_of_the_first_hosting_service_asks_the_service() {
    let repository = info("https://github.com/owner/repo.git", FetcherType::GitHub, None);
    assert_eq!(
        calculate_hash(&repository),
        Ok(HashSource::Repository { api_url: "https://api.github.com/repos/owner/repo".to_string() })
    );
    assert_eq!(USER_AGENT, "nix-prefetch");
    let answer = GitHubRepo { name: "repo".to_string(), description: None, default_branch: "main".to_string() };
    assert_eq!(
        github_prefetch(&repository, &answer),
        Invocation {
            program: "nix-prefetch-git".to_string(),
            args: vec!["https://github.com/owner/repo.git".to_string(), "--rev".to_string(), "main".to_string()],
            env: vec![],
        }
    );
    let short = info("https://github.com/owner", FetcherType::GitHub, None);
    assert_eq!(calculate_hash(&short), Err(GenerateError::InvalidGitHubUrl));
}

#[test]
fn hash_is_the_output_without_white_space() {
    assert_eq!(hash_from_output("0abc123\n"), "0abc123");
    assert_eq!(hash_from_output("  sha256-xyz=  \r\n"), "sha256-xyz=");
    assert_eq!(hash_from_output(""), "");
}

#[test]
fn expression_for_the_first_hosting_service() {
    let source = "fetchFromGitHub {\n    owner = \"owner\";\n    repo = \"repo\";\n    rev = version;\n    sha256 = \"0abc\";\n  };";
    let plain = info("https://github.com/owner/repo.git", FetcherType::GitHub, None);
    assert_eq!(
        generate_github_expression(&plain, "0abc"),
        Ok(expression("repo", "HEAD", source, "https://github.com/owner/repo.git"))
    );
    let tagged = info("https://github.com/owner/repo/releases/tag/1.2.3", FetcherType::GitHub, Some("1.2.3"));
    assert_eq!(
        generate_github_expression(&tagged, "0abc"),
        Ok(expression("repo", "1.2.3", source, "https://github.com/owner/repo/releases/tag/1.2.3"))
    );
}

#[test]
fn expression_for_a_download() {
    let source = "fetchurl {\n    url = \"https://example.org/dl/tool-1.0.tar.gz\";\n    sha256 = \"0abc\";\n  };";
    let download = info("https://example.org/dl/tool-1.0.tar.gz", FetcherType::URL, None);
    assert_eq!(
        generate_url_expression(&download, "0abc"),
        Ok(expression("tool-1", "1.0.0", source, "https://example.org/dl/tool-1.0.tar.gz"))
    );
    let bare = info("https://example.org/", FetcherType::URL, Some("2.0.0"));
    let source = "fetchurl {\n    url = \"https://example.org/\";\n    sha256 = \"h\";\n  };";
    assert_eq!(generate_url_expression(&bare, "h"), Ok(expression("", "2.0.0", source, "https://example.org/")));
}

#[test]
fn expression_for_a_git_repository() {
    let source = "fetchgit {\n    url = \"https://example.org/o/tool.git\";\n    sha256 = \"0abc\";\n    rev = \"HEAD\";  # Adjust revision accordingly\n  };";
    let repository = info("https://example.org/o/tool.git", FetcherType::Git, None);
    assert_eq!(
        generate_git_expression(&repository, "0abc"),
        Ok(expression("tool", "1.0.0", source, "https://example.org/o/tool.git"))
    );
}

#[test]
fn expression_for_the_second_hosting_service() {
    let source = "fetchFromGitLab {\n    owner = \"o\";\n    repo = \"r\";\n    rev = version;\n    sha256 = \"0abc\";\n  };";
    let repository = info("https://gitlab.com/o/r", FetcherType::GitLab, None);
    assert_eq!(
        generate_gitlab_expression(&repository, "0abc"),
        Ok(expression("r", "1.0.0", source, "https://gitlab.com/o/r"))
    );
}

#[test]
fn expression_for_a_gitea() {
    let source = "fetchFromGitea {\n    domain = \"gitea.example.org\";\n    owner = \"o\";\n    repo = \"r\";\n    rev = version;\n    sha256 = \"0abc\";\n  };";
    let repository = info("https://gitea.example.org/o/r.git", FetcherType::FromGitea, Some("3.2.1"));
    assert_eq!(
        generate_gitea_expression(&repository, "0abc"),
        Ok(expression("r", "3.2.1", source, "https://gitea.example.org/o/r.git"))
    );
}

#[test]
fn expression_by_kind() {
    for (url, kind) in [
        ("https://github.com/o/r", FetcherType::GitHub),
        ("https://gitlab.com/o/r", FetcherType::GitLab),
        ("https://gitea.example.org/o/r", FetcherType::FromGitea),
        ("https://example.org/o/r.git", FetcherType::Git),
        ("https://example.org/r.tar.gz", FetcherType::URL),
    ] {
        let analysed = analyze_url(url).unwrap();
        assert_eq!(analysed.fetcher_type, kind);
        let expected = match kind {
            FetcherType::GitHub => generate_github_expression(&analysed, "h"),
            FetcherType::GitLab => generate_gitlab_expression(&analysed, "h"),
            FetcherType::FromGitea => generate_gitea_expression(&analysed, "h"),
            FetcherType::Git => generate_git_expression(&analysed, "h"),
            FetcherType::URL => generate_url_expression(&analysed, "h"),
        };
        assert!(expected.is_ok());
        assert_eq!(generate_expression(&analysed, "h"), expected);
    }
    let short = info("https://github.com/owner", FetcherType::GitHub, None);
    assert_eq!(generate_expression(&short, "h"), Err(GenerateError::InvalidGitHubUrl));
}
