//! The expression that builds a package, written for each kind of source.

use crate::generate::fetcher::{
    address_parts, domain_of, has_repository, names_repository, owner_of, repository_of,
    repository_parts, FetcherInfo, FetcherType, GenerateError,
};
use crate::text::{chars_of, text_of, texts_view};
use crate::words::{
    lemma_split_not_empty, split_at_char, split_text, strip_trailing, without_trailing,
};
use vstd::prelude::*;

verus! {

/// The start of every expression, up to the name of the package.
pub const BEFORE_NAME: &'static str =
    "{ pkgs ? import <nixpkgs> {} }:\n\npkgs.stdenv.mkDerivation rec {\n  pname = \"";

/// What stands between the name and the version.
pub const BEFORE_VERSION: &'static str = "\";\n  version = \"";

/// What stands between the version and the source.
pub const BEFORE_SOURCE: &'static str = "\";\n\n  src = pkgs.";

/// What stands between the source and the home page.
pub const BEFORE_HOMEPAGE: &'static str =
    "\n\n  buildInputs = with pkgs; [\n    # Add your dependencies here\n  ];\n\n  meta = with pkgs.lib; {\n    description = \"\";\n    homepage = \"";

/// The end of every expression, behind the home page.
pub const AFTER_HOMEPAGE: &'static str =
    "\";\n    license = licenses.mit;  # Adjust license accordingly\n    maintainers = with maintainers; [ ];\n    platforms = platforms.all;\n  };\n}\n";

/// The expression that builds the package `name` at `version` from `source`,
/// which is the call of a fetcher, with `homepage` as its home page.
pub open spec fn derivation(
    name: Seq<char>,
    version: Seq<char>,
    source: Seq<char>,
    homepage: Seq<char>,
) -> Seq<char> {
    BEFORE_NAME@ + name + BEFORE_VERSION@ + version + BEFORE_SOURCE@ + source + BEFORE_HOMEPAGE@
        + homepage + AFTER_HOMEPAGE@
}

/// The call of the fetcher of a hosting service, for a repository of an
/// owner at the version of the package.
pub open spec fn forge_source(
    fetcher: Seq<char>,
    owner: Seq<char>,
    repository: Seq<char>,
    hash: Seq<char>,
) -> Seq<char> {
    fetcher + " {\n    owner = \""@ + owner + "\";\n    repo = \""@ + repository
        + "\";\n    rev = version;\n    sha256 = \""@ + hash + "\";\n  };"@
}

/// The call of the fetcher of a Gitea, which is told the host as well.
pub open spec fn gitea_source(
    domain: Seq<char>,
    owner: Seq<char>,
    repository: Seq<char>,
    hash: Seq<char>,
) -> Seq<char> {
    "fetchFromGitea {\n    domain = \""@ + domain + "\";\n    owner = \""@ + owner
        + "\";\n    repo = \""@ + repository + "\";\n    rev = version;\n    sha256 = \""@ + hash
        + "\";\n  };"@
}

/// The call of the fetcher of a plain download.
pub open spec fn download_source(address: Seq<char>, hash: Seq<char>) -> Seq<char> {
    "fetchurl {\n    url = \""@ + address + "\";\n    sha256 = \""@ + hash + "\";\n  };"@
}

/// The call of the fetcher of a Git repository.
pub open spec fn git_source(address: Seq<char>, hash: Seq<char>) -> Seq<char> {
    "fetchgit {\n    url = \""@ + address + "\";\n    sha256 = \""@ + hash
        + "\";\n    rev = \"HEAD\";  # Adjust revision accordingly\n  };"@
}

/// The version of the package: the one that is known, or `fallback`.
pub open spec fn version_or(version: Option<Seq<char>>, fallback: Seq<char>) -> Seq<char> {
    match version {
        Some(version) => version,
        None => fallback,
    }
}

/// The last part of an address: what follows its last slash.
pub open spec fn file_name_of(address: Seq<char>) -> Seq<char> {
    address_parts(address).last()
}

/// The name of a download: its file name up to the first dot.
pub open spec fn download_name(address: Seq<char>) -> Seq<char> {
    split_at_char(file_name_of(address), '.')[0]
}

/// The name of a Git repository: the last part of its address without `.git`
/// at its end.
pub open spec fn git_name(address: Seq<char>) -> Seq<char> {
    without_trailing(file_name_of(address), ".git"@)
}

/// The expression for a repository of the first hosting service.
pub open spec fn github_expression(
    address: Seq<char>,
    version: Option<Seq<char>>,
    hash: Seq<char>,
) -> Seq<char> {
    derivation(
        repository_of(address),
        version_or(version, "HEAD"@),
        forge_source("fetchFromGitHub"@, owner_of(address), repository_of(address), hash),
        address,
    )
}

/// The expression for a repository of the second hosting service.
pub open spec fn gitlab_expression(
    address: Seq<char>,
    version: Option<Seq<char>>,
    hash: Seq<char>,
) -> Seq<char> {
    derivation(
        repository_of(address),
        version_or(version, "1.0.0"@),
        forge_source("fetchFromGitLab"@, owner_of(address), repository_of(address), hash),
        address,
    )
}

/// The expression for a repository of a Gitea.
pub open spec fn gitea_expression(
    address: Seq<char>,
    version: Option<Seq<char>>,
    hash: Seq<char>,
) -> Seq<char> {
    derivation(
        repository_of(address),
        version_or(version, "1.0.0"@),
        gitea_source(domain_of(address), owner_of(address), repository_of(address), hash),
        address,
    )
}

/// The expression for a plain download.
pub open spec fn url_expression(
    address: Seq<char>,
    version: Option<Seq<char>>,
    hash: Seq<char>,
) -> Seq<char> {
    derivation(
        download_name(address),
        version_or(version, "1.0.0"@),
        download_source(address, hash),
        address,
    )
}

/// The expression for a Git repository.
pub open spec fn git_expression(
    address: Seq<char>,
    version: Option<Seq<char>>,
    hash: Seq<char>,
) -> Seq<char> {
    derivation(
        git_name(address),
        version_or(version, "1.0.0"@),
        git_source(address, hash),
        address,
    )
}

/// The expression for the sources of `kind` at `address`.
pub open spec fn expression_for(
    kind: FetcherType,
    address: Seq<char>,
    version: Option<Seq<char>>,
    hash: Seq<char>,
) -> Seq<char> {
    match kind {
        FetcherType::GitHub => github_expression(address, version, hash),
        FetcherType::GitLab => gitlab_expression(address, version, hash),
        FetcherType::FromGitea => gitea_expression(address, version, hash),
        FetcherType::URL => url_expression(address, version, hash),
        FetcherType::Git => git_expression(address, version, hash),
    }
}

fn derivation_text(name: &str, version: &str, source: &str, homepage: &str) -> (text: String)
    ensures
        text@ == derivation(name@, version@, source@, homepage@),
{
    let mut text = String::new();
    text.append(BEFORE_NAME);
    text.append(name);
    text.append(BEFORE_VERSION);
    text.append(version);
    text.append(BEFORE_SOURCE);
    text.append(source);
    text.append(BEFORE_HOMEPAGE);
    text.append(homepage);
    text.append(AFTER_HOMEPAGE);
    text
}

fn forge_source_text(fetcher: &str, owner: &str, repository: &str, hash: &str) -> (text: String)
    ensures
        text@ == forge_source(fetcher@, owner@, repository@, hash@),
{
    let mut text = String::new();
    text.append(fetcher);
    text.append(" {\n    owner = \"");
    text.append(owner);
    text.append("\";\n    repo = \"");
    text.append(repository);
    text.append("\";\n    rev = version;\n    sha256 = \"");
    text.append(hash);
    text.append("\";\n  };");
    text
}

fn version_text(version: &Option<String>, fallback: &str) -> (text: String)
    ensures
        text@ == version_or(text_of(*version), fallback@),
{
    match version {
        Some(version) => version.clone(),
        None => fallback.to_owned(),
    }
}

fn file_name(address: &str) -> (name: String)
    ensures
        name@ == file_name_of(address@),
{
    let parts = split_text(&chars_of(address), '/');
    proof {
        lemma_split_not_empty(address@, '/');
        assert(texts_view(parts@).last() == parts@[parts@.len() - 1]@);
    }
    parts[parts.len() - 1].clone()
}

/// Writes the expression for a repository of the first hosting service. The
/// package has the name of the repository, and the version `HEAD` where none
/// is known.
pub fn generate_github_expression(info: &FetcherInfo, hash: &str) -> (r: Result<
    String,
    GenerateError,
>)
    requires
        names_repository(info.url@),
    ensures
        r matches Ok(text) && text@ == github_expression(
            info.url@,
            text_of(info.version),
            hash@,
        ),
{
    let parts = repository_parts(info.url.as_str()).unwrap();
    let source = forge_source_text("fetchFromGitHub", parts.1.as_str(), parts.2.as_str(), hash);
    let version = version_text(&info.version, "HEAD");
    Ok(derivation_text(parts.2.as_str(), version.as_str(), source.as_str(), info.url.as_str()))
}

/// Writes the expression for a plain download. The package has the name of
/// the file up to its first dot, and the version `1.0.0` where none is
/// known.
pub fn generate_url_expression(info: &FetcherInfo, hash: &str) -> (r: Result<
    String,
    GenerateError,
>)
    ensures
        r matches Ok(text) && text@ == url_expression(info.url@, text_of(info.version), hash@),
{
    let file = file_name(info.url.as_str());
    let pieces = split_text(&chars_of(file.as_str()), '.');
    proof {
        lemma_split_not_empty(file@, '.');
        assert(texts_view(pieces@)[0] == pieces@[0]@);
    }
    let mut source = String::new();
    source.append("fetchurl {\n    url = \"");
    source.append(info.url.as_str());
    source.append("\";\n    sha256 = \"");
    source.append(hash);
    source.append("\";\n  };");
    let version = version_text(&info.version, "1.0.0");
    Ok(derivation_text(pieces[0].as_str(), version.as_str(), source.as_str(), info.url.as_str()))
}

/// Writes the expression for a Git repository. The package has the name of
/// the last part of the address, without `.git`, and the version `1.0.0`
/// where none is known.
pub fn generate_git_expression(info: &FetcherInfo, hash: &str) -> (r: Result<
    String,
    GenerateError,
>)
    ensures
        r matches Ok(text) && text@ == git_expression(info.url@, text_of(info.version), hash@),
{
    let file = file_name(info.url.as_str());
    let name = strip_trailing(&chars_of(file.as_str()), &chars_of(".git"));
    let mut source = String::new();
    source.append("fetchgit {\n    url = \"");
    source.append(info.url.as_str());
    source.append("\";\n    sha256 = \"");
    source.append(hash);
    source.append("\";\n    rev = \"HEAD\";  # Adjust revision accordingly\n  };");
    let version = version_text(&info.version, "1.0.0");
    Ok(derivation_text(name.as_str(), version.as_str(), source.as_str(), info.url.as_str()))
}

/// Writes the expression for a repository of the second hosting service. The
/// package has the name of the repository, and the version `1.0.0` where
/// none is known.
pub fn generate_gitlab_expression(info: &FetcherInfo, hash: &str) -> (r: Result<
    String,
    GenerateError,
>)
    requires
        names_repository(info.url@),
    ensures
        r matches Ok(text) && text@ == gitlab_expression(
            info.url@,
            text_of(info.version),
            hash@,
        ),
{
    let parts = repository_parts(info.url.as_str()).unwrap();
    let source = forge_source_text("fetchFromGitLab", parts.1.as_str(), parts.2.as_str(), hash);
    let version = version_text(&info.version, "1.0.0");
    Ok(derivation_text(parts.2.as_str(), version.as_str(), source.as_str(), info.url.as_str()))
}

/// Writes the expression for a repository of a Gitea, whose host is the
/// third part of the address. The package has the name of the repository,
/// and the version `1.0.0` where none is known.
pub fn generate_gitea_expression(info: &FetcherInfo, hash: &str) -> (r: Result<
    String,
    GenerateError,
>)
    requires
        names_repository(info.url@),
    ensures
        r matches Ok(text) && text@ == gitea_expression(info.url@, text_of(info.version), hash@),
{
    let parts = repository_parts(info.url.as_str()).unwrap();
    let mut source = String::new();
    source.append("fetchFromGitea {\n    domain = \"");
    source.append(parts.0.as_str());
    source.append("\";\n    owner = \"");
    source.append(parts.1.as_str());
    source.append("\";\n    repo = \"");
    source.append(parts.2.as_str());
    source.append("\";\n    rev = version;\n    sha256 = \"");
    source.append(hash);
    source.append("\";\n  };");
    let version = version_text(&info.version, "1.0.0");
    Ok(derivation_text(parts.2.as_str(), version.as_str(), source.as_str(), info.url.as_str()))
}

/// Writes the expression for the sources that `info` tells of, whose hash is
/// `hash`. A repository of the first hosting service whose address names no
/// owner and repository is refused.
pub fn generate_expression(info: &FetcherInfo, hash: &str) -> (r: Result<String, GenerateError>)
    requires
        info.fetcher_type is GitLab || info.fetcher_type is FromGitea ==> names_repository(
            info.url@,
        ),
    ensures
        if info.fetcher_type is GitHub && !names_repository(info.url@) {
            r matches Err(error) && error is InvalidGitHubUrl
        } else {
            r matches Ok(text) && text@ == expression_for(
                info.fetcher_type,
                info.url@,
                text_of(info.version),
                hash@,
            )
        },
{
    match info.fetcher_type {
        FetcherType::GitHub => {
            if has_repository(info.url.as_str()) {
                generate_github_expression(info, hash)
            } else {
                Err(GenerateError::InvalidGitHubUrl)
            }
        },
        FetcherType::URL => generate_url_expression(info, hash),
        FetcherType::Git => generate_git_expression(info, hash),
        FetcherType::GitLab => generate_gitlab_expression(info, hash),
        FetcherType::FromGitea => generate_gitea_expression(info, hash),
    }
}

} // verus!
