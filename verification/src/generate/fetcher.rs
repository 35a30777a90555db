//! The analysis of the address of a package's sources.

use crate::session::{concat3, pairs_view, Invocation, InvocationView};
use crate::text::{
    chars_of, contains_chars, contains_seq, ends_with_chars, ends_with_seq, same_text, string_of,
    text_of, texts_view,
};
use crate::words::{
    split_at_char, split_text, strip_trailing, trim_chars, trimmed, without_trailing,
};
use vstd::prelude::*;

verus! {

/// What the hosting service tells of a repository.
#[derive(Debug, Clone, PartialEq, Eq)]
pub struct GitHubRepo {
    pub name: String,
    pub description: Option<String>,
    pub default_branch: String,
}

/// The kind of source, which decides how the sources are fetched.
#[derive(Debug, Clone, Copy, PartialEq, Eq, Structural)]
pub enum FetcherType {
    GitHub,
    GitLab,
    URL,
    Git,
    FromGitea,
}

/// What is known of the sources of a package.
#[derive(Debug, Clone, PartialEq, Eq)]
pub struct FetcherInfo {
    /// The address, as it was given.
    pub url: String,
    pub fetcher_type: FetcherType,
    /// The hash of the sources, where it is known.
    pub hash: Option<String>,
    /// The version that the address names, if it names one.
    pub version: Option<String>,
}

/// Why no expression can be made.
#[derive(Debug, Clone, PartialEq, Eq)]
pub enum GenerateError {
    /// The address is no URL, for the reason given.
    InvalidUrl { reason: String },
    /// The address does not name an owner and a repository.
    InvalidGitHubUrl,
}

impl GenerateError {
    /// The error in words.
    pub fn message(&self) -> (text: String)
        ensures
            self is InvalidGitHubUrl ==> text@ == "Invalid GitHub URL"@,
            self matches GenerateError::InvalidUrl { reason } ==> text@ == reason@,
    {
        match self {
            GenerateError::InvalidUrl { reason } => reason.clone(),
            GenerateError::InvalidGitHubUrl => "Invalid GitHub URL".to_owned(),
        }
    }
}

/// The host and the path of a URL.
#[derive(Debug, Clone, PartialEq, Eq)]
pub struct UrlParts {
    /// The host, if the URL has one.
    pub host: Option<String>,
    /// The path, percent-encoded.
    pub path: String,
}

/// The error of the URL parser.
///
/// Trusted: this declares the type `url::ParseError`. Nothing is known of a
/// value of it but what [`parse_error_text`] tells.
#[verifier::external_type_specification]
#[verifier::external_body]
pub struct ExParseError(url::ParseError);

/// What the URL parser makes of a text: nothing where the text is no
/// absolute URL, and else the host, if the URL has one, and the path.
pub uninterp spec fn url_parts(text: Seq<char>) -> Option<(Option<Seq<char>>, Seq<char>)>;

/// The first capture group of the leftmost match of a regular expression in
/// a text; nothing where the pattern is no regular expression, where it does
/// not match or where its first group takes no part in the match.
pub uninterp spec fn regex_first_group(pattern: Seq<char>, text: Seq<char>) -> Option<Seq<char>>;

/// Parses a text as an absolute URL and gives its host and its path.
///
/// Trusted: the body calls `Url::parse`, `Url::host_str` and `Url::path` of
/// the crate `url`. The contract claims only that the outcome depends on the
/// text alone, and gives it the name [`url_parts`].
#[verifier::external_body]
fn parse_url(text: &str) -> (r: Result<UrlParts, url::ParseError>)
    ensures
        match r {
            Ok(parts) => url_parts(text@) == Some((text_of(parts.host), parts.path@)),
            Err(_) => url_parts(text@) is None,
        },
{
    let url = url::Url::parse(text)?;
    let host = match url.host_str() {
        Some(host) => Some(host.to_owned()),
        None => None,
    };
    Ok(UrlParts { host, path: url.path().to_owned() })
}

/// The error of the URL parser in words.
///
/// Trusted: the body formats the error with its `Display` of the crate
/// `url`. Nothing is claimed of the text.
#[verifier::external_body]
fn parse_error_text(error: &url::ParseError) -> String {
    format!("{}", error)
}

/// Searches `text` for `pattern` and gives what the first capture group of
/// the leftmost match holds.
///
/// Trusted: the body calls `Regex::new`, `Regex::captures`, `Captures::get`
/// and `Match::as_str` of the crate `regex`. The contract claims only that
/// the outcome depends on the pattern and the text alone, and gives it the
/// name [`regex_first_group`].
#[verifier::external_body]
fn first_group(pattern: &str, text: &str) -> (r: Option<String>)
    ensures
        text_of(r) == regex_first_group(pattern@, text@),
{
    let regex = regex::Regex::new(pattern).ok()?;
    let captures = regex.captures(text)?;
    match captures.get(1) {
        Some(group) => Some(group.as_str().to_owned()),
        None => None,
    }
}

/// The pattern that finds a version behind a `v`. It is tried first.
pub const VERSION_AFTER_V: &'static str = r"v(\d+\.\d+\.\d+)";

/// The pattern that finds the version of a release. It is tried second.
pub const VERSION_OF_RELEASE: &'static str = r"releases/tag/(\d+\.\d+\.\d+)";

/// The pattern that finds a version behind the word `version`. It is tried
/// last.
pub const VERSION_AFTER_WORD: &'static str = r"version[/-](\d+\.\d+\.\d+)";

/// The first of three findings that holds something.
pub open spec fn first_found(
    first: Option<Seq<char>>,
    second: Option<Seq<char>>,
    third: Option<Seq<char>>,
) -> Option<Seq<char>> {
    if first is Some {
        first
    } else if second is Some {
        second
    } else {
        third
    }
}

/// The version that a path names: what the first of the three patterns that
/// matches has found.
pub open spec fn version_in(path: Seq<char>) -> Option<Seq<char>> {
    first_found(
        regex_first_group(VERSION_AFTER_V@, path),
        regex_first_group(VERSION_OF_RELEASE@, path),
        regex_first_group(VERSION_AFTER_WORD@, path),
    )
}

/// The first of three findings that holds something.
pub fn first_of(first: Option<String>, second: Option<String>, third: Option<String>) -> (r:
    Option<String>)
    ensures
        text_of(r) == first_found(text_of(first), text_of(second), text_of(third)),
{
    if first.is_some() {
        first
    } else if second.is_some() {
        second
    } else {
        third
    }
}

/// The version that the path of an address names: three numbers with dots
/// between them, behind a `v`, behind `releases/tag/`, or behind `version`
/// and a slash or a hyphen. The patterns are tried in this order.
pub fn extract_version(path: &str) -> (version: Option<String>)
    ensures
        text_of(version) == version_in(path@),
{
    first_of(
        first_group(VERSION_AFTER_V, path),
        first_group(VERSION_OF_RELEASE, path),
        first_group(VERSION_AFTER_WORD, path),
    )
}

/// The kind of source that an address with this host is.
///
/// The two hosting services are known by their hosts. Any other host with
/// `gitea` in its name is taken for a Gitea. Of the rest, an address that
/// ends with `.git` is a Git repository, and any other a plain download.
pub open spec fn fetcher_for(host: Option<Seq<char>>, address: Seq<char>) -> FetcherType {
    if host == Some("github.com"@) {
        FetcherType::GitHub
    } else if host == Some("gitlab.com"@) {
        FetcherType::GitLab
    } else if host matches Some(name) && contains_seq(name, "gitea"@) {
        FetcherType::FromGitea
    } else if ends_with_seq(address, ".git"@) {
        FetcherType::Git
    } else {
        FetcherType::URL
    }
}

/// The kind of source that the address `address` with the host `host` is:
/// see [`fetcher_for`].
pub fn classify(host: &Option<String>, address: &str) -> (kind: FetcherType)
    ensures
        kind == fetcher_for(text_of(*host), address@),
{
    match host {
        Some(name) => {
            if same_text(name.as_str(), "github.com") {
                return FetcherType::GitHub;
            }
            if same_text(name.as_str(), "gitlab.com") {
                return FetcherType::GitLab;
            }
            if contains_chars(&chars_of(name.as_str()), &chars_of("gitea")) {
                return FetcherType::FromGitea;
            }
        },
        None => {},
    }
    if ends_with_chars(&chars_of(address), &chars_of(".git")) {
        FetcherType::Git
    } else {
        FetcherType::URL
    }
}

/// Analyses the address of a package's sources.
///
/// An address that is no absolute URL is refused. Of any other, the kind of
/// source is told by its host and its ending, and the version by its path;
/// the address is kept as it was given, and the hash is not known yet.
pub fn analyze_url(url_str: &str) -> (r: Result<FetcherInfo, GenerateError>)
    ensures
        r is Ok <==> url_parts(url_str@) is Some,
        r matches Err(error) ==> error is InvalidUrl,
        r matches Ok(info) ==> {
            let (host, path) = url_parts(url_str@)->0;
            &&& info.url@ == url_str@
            &&& info.fetcher_type == fetcher_for(host, url_str@)
            &&& info.hash is None
            &&& text_of(info.version) == version_in(path)
        },
{
    match parse_url(url_str) {
        Ok(parts) => Ok(
            FetcherInfo {
                url: url_str.to_owned(),
                fetcher_type: classify(&parts.host, url_str),
                hash: None,
                version: extract_version(parts.path.as_str()),
            },
        ),
        Err(error) => Err(GenerateError::InvalidUrl { reason: parse_error_text(&error) }),
    }
}

/// The parts of an address between its slashes.
pub open spec fn address_parts(address: Seq<char>) -> Seq<Seq<char>> {
    split_at_char(address, '/')
}

/// Whether an address names an owner and a repository: it has five parts
/// between slashes at least, as `https://host/owner/repository` has.
pub open spec fn names_repository(address: Seq<char>) -> bool {
    address_parts(address).len() >= 5
}

/// The host that an address names, as its third part.
pub open spec fn domain_of(address: Seq<char>) -> Seq<char> {
    address_parts(address)[2]
}

/// The owner that an address names, as its fourth part.
pub open spec fn owner_of(address: Seq<char>) -> Seq<char> {
    address_parts(address)[3]
}

/// The repository that an address names, as its fifth part without `.git` at
/// its end.
pub open spec fn repository_of(address: Seq<char>) -> Seq<char> {
    without_trailing(address_parts(address)[4], ".git"@)
}

/// The host, the owner and the repository that an address names, where it
/// names an owner and a repository.
pub fn repository_parts(address: &str) -> (r: Option<(String, String, String)>)
    ensures
        r is Some <==> names_repository(address@),
        r matches Some(parts) ==> parts.0@ == domain_of(address@) && parts.1@ == owner_of(
            address@,
        ) && parts.2@ == repository_of(address@),
{
    let parts = split_text(&chars_of(address), '/');
    if parts.len() >= 5 {
        proof {
            assert(texts_view(parts@)[2] == parts@[2]@);
            assert(texts_view(parts@)[3] == parts@[3]@);
            assert(texts_view(parts@)[4] == parts@[4]@);
        }
        let repository = strip_trailing(&chars_of(parts[4].as_str()), &chars_of(".git"));
        Some((parts[2].clone(), parts[3].clone(), repository))
    } else {
        None
    }
}

/// Whether an address names an owner and a repository.
pub fn has_repository(address: &str) -> (b: bool)
    ensures
        b == names_repository(address@),
{
    repository_parts(address).is_some()
}

/// The name with which the hosting service is asked.
pub const USER_AGENT: &'static str = "nix-prefetch";

/// Where the hash of the sources comes from.
#[derive(Debug, Clone, PartialEq, Eq)]
pub enum HashSource {
    /// The hosting service is asked for the repository at `api_url`; the
    /// hash is then written by the program that [`github_prefetch`] gives
    /// for the answer.
    Repository { api_url: String },
    /// The hash is written by this program.
    Program { invocation: Invocation },
}

/// The program that writes the hash of the sources at an address.
pub open spec fn prefetch_command(program: Seq<char>, args: Seq<Seq<char>>) -> InvocationView {
    InvocationView { program, args, env: Seq::empty() }
}

fn prefetch(program: &str, args: Vec<String>) -> (r: Invocation)
    ensures
        r@ == prefetch_command(program@, texts_view(args@)),
{
    let env: Vec<(String, String)> = Vec::new();
    proof {
        assert(pairs_view(env@) =~= Seq::<(Seq<char>, Seq<char>)>::empty());
    }
    Invocation { program: program.to_owned(), args, env }
}

/// Tells where the hash of the sources comes from.
///
/// For a repository of the first hosting service, the service is asked
/// first; its address must name an owner and a repository, or it is
/// refused. For a plain download the hash is written by `nix-prefetch-url`,
/// for everything else by `nix-prefetch-git`.
pub fn calculate_hash(info: &FetcherInfo) -> (r: Result<HashSource, GenerateError>)
    ensures
        match info.fetcher_type {
            FetcherType::GitHub => if names_repository(info.url@) {
                r matches Ok(HashSource::Repository { api_url }) && api_url@
                    == "https://api.github.com/repos/"@ + owner_of(info.url@) + "/"@
                    + repository_of(info.url@)
            } else {
                r matches Err(error) && error is InvalidGitHubUrl
            },
            FetcherType::URL => r matches Ok(HashSource::Program { invocation }) && invocation@
                == prefetch_command("nix-prefetch-url"@, seq![info.url@]),
            _ => r matches Ok(HashSource::Program { invocation }) && invocation@
                == prefetch_command("nix-prefetch-git"@, seq![info.url@]),
        },
{
    match info.fetcher_type {
        FetcherType::GitHub => match repository_parts(info.url.as_str()) {
            Some(parts) => {
                let mut api_url = concat3(
                    "https://api.github.com/repos/",
                    parts.1.as_str(),
                    "/",
                );
                api_url.append(parts.2.as_str());
                Ok(HashSource::Repository { api_url })
            },
            None => Err(GenerateError::InvalidGitHubUrl),
        },
        FetcherType::URL => {
            let mut args: Vec<String> = Vec::new();
            args.push(info.url.clone());
            proof {
                assert(texts_view(args@) =~= seq![info.url@]);
            }
            Ok(HashSource::Program { invocation: prefetch("nix-prefetch-url", args) })
        },
        _ => {
            let mut args: Vec<String> = Vec::new();
            args.push(info.url.clone());
            proof {
                assert(texts_view(args@) =~= seq![info.url@]);
            }
            Ok(HashSource::Program { invocation: prefetch("nix-prefetch-git", args) })
        },
    }
}

/// The program that writes the hash of a repository of the first hosting
/// service, at the branch that the service names as the default.
pub fn github_prefetch(info: &FetcherInfo, repo: &GitHubRepo) -> (r: Invocation)
    ensures
        r@ == prefetch_command(
            "nix-prefetch-git"@,
            seq![info.url@, "--rev"@, repo.default_branch@],
        ),
{
    let mut args: Vec<String> = Vec::new();
    args.push(info.url.clone());
    args.push("--rev".to_owned());
    args.push(repo.default_branch.clone());
    proof {
        assert(texts_view(args@) =~= seq![info.url@, "--rev"@, repo.default_branch@]);
    }
    prefetch("nix-prefetch-git", args)
}

/// The hash in what the program has written: the text without the white
/// space around it.
pub fn hash_from_output(output: &str) -> (hash: String)
    ensures
        hash@ == trimmed(output@),
{
    let text = trim_chars(&chars_of(output));
    let hash = string_of(&text, 0, text.len());
    proof {
        assert(text@.subrange(0, text@.len() as int) =~= text@);
    }
    hash
}

} // verus!
