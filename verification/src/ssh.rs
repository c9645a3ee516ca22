//! Host aliases of the SSH client configuration.
//!
//! An alias token is `alias` or `alias:remote_path`. The alias is looked up among the
//! entries of the configuration; the entry found gives the address, port and user of an
//! SFTP connection.

use vstd::prelude::*;
use vstd::string::*;
use crate::error::{outcome_view, ResolveError, ResolveErrorView};
use crate::remote::RemoteArgs;
use crate::text::{cloned, lemma_run_len_marks, run_len, run_length};
use crate::params::{
    FileTransferParams, FileTransferParamsView, FileTransferProtocol, GenericProtocolParams,
    GenericProtocolParamsView, DEFAULT_SSH_PORT,
};

verus! {

/// One pattern of a host entry.
#[derive(Clone, Debug, PartialEq, Eq)]
pub struct HostPattern {
    pub text: String,
    /// Whether the pattern excludes, rather than selects, the hosts it matches.
    pub negated: bool,
}

/// Mathematical value of [`HostPattern`].
pub struct HostPatternView {
    pub text: Seq<char>,
    pub negated: bool,
}

impl View for HostPattern {
    type V = HostPatternView;

    open spec fn view(&self) -> HostPatternView {
        HostPatternView { text: self.text@, negated: self.negated }
    }
}

impl DeepView for HostPattern {
    type V = HostPatternView;

    open spec fn deep_view(&self) -> HostPatternView {
        self@
    }
}

/// One host entry of the SSH client configuration, reduced to what a connection needs.
#[derive(Clone, Debug, PartialEq, Eq)]
pub struct SshHostEntry {
    pub patterns: Vec<HostPattern>,
    pub host_name: Option<String>,
    pub port: Option<u16>,
    pub user: Option<String>,
}

/// Mathematical value of [`SshHostEntry`].
pub struct SshHostEntryView {
    pub patterns: Seq<HostPatternView>,
    pub host_name: Option<Seq<char>>,
    pub port: Option<u16>,
    pub user: Option<Seq<char>>,
}

impl View for SshHostEntry {
    type V = SshHostEntryView;

    open spec fn view(&self) -> SshHostEntryView {
        SshHostEntryView {
            patterns: self.patterns.deep_view(),
            host_name: self.host_name.deep_view(),
            port: self.port,
            user: self.user.deep_view(),
        }
    }
}

impl DeepView for SshHostEntry {
    type V = SshHostEntryView;

    open spec fn deep_view(&self) -> SshHostEntryView {
        self@
    }
}

impl SshHostEntryView {
    /// Whether one of the entry's patterns is exactly `alias` and is not negated.
    /// Wildcards get no special meaning here.
    pub open spec fn names(self, alias: Seq<char>) -> bool {
        exists|j: int|
            0 <= j < self.patterns.len() && !(#[trigger] self.patterns[j]).negated
                && self.patterns[j].text == alias
    }
}

/// Number of characters of `host_arg` before its first colon; its length if it has none.
pub open spec fn alias_len(host_arg: Seq<char>) -> nat {
    run_len(host_arg, ':')
}

/// The alias of `host_arg`: what stands before its first colon.
pub open spec fn alias_of(host_arg: Seq<char>) -> Seq<char> {
    host_arg.take(alias_len(host_arg) as int)
}

/// The remote path of `host_arg`: what follows its first colon, unless that is empty.
pub open spec fn remote_path_of(host_arg: Seq<char>) -> Option<Seq<char>> {
    if alias_len(host_arg) + 1 < host_arg.len() {
        Some(host_arg.skip(alias_len(host_arg) as int + 1))
    } else {
        None
    }
}

/// An alias holds no colon. With a remote path, the token is the alias, a colon and
/// the path, which is not empty; without, it is the alias, or the alias and a colon.
pub proof fn law_alias_and_remote_path(host_arg: Seq<char>)
    ensures
        forall|j: int| 0 <= j < alias_of(host_arg).len() ==> alias_of(host_arg)[j] != ':',
        match remote_path_of(host_arg) {
            Some(path) => path.len() > 0 && host_arg == alias_of(host_arg) + seq![':'] + path,
            None => host_arg == alias_of(host_arg) || host_arg == alias_of(host_arg) + seq![':'],
        },
{
    lemma_run_len_marks(host_arg, ':');
    let alias = alias_of(host_arg);
    match remote_path_of(host_arg) {
        Some(path) => {
            assert(host_arg =~= alias + seq![':'] + path);
        },
        None => {
            if alias.len() < host_arg.len() {
                assert(host_arg =~= alias + seq![':']);
            } else {
                assert(host_arg =~= alias);
            }
        },
    }
}

/// The first entry of `hosts` that names `alias`.
pub open spec fn lookup(hosts: Seq<SshHostEntryView>, alias: Seq<char>) -> Option<
    SshHostEntryView,
>
    decreases hosts.len(),
{
    if hosts.len() == 0 {
        None
    } else if hosts[0].names(alias) {
        Some(hosts[0])
    } else {
        lookup(hosts.drop_first(), alias)
    }
}

/// The SFTP connection that `entry` describes for `host_arg`: the entry's host name, or
/// the alias where it has none; its port, or 22; its user; and the remote path that
/// `host_arg` carries.
pub open spec fn entry_params(
    host_arg: Seq<char>,
    entry: SshHostEntryView,
) -> FileTransferParamsView {
    FileTransferParamsView {
        protocol: FileTransferProtocol::Sftp,
        params: GenericProtocolParamsView {
            address: match entry.host_name {
                Some(name) => name,
                None => alias_of(host_arg),
            },
            port: match entry.port {
                Some(port) => port,
                None => DEFAULT_SSH_PORT,
            },
            username: entry.user,
            password: None,
        },
        remote_path: remote_path_of(host_arg),
        local_path: None,
    }
}

/// What `host_arg` resolves to against the entries `hosts`.
pub open spec fn ssh_host_params(host_arg: Seq<char>, hosts: Seq<SshHostEntryView>) -> Result<
    FileTransferParamsView,
    ResolveErrorView,
> {
    match lookup(hosts, alias_of(host_arg)) {
        Some(entry) => Ok(entry_params(host_arg, entry)),
        None => Err(ResolveErrorView::SshHostNotFound(alias_of(host_arg))),
    }
}

/// Splits `alias` or `alias:remote_path` at its first colon.
pub fn split_host_arg(host_arg: &str) -> (r: (String, Option<String>))
    ensures
        r.0@ == alias_of(host_arg@),
        r.1.deep_view() == remote_path_of(host_arg@),
{
    let len = host_arg.unicode_len();
    let colon = run_length(host_arg, ':');
    let alias = host_arg.substring_char(0, colon).to_string();
    let path = if colon < len && colon + 1 < len {
        Some(host_arg.substring_char(colon + 1, len).to_string())
    } else {
        None
    };
    (alias, path)
}

/// Skipping entries that do not name `alias` does not change what is found.
pub proof fn lemma_lookup_skip(hosts: Seq<SshHostEntryView>, alias: Seq<char>, n: int)
    requires
        0 <= n <= hosts.len(),
        forall|k: int| 0 <= k < n ==> !(#[trigger] hosts[k]).names(alias),
    ensures
        lookup(hosts, alias) == lookup(hosts.skip(n), alias),
    decreases n,
{
    if n == 0 {
        assert(hosts.skip(0) =~= hosts);
    } else {
        let rest = hosts.drop_first();
        assert forall|k: int| 0 <= k < n - 1 implies !(#[trigger] rest[k]).names(alias) by {
            assert(rest[k] == hosts[k + 1]);
        }
        lemma_lookup_skip(rest, alias, n - 1);
        assert(rest.skip(n - 1) =~= hosts.skip(n));
    }
}

/// What is found is the first entry that names the alias: it names it, and no entry
/// before it does. Nothing is found only where no entry names the alias.
pub proof fn law_lookup_is_first_match(hosts: Seq<SshHostEntryView>, alias: Seq<char>)
    ensures
        match lookup(hosts, alias) {
            Some(entry) => exists|at: int|
                {
                    &&& 0 <= at < hosts.len()
                    &&& #[trigger] hosts[at] == entry
                    &&& entry.names(alias)
                    &&& forall|before: int| 0 <= before < at ==> !hosts[before].names(alias)
                },
            None => forall|at: int| 0 <= at < hosts.len() ==> !hosts[at].names(alias),
        },
    decreases hosts.len(),
{
    if hosts.len() > 0 {
        if hosts[0].names(alias) {
            assert(hosts[0] == lookup(hosts, alias).unwrap());
        } else {
            let rest = hosts.drop_first();
            law_lookup_is_first_match(rest, alias);
            match lookup(rest, alias) {
                Some(entry) => {
                    let at = choose|at: int|
                        {
                            &&& 0 <= at < rest.len()
                            &&& #[trigger] rest[at] == entry
                            &&& entry.names(alias)
                            &&& forall|before: int| 0 <= before < at ==> !rest[before].names(alias)
                        };
                    assert(hosts[at + 1] == entry);
                    assert forall|before: int| 0 <= before < at + 1 implies !hosts[before].names(
                        alias,
                    ) by {
                        if before > 0 {
                            assert(rest[before - 1] == hosts[before]);
                        }
                    }
                },
                None => {
                    assert forall|at: int| 0 <= at < hosts.len() implies !hosts[at].names(alias) by {
                        if at > 0 {
                            assert(rest[at - 1] == hosts[at]);
                        }
                    }
                },
            }
        }
    }
}

impl SshHostEntry {
    /// Whether one of the entry's patterns is exactly `alias` and is not negated.
    pub fn names(&self, alias: &String) -> (r: bool)
        ensures
            r == self@.names(alias@),
    {
        let mut j: usize = 0;
        while j < self.patterns.len()
            invariant
                j <= self.patterns.len(),
                forall|k: int|
                    0 <= k < j ==> (#[trigger] self@.patterns[k]).negated
                        || self@.patterns[k].text != alias@,
            decreases self.patterns.len() - j,
        {
            let pattern = &self.patterns[j];
            assert(pattern@ == self@.patterns[j as int]);
            if !pattern.negated && pattern.text == *alias {
                return true;
            }
            j += 1;
        }
        false
    }
}

/// The place in `hosts` of the first entry that names `alias`.
pub fn find_host(hosts: &Vec<SshHostEntry>, alias: &String) -> (r: Option<usize>)
    ensures
        match r {
            Some(at) => at < hosts.len() && lookup(hosts.deep_view(), alias@) == Some(
                hosts[at as int]@,
            ),
            None => lookup(hosts.deep_view(), alias@) is None,
        },
{
    let mut at: usize = 0;
    while at < hosts.len()
        invariant
            at <= hosts.len(),
            forall|k: int| 0 <= k < at ==> !(#[trigger] hosts.deep_view()[k]).names(alias@),
        decreases hosts.len() - at,
    {
        assert(hosts.deep_view()[at as int] == hosts[at as int]@);
        if hosts[at].names(alias) {
            proof {
                lemma_lookup_skip(hosts.deep_view(), alias@, at as int);
            }
            return Some(at);
        }
        at += 1;
    }
    proof {
        lemma_lookup_skip(hosts.deep_view(), alias@, at as int);
    }
    None
}

impl RemoteArgs {
    /// Resolves the alias token `host_arg`, `alias` or `alias:remote_path`, against the
    /// entries `hosts` of the SSH client configuration.
    ///
    /// The first entry with a pattern that is exactly the alias, and not negated, gives
    /// an SFTP connection: to its host name (to the alias where it has none), on its
    /// port (22 where it has none), as its user. The remote path of `host_arg`, if it has
    /// one, becomes the directory to enter. Without such an entry the alias is reported
    /// as not found.
    pub fn parse_ssh_host(host_arg: &str, hosts: &Vec<SshHostEntry>) -> (r: Result<
        FileTransferParams,
        ResolveError,
    >)
        ensures
            outcome_view(r) == ssh_host_params(host_arg@, hosts.deep_view()),
    {
        let (alias, remote_path) = split_host_arg(host_arg);
        match find_host(hosts, &alias) {
            Some(at) => {
                let entry = &hosts[at];
                let address = match &entry.host_name {
                    Some(name) => name.clone(),
                    None => alias,
                };
                let port = match entry.port {
                    Some(port) => port,
                    None => DEFAULT_SSH_PORT,
                };
                let params = FileTransferParams::new(
                    FileTransferProtocol::Sftp,
                    GenericProtocolParams::default().address(address).port(port).username(
                        cloned(&entry.user),
                    ),
                ).remote_path(remote_path);
                Ok(params)
            },
            None => Err(ResolveError::SshHostNotFound(alias)),
        }
    }
}

/// `ssh2_config::SshParserError`: why a configuration could not be parsed. The type is
/// declared only to be carried from the parser to [`parser_error_text`]; nothing is
/// claimed of what it holds.
#[verifier::external_type_specification]
#[verifier::external_body]
pub struct ExSshParserError(ssh2_config::SshParserError);

/// Calls `ssh2_config::SshConfig::parse` on a default `SshConfig` and the bytes of
/// `config`, with `ParseRule::ALLOW_UNKNOWN_FIELDS`, and copies out of each host of
/// `SshConfig::get_hosts` its patterns, host name, port and user, in the order of that
/// list.
///
/// `Include` directives make the parser read further files, so the entries depend on
/// more than `config`. The contract claims of them only what holds whatever is read:
/// the parser starts every configuration with a host of the one pattern `*`, not
/// negated, for the options before the first `Host` line; every other host follows it.
#[verifier::external_body]
fn parse_config(config: &str) -> (r: Result<Vec<SshHostEntry>, ssh2_config::SshParserError>)
    ensures
        r matches Ok(hosts) ==> begins_with_defaults(hosts.deep_view()),
{
    let rules = ssh2_config::ParseRule::ALLOW_UNKNOWN_FIELDS;
    let parsed = ssh2_config::SshConfig::default().parse(&mut config.as_bytes(), rules)?;
    Ok(parsed.get_hosts().iter().map(|host| SshHostEntry {
        patterns: host.pattern.iter().map(|clause| HostPattern {
            text: clause.pattern.clone(),
            negated: clause.negated,
        }).collect(),
        host_name: host.params.host_name.clone(),
        port: host.params.port,
        user: host.params.user.clone(),
    }).collect())
}

/// Reads the host entries out of `config`, the text of an SSH client configuration, in
/// the order of the configuration; on failure, says why.
///
/// What the entries are is for the configuration parser to say: a configuration may
/// include further files, so they follow from more than `config`. Whatever it holds,
/// the entries begin with the one for the options before any `Host` line, whose pattern
/// is `*`; the entries of the `Host` lines follow.
pub fn read_hosts(config: &str) -> (r: Result<Vec<SshHostEntry>, String>)
    ensures
        r matches Ok(hosts) ==> begins_with_defaults(hosts.deep_view()),
{
    match parse_config(config) {
        Ok(hosts) => Ok(hosts),
        Err(error) => Err(parser_error_text(&error)),
    }
}

/// Formats an `ssh2_config::SshParserError` with its `Display` impl. The contract claims
/// nothing of the text.
#[verifier::external_body]
fn parser_error_text(error: &ssh2_config::SshParserError) -> (r: String) {
    format!("{error}")
}

/// Whether `hosts` begin with the entry for the options that stand before any `Host`
/// line of a configuration: the entry whose one pattern is `*`.
pub open spec fn begins_with_defaults(hosts: Seq<SshHostEntryView>) -> bool {
    hosts.len() >= 1 && hosts[0].patterns == seq![
        HostPatternView { text: seq!['*'], negated: false },
    ]
}

/// The entry for the options before any `Host` line is found under the alias `*`.
pub proof fn law_defaults_are_found_by_star(hosts: Seq<SshHostEntryView>)
    requires
        begins_with_defaults(hosts),
    ensures
        lookup(hosts, seq!['*']) == Some(hosts[0]),
{
    assert(!hosts[0].patterns[0].negated && hosts[0].patterns[0].text == seq!['*']);
}

} // verus!
