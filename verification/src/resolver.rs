//! The resolver: from the tokens of a command line to a connection plan.
//!
//! Resolving needs three things that only the surroundings can give: whether the last
//! token names an existing filesystem entry, what an address string parses to, and the
//! host entries of the user's SSH client configuration. The resolver does none of that
//! itself. It is a state machine: [`Resolver::request`] says what it needs next,
//! [`Resolver::supply`] takes the answer, and once nothing is asked any more
//! [`Resolver::finish`] gives the plan or the failure.
//! [`RemoteArgs::resolve`](crate::remote::RemoteArgs::resolve) runs it to its end for
//! those who can answer at once.

use vstd::prelude::*;
use crate::args::{AddrType, Args, ArgsView, RawHostArg, RawHostArgView, MAX_HOST_ARGS};
use crate::error::{outcome_view, ResolveError, ResolveErrorView};
use crate::outcome::{
    law_nothing_asked_is_the_end, law_orderly_stays_orderly, lemma_initial_is_orderly,
};
use crate::params::{FileTransferParams, FileTransferParamsView};
use crate::remote::{
    BookmarkParams, BookmarkParamsView, HostParams, HostParamsView, Remote, RemoteArgs,
    RemoteArgsView, RemoteView,
};
use crate::ssh::{ssh_host_params, SshHostEntry, SshHostEntryView};

verus! {

/// What the resolver needs to know next.
#[derive(Clone, Debug, PartialEq, Eq)]
pub enum Request {
    /// Whether the text names an existing filesystem entry.
    PathExists(String),
    /// What the text parses to as a remote address.
    ParseAddress(String),
    /// The host entries of the user's SSH client configuration.
    SshConfig,
}

/// Mathematical value of [`Request`].
pub enum RequestView {
    PathExists(Seq<char>),
    ParseAddress(Seq<char>),
    SshConfig,
}

impl View for Request {
    type V = RequestView;

    open spec fn view(&self) -> RequestView {
        match self {
            Request::PathExists(path) => RequestView::PathExists(path@),
            Request::ParseAddress(text) => RequestView::ParseAddress(text@),
            Request::SshConfig => RequestView::SshConfig,
        }
    }
}

impl DeepView for Request {
    type V = RequestView;

    open spec fn deep_view(&self) -> RequestView {
        self@
    }
}

/// An answer to a [`Request`].
#[derive(Debug, PartialEq, Eq)]
pub enum Reply {
    /// Answers [`Request::PathExists`].
    PathExists(bool),
    /// Answers [`Request::ParseAddress`]: the connection parameters, or the parser's
    /// explanation of what is wrong with the address.
    Address(Result<FileTransferParams, String>),
    /// Answers [`Request::SshConfig`]: the host entries in the order of the
    /// configuration, or why it could not be read.
    SshConfig(Result<Vec<SshHostEntry>, String>),
}

/// Mathematical value of [`Reply`].
pub enum ReplyView {
    PathExists(bool),
    Address(Result<FileTransferParamsView, Seq<char>>),
    SshConfig(Result<Seq<SshHostEntryView>, Seq<char>>),
}

impl View for Reply {
    type V = ReplyView;

    open spec fn view(&self) -> ReplyView {
        match self {
            Reply::PathExists(exists) => ReplyView::PathExists(*exists),
            Reply::Address(Ok(params)) => ReplyView::Address(Ok(params@)),
            Reply::Address(Err(detail)) => ReplyView::Address(Err(detail@)),
            Reply::SshConfig(Ok(hosts)) => ReplyView::SshConfig(Ok(hosts.deep_view())),
            Reply::SshConfig(Err(detail)) => ReplyView::SshConfig(Err(detail@)),
        }
    }
}

/// The remote that a bookmark token stands for.
pub open spec fn bookmark_remote(arg: RawHostArgView) -> RemoteView {
    RemoteView::Bookmark(BookmarkParamsView { name: arg.text, password: arg.password })
}

/// The remote that a token stands for once its connection parameters are known.
pub open spec fn host_remote(arg: RawHostArgView, params: FileTransferParamsView) -> RemoteView {
    RemoteView::Host(HostParamsView { file_transfer_params: params, password: arg.password })
}

/// The plan for the remotes `hosts`, in the order in which they were resolved.
///
/// One remote is the target. Of two, the first is the target and the second the bridge.
/// Any other number gives a plan without remotes.
pub open spec fn assign_roles(
    hosts: Seq<RemoteView>,
    local_dir: Option<Seq<char>>,
) -> RemoteArgsView {
    if hosts.len() == 1 {
        RemoteArgsView { host_bridge: RemoteView::Unspecified, remote: hosts[0], local_dir }
    } else if hosts.len() == 2 {
        RemoteArgsView { host_bridge: hosts[1], remote: hosts[0], local_dir }
    } else {
        RemoteArgsView {
            host_bridge: RemoteView::Unspecified,
            remote: RemoteView::Unspecified,
            local_dir,
        }
    }
}

/// Mathematical value of a [`Resolver`].
pub struct ResolverView {
    /// The tokens not yet dealt with, the next one first.
    pub pending: Seq<RawHostArgView>,
    /// Whether the last token has been found not to name a filesystem entry.
    pub path_checked: bool,
    /// The remotes resolved so far, in the order of their tokens.
    pub hosts: Seq<RemoteView>,
    pub local_dir: Option<Seq<char>>,
    pub failure: Option<ResolveErrorView>,
}

impl ArgsView {
    /// Number of bookmarks at the front that can be resolved at once: all of them, but
    /// for one that stands last of all tokens and may yet name the local directory.
    pub open spec fn leading_bookmarks(self) -> nat {
        if self.bookmark.len() > 0 && self.bookmark.len() == self.total() {
            (self.bookmark.len() - 1) as nat
        } else {
            self.bookmark.len()
        }
    }
}

impl ResolverView {
    /// Where resolving `args` starts: the leading bookmarks are resolved, every other
    /// token is pending.
    pub open spec fn initial(args: ArgsView) -> ResolverView {
        let tokens = args.host_args();
        let lead = args.leading_bookmarks() as int;
        ResolverView {
            pending: tokens.skip(lead),
            path_checked: false,
            hosts: Seq::new(lead as nat, |i: int| bookmark_remote(tokens[i])),
            local_dir: None,
            failure: None,
        }
    }

    /// What holds of every state that a resolution passes through: no pending token
    /// but the last is marked as last, and a pending bookmark is the last token, not
    /// yet looked up in the filesystem.
    pub open spec fn orderly(self) -> bool {
        &&& forall|i: int|
            0 <= i < self.pending.len() - 1 ==> !(#[trigger] self.pending[i]).is_last
        &&& forall|i: int|
            0 <= i < self.pending.len() && (#[trigger] self.pending[i]).kind is Bookmark
                ==> self.pending[i].is_last && !self.path_checked
    }

    /// Whether the next token still has to be looked up in the filesystem.
    pub open spec fn checking(self) -> bool {
        self.pending.len() > 0 && self.pending[0].is_last && !self.path_checked
    }

    /// What is needed next; `None` once the resolution has failed or no token is left.
    pub open spec fn request(self) -> Option<RequestView> {
        if self.failure is Some || self.pending.len() == 0 {
            None
        } else if self.checking() {
            Some(RequestView::PathExists(self.pending[0].text))
        } else {
            match self.pending[0].kind {
                AddrType::Address => Some(RequestView::ParseAddress(self.pending[0].text)),
                AddrType::SshHost => Some(RequestView::SshConfig),
                AddrType::Bookmark => None,
            }
        }
    }

    /// Whether `reply` answers what is asked.
    pub open spec fn accepts(self, reply: ReplyView) -> bool {
        match (self.request(), reply) {
            (Some(RequestView::PathExists(_)), ReplyView::PathExists(_)) => true,
            (Some(RequestView::ParseAddress(_)), ReplyView::Address(_)) => true,
            (Some(RequestView::SshConfig), ReplyView::SshConfig(_)) => true,
            _ => false,
        }
    }

    /// The state after the next token was resolved to `remote`.
    pub open spec fn resolved(self, remote: RemoteView) -> ResolverView {
        ResolverView {
            pending: self.pending.drop_first(),
            hosts: self.hosts.push(remote),
            ..self
        }
    }

    /// The state after the resolution failed with `error`.
    pub open spec fn failed(self, error: ResolveErrorView) -> ResolverView {
        ResolverView { failure: Some(error), ..self }
    }

    /// The state after `reply`. A reply that does not answer what is asked changes
    /// nothing.
    ///
    /// - A last token that names a filesystem entry becomes the local directory and is
    ///   not resolved. One that does not is resolved like any other token; a bookmark at
    ///   once.
    /// - An address that parsed becomes a host; one that did not fails the resolution.
    /// - An SSH host alias is looked up in the entries that were read; the resolution
    ///   fails where they could not be read or none matches.
    pub open spec fn step(self, reply: ReplyView) -> ResolverView {
        if !self.accepts(reply) {
            self
        } else {
            let arg = self.pending[0];
            match reply {
                ReplyView::PathExists(true) => ResolverView {
                    pending: self.pending.drop_first(),
                    local_dir: Some(arg.text),
                    ..self
                },
                ReplyView::PathExists(false) => {
                    let checked = ResolverView { path_checked: true, ..self };
                    if arg.kind is Bookmark {
                        checked.resolved(bookmark_remote(arg))
                    } else {
                        checked
                    }
                },
                ReplyView::Address(Ok(params)) => self.resolved(host_remote(arg, params)),
                ReplyView::Address(Err(detail)) => self.failed(
                    ResolveErrorView::BadAddress(detail),
                ),
                ReplyView::SshConfig(Ok(hosts)) => match ssh_host_params(arg.text, hosts) {
                    Ok(params) => self.resolved(host_remote(arg, params)),
                    Err(error) => self.failed(error),
                },
                ReplyView::SshConfig(Err(detail)) => self.failed(
                    ResolveErrorView::SshConfigUnreadable(detail),
                ),
            }
        }
    }

    /// How the resolution ended: the failure, or the plan once no token is pending.
    /// `None` while tokens are pending.
    pub open spec fn outcome(self) -> Option<Result<RemoteArgsView, ResolveErrorView>> {
        match self.failure {
            Some(error) => Some(Err(error)),
            None => if self.pending.len() == 0 {
                Some(Ok(assign_roles(self.hosts, self.local_dir)))
            } else {
                None
            },
        }
    }
}

impl RemoteArgs {
    /// Turns the answer of the address parser into connection parameters, or into the
    /// failure that carries the parser's explanation.
    pub fn parse_remote_address(parsed: Result<FileTransferParams, String>) -> (r: Result<
        FileTransferParams,
        ResolveError,
    >)
        ensures
            match parsed {
                Ok(params) => outcome_view(r) == Ok::<FileTransferParamsView, ResolveErrorView>(
                    params@,
                ),
                Err(detail) => outcome_view(r) == Err::<FileTransferParamsView, ResolveErrorView>(
                    ResolveErrorView::BadAddress(detail@),
                ),
            },
    {
        match parsed {
            Ok(params) => Ok(params),
            Err(detail) => Err(ResolveError::BadAddress(detail)),
        }
    }

    /// The plan for the remotes `hosts`, in the order in which they were resolved: one
    /// remote is the target; of two, the first is the target and the second the bridge;
    /// any other number gives a plan without remotes.
    pub fn with_roles(hosts: Vec<Remote>, local_dir: Option<String>) -> (r: RemoteArgs)
        ensures
            r@ == assign_roles(hosts.deep_view(), local_dir.deep_view()),
    {
        let mut hosts = hosts;
        let ghost all = hosts.deep_view();
        let mut plan = RemoteArgs {
            host_bridge: Remote::Unspecified,
            remote: Remote::Unspecified,
            local_dir,
        };
        if hosts.len() == 2 {
            assert(hosts[1]@ == all[1] && hosts[0]@ == all[0]);
            match hosts.pop() {
                Some(bridge) => {
                    plan.host_bridge = bridge;
                },
                None => {},
            }
            match hosts.pop() {
                Some(target) => {
                    plan.remote = target;
                },
                None => {},
            }
        } else if hosts.len() == 1 {
            assert(hosts[0]@ == all[0]);
            match hosts.pop() {
                Some(target) => {
                    plan.remote = target;
                },
                None => {},
            }
        }
        plan
    }
}

/// A resolution in progress.
///
/// A resolver starts in an orderly state and stays in one, whatever it is supplied
/// with; and in an orderly state it asks for something until it has come to its end.
#[derive(Debug)]
pub struct Resolver {
    pending: Vec<RawHostArg>,
    path_checked: bool,
    hosts: Vec<Remote>,
    local_dir: Option<String>,
    failure: Option<ResolveError>,
}

impl View for Resolver {
    type V = ResolverView;

    closed spec fn view(&self) -> ResolverView {
        ResolverView {
            pending: self.pending.deep_view(),
            path_checked: self.path_checked,
            hosts: self.hosts.deep_view(),
            local_dir: self.local_dir.deep_view(),
            failure: match self.failure {
                Some(error) => Some(error@),
                None => None,
            },
        }
    }
}

impl Resolver {
    /// Starts resolving `args`. More than three tokens, the three collections taken
    /// together, are refused at once, before anything is asked.
    pub fn new(args: &Args) -> (r: Result<Resolver, ResolveError>)
        ensures
            match r {
                Ok(resolver) => args@.total() <= MAX_HOST_ARGS && resolver@
                    == ResolverView::initial(args@) && resolver@.orderly(),
                Err(error) => args@.total() > MAX_HOST_ARGS && error@
                    == ResolveErrorView::TooManyArguments,
            },
    {
        assert(args@.bookmark.len() == args.bookmark.len());
        assert(args@.ssh_host.len() == args.ssh_host.len());
        assert(args@.positional.len() == args.positional.len());
        if args.bookmark.len() > MAX_HOST_ARGS || args.ssh_host.len() > MAX_HOST_ARGS
            || args.positional.len() > MAX_HOST_ARGS {
            return Err(ResolveError::TooManyArguments);
        }
        let total = args.bookmark.len() + args.ssh_host.len() + args.positional.len();
        if total > MAX_HOST_ARGS {
            return Err(ResolveError::TooManyArguments);
        }
        let ghost tokens = args@.host_args();
        let ghost lead = args@.leading_bookmarks();
        let ghost begin = ResolverView::initial(args@);
        let mut pending = args.host_args();
        let mut hosts: Vec<Remote> = Vec::new();
        assert(pending.deep_view() =~= tokens.skip(0));
        assert(hosts.deep_view() =~= begin.hosts.take(0));
        loop
            invariant
                tokens == args@.host_args(),
                lead == args@.leading_bookmarks(),
                begin == ResolverView::initial(args@),
                hosts.len() <= lead,
                pending.deep_view() == tokens.skip(hosts.len() as int),
                hosts.deep_view() == begin.hosts.take(hosts.len() as int),
            ensures
                hosts.len() == lead,
                pending.deep_view() == tokens.skip(hosts.len() as int),
                hosts.deep_view() == begin.hosts.take(hosts.len() as int),
            decreases lead - hosts.len(),
        {
            let ghost done = hosts.len() as int;
            assert(pending.deep_view().len() == pending.len());
            assert(hosts.deep_view().len() == hosts.len());
            if pending.len() == 0 {
                break;
            }
            assert(pending[0]@ == pending.deep_view()[0]);
            assert(pending.deep_view()[0] == tokens[done]);
            if !matches!(pending[0].kind, AddrType::Bookmark) || pending[0].is_last {
                break;
            }
            let ghost before = pending.deep_view();
            let ghost resolved = hosts.deep_view();
            let arg = pending.remove(0);
            assert(arg@ == tokens[done]);
            assert(pending.deep_view() =~= before.drop_first());
            assert(before.drop_first() =~= tokens.skip(done + 1));
            let remote = Remote::Bookmark(
                BookmarkParams { name: arg.text, password: arg.password },
            );
            assert(remote@ == bookmark_remote(tokens[done]));
            hosts.push(remote);
            assert(hosts.deep_view() =~= resolved.push(remote@));
            assert(begin.hosts.take(done + 1) =~= begin.hosts.take(done).push(begin.hosts[done]));
        }
        assert(begin.hosts.take(lead as int) =~= begin.hosts);
        proof {
            lemma_initial_is_orderly(args@);
        }
        Ok(Resolver { pending, path_checked: false, hosts, local_dir: None, failure: None })
    }

    /// What is needed next. `None` once the resolution has failed or no token is left.
    pub fn request(&self) -> (r: Option<Request>)
        ensures
            r.deep_view() == self@.request(),
    {
        if self.failure.is_some() || self.pending.len() == 0 {
            assert(self.pending.deep_view().len() == self.pending.len());
            return None;
        }
        let arg = &self.pending[0];
        assert(arg@ == self@.pending[0]);
        if arg.is_last && !self.path_checked {
            Some(Request::PathExists(arg.text.clone()))
        } else {
            match arg.kind {
                AddrType::Address => Some(Request::ParseAddress(arg.text.clone())),
                AddrType::SshHost => Some(Request::SshConfig),
                AddrType::Bookmark => None,
            }
        }
    }

    /// Takes `reply` as the answer to what is asked, and says whether it was one. A
    /// reply that answers nothing that is asked changes nothing.
    pub fn supply(&mut self, reply: Reply) -> (accepted: bool)
        ensures
            accepted == old(self)@.accepts(reply@),
            final(self)@ == old(self)@.step(reply@),
            old(self)@.orderly() ==> final(self)@.orderly(),
    {
        proof {
            if self@.orderly() {
                law_orderly_stays_orderly(self@, reply@);
            }
        }
        assert(self.pending.deep_view().len() == self.pending.len());
        if self.failure.is_some() || self.pending.len() == 0 {
            return false;
        }
        let ghost before = self@;
        assert(self.pending[0]@ == before.pending[0]);
        let checking = self.pending[0].is_last && !self.path_checked;
        match reply {
            Reply::PathExists(exists) => {
                if !checking {
                    return false;
                }
                if exists {
                    let arg = self.pending.remove(0);
                    assert(self.pending.deep_view() =~= before.pending.drop_first());
                    self.local_dir = Some(arg.text);
                } else {
                    self.path_checked = true;
                    if matches!(self.pending[0].kind, AddrType::Bookmark) {
                        let arg = self.pending.remove(0);
                        assert(self.pending.deep_view() =~= before.pending.drop_first());
                        self.resolved(
                            Remote::Bookmark(
                                BookmarkParams { name: arg.text, password: arg.password },
                            ),
                        );
                    }
                }
                true
            },
            Reply::Address(parsed) => {
                if checking || !matches!(self.pending[0].kind, AddrType::Address) {
                    return false;
                }
                match RemoteArgs::parse_remote_address(parsed) {
                    Ok(params) => {
                        let arg = self.pending.remove(0);
                        assert(self.pending.deep_view() =~= before.pending.drop_first());
                        self.resolved(
                            Remote::Host(
                                HostParams { file_transfer_params: params, password: arg.password },
                            ),
                        );
                    },
                    Err(error) => {
                        self.failure = Some(error);
                    },
                }
                true
            },
            Reply::SshConfig(read) => {
                if checking || !matches!(self.pending[0].kind, AddrType::SshHost) {
                    return false;
                }
                match read {
                    Ok(entries) => {
                        match RemoteArgs::parse_ssh_host(self.pending[0].text.as_str(), &entries) {
                            Ok(params) => {
                                let arg = self.pending.remove(0);
                                assert(self.pending.deep_view() =~= before.pending.drop_first());
                                self.resolved(
                                    Remote::Host(
                                        HostParams {
                                            file_transfer_params: params,
                                            password: arg.password,
                                        },
                                    ),
                                );
                            },
                            Err(error) => {
                                self.failure = Some(error);
                            },
                        }
                    },
                    Err(detail) => {
                        self.failure = Some(ResolveError::SshConfigUnreadable(detail));
                    },
                }
                true
            },
        }
    }

    /// Adds `remote` to the remotes resolved so far.
    fn resolved(&mut self, remote: Remote)
        ensures
            final(self)@ == (ResolverView { hosts: old(self)@.hosts.push(remote@), ..old(self)@ }),
    {
        let ghost before = self.hosts.deep_view();
        self.hosts.push(remote);
        assert(self.hosts.deep_view() =~= before.push(remote@));
    }

    /// How the resolution ended: the failure, or the plan once no token is pending.
    /// `None` while tokens are pending.
    pub fn finish(self) -> (r: Option<Result<RemoteArgs, ResolveError>>)
        ensures
            match r {
                Some(outcome) => self@.outcome() == Some(outcome_view(outcome)),
                None => self@.outcome() is None,
            },
            self@.orderly() && self@.request() is None ==> r is Some,
    {
        proof {
            if self@.orderly() && self@.request() is None {
                law_nothing_asked_is_the_end(self@);
            }
        }
        assert(self.pending.deep_view().len() == self.pending.len());
        match self.failure {
            Some(error) => Some(Err(error)),
            None => {
                if self.pending.len() == 0 {
                    Some(Ok(RemoteArgs::with_roles(self.hosts, self.local_dir)))
                } else {
                    None
                }
            },
        }
    }
}

} // verus!
