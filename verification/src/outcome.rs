//! What a resolution comes to, stated without the machine, and the laws that hold of it.
//!
//! An [`Environment`] stands for the surroundings: it knows which paths exist, what each
//! address parses to and what the SSH client configuration holds.
//! [`resolution`] is the plan, or the failure, that a command line comes to in an
//! environment. [`law_run_is_resolution`] shows that a [`Resolver`](crate::resolver::Resolver)
//! that is given the environment's answers ends with exactly that, and
//! [`RemoteArgs::resolve`] is the resolver run to its end.

use vstd::prelude::*;
use crate::args::{AddrType, Args, ArgsView, RawHostArgView, MAX_HOST_ARGS};
use crate::error::{outcome_view, ResolveError, ResolveErrorView};
use crate::params::{FileTransferParams, FileTransferParamsView};
use crate::remote::{RemoteArgs, RemoteArgsView, RemoteView};
use crate::resolver::{
    assign_roles, bookmark_remote, host_remote, Reply, ReplyView, Request, RequestView, Resolver,
    ResolverView,
};
use crate::ssh::{ssh_host_params, SshHostEntry, SshHostEntryView};

verus! {

/// The surroundings of a resolution.
pub struct Environment {
    /// Whether a text names an existing filesystem entry.
    pub exists: spec_fn(Seq<char>) -> bool,
    /// What a text parses to as a remote address.
    pub address: spec_fn(Seq<char>) -> Result<FileTransferParamsView, Seq<char>>,
    /// The host entries of the SSH client configuration, or why it cannot be read.
    pub ssh_config: Result<Seq<SshHostEntryView>, Seq<char>>,
}

impl Environment {
    /// The answer to `request`.
    pub open spec fn reply(self, request: RequestView) -> ReplyView {
        match request {
            RequestView::PathExists(path) => ReplyView::PathExists((self.exists)(path)),
            RequestView::ParseAddress(text) => ReplyView::Address((self.address)(text)),
            RequestView::SshConfig => ReplyView::SshConfig(self.ssh_config),
        }
    }

    /// What one token resolves to.
    pub open spec fn resolve(self, arg: RawHostArgView) -> Result<RemoteView, ResolveErrorView> {
        match arg.kind {
            AddrType::Bookmark => Ok(bookmark_remote(arg)),
            AddrType::Address => match (self.address)(arg.text) {
                Ok(params) => Ok(host_remote(arg, params)),
                Err(detail) => Err(ResolveErrorView::BadAddress(detail)),
            },
            AddrType::SshHost => match self.ssh_config {
                Ok(hosts) => match ssh_host_params(arg.text, hosts) {
                    Ok(params) => Ok(host_remote(arg, params)),
                    Err(error) => Err(error),
                },
                Err(detail) => Err(ResolveErrorView::SshConfigUnreadable(detail)),
            },
        }
    }

    /// What the tokens `args` resolve to, one after the other: the remotes in the
    /// order of their tokens, or the failure of the first token that fails.
    pub open spec fn resolve_all(self, args: Seq<RawHostArgView>) -> Result<
        Seq<RemoteView>,
        ResolveErrorView,
    >
        decreases args.len(),
    {
        if args.len() == 0 {
            Ok(Seq::empty())
        } else {
            match self.resolve(args[0]) {
                Ok(remote) => match self.resolve_all(args.drop_first()) {
                    Ok(rest) => Ok(seq![remote] + rest),
                    Err(error) => Err(error),
                },
                Err(error) => Err(error),
            }
        }
    }
}

/// The plan for the remotes that `resolved` holds, if it holds any.
pub open spec fn plan(
    resolved: Result<Seq<RemoteView>, ResolveErrorView>,
    local_dir: Option<Seq<char>>,
) -> Result<RemoteArgsView, ResolveErrorView> {
    match resolved {
        Ok(hosts) => Ok(assign_roles(hosts, local_dir)),
        Err(error) => Err(error),
    }
}

/// What the command line `args` comes to in the environment `env`.
///
/// More than three tokens are too many. Otherwise, a last token that names an existing
/// filesystem entry is the local directory, whatever it was given as, and the tokens
/// before it are resolved; else all tokens are resolved and there is no local
/// directory. The remotes that come of it get their roles by their number.
pub open spec fn resolution(args: ArgsView, env: Environment) -> Result<
    RemoteArgsView,
    ResolveErrorView,
> {
    let tokens = args.host_args();
    if tokens.len() > MAX_HOST_ARGS {
        Err(ResolveErrorView::TooManyArguments)
    } else if tokens.len() > 0 && (env.exists)(tokens.last().text) {
        plan(env.resolve_all(tokens.drop_last()), Some(tokens.last().text))
    } else {
        plan(env.resolve_all(tokens), None)
    }
}

/// The state that `state` has come to after at most `rounds` requests, each answered by
/// `env`.
pub open spec fn run(state: ResolverView, env: Environment, rounds: nat) -> ResolverView
    decreases rounds,
{
    if rounds == 0 {
        state
    } else {
        match state.request() {
            Some(request) => run(state.step(env.reply(request)), env, (rounds - 1) as nat),
            None => state,
        }
    }
}

/// The remotes `hosts` followed by those that `resolved` holds, if it holds any.
pub open spec fn followed_by(
    hosts: Seq<RemoteView>,
    resolved: Result<Seq<RemoteView>, ResolveErrorView>,
) -> Result<Seq<RemoteView>, ResolveErrorView> {
    match resolved {
        Ok(more) => Ok(hosts + more),
        Err(error) => Err(error),
    }
}

impl ResolverView {
    /// Most requests that are still to come.
    pub open spec fn rounds_left(self) -> nat {
        if self.failure is Some {
            0
        } else if self.pending.len() > 0 && self.pending.last().is_last && !self.path_checked {
            self.pending.len() + 1
        } else {
            self.pending.len()
        }
    }

    /// What the resolution comes to from this state on, in the environment `env`.
    pub open spec fn completion(self, env: Environment) -> Result<
        RemoteArgsView,
        ResolveErrorView,
    > {
        match self.failure {
            Some(error) => Err(error),
            None => if self.pending.len() > 0 && self.pending.last().is_last
                && !self.path_checked && (env.exists)(self.pending.last().text) {
                plan(
                    followed_by(self.hosts, env.resolve_all(self.pending.drop_last())),
                    Some(self.pending.last().text),
                )
            } else {
                plan(followed_by(self.hosts, env.resolve_all(self.pending)), self.local_dir)
            },
        }
    }
}

/// An answered request brings an orderly state to an orderly state that comes to the
/// same end, with fewer requests to come.
pub proof fn lemma_step(state: ResolverView, env: Environment)
    requires
        state.orderly(),
        state.request() is Some,
    ensures
        state.step(env.reply(state.request().unwrap())).orderly(),
        state.step(env.reply(state.request().unwrap())).completion(env) == state.completion(
            env,
        ),
        state.step(env.reply(state.request().unwrap())).rounds_left() < state.rounds_left(),
{
    let reply = env.reply(state.request().unwrap());
    let next = state.step(reply);
    let arg = state.pending[0];
    let rest = state.pending.drop_first();
    assert(state.accepts(reply));
    assert forall|i: int| 0 <= i < rest.len() implies rest[i] == state.pending[i + 1] by {}
    if state.checking() {
        assert(state.pending.len() == 1) by {
            if state.pending.len() > 1 {
                assert(!state.pending[0].is_last);
            }
        }
        assert(state.pending.last() == arg);
        assert(state.pending.drop_last() =~= Seq::<RawHostArgView>::empty());
        assert(rest =~= Seq::<RawHostArgView>::empty());
        assert(state.pending =~= seq![arg]);
        assert(env.resolve_all(rest) == Ok::<Seq<RemoteView>, ResolveErrorView>(Seq::empty()));
        if (env.exists)(arg.text) {
            assert(state.hosts + Seq::<RemoteView>::empty() =~= state.hosts);
        } else if arg.kind is Bookmark {
            assert(seq![bookmark_remote(arg)] + Seq::<RemoteView>::empty() =~= seq![
                bookmark_remote(arg),
            ]);
            assert(state.hosts + seq![bookmark_remote(arg)] =~= state.hosts.push(
                bookmark_remote(arg),
            ));
            assert(next.hosts + Seq::<RemoteView>::empty() =~= next.hosts);
        } else {
        }
    } else {
        assert(!(arg.kind is Bookmark));
        match env.resolve(arg) {
            Ok(remote) => {
                assert(next == state.resolved(remote));
                assert forall|i: int| 0 <= i < rest.len() - 1 implies !(#[trigger] rest[i]).is_last by {
                    assert(rest[i] == state.pending[i + 1]);
                }
                assert forall|i: int|
                    0 <= i < rest.len() && (#[trigger] rest[i]).kind is Bookmark implies rest[i].is_last
                    && !next.path_checked by {
                    assert(rest[i] == state.pending[i + 1]);
                }
                if state.pending.len() == 1 {
                    assert(state.pending.last() == arg);
                    assert(rest =~= Seq::<RawHostArgView>::empty());
                    assert(env.resolve_all(rest) == Ok::<Seq<RemoteView>, ResolveErrorView>(
                        Seq::empty(),
                    ));
                    assert(seq![remote] + Seq::<RemoteView>::empty() =~= seq![remote]);
                    assert(state.hosts + seq![remote] =~= state.hosts.push(remote));
                    assert(next.hosts + Seq::<RemoteView>::empty() =~= next.hosts);
                } else {
                    assert(rest.last() == state.pending.last());
                    let front = state.pending.drop_last();
                    assert(front[0] == arg);
                    assert(front.drop_first() =~= rest.drop_last());
                    assert forall|more: Seq<RemoteView>|
                        state.hosts + (seq![remote] + more) == #[trigger] (state.hosts.push(remote)
                            + more) by {
                        assert(state.hosts + (seq![remote] + more) =~= state.hosts.push(remote)
                            + more);
                    }
                }
            },
            Err(error) => {
                assert(next == state.failed(error));
                if state.pending.len() > 1 {
                    assert(state.pending.drop_last()[0] == arg);
                }
            },
        }
    }
}

/// An answer to what is asked brings an orderly state to an orderly state with fewer
/// requests to come.
pub proof fn lemma_supply(state: ResolverView, reply: ReplyView)
    requires
        state.orderly(),
        state.accepts(reply),
    ensures
        state.step(reply).orderly(),
        state.step(reply).rounds_left() < state.rounds_left(),
{
    let env = Environment {
        exists: |path: Seq<char>| reply == ReplyView::PathExists(true),
        address: |text: Seq<char>|
            match reply {
                ReplyView::Address(parsed) => parsed,
                _ => Err(Seq::empty()),
            },
        ssh_config: match reply {
            ReplyView::SshConfig(read) => read,
            _ => Err(Seq::empty()),
        },
    };
    assert(env.reply(state.request().unwrap()) == reply);
    lemma_step(state, env);
}

/// Whatever is supplied, an orderly state stays orderly.
pub proof fn law_orderly_stays_orderly(state: ResolverView, reply: ReplyView)
    requires
        state.orderly(),
    ensures
        state.step(reply).orderly(),
{
    if state.accepts(reply) {
        lemma_supply(state, reply);
    }
}

/// An orderly state that asks for nothing has come to its end.
pub proof fn law_nothing_asked_is_the_end(state: ResolverView)
    requires
        state.orderly(),
        state.request() is None,
    ensures
        state.outcome() is Some,
{
    if state.failure is None && state.pending.len() > 0 {
        assert(state.pending[0].kind is Bookmark);
    }
}

/// Given the answers of `env`, an orderly state comes to its completion within the
/// requests that are left to it.
pub proof fn lemma_run(state: ResolverView, env: Environment, rounds: nat)
    requires
        state.orderly(),
        rounds >= state.rounds_left(),
    ensures
        run(state, env, rounds).request() is None,
        run(state, env, rounds).outcome() == Some(state.completion(env)),
    decreases rounds,
{
    if state.request() is Some {
        lemma_step(state, env);
        lemma_run(state.step(env.reply(state.request().unwrap())), env, (rounds - 1) as nat);
    } else if state.failure is None {
        if state.pending.len() > 0 {
            assert(state.pending[0].kind is Bookmark);
        } else {
            assert(env.resolve_all(state.pending) == Ok::<Seq<RemoteView>, ResolveErrorView>(
                Seq::empty(),
            ));
            assert(state.hosts + Seq::<RemoteView>::empty() =~= state.hosts);
        }
    }
}

/// Bookmarks at the front of `tokens` resolve to themselves, whatever follows them.
pub proof fn lemma_bookmarks_first(env: Environment, tokens: Seq<RawHostArgView>, count: nat)
    requires
        count <= tokens.len(),
        forall|i: int| 0 <= i < count ==> (#[trigger] tokens[i]).kind is Bookmark,
    ensures
        env.resolve_all(tokens) == followed_by(
            Seq::new(count, |i: int| bookmark_remote(tokens[i])),
            env.resolve_all(tokens.skip(count as int)),
        ),
    decreases count,
{
    let bookmarks = Seq::new(count, |i: int| bookmark_remote(tokens[i]));
    if count == 0 {
        assert(tokens.skip(0) =~= tokens);
        match env.resolve_all(tokens) {
            Ok(more) => {
                assert(bookmarks + more =~= more);
            },
            Err(_) => {},
        }
    } else {
        let rest = tokens.drop_first();
        assert forall|i: int| 0 <= i < count - 1 implies (#[trigger] rest[i]).kind is Bookmark by {
            assert(rest[i] == tokens[i + 1]);
        }
        lemma_bookmarks_first(env, rest, (count - 1) as nat);
        assert(rest.skip(count - 1) =~= tokens.skip(count as int));
        let later = Seq::new((count - 1) as nat, |i: int| bookmark_remote(rest[i]));
        assert(tokens[0].kind is Bookmark);
        match env.resolve_all(tokens.skip(count as int)) {
            Ok(more) => {
                assert(seq![bookmark_remote(tokens[0])] + (later + more) =~= bookmarks + more);
            },
            Err(_) => {},
        }
    }
}

/// Resolving starts in an orderly state.
pub proof fn lemma_initial_is_orderly(args: ArgsView)
    ensures
        ResolverView::initial(args).orderly(),
{
}

/// Resolving starts in an orderly state that comes to the resolution of the command
/// line.
pub proof fn lemma_initial(args: ArgsView, env: Environment)
    requires
        args.total() <= MAX_HOST_ARGS,
    ensures
        ResolverView::initial(args).orderly(),
        ResolverView::initial(args).rounds_left() <= args.total() + 1,
        ResolverView::initial(args).completion(env) == resolution(args, env),
{
    let tokens = args.host_args();
    let lead = args.leading_bookmarks();
    let begin = ResolverView::initial(args);
    assert(begin.hosts =~= Seq::new(lead, |i: int| bookmark_remote(tokens[i])));
    if tokens.len() > 0 {
        assert(begin.pending.last() == tokens.last());
        if (env.exists)(tokens.last().text) {
            let front = tokens.drop_last();
            lemma_bookmarks_first(env, front, lead);
            assert(front.skip(lead as int) =~= begin.pending.drop_last());
            assert(Seq::new(lead, |i: int| bookmark_remote(front[i])) =~= begin.hosts);
        } else {
            lemma_bookmarks_first(env, tokens, lead);
        }
    } else {
        lemma_bookmarks_first(env, tokens, lead);
    }
}

/// A resolver that is given the answers of `env` asks at most once more than there
/// are tokens, and then ends with the resolution of the command line in `env`.
pub proof fn law_run_is_resolution(args: ArgsView, env: Environment, rounds: nat)
    requires
        args.total() <= MAX_HOST_ARGS,
        rounds > args.total(),
    ensures
        run(ResolverView::initial(args), env, rounds).request() is None,
        run(ResolverView::initial(args), env, rounds).outcome() == Some(resolution(args, env)),
{
    lemma_initial(args, env);
    lemma_run(ResolverView::initial(args), env, rounds);
}

/// No tokens resolve to no remotes.
pub proof fn lemma_resolve_none(env: Environment, tokens: Seq<RawHostArgView>)
    requires
        tokens.len() == 0,
    ensures
        env.resolve_all(tokens) == Ok::<Seq<RemoteView>, ResolveErrorView>(Seq::empty()),
{
}

/// One token resolves to one remote, or fails.
pub proof fn lemma_resolve_one(env: Environment, tokens: Seq<RawHostArgView>)
    requires
        tokens.len() == 1,
    ensures
        env.resolve_all(tokens) == match env.resolve(tokens[0]) {
            Ok(remote) => Ok(seq![remote]),
            Err(error) => Err(error),
        },
{
    lemma_resolve_none(env, tokens.drop_first());
    match env.resolve(tokens[0]) {
        Ok(remote) => {
            assert(seq![remote] + Seq::<RemoteView>::empty() =~= seq![remote]);
        },
        Err(_) => {},
    }
}

/// Two tokens resolve to two remotes in their order; the first to fail decides the
/// failure.
pub proof fn lemma_resolve_two(env: Environment, tokens: Seq<RawHostArgView>)
    requires
        tokens.len() == 2,
    ensures
        env.resolve_all(tokens) == match env.resolve(tokens[0]) {
            Ok(first) => match env.resolve(tokens[1]) {
                Ok(second) => Ok(seq![first, second]),
                Err(error) => Err(error),
            },
            Err(error) => Err(error),
        },
{
    let rest = tokens.drop_first();
    assert(rest[0] == tokens[1]);
    lemma_resolve_one(env, rest);
    match (env.resolve(tokens[0]), env.resolve(tokens[1])) {
        (Ok(first), Ok(second)) => {
            assert(seq![first] + seq![second] =~= seq![first, second]);
        },
        _ => {},
    }
}

/// Every token that resolves gives one remote, and none of them is unspecified.
pub proof fn lemma_resolved_remotes(env: Environment, tokens: Seq<RawHostArgView>)
    ensures
        match env.resolve_all(tokens) {
            Ok(hosts) => {
                &&& hosts.len() == tokens.len()
                &&& forall|i: int|
                    0 <= i < hosts.len() ==> env.resolve(tokens[i]) == Ok::<
                        RemoteView,
                        ResolveErrorView,
                    >(#[trigger] hosts[i])
                &&& forall|i: int| 0 <= i < hosts.len() ==> !(#[trigger] hosts[i] is Unspecified)
            },
            Err(error) => exists|i: int|
                0 <= i < tokens.len() && #[trigger] env.resolve(tokens[i]) == Err::<
                    RemoteView,
                    ResolveErrorView,
                >(error),
        },
    decreases tokens.len(),
{
    if tokens.len() > 0 {
        let rest = tokens.drop_first();
        lemma_resolved_remotes(env, rest);
        match env.resolve(tokens[0]) {
            Ok(remote) => {
                match env.resolve_all(rest) {
                    Ok(more) => {
                        let hosts = seq![remote] + more;
                        assert forall|i: int| 0 <= i < hosts.len() implies env.resolve(tokens[i])
                            == Ok::<RemoteView, ResolveErrorView>(#[trigger] hosts[i]) && !(
                        hosts[i] is Unspecified) by {
                            if i > 0 {
                                assert(hosts[i] == more[i - 1]);
                                assert(rest[i - 1] == tokens[i]);
                            }
                        }
                    },
                    Err(error) => {
                        let i = choose|i: int|
                            0 <= i < rest.len() && #[trigger] env.resolve(rest[i]) == Err::<
                                RemoteView,
                                ResolveErrorView,
                            >(error);
                        assert(rest[i] == tokens[i + 1]);
                        assert(env.resolve(tokens[i + 1]) == Err::<RemoteView, ResolveErrorView>(
                            error,
                        ));
                    },
                }
            },
            Err(error) => {
                assert(env.resolve(tokens[0]) == Err::<RemoteView, ResolveErrorView>(error));
            },
        }
    }
}

/// More than three tokens are refused, whatever they are and whatever the environment
/// holds.
pub proof fn law_too_many_arguments(args: ArgsView, env: Environment)
    requires
        args.total() > MAX_HOST_ARGS,
    ensures
        resolution(args, env) == Err::<RemoteArgsView, ResolveErrorView>(
            ResolveErrorView::TooManyArguments,
        ),
{
}

/// A plan never has a bridge without a target.
pub proof fn law_plan_is_valid(args: ArgsView, env: Environment)
    ensures
        resolution(args, env) matches Ok(plan) ==> plan.valid(),
{
    let tokens = args.host_args();
    lemma_resolved_remotes(env, tokens);
    if tokens.len() > 0 {
        lemma_resolved_remotes(env, tokens.drop_last());
    }
}

/// The filesystem is asked about the last token only: two environments that agree on
/// it, and on addresses and the SSH client configuration, give the same resolution.
pub proof fn law_only_last_token_may_be_local_dir(
    args: ArgsView,
    env: Environment,
    other: Environment,
)
    requires
        env.address == other.address,
        env.ssh_config == other.ssh_config,
        args.total() > 0 ==> (env.exists)(args.host_args().last().text) == (other.exists)(
            args.host_args().last().text,
        ),
    ensures
        resolution(args, env) == resolution(args, other),
{
    let tokens = args.host_args();
    lemma_same_resolve_all(env, other, tokens);
    if tokens.len() > 0 {
        lemma_same_resolve_all(env, other, tokens.drop_last());
    }
}

/// Tokens resolve alike in environments with the same addresses and SSH client
/// configuration.
pub proof fn lemma_same_resolve_all(
    env: Environment,
    other: Environment,
    tokens: Seq<RawHostArgView>,
)
    requires
        env.address == other.address,
        env.ssh_config == other.ssh_config,
    ensures
        env.resolve_all(tokens) == other.resolve_all(tokens),
    decreases tokens.len(),
{
    if tokens.len() > 0 {
        lemma_same_resolve_all(env, other, tokens.drop_first());
    }
}

/// One token that names no filesystem entry: what it resolves to is the target, and
/// there is neither a bridge nor a local directory.
pub proof fn law_single_remote(args: ArgsView, env: Environment)
    requires
        args.total() == 1,
        !(env.exists)(args.host_args()[0].text),
    ensures
        resolution(args, env) == match env.resolve(args.host_args()[0]) {
            Ok(remote) => Ok(
                RemoteArgsView {
                    host_bridge: RemoteView::Unspecified,
                    remote,
                    local_dir: None,
                },
            ),
            Err(error) => Err(error),
        },
{
    lemma_resolve_one(env, args.host_args());
}

/// Two tokens, the second of which names no filesystem entry: the first token gives
/// the target and the second the bridge.
pub proof fn law_two_remotes(args: ArgsView, env: Environment)
    requires
        args.total() == 2,
        !(env.exists)(args.host_args()[1].text),
    ensures
        resolution(args, env) == match env.resolve(args.host_args()[0]) {
            Ok(first) => match env.resolve(args.host_args()[1]) {
                Ok(second) => Ok(
                    RemoteArgsView { host_bridge: second, remote: first, local_dir: None },
                ),
                Err(error) => Err(error),
            },
            Err(error) => Err(error),
        },
{
    lemma_resolve_two(env, args.host_args());
}

/// A last token that names a filesystem entry is the local directory and is not
/// resolved; the tokens before it get their roles as if it were not there.
pub proof fn law_trailing_local_dir(args: ArgsView, env: Environment)
    requires
        0 < args.total() <= MAX_HOST_ARGS,
        (env.exists)(args.host_args().last().text),
    ensures
        resolution(args, env) == plan(
            env.resolve_all(args.host_args().drop_last()),
            Some(args.host_args().last().text),
        ),
        args.total() == 1 ==> resolution(args, env) == Ok::<RemoteArgsView, ResolveErrorView>(
            RemoteArgsView {
                host_bridge: RemoteView::Unspecified,
                remote: RemoteView::Unspecified,
                local_dir: Some(args.host_args()[0].text),
            },
        ),
        args.total() == 2 ==> resolution(args, env) == match env.resolve(args.host_args()[0]) {
            Ok(remote) => Ok(
                RemoteArgsView {
                    host_bridge: RemoteView::Unspecified,
                    remote,
                    local_dir: Some(args.host_args()[1].text),
                },
            ),
            Err(error) => Err(error),
        },
        args.total() == 3 ==> resolution(args, env) == match env.resolve(args.host_args()[0]) {
            Ok(first) => match env.resolve(args.host_args()[1]) {
                Ok(second) => Ok(
                    RemoteArgsView {
                        host_bridge: second,
                        remote: first,
                        local_dir: Some(args.host_args()[2].text),
                    },
                ),
                Err(error) => Err(error),
            },
            Err(error) => Err(error),
        },
{
    let front = args.host_args().drop_last();
    if args.total() == 1 {
        lemma_resolve_none(env, front);
    } else if args.total() == 2 {
        assert(front[0] == args.host_args()[0]);
        lemma_resolve_one(env, front);
    } else {
        assert(front[0] == args.host_args()[0]);
        assert(front[1] == args.host_args()[1]);
        lemma_resolve_two(env, front);
    }
}

/// A local directory after the remotes changes nothing but the local directory: with
/// one more positional token, which names a filesystem entry, the plan has the remotes
/// that it has without it, in the same roles.
pub proof fn law_local_dir_keeps_roles(args: ArgsView, dir: Seq<char>, env: Environment)
    requires
        args.total() < MAX_HOST_ARGS,
        args.total() > 0 ==> !(env.exists)(args.host_args().last().text),
        (env.exists)(dir),
    ensures
        resolution(ArgsView { positional: args.positional.push(dir), ..args }, env) == match resolution(
            args,
            env,
        ) {
            Ok(plan) => Ok(RemoteArgsView { local_dir: Some(dir), ..plan }),
            Err(error) => Err(error),
        },
{
    let longer = ArgsView { positional: args.positional.push(dir), ..args };
    let tokens = args.host_args();
    let front = longer.host_args().drop_last();
    assert(longer.host_args().last().text == dir);
    assert(front.len() == tokens.len());
    assert forall|i: int| 0 <= i < tokens.len() implies env.resolve(#[trigger] front[i])
        == env.resolve(tokens[i]) by {
        assert(front[i].kind == tokens[i].kind);
        assert(front[i].text == tokens[i].text);
        assert(front[i].password == tokens[i].password);
    }
    if tokens.len() == 0 {
        lemma_resolve_none(env, front);
        lemma_resolve_none(env, tokens);
    } else if tokens.len() == 1 {
        lemma_resolve_one(env, front);
        lemma_resolve_one(env, tokens);
    } else {
        lemma_resolve_two(env, front);
        lemma_resolve_two(env, tokens);
    }
}

/// Three tokens of which the last names no filesystem entry: where all three resolve,
/// the plan holds none of them.
pub proof fn law_three_remotes(args: ArgsView, env: Environment)
    requires
        args.total() == 3,
        !(env.exists)(args.host_args()[2].text),
    ensures
        resolution(args, env) == match env.resolve_all(args.host_args()) {
            Ok(_) => Ok(
                RemoteArgsView {
                    host_bridge: RemoteView::Unspecified,
                    remote: RemoteView::Unspecified,
                    local_dir: None,
                },
            ),
            Err(error) => Err(error),
        },
{
    lemma_resolved_remotes(env, args.host_args());
}

/// Bookmarks come first, whatever the order on the command line: with one bookmark
/// and one positional token, the bookmark is the target. The positional token, which
/// stands last, is the local directory where it names a filesystem entry, and the
/// bridge where it is an address. Whether the bookmark's name is that of a filesystem
/// entry plays no part.
pub proof fn law_bookmark_precedence(args: ArgsView, env: Environment)
    requires
        args.bookmark.len() == 1,
        args.ssh_host.len() == 0,
        args.positional.len() == 1,
    ensures
        resolution(args, env) == if (env.exists)(args.positional[0]) {
            Ok::<RemoteArgsView, ResolveErrorView>(
                RemoteArgsView {
                    host_bridge: RemoteView::Unspecified,
                    remote: bookmark_remote(args.host_args()[0]),
                    local_dir: Some(args.positional[0]),
                },
            )
        } else {
            match (env.address)(args.positional[0]) {
                Ok(params) => Ok(
                    RemoteArgsView {
                        host_bridge: host_remote(args.host_args()[1], params),
                        remote: bookmark_remote(args.host_args()[0]),
                        local_dir: None,
                    },
                ),
                Err(detail) => Err(ResolveErrorView::BadAddress(detail)),
            }
        },
        args.host_args()[0].text == args.bookmark[0],
        args.host_args()[0].password == args.password_at(0),
        args.host_args()[1].password == args.password_at(1),
{
    let tokens = args.host_args();
    assert(tokens[0].kind is Bookmark);
    assert(tokens[1].kind is Address);
    assert(tokens[1].text == args.positional[0]);
    if (env.exists)(args.positional[0]) {
        law_trailing_local_dir(args, env);
    } else {
        law_two_remotes(args, env);
    }
}

/// A password belongs to the token at its position, not to a role: of two addresses
/// with one password, the first token has it, and the first token is the target.
pub proof fn law_password_ordinality(args: ArgsView, env: Environment)
    requires
        args.bookmark.len() == 0,
        args.ssh_host.len() == 0,
        args.positional.len() == 2,
        args.password.len() == 1,
        !(env.exists)(args.positional[1]),
        (env.address)(args.positional[0]) is Ok,
        (env.address)(args.positional[1]) is Ok,
    ensures
        resolution(args, env) == Ok::<RemoteArgsView, ResolveErrorView>(
            RemoteArgsView {
                host_bridge: RemoteView::Host(
                    crate::remote::HostParamsView {
                        file_transfer_params: (env.address)(args.positional[1])->Ok_0,
                        password: None,
                    },
                ),
                remote: RemoteView::Host(
                    crate::remote::HostParamsView {
                        file_transfer_params: (env.address)(args.positional[0])->Ok_0,
                        password: Some(args.password[0]),
                    },
                ),
                local_dir: None,
            },
        ),
{
    law_two_remotes(args, env);
}

/// Every token has the password of its own position in the order of resolution, and
/// none where the passwords do not reach that far.
pub proof fn law_passwords_by_position(args: ArgsView, i: int)
    requires
        0 <= i < args.total(),
    ensures
        args.host_args()[i].password == if i < args.password.len() {
            Some(args.password[i])
        } else {
            None
        },
{
}

/// Whether `env` holds what the three functions answer: whatever one of them may
/// return on an input is what `env` has for it.
pub open spec fn answers<E, A, S>(
    env: Environment,
    path_exists: E,
    parse_address: A,
    ssh_hosts: S,
) -> bool
    where
        E: Fn(&String) -> bool,
        A: Fn(&String) -> Result<FileTransferParams, String>,
        S: Fn() -> Result<Vec<SshHostEntry>, String>,
{
    &&& forall|path: &String, found: bool| #[trigger]
        call_ensures(path_exists, (path,), found) ==> found == (env.exists)(path@)
    &&& forall|text: &String, parsed: Result<FileTransferParams, String>| #[trigger]
        call_ensures(parse_address, (text,), parsed) ==> (Reply::Address(parsed))@
            == ReplyView::Address((env.address)(text@))
    &&& forall|read: Result<Vec<SshHostEntry>, String>| #[trigger]
        call_ensures(ssh_hosts, (), read) ==> (Reply::SshConfig(read))@ == ReplyView::SshConfig(
            env.ssh_config,
        )
}

impl RemoteArgs {
    /// Resolves `args` to a connection plan, asking the surroundings through three
    /// functions: `path_exists` tells whether a text names a filesystem entry, `parse_address`
    /// parses an address, and `ssh_hosts` reads the host entries of the user's SSH client
    /// configuration. None of them is called before its answer is needed, nor after the
    /// resolution has failed.
    ///
    /// In every environment that holds what the functions answer, the result is the
    /// resolution of the command line in that environment.
    pub fn resolve<E, A, S>(
        args: &Args,
        path_exists: E,
        parse_address: A,
        ssh_hosts: S,
    ) -> (r: Result<RemoteArgs, ResolveError>)
        where
            E: Fn(&String) -> bool,
            A: Fn(&String) -> Result<FileTransferParams, String>,
            S: Fn() -> Result<Vec<SshHostEntry>, String>,
        requires
            forall|path: &String| call_requires(path_exists, (path,)),
            forall|text: &String| call_requires(parse_address, (text,)),
            call_requires(ssh_hosts, ()),
        ensures
            args@.total() > MAX_HOST_ARGS ==> outcome_view(r) == Err::<
                RemoteArgsView,
                ResolveErrorView,
            >(ResolveErrorView::TooManyArguments),
            forall|env: Environment| #[trigger]
                answers(env, path_exists, parse_address, ssh_hosts) ==> outcome_view(r) == resolution(
                    args@,
                    env,
                ),
    {
        let mut resolver = match Resolver::new(args) {
            Ok(resolver) => resolver,
            Err(error) => {
                return Err(error);
            },
        };
        proof {
            assert forall|env: Environment|
                resolver@.orderly() && #[trigger] resolver@.completion(env) == resolution(
                    args@,
                    env,
                ) by {
                lemma_initial(args@, env);
            }
        }
        loop
            invariant
                forall|path: &String| call_requires(path_exists, (path,)),
                forall|text: &String| call_requires(parse_address, (text,)),
                call_requires(ssh_hosts, ()),
                resolver@.orderly(),
                forall|env: Environment| #[trigger]
                    answers(env, path_exists, parse_address, ssh_hosts) ==> resolver@.completion(env)
                        == resolution(args@, env),
            ensures
                resolver@.orderly(),
                resolver@.request() is None,
                forall|env: Environment| #[trigger]
                    answers(env, path_exists, parse_address, ssh_hosts) ==> resolver@.completion(env)
                        == resolution(args@, env),
            decreases resolver@.rounds_left(),
        {
            let ghost state = resolver@;
            let reply = match resolver.request() {
                Some(Request::PathExists(path)) => Reply::PathExists(path_exists(&path)),
                Some(Request::ParseAddress(text)) => Reply::Address(parse_address(&text)),
                Some(Request::SshConfig) => Reply::SshConfig(ssh_hosts()),
                None => {
                    break;
                },
            };
            proof {
                lemma_supply(state, reply@);
                assert forall|env: Environment| #[trigger]
                    answers(env, path_exists, parse_address, ssh_hosts) implies state.step(
                    reply@,
                ).completion(env) == resolution(args@, env) by {
                    assert(env.reply(state.request().unwrap()) == reply@);
                    lemma_step(state, env);
                }
            }
            resolver.supply(reply);
        }
        proof {
            law_nothing_asked_is_the_end(resolver@);
            assert forall|env: Environment| #[trigger]
                answers(env, path_exists, parse_address, ssh_hosts) implies resolver@.outcome() == Some(
                resolution(args@, env),
            ) by {
                lemma_run(resolver@, env, resolver@.rounds_left());
            }
        }
        match resolver.finish() {
            Some(outcome) => outcome,
            None => vstd::pervasive::unreached(),
        }
    }
}

} // verus!
