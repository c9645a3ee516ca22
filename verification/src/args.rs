//! The host-like tokens of a command line, in the order in which they are resolved.
//!
//! The command line hands over three collections: bookmark names, SSH host aliases and
//! free-form positional tokens. Whatever order the user typed them in, they are resolved
//! bookmarks first, then aliases, then positionals. Passwords form a fourth, flat list:
//! the password at position `i` belongs to the token at position `i` of that order.

use vstd::prelude::*;

verus! {

/// What a token was given as.
#[derive(Clone, Copy, Debug, PartialEq, Eq, Structural)]
pub enum AddrType {
    /// A free-form positional token: a remote address, or a local path.
    Address,
    /// The name of a bookmark.
    Bookmark,
    /// An alias of the SSH client configuration, `alias` or `alias:remote_path`.
    SshHost,
}

/// The host-like arguments of a command line.
#[derive(Clone, Debug, PartialEq, Eq)]
pub struct Args {
    pub bookmark: Vec<String>,
    pub ssh_host: Vec<String>,
    pub positional: Vec<String>,
    pub password: Vec<String>,
}

/// Mathematical value of [`Args`].
pub struct ArgsView {
    pub bookmark: Seq<Seq<char>>,
    pub ssh_host: Seq<Seq<char>>,
    pub positional: Seq<Seq<char>>,
    pub password: Seq<Seq<char>>,
}

impl View for Args {
    type V = ArgsView;

    open spec fn view(&self) -> ArgsView {
        ArgsView {
            bookmark: self.bookmark.deep_view(),
            ssh_host: self.ssh_host.deep_view(),
            positional: self.positional.deep_view(),
            password: self.password.deep_view(),
        }
    }
}

impl Default for Args {
    fn default() -> (r: Self)
        ensures
            r@ == (ArgsView {
                bookmark: Seq::empty(),
                ssh_host: Seq::empty(),
                positional: Seq::empty(),
                password: Seq::empty(),
            }),
    {
        let r = Args {
            bookmark: Vec::new(),
            ssh_host: Vec::new(),
            positional: Vec::new(),
            password: Vec::new(),
        };
        assert(r@.bookmark =~= Seq::empty());
        assert(r@.ssh_host =~= Seq::empty());
        assert(r@.positional =~= Seq::empty());
        assert(r@.password =~= Seq::empty());
        r
    }
}

/// One token before it is resolved.
#[derive(Clone, Debug, PartialEq, Eq)]
pub struct RawHostArg {
    pub kind: AddrType,
    pub text: String,
    /// The password given at the token's position, if one was.
    pub password: Option<String>,
    /// Whether the token stands last, and so may name the local directory.
    pub is_last: bool,
}

/// Mathematical value of [`RawHostArg`].
pub struct RawHostArgView {
    pub kind: AddrType,
    pub text: Seq<char>,
    pub password: Option<Seq<char>>,
    pub is_last: bool,
}

impl View for RawHostArg {
    type V = RawHostArgView;

    open spec fn view(&self) -> RawHostArgView {
        RawHostArgView {
            kind: self.kind,
            text: self.text@,
            password: self.password.deep_view(),
            is_last: self.is_last,
        }
    }
}

impl DeepView for RawHostArg {
    type V = RawHostArgView;

    open spec fn deep_view(&self) -> RawHostArgView {
        self@
    }
}

/// Most tokens a command line may hold, the three collections taken together.
pub const MAX_HOST_ARGS: usize = 3;

impl ArgsView {
    /// Number of tokens, the three collections taken together.
    pub open spec fn total(self) -> nat {
        self.bookmark.len() + self.ssh_host.len() + self.positional.len()
    }

    /// The collection that the token at position `i` comes from.
    pub open spec fn kind_at(self, i: int) -> AddrType {
        if i < self.bookmark.len() {
            AddrType::Bookmark
        } else if i < self.bookmark.len() + self.ssh_host.len() {
            AddrType::SshHost
        } else {
            AddrType::Address
        }
    }

    /// The text of the token at position `i`.
    pub open spec fn text_at(self, i: int) -> Seq<char> {
        if i < self.bookmark.len() {
            self.bookmark[i]
        } else if i < self.bookmark.len() + self.ssh_host.len() {
            self.ssh_host[i - self.bookmark.len()]
        } else {
            self.positional[i - self.bookmark.len() - self.ssh_host.len()]
        }
    }

    /// The password at position `i`, if the list reaches that far.
    pub open spec fn password_at(self, i: int) -> Option<Seq<char>> {
        if 0 <= i < self.password.len() {
            Some(self.password[i])
        } else {
            None
        }
    }

    /// The tokens in the order in which they are resolved, each with its password and
    /// with the last one marked.
    pub open spec fn host_args(self) -> Seq<RawHostArgView> {
        Seq::new(
            self.total(),
            |i: int|
                RawHostArgView {
                    kind: self.kind_at(i),
                    text: self.text_at(i),
                    password: self.password_at(i),
                    is_last: i == self.total() - 1,
                },
        )
    }
}

/// The tokens `texts`, all of one kind, as they stand from position `start` on when no
/// token is marked as last.
pub open spec fn tagged(
    texts: Seq<Seq<char>>,
    kind: AddrType,
    passwords: Seq<Seq<char>>,
    start: int,
) -> Seq<RawHostArgView> {
    Seq::new(
        texts.len(),
        |i: int|
            RawHostArgView {
                kind,
                text: texts[i],
                password: if 0 <= start + i < passwords.len() {
                    Some(passwords[start + i])
                } else {
                    None
                },
                is_last: false,
            },
    )
}

/// Appends the tokens `texts` to `out`, each with the password of the position it
/// comes to stand at.
fn push_tagged(
    out: &mut Vec<RawHostArg>,
    texts: &Vec<String>,
    kind: AddrType,
    passwords: &Vec<String>,
)
    ensures
        final(out).deep_view() == old(out).deep_view() + tagged(
            texts.deep_view(),
            kind,
            passwords.deep_view(),
            old(out).len() as int,
        ),
{
    let ghost start = out.len() as int;
    let ghost before = out.deep_view();
    let ghost all = tagged(texts.deep_view(), kind, passwords.deep_view(), start);
    let mut j: usize = 0;
    assert(out.deep_view() =~= before + all.take(0));
    while j < texts.len()
        invariant
            j <= texts.len(),
            start == before.len(),
            all == tagged(texts.deep_view(), kind, passwords.deep_view(), start),
            out.deep_view() == before + all.take(j as int),
        decreases texts.len() - j,
    {
        let at = out.len();
        assert(at == start + j) by {
            assert(out.deep_view().len() == out.len());
        }
        let password = if at < passwords.len() {
            Some(passwords[at].clone())
        } else {
            None
        };
        let arg = RawHostArg { kind, text: texts[j].clone(), password, is_last: false };
        assert(arg@ == all[j as int]) by {
            assert(texts.deep_view()[j as int] == texts[j as int]@);
            if at < passwords.len() {
                assert(passwords.deep_view()[at as int] == passwords[at as int]@);
            }
        }
        let ghost prev = out.deep_view();
        out.push(arg);
        assert(out.deep_view() =~= prev.push(arg@));
        assert(all.take(j as int + 1) =~= all.take(j as int).push(all[j as int]));
        assert(out.deep_view() =~= before + all.take(j as int + 1));
        j += 1;
    }
    assert(all.take(j as int) =~= all);
}

impl Args {
    /// The tokens in the order in which they are resolved: bookmarks, then SSH host
    /// aliases, then positionals; each with the password of its position, and the last
    /// one marked.
    pub fn host_args(&self) -> (r: Vec<RawHostArg>)
        ensures
            r.deep_view() == self@.host_args(),
    {
        let mut out: Vec<RawHostArg> = Vec::new();
        assert(out.deep_view() =~= Seq::empty());
        push_tagged(&mut out, &self.bookmark, AddrType::Bookmark, &self.password);
        let ghost first = out.deep_view();
        push_tagged(&mut out, &self.ssh_host, AddrType::SshHost, &self.password);
        let ghost second = out.deep_view();
        push_tagged(&mut out, &self.positional, AddrType::Address, &self.password);
        let ghost unmarked = out.deep_view();
        assert(out.deep_view().len() == out.len());
        assert(unmarked.len() == self@.total());
        assert forall|i: int| 0 <= i < unmarked.len() implies #[trigger] unmarked[i] == (
        RawHostArgView { is_last: false, ..self@.host_args()[i] }) by {
            if i < first.len() {
                assert(unmarked[i] == first[i]);
            } else if i < second.len() {
                assert(unmarked[i] == second[i]);
            }
        }
        match out.pop() {
            Some(last) => {
                let ghost rest = out.deep_view();
                assert(rest =~= unmarked.drop_last());
                assert(last@ == unmarked.last());
                let marked = RawHostArg { is_last: true, ..last };
                out.push(marked);
                assert(out.deep_view() =~= rest.push(marked@));
                assert(out.deep_view() =~= self@.host_args());
            },
            None => {
                assert(out.deep_view() =~= self@.host_args());
            },
        }
        out
    }
}

} // verus!
