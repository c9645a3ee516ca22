//! The connection plan and the remotes it is made of.

use vstd::prelude::*;
use crate::params::{FileTransferParams, FileTransferParamsView};
use crate::text::owned;

verus! {

/// A saved connection, referred to by name; the bookmark store resolves it later.
#[derive(Clone, Debug, PartialEq, Eq)]
pub struct BookmarkParams {
    /// bookmark name
    pub name: String,
    /// bookmark password
    pub password: Option<String>,
}

/// Mathematical value of [`BookmarkParams`].
pub struct BookmarkParamsView {
    pub name: Seq<char>,
    pub password: Option<Seq<char>>,
}

impl View for BookmarkParams {
    type V = BookmarkParamsView;

    open spec fn view(&self) -> BookmarkParamsView {
        BookmarkParamsView { name: self.name@, password: self.password.deep_view() }
    }
}

/// A fully resolved host.
#[derive(Clone, Debug, PartialEq, Eq)]
pub struct HostParams {
    /// file transfer parameters
    pub file_transfer_params: FileTransferParams,
    /// host password specified in arguments
    pub password: Option<String>,
}

/// Mathematical value of [`HostParams`].
pub struct HostParamsView {
    pub file_transfer_params: FileTransferParamsView,
    pub password: Option<Seq<char>>,
}

impl View for HostParams {
    type V = HostParamsView;

    open spec fn view(&self) -> HostParamsView {
        HostParamsView {
            file_transfer_params: self.file_transfer_params@,
            password: self.password.deep_view(),
        }
    }
}

impl BookmarkParams {
    pub fn new(name: &str, password: Option<&str>) -> (r: Self)
        ensures
            r@ == (BookmarkParamsView { name: name@, password: password.deep_view() }),
    {
        BookmarkParams { name: name.to_string(), password: owned(password) }
    }
}

impl HostParams {
    pub fn new(params: FileTransferParams, password: Option<&str>) -> (r: Self)
        ensures
            r@ == (HostParamsView {
                file_transfer_params: params@,
                password: password.deep_view(),
            }),
    {
        HostParams { file_transfer_params: params, password: owned(password) }
    }
}

/// Remote argument type
#[derive(Clone, Debug, PartialEq, Eq)]
pub enum Remote {
    /// Bookmark name argument
    Bookmark(BookmarkParams),
    /// Host argument
    Host(HostParams),
    /// No remote was given
    Unspecified,
}

/// Mathematical value of [`Remote`].
pub enum RemoteView {
    Bookmark(BookmarkParamsView),
    Host(HostParamsView),
    Unspecified,
}

impl View for Remote {
    type V = RemoteView;

    open spec fn view(&self) -> RemoteView {
        match self {
            Remote::Bookmark(b) => RemoteView::Bookmark(b@),
            Remote::Host(h) => RemoteView::Host(h@),
            Remote::Unspecified => RemoteView::Unspecified,
        }
    }
}

impl DeepView for Remote {
    type V = RemoteView;

    open spec fn deep_view(&self) -> RemoteView {
        self@
    }
}

impl Remote {
    pub fn is_none(&self) -> (r: bool)
        ensures
            r == (self@ is Unspecified),
    {
        matches!(self, Remote::Unspecified)
    }
}

/// Args for remote connection
#[derive(Clone, Debug, PartialEq, Eq)]
pub struct RemoteArgs {
    /// Host to route the connection through, if any.
    pub host_bridge: Remote,
    /// The endpoint the session operates against.
    pub remote: Remote,
    /// Directory the local file browser starts in.
    pub local_dir: Option<String>,
}

/// Mathematical value of [`RemoteArgs`].
pub struct RemoteArgsView {
    pub host_bridge: RemoteView,
    pub remote: RemoteView,
    pub local_dir: Option<Seq<char>>,
}

impl View for RemoteArgs {
    type V = RemoteArgsView;

    open spec fn view(&self) -> RemoteArgsView {
        RemoteArgsView {
            host_bridge: self.host_bridge@,
            remote: self.remote@,
            local_dir: self.local_dir.deep_view(),
        }
    }
}

impl RemoteArgsView {
    /// A plan without a target has no bridge either.
    pub open spec fn valid(self) -> bool {
        self.remote is Unspecified ==> self.host_bridge is Unspecified
    }
}

impl Default for RemoteArgs {
    fn default() -> (r: Self)
        ensures
            r@ == (RemoteArgsView {
                host_bridge: RemoteView::Unspecified,
                remote: RemoteView::Unspecified,
                local_dir: None,
            }),
    {
        RemoteArgs {
            host_bridge: Remote::Unspecified,
            remote: Remote::Unspecified,
            local_dir: None,
        }
    }
}

} // verus!
