//! Connection parameters: the bundle a file transfer session is opened with.

use vstd::prelude::*;

verus! {

/// Protocol spoken with the remote host.
#[derive(Clone, Copy, Debug, PartialEq, Eq, Structural)]
pub enum FileTransferProtocol {
    Sftp,
    Scp,
    /// FTP; the flag tells whether the session is secured (FTPS).
    Ftp(bool),
}

/// Address, port and credentials of a remote host.
#[derive(Clone, Debug, PartialEq, Eq)]
pub struct GenericProtocolParams {
    pub address: String,
    pub port: u16,
    pub username: Option<String>,
    pub password: Option<String>,
}

/// Mathematical value of [`GenericProtocolParams`].
pub struct GenericProtocolParamsView {
    pub address: Seq<char>,
    pub port: u16,
    pub username: Option<Seq<char>>,
    pub password: Option<Seq<char>>,
}

impl View for GenericProtocolParams {
    type V = GenericProtocolParamsView;

    open spec fn view(&self) -> GenericProtocolParamsView {
        GenericProtocolParamsView {
            address: self.address@,
            port: self.port,
            username: self.username.deep_view(),
            password: self.password.deep_view(),
        }
    }
}

/// Port of the SSH family of protocols.
pub const DEFAULT_SSH_PORT: u16 = 22;

/// The parameters a fresh value starts from: `localhost`, port 22, no credentials.
pub open spec fn default_generic_params() -> GenericProtocolParamsView {
    GenericProtocolParamsView {
        address: "localhost"@,
        port: DEFAULT_SSH_PORT,
        username: None,
        password: None,
    }
}

impl Default for GenericProtocolParams {
    fn default() -> (r: Self)
        ensures
            r@ == default_generic_params(),
    {
        GenericProtocolParams {
            address: "localhost".to_string(),
            port: DEFAULT_SSH_PORT,
            username: None,
            password: None,
        }
    }
}

impl GenericProtocolParams {
    /// Replaces the address.
    pub fn address(self, address: String) -> (r: Self)
        ensures
            r@ == (GenericProtocolParamsView { address: address@, ..self@ }),
    {
        GenericProtocolParams { address, ..self }
    }

    /// Replaces the port.
    pub fn port(self, port: u16) -> (r: Self)
        ensures
            r@ == (GenericProtocolParamsView { port, ..self@ }),
    {
        GenericProtocolParams { port, ..self }
    }

    /// Replaces the user name.
    pub fn username(self, username: Option<String>) -> (r: Self)
        ensures
            r@ == (GenericProtocolParamsView { username: username.deep_view(), ..self@ }),
    {
        GenericProtocolParams { username, ..self }
    }
}

/// Everything needed to open a session with a remote host.
#[derive(Clone, Debug, PartialEq, Eq)]
pub struct FileTransferParams {
    pub protocol: FileTransferProtocol,
    pub params: GenericProtocolParams,
    /// Directory to enter on the remote host once connected.
    pub remote_path: Option<String>,
    /// Directory to enter on the local host once connected.
    pub local_path: Option<String>,
}

/// Mathematical value of [`FileTransferParams`].
pub struct FileTransferParamsView {
    pub protocol: FileTransferProtocol,
    pub params: GenericProtocolParamsView,
    pub remote_path: Option<Seq<char>>,
    pub local_path: Option<Seq<char>>,
}

impl View for FileTransferParams {
    type V = FileTransferParamsView;

    open spec fn view(&self) -> FileTransferParamsView {
        FileTransferParamsView {
            protocol: self.protocol,
            params: self.params@,
            remote_path: self.remote_path.deep_view(),
            local_path: self.local_path.deep_view(),
        }
    }
}

impl FileTransferParams {
    /// Parameters for `protocol` with no directory chosen on either side.
    pub fn new(protocol: FileTransferProtocol, params: GenericProtocolParams) -> (r: Self)
        ensures
            r@ == (FileTransferParamsView {
                protocol,
                params: params@,
                remote_path: None,
                local_path: None,
            }),
    {
        FileTransferParams { protocol, params, remote_path: None, local_path: None }
    }

    /// Sets the directory to enter on the remote host.
    pub fn remote_path(self, path: Option<String>) -> (r: Self)
        ensures
            r@ == (FileTransferParamsView { remote_path: path.deep_view(), ..self@ }),
    {
        FileTransferParams { remote_path: path, ..self }
    }

    /// Sets the directory to enter on the local host.
    pub fn local_path(self, path: Option<String>) -> (r: Self)
        ensures
            r@ == (FileTransferParamsView { local_path: path.deep_view(), ..self@ }),
    {
        FileTransferParams { local_path: path, ..self }
    }
}

} // verus!
