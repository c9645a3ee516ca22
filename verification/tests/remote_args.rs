//! Resolution of whole command lines, driven the way a front end drives it: the
//! filesystem is the real one, addresses are parsed by a small stand-in parser, and the
//! SSH client configuration is a text held in memory.

use std::cell::RefCell;
use std::path::Path;

use termscp_core::args::Args;
use termscp_core::error::ResolveError;
use termscp_core::params::{FileTransferParams, FileTransferProtocol, GenericProtocolParams};
use termscp_core::remote::{BookmarkParams, HostParams, Remote, RemoteArgs};
use termscp_core::resolver::{Reply, Request, Resolver};
use termscp_core::ssh::read_hosts;

/// Stand-in for the address parser: `[protocol://]address`, SFTP where no protocol is
/// given.
fn parse_address(text: &str) -> Result<FileTransferParams, String> {
    let (protocol, address) = match text.split_once("://") {
        Some(("sftp", rest)) => (FileTransferProtocol::Sftp, rest),
        Some(("scp", rest)) => (FileTransferProtocol::Scp, rest),
        Some(("ftp", rest)) => (FileTransferProtocol::Ftp(false), rest),
        Some(("ftps", rest)) => (FileTransferProtocol::Ftp(true), rest),
        Some((other, _)) => return Err(format!("unknown protocol {other}")),
        None => (FileTransferProtocol::Sftp, text),
    };
    if address.is_empty() {
        return Err("missing address".to_string());
    }
    Ok(FileTransferParams::new(
        protocol,
        GenericProtocolParams::default().address(address.to_string()),
    ))
}

const SSH_CONFIG: &str = "\
Host myhost
    HostName 10.0.0.5
    Port 2222
    User bob

Host bare
    Compression yes
";

/// Runs a resolution to its end and returns it with the requests that were made.
fn resolve_logged(args: &Args) -> (Result<RemoteArgs, ResolveError>, Vec<Request>) {
    let mut asked = Vec::new();
    let mut resolver = match Resolver::new(args) {
        Ok(resolver) => resolver,
        Err(error) => return (Err(error), asked),
    };
    while let Some(request) = resolver.request() {
        asked.push(request.clone());
        let accepted = match request {
            Request::PathExists(path) => {
                resolver.supply(Reply::PathExists(Path::new(&path).exists()))
            }
            Request::ParseAddress(text) => resolver.supply(Reply::Address(parse_address(&text))),
            Request::SshConfig => resolver.supply(Reply::SshConfig(read_hosts(SSH_CONFIG))),
        };
        assert!(accepted);
        assert!(asked.len() <= 4);
    }
    (resolver.finish().unwrap(), asked)
}

/// Resolves in one call, and checks that the machine, asked step by step, agrees.
fn resolve(args: &Args) -> Result<RemoteArgs, ResolveError> {
    let outcome = RemoteArgs::resolve(
        args,
        |path: &String| Path::new(path).exists(),
        |text: &String| parse_address(text),
        || read_hosts(SSH_CONFIG),
    );
    assert_eq!(outcome, resolve_logged(args).0);
    outcome
}

fn strings(texts: &[&str]) -> Vec<String> {
    texts.iter().map(|text| text.to_string()).collect()
}

fn host(address: &str, protocol: FileTransferProtocol, password: Option<&str>) -> Remote {
    Remote::Host(HostParams::new(
        FileTransferParams::new(
            protocol,
            GenericProtocolParams::default().address(address.to_string()),
        ),
        password,
    ))
}

#[test]
fn test_should_make_remote_args_from_args_one_remote() {
    let args = Args {
        positional: vec!["scp://host1".to_string()],
        ..Default::default()
    };

    let remote_args = resolve(&args).unwrap();
    assert!(matches!(remote_args.host_bridge, Remote::Unspecified));
    assert!(matches!(remote_args.remote, Remote::Host(_)));
    assert_eq!(remote_args.local_dir, None);
}

#[test]
fn test_should_make_remote_args_from_args_two_remotes() {
    let args = Args {
        positional: vec!["scp://host1".to_string(), "scp://host2".to_string()],
        ..Default::default()
    };

    let remote_args = resolve(&args).unwrap();
    assert!(matches!(remote_args.host_bridge, Remote::Host(_)));
    assert!(matches!(remote_args.remote, Remote::Host(_)));
    assert_eq!(remote_args.local_dir, None);
}

#[test]
fn test_should_make_remote_args_from_two_remotes_and_local_dir() {
    let args = Args {
        positional: vec![
            "scp://host1".to_string(),
            "scp://host2".to_string(),
            "/home".to_string(),
        ],
        ..Default::default()
    };

    let remote_args = resolve(&args).unwrap();
    assert!(matches!(remote_args.host_bridge, Remote::Host(_)));
    assert!(matches!(remote_args.remote, Remote::Host(_)));
    assert_eq!(remote_args.local_dir, Some("/home".to_string()));
}

#[test]
fn test_should_make_remote_args_from_args_one_bookmarks() {
    let args = Args {
        bookmark: vec!["foo".to_string()],
        ..Default::default()
    };

    let remote_args = resolve(&args).unwrap();
    assert!(matches!(remote_args.host_bridge, Remote::Unspecified));
    assert!(matches!(remote_args.remote, Remote::Bookmark(_)));
    assert_eq!(remote_args.local_dir, None);
}

#[test]
fn test_should_make_remote_args_from_args_two_bookmarks() {
    let args = Args {
        bookmark: vec!["foo".to_string(), "bar".to_string()],
        ..Default::default()
    };

    let remote_args = resolve(&args).unwrap();
    assert!(matches!(remote_args.host_bridge, Remote::Bookmark(_)));
    assert!(matches!(remote_args.remote, Remote::Bookmark(_)));
    assert_eq!(remote_args.local_dir, None);
}

#[test]
fn test_should_make_remote_args_from_two_bookmarks_and_local_dir() {
    let args = Args {
        bookmark: vec!["foo".to_string(), "bar".to_string()],
        positional: vec!["/home".to_string()],
        ..Default::default()
    };

    let remote_args = resolve(&args).unwrap();
    assert!(matches!(remote_args.host_bridge, Remote::Bookmark(_)));
    assert!(matches!(remote_args.remote, Remote::Bookmark(_)));
    assert_eq!(remote_args.local_dir, Some("/home".to_string()));
}

#[test]
fn test_should_make_remote_args_from_one_bookmark_and_one_remote() {
    let args = Args {
        bookmark: vec!["foo".to_string()],
        positional: vec!["scp://host1".to_string()],
        ..Default::default()
    };

    let remote_args = resolve(&args).unwrap();

    assert!(matches!(remote_args.host_bridge, Remote::Host(_)));
    assert!(matches!(remote_args.remote, Remote::Bookmark(_)));
    assert_eq!(remote_args.local_dir, None);
}

#[test]
fn test_should_make_remote_args_from_one_bookmark_and_one_remote_with_local_dir() {
    let args = Args {
        positional: vec!["scp://host1".to_string(), "/home".to_string()],
        bookmark: vec!["foo".to_string()],
        ..Default::default()
    };

    let remote_args = resolve(&args).unwrap();

    assert!(matches!(remote_args.host_bridge, Remote::Host(_)));
    assert!(matches!(remote_args.remote, Remote::Bookmark(_)));
    assert_eq!(remote_args.local_dir, Some("/home".to_string()));
}

#[test]
fn no_tokens_give_an_empty_plan_and_ask_nothing() {
    let (outcome, asked) = resolve_logged(&Args::default());
    assert_eq!(outcome, Ok(RemoteArgs::default()));
    assert!(asked.is_empty());
}

#[test]
fn single_remote_is_the_target() {
    let args = Args { positional: strings(&["scp://host1"]), ..Default::default() };
    let (outcome, asked) = resolve_logged(&args);
    assert_eq!(
        outcome,
        Ok(RemoteArgs {
            host_bridge: Remote::Unspecified,
            remote: host("host1", FileTransferProtocol::Scp, None),
            local_dir: None,
        })
    );
    assert_eq!(
        asked,
        vec![
            Request::PathExists("scp://host1".to_string()),
            Request::ParseAddress("scp://host1".to_string()),
        ]
    );
}

#[test]
fn two_remotes_first_is_target_second_is_bridge() {
    let args = Args { positional: strings(&["scp://host1", "ftp://host2"]), ..Default::default() };
    let (outcome, asked) = resolve_logged(&args);
    assert_eq!(
        outcome,
        Ok(RemoteArgs {
            host_bridge: host("host2", FileTransferProtocol::Ftp(false), None),
            remote: host("host1", FileTransferProtocol::Scp, None),
            local_dir: None,
        })
    );
    assert_eq!(
        asked,
        vec![
            Request::ParseAddress("scp://host1".to_string()),
            Request::PathExists("ftp://host2".to_string()),
            Request::ParseAddress("ftp://host2".to_string()),
        ]
    );
}

#[test]
fn trailing_directory_is_not_resolved() {
    let args = Args {
        positional: strings(&["scp://host1", "ftps://host2", "/"]),
        ..Default::default()
    };
    let (outcome, asked) = resolve_logged(&args);
    assert_eq!(
        outcome,
        Ok(RemoteArgs {
            host_bridge: host("host2", FileTransferProtocol::Ftp(true), None),
            remote: host("host1", FileTransferProtocol::Scp, None),
            local_dir: Some("/".to_string()),
        })
    );
    assert_eq!(
        asked,
        vec![
            Request::ParseAddress("scp://host1".to_string()),
            Request::ParseAddress("ftps://host2".to_string()),
            Request::PathExists("/".to_string()),
        ]
    );
}

#[test]
fn only_the_last_token_is_looked_up_in_the_filesystem() {
    // "/" exists, but it does not stand last: it is taken as an address.
    let args = Args { positional: strings(&["/", "scp://host1"]), ..Default::default() };
    let (outcome, asked) = resolve_logged(&args);
    assert_eq!(
        outcome,
        Ok(RemoteArgs {
            host_bridge: host("host1", FileTransferProtocol::Scp, None),
            remote: host("/", FileTransferProtocol::Sftp, None),
            local_dir: None,
        })
    );
    assert_eq!(asked[0], Request::ParseAddress("/".to_string()));
}

#[test]
fn bookmark_comes_before_positional() {
    let args = Args {
        positional: strings(&["scp://host1"]),
        bookmark: strings(&["foo"]),
        password: strings(&["first", "second"]),
        ..Default::default()
    };
    assert_eq!(
        resolve(&args),
        Ok(RemoteArgs {
            host_bridge: host("host1", FileTransferProtocol::Scp, Some("second")),
            remote: Remote::Bookmark(BookmarkParams::new("foo", Some("first"))),
            local_dir: None,
        })
    );
}

#[test]
fn bookmark_with_the_name_of_a_directory_is_a_bookmark_unless_last() {
    let args = Args {
        bookmark: strings(&["/"]),
        positional: strings(&["scp://host1"]),
        ..Default::default()
    };
    assert_eq!(
        resolve(&args),
        Ok(RemoteArgs {
            host_bridge: host("host1", FileTransferProtocol::Scp, None),
            remote: Remote::Bookmark(BookmarkParams::new("/", None)),
            local_dir: None,
        })
    );
    // Standing last, the same bookmark is taken as the local directory.
    let args = Args { bookmark: strings(&["/"]), ..Default::default() };
    let (outcome, asked) = resolve_logged(&args);
    assert_eq!(
        outcome,
        Ok(RemoteArgs {
            host_bridge: Remote::Unspecified,
            remote: Remote::Unspecified,
            local_dir: Some("/".to_string()),
        })
    );
    assert_eq!(asked, vec![Request::PathExists("/".to_string())]);
}

#[test]
fn four_tokens_are_too_many_and_nothing_is_asked() {
    let args = Args {
        bookmark: strings(&["foo"]),
        ssh_host: strings(&["myhost"]),
        positional: strings(&["not an address://", "/"]),
        ..Default::default()
    };
    let (outcome, asked) = resolve_logged(&args);
    assert_eq!(outcome, Err(ResolveError::TooManyArguments));
    assert!(asked.is_empty());
    assert_eq!(outcome.unwrap_err().message(), "Too many arguments");

    let args = Args { positional: strings(&["a", "b", "c", "d"]), ..Default::default() };
    assert_eq!(resolve(&args), Err(ResolveError::TooManyArguments));
    let args = Args { bookmark: strings(&["a", "b", "c", "d", "e"]), ..Default::default() };
    assert_eq!(resolve(&args), Err(ResolveError::TooManyArguments));
}

#[test]
fn three_tokens_are_accepted() {
    let args = Args {
        bookmark: strings(&["foo"]),
        ssh_host: strings(&["myhost"]),
        positional: strings(&["/"]),
        ..Default::default()
    };
    let plan = resolve(&args).unwrap();
    assert!(matches!(plan.remote, Remote::Bookmark(_)));
    assert!(matches!(plan.host_bridge, Remote::Host(_)));
    assert_eq!(plan.local_dir, Some("/".to_string()));
}

#[test]
fn three_remotes_give_a_plan_without_remotes() {
    let args = Args {
        positional: strings(&["scp://host1", "scp://host2", "scp://host3"]),
        ..Default::default()
    };
    assert_eq!(resolve(&args), Ok(RemoteArgs::default()));
}

#[test]
fn password_goes_with_the_position_of_the_token() {
    let args = Args {
        positional: strings(&["scp://host1", "scp://host2"]),
        password: strings(&["secret"]),
        ..Default::default()
    };
    assert_eq!(
        resolve(&args),
        Ok(RemoteArgs {
            host_bridge: host("host2", FileTransferProtocol::Scp, None),
            remote: host("host1", FileTransferProtocol::Scp, Some("secret")),
            local_dir: None,
        })
    );
}

#[test]
fn password_of_a_trailing_directory_is_dropped() {
    let args = Args {
        positional: strings(&["scp://host1", "/"]),
        password: strings(&["one", "two"]),
        ..Default::default()
    };
    assert_eq!(
        resolve(&args),
        Ok(RemoteArgs {
            host_bridge: Remote::Unspecified,
            remote: host("host1", FileTransferProtocol::Scp, Some("one")),
            local_dir: Some("/".to_string()),
        })
    );
}

#[test]
fn bad_address_fails_with_the_parsers_explanation() {
    let args = Args { positional: strings(&["gopher://host1", "scp://host2"]), ..Default::default() };
    let (outcome, asked) = resolve_logged(&args);
    let error = outcome.unwrap_err();
    assert_eq!(error, ResolveError::BadAddress("unknown protocol gopher".to_string()));
    assert_eq!(error.message(), "Bad address option: unknown protocol gopher");
    // The failure ends the resolution: the second token is never looked at.
    assert_eq!(asked, vec![Request::ParseAddress("gopher://host1".to_string())]);
}

#[test]
fn ssh_alias_round_trip() {
    let args = Args { ssh_host: strings(&["myhost:/data"]), ..Default::default() };
    let (outcome, asked) = resolve_logged(&args);
    let expected = FileTransferParams::new(
        FileTransferProtocol::Sftp,
        GenericProtocolParams::default()
            .address("10.0.0.5".to_string())
            .port(2222)
            .username(Some("bob".to_string())),
    )
    .remote_path(Some("/data".to_string()));
    assert_eq!(
        outcome,
        Ok(RemoteArgs {
            host_bridge: Remote::Unspecified,
            remote: Remote::Host(HostParams::new(expected, None)),
            local_dir: None,
        })
    );
    assert_eq!(
        asked,
        vec![Request::PathExists("myhost:/data".to_string()), Request::SshConfig]
    );
    match resolve(&args).unwrap().remote {
        Remote::Host(host) => {
            assert_eq!(host.file_transfer_params.protocol, FileTransferProtocol::Sftp);
            assert_eq!(host.file_transfer_params.params.address, "10.0.0.5");
            assert_eq!(host.file_transfer_params.params.port, 2222);
            assert_eq!(host.file_transfer_params.params.username.as_deref(), Some("bob"));
            assert_eq!(host.file_transfer_params.params.password, None);
            assert_eq!(host.file_transfer_params.remote_path.as_deref(), Some("/data"));
            assert_eq!(host.file_transfer_params.local_path, None);
        }
        other => panic!("not a host: {other:?}"),
    }
}

#[test]
fn ssh_alias_without_host_name_and_port_falls_back_on_alias_and_22() {
    let args = Args {
        ssh_host: strings(&["bare"]),
        password: strings(&["secret"]),
        ..Default::default()
    };
    let expected = FileTransferParams::new(
        FileTransferProtocol::Sftp,
        GenericProtocolParams::default().address("bare".to_string()).port(22).username(None),
    );
    assert_eq!(
        resolve(&args),
        Ok(RemoteArgs {
            host_bridge: Remote::Unspecified,
            remote: Remote::Host(HostParams::new(expected, Some("secret"))),
            local_dir: None,
        })
    );
}

#[test]
fn ssh_alias_comes_after_bookmark_and_before_positional() {
    let args = Args {
        positional: strings(&["/"]),
        ssh_host: strings(&["myhost"]),
        bookmark: strings(&["foo"]),
        password: strings(&["one", "two", "three"]),
    };
    let plan = resolve(&args).unwrap();
    assert_eq!(plan.remote, Remote::Bookmark(BookmarkParams::new("foo", Some("one"))));
    match plan.host_bridge {
        Remote::Host(host) => {
            assert_eq!(host.file_transfer_params.params.address, "10.0.0.5");
            assert_eq!(host.password.as_deref(), Some("two"));
        }
        other => panic!("not a host: {other:?}"),
    }
    assert_eq!(plan.local_dir.as_deref(), Some("/"));
}

#[test]
fn unknown_ssh_alias_is_not_found() {
    let args = Args { ssh_host: strings(&["nowhere:/data"]), ..Default::default() };
    let error = resolve(&args).unwrap_err();
    assert_eq!(error, ResolveError::SshHostNotFound("nowhere".to_string()));
    assert_eq!(error.message(), "SSH host 'nowhere' not found in ~/.ssh/config");
}

#[test]
fn unreadable_ssh_config_fails_the_resolution() {
    let args = Args { ssh_host: strings(&["myhost"]), ..Default::default() };
    let mut resolver = Resolver::new(&args).unwrap();
    assert_eq!(resolver.request(), Some(Request::PathExists("myhost".to_string())));
    assert!(resolver.supply(Reply::PathExists(false)));
    assert_eq!(resolver.request(), Some(Request::SshConfig));
    assert!(resolver.supply(Reply::SshConfig(Err("IO error: no such file".to_string()))));
    assert_eq!(resolver.request(), None);
    let error = resolver.finish().unwrap().unwrap_err();
    assert_eq!(error, ResolveError::SshConfigUnreadable("IO error: no such file".to_string()));
    assert_eq!(error.message(), "Could not parse SSH config: IO error: no such file");
}

#[test]
fn ssh_config_that_does_not_parse_fails_the_resolution() {
    let args = Args { ssh_host: strings(&["myhost"]), ..Default::default() };
    let mut resolver = Resolver::new(&args).unwrap();
    assert!(resolver.supply(Reply::PathExists(false)));
    assert!(resolver.supply(Reply::SshConfig(read_hosts(
        "Host myhost\n    Port not-a-number\n"
    ))));
    assert_eq!(resolver.request(), None);
    match resolver.finish().unwrap() {
        Err(ResolveError::SshConfigUnreadable(detail)) => {
            assert_eq!(detail, "expected port number")
        }
        other => panic!("not an unreadable configuration: {other:?}"),
    }
}

#[test]
fn reply_that_answers_nothing_asked_changes_nothing() {
    let args = Args { positional: strings(&["scp://host1"]), ..Default::default() };
    let mut resolver = Resolver::new(&args).unwrap();
    let asked = resolver.request();
    assert_eq!(asked, Some(Request::PathExists("scp://host1".to_string())));
    assert!(!resolver.supply(Reply::Address(parse_address("scp://other"))));
    assert!(!resolver.supply(Reply::SshConfig(Ok(Vec::new()))));
    assert!(!resolver.supply(Reply::SshConfig(read_hosts(SSH_CONFIG))));
    assert_eq!(resolver.request(), asked);
    assert!(resolver.supply(Reply::PathExists(false)));
    assert!(!resolver.supply(Reply::PathExists(true)));
    assert_eq!(resolver.request(), Some(Request::ParseAddress("scp://host1".to_string())));
    assert!(resolver.supply(Reply::Address(parse_address("scp://host1"))));
    assert_eq!(resolver.request(), None);
    assert!(!resolver.supply(Reply::PathExists(true)));
    assert_eq!(
        resolver.finish(),
        Some(Ok(RemoteArgs {
            host_bridge: Remote::Unspecified,
            remote: host("host1", FileTransferProtocol::Scp, None),
            local_dir: None,
        }))
    );
}

#[test]
fn finish_before_the_end_gives_nothing() {
    let args = Args { positional: strings(&["scp://host1"]), ..Default::default() };
    let resolver = Resolver::new(&args).unwrap();
    assert_eq!(resolver.finish(), None);
}

/// Resolves the single alias token `alias` against the configuration `config`.
fn resolve_alias(alias: &str, config: &str) -> Result<RemoteArgs, ResolveError> {
    let args = Args { ssh_host: strings(&[alias]), ..Default::default() };
    let mut resolver = Resolver::new(&args).unwrap();
    assert!(resolver.supply(Reply::PathExists(false)));
    assert!(resolver.supply(Reply::SshConfig(read_hosts(config))));
    let outcome = resolver.finish().unwrap();
    assert_eq!(
        outcome,
        RemoteArgs::resolve(
            &args,
            |_: &String| false,
            |text: &String| parse_address(text),
            || read_hosts(config),
        )
    );
    outcome
}

fn sftp(address: &str, port: u16, user: Option<&str>) -> Remote {
    Remote::Host(HostParams::new(
        FileTransferParams::new(
            FileTransferProtocol::Sftp,
            GenericProtocolParams::default()
                .address(address.to_string())
                .port(port)
                .username(user.map(|user| user.to_string())),
        ),
        None,
    ))
}

#[test]
fn configuration_is_read_entry_by_entry() {
    let config = "\
Host alpha beta !gamma
    HostName 192.168.1.1
    User root

Host delta
    Port 2200

Host alpha
    HostName shadowed.example
";
    assert_eq!(
        resolve_alias("alpha", config).unwrap().remote,
        sftp("192.168.1.1", 22, Some("root"))
    );
    assert_eq!(
        resolve_alias("beta", config).unwrap().remote,
        sftp("192.168.1.1", 22, Some("root"))
    );
    assert_eq!(resolve_alias("delta", config).unwrap().remote, sftp("delta", 2200, None));
    // A negated pattern names no host.
    assert_eq!(
        resolve_alias("gamma", config),
        Err(ResolveError::SshHostNotFound("gamma".to_string()))
    );
    assert_eq!(
        resolve_alias("!gamma", config),
        Err(ResolveError::SshHostNotFound("!gamma".to_string()))
    );
}

#[test]
fn configuration_with_unknown_fields_is_read() {
    let config = "Host alpha\n    NoSuchOption yes\n    Port 2022\n";
    assert_eq!(resolve_alias("alpha", config).unwrap().remote, sftp("alpha", 2022, None));
}

#[test]
fn configuration_that_does_not_parse_says_why() {
    assert_eq!(
        resolve_alias("alpha", "Host alpha\n    Port 70000\n"),
        Err(ResolveError::SshConfigUnreadable("expected port number".to_string()))
    );
    assert_eq!(
        resolve_alias("alpha", "Host\n"),
        Err(ResolveError::SshConfigUnreadable("missing argument".to_string()))
    );
}

#[test]
fn empty_configuration_has_no_host_to_find() {
    assert_eq!(
        resolve_alias("alpha", ""),
        Err(ResolveError::SshHostNotFound("alpha".to_string()))
    );
}

#[test]
fn surroundings_are_asked_only_when_needed_and_in_order() {
    let asked = RefCell::new(Vec::new());
    let run = |args: &Args| {
        asked.borrow_mut().clear();
        let outcome = RemoteArgs::resolve(
            args,
            |path: &String| {
                asked.borrow_mut().push(format!("exists {path}"));
                path == "dir"
            },
            |text: &String| {
                asked.borrow_mut().push(format!("parse {text}"));
                parse_address(text)
            },
            || {
                asked.borrow_mut().push("ssh".to_string());
                read_hosts(SSH_CONFIG)
            },
        );
        (outcome, asked.borrow().clone())
    };

    let args = Args {
        bookmark: strings(&["dir"]),
        ssh_host: strings(&["myhost"]),
        positional: strings(&["dir"]),
        ..Default::default()
    };
    let (outcome, log) = run(&args);
    assert_eq!(log, vec!["ssh", "exists dir"]);
    let plan = outcome.unwrap();
    assert_eq!(plan.remote, Remote::Bookmark(BookmarkParams::new("dir", None)));
    assert_eq!(plan.local_dir.as_deref(), Some("dir"));

    let args = Args {
        ssh_host: strings(&["myhost", "bare"]),
        positional: strings(&["scp://host1"]),
        ..Default::default()
    };
    let (outcome, log) = run(&args);
    assert_eq!(log, vec!["ssh", "ssh", "exists scp://host1", "parse scp://host1"]);
    assert_eq!(outcome, Ok(RemoteArgs::default()));

    let args = Args {
        ssh_host: strings(&["nowhere"]),
        positional: strings(&["scp://host1", "dir"]),
        ..Default::default()
    };
    let (outcome, log) = run(&args);
    assert_eq!(log, vec!["ssh"]);
    assert_eq!(outcome, Err(ResolveError::SshHostNotFound("nowhere".to_string())));

    let args = Args { bookmark: strings(&["a", "b", "c", "dir"]), ..Default::default() };
    let (outcome, log) = run(&args);
    assert!(log.is_empty());
    assert_eq!(outcome, Err(ResolveError::TooManyArguments));

    let (outcome, log) = run(&Args::default());
    assert!(log.is_empty());
    assert_eq!(outcome, Ok(RemoteArgs::default()));
}
