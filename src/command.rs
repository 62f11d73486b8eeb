use vstd::prelude::*;

verus! {

/// The client binary that the prober runs.
pub const CLIENT_PROGRAM: &'static str = "geph4-client";

/// How to run the client: program, arguments and extra environment, passed
/// to the process as they are (no shell in between).
pub struct ClientCommand {
    pub program: String,
    pub args: Vec<String>,
    pub env: Vec<(String, String)>,
}

/// The local addresses on which the connected client serves.
pub struct ListenAddrs {
    pub http: String,
    pub socks5: String,
    pub stats: String,
}

/// The texts of a list of strings.
pub open spec fn texts(v: Seq<String>) -> Seq<Seq<char>> {
    v.map_values(|a: String| a@)
}

/// The arguments of a `sync` run.
pub open spec fn sync_args(username: Seq<char>, password: Seq<char>) -> Seq<Seq<char>> {
    seq!["sync"@, "--username"@, username, "--password"@, password]
}

/// The arguments of a `connect` run through `exit`, with the credential cache
/// at `cache` where one is given.
pub open spec fn connect_args(
    username: Seq<char>,
    password: Seq<char>,
    exit: Seq<char>,
    http: Seq<char>,
    socks5: Seq<char>,
    stats: Seq<char>,
    cache: Option<Seq<char>>,
) -> Seq<Seq<char>> {
    seq![
        "connect"@, "--username"@, username, "--password"@, password, "--exit-server"@, exit,
        "--http-listen"@, http, "--socks5-listen"@, socks5, "--stats-listen"@, stats,
    ] + match cache {
        Some(c) => seq!["--credential-cache"@, c],
        None => Seq::empty(),
    }
}

fn push_arg(v: &mut Vec<String>, a: &str)
    ensures
        texts(final(v)@) == texts(old(v)@).push(a@),
{
    v.push(a.to_owned());
    assert(texts(final(v)@) =~= texts(old(v)@).push(a@));
}

/// The environment that marks the client as run by the prober.
fn prober_env() -> (r: Vec<(String, String)>)
    ensures
        r@.len() == 1,
        r@[0].0@ == "GEPH_RECURSIVE"@,
        r@[0].1@ == "1"@,
{
    let mut env: Vec<(String, String)> = Vec::new();
    env.push(("GEPH_RECURSIVE".to_owned(), "1".to_owned()));
    env
}

/// The addresses used by default: HTTP on port 10910, SOCKS5 on 10909 and
/// statistics on 10809, all on the loopback interface.
pub fn default_listen() -> (r: ListenAddrs)
    ensures
        r.http@ == "127.0.0.1:10910"@,
        r.socks5@ == "127.0.0.1:10909"@,
        r.stats@ == "127.0.0.1:10809"@,
{
    ListenAddrs {
        http: "127.0.0.1:10910".to_owned(),
        socks5: "127.0.0.1:10909".to_owned(),
        stats: "127.0.0.1:10809".to_owned(),
    }
}

/// The command that asks the client for the account's data and exit lists.
pub fn sync_command(username: &str, password: &str) -> (r: ClientCommand)
    ensures
        r.program@ == CLIENT_PROGRAM@,
        texts(r.args@) == sync_args(username@, password@),
        r.env@.len() == 1,
        r.env@[0].0@ == "GEPH_RECURSIVE"@,
        r.env@[0].1@ == "1"@,
{
    let mut args: Vec<String> = Vec::new();
    push_arg(&mut args, "sync");
    push_arg(&mut args, "--username");
    push_arg(&mut args, username);
    push_arg(&mut args, "--password");
    push_arg(&mut args, password);
    assert(texts(args@) =~= sync_args(username@, password@));
    ClientCommand { program: CLIENT_PROGRAM.to_owned(), args, env: prober_env() }
}

/// The command that connects the client through `exit`, serving on `listen`,
/// with its credential cache at `credential_cache` where one is given.
pub fn connect_command(
    username: &str,
    password: &str,
    exit: &str,
    listen: &ListenAddrs,
    credential_cache: Option<&str>,
) -> (r: ClientCommand)
    ensures
        r.program@ == CLIENT_PROGRAM@,
        texts(r.args@) == connect_args(
            username@,
            password@,
            exit@,
            listen.http@,
            listen.socks5@,
            listen.stats@,
            match credential_cache {
                Some(c) => Some(c@),
                None => None,
            },
        ),
        r.env@.len() == 1,
        r.env@[0].0@ == "GEPH_RECURSIVE"@,
        r.env@[0].1@ == "1"@,
{
    let mut args: Vec<String> = Vec::new();
    push_arg(&mut args, "connect");
    push_arg(&mut args, "--username");
    push_arg(&mut args, username);
    push_arg(&mut args, "--password");
    push_arg(&mut args, password);
    push_arg(&mut args, "--exit-server");
    push_arg(&mut args, exit);
    push_arg(&mut args, "--http-listen");
    push_arg(&mut args, listen.http.as_str());
    push_arg(&mut args, "--socks5-listen");
    push_arg(&mut args, listen.socks5.as_str());
    push_arg(&mut args, "--stats-listen");
    push_arg(&mut args, listen.stats.as_str());
    match credential_cache {
        Some(c) => {
            push_arg(&mut args, "--credential-cache");
            push_arg(&mut args, c);
        },
        None => {},
    }
    assert(texts(args@) =~= connect_args(
        username@,
        password@,
        exit@,
        listen.http@,
        listen.socks5@,
        listen.stats@,
        match credential_cache {
            Some(c) => Some(c@),
            None => None,
        },
    ));
    ClientCommand { program: CLIENT_PROGRAM.to_owned(), args, env: prober_env() }
}

} // verus!
