//! Finding the port and token of a running League client: from the command line of
//! its `LeagueClientUx` process first, else from the lockfile that the client writes.
use crate::text;
use vstd::prelude::*;

verus! {

/// Where and how to reach a running client.
#[derive(Debug, Clone, PartialEq)]
pub struct LcuCredentials {
    pub port: u16,
    pub token: String,
    /// `"process"` or `"lockfile"`: where the credentials were found.
    pub source: &'static str,
}

/// The credentials as plain values.
pub struct CredentialsView {
    pub port: u16,
    pub token: Seq<char>,
    pub source: Seq<char>,
}

impl View for LcuCredentials {
    type V = CredentialsView;

    open spec fn view(&self) -> CredentialsView {
        CredentialsView { port: self.port, token: self.token@, source: self.source@ }
    }
}

/// A running process as the discovery reads it: its name and its command line.
#[derive(Debug, Clone)]
pub struct ProcessInfo {
    pub name: String,
    pub cmd: Vec<String>,
}

/// An optional string by its view.
pub open spec fn opt_view(o: Option<String>) -> Option<Seq<char>> {
    match o {
        Some(s) => Some(s@),
        None => None,
    }
}

/// What follows `prefix` in the first argument that starts with it.
pub open spec fn arg_value(args: Seq<Seq<char>>, prefix: Seq<char>) -> Option<Seq<char>>
    decreases args.len(),
{
    if args.len() == 0 {
        None
    } else if prefix.is_prefix_of(args[0]) {
        Some(args[0].skip(prefix.len() as int))
    } else {
        arg_value(args.drop_first(), prefix)
    }
}

/// The value of the first argument of the form `<prefix><value>`.
pub fn find_arg_value(args: &[String], prefix: &str) -> (r: Option<String>)
    ensures
        opt_view(r) == arg_value(text::views_of(args@), prefix@),
{
    let ghost all = text::views_of(args@);
    let n = args.len();
    let mut i: usize = 0;
    assert(all.skip(0) =~= all);
    while i < n
        invariant
            n == args@.len(),
            all == text::views_of(args@),
            i <= n,
            arg_value(all, prefix@) == arg_value(all.skip(i as int), prefix@),
        decreases n - i,
    {
        assert(all.skip(i as int)[0] == args@[i as int]@);
        if let Some(rest) = text::strip_prefix(args[i].as_str(), prefix) {
            return Some(rest.to_owned());
        }
        assert(all.skip(i as int).drop_first() =~= all.skip(i + 1));
        i = i + 1;
    }
    None
}

/// The names under which the client's process runs, compared without regard to the
/// case of ASCII letters.
pub open spec fn is_client_name(name: Seq<char>) -> bool {
    text::eq_ignore_ascii_case_spec(name, "LeagueClientUx.exe"@)
        || text::eq_ignore_ascii_case_spec(name, "LeagueClientUx"@)
}

/// Whether a process is the League client's UI process.
pub fn is_client_process(name: &str) -> (r: bool)
    ensures
        r == is_client_name(name@),
{
    text::eq_ignore_ascii_case(name, "LeagueClientUx.exe") || text::eq_ignore_ascii_case(
        name,
        "LeagueClientUx",
    )
}

/// The port (`--app-port=`, a 16-bit number) and token (`--remoting-auth-token=`) that a
/// command line carries, when it carries both.
pub open spec fn cmd_credentials(cmd: Seq<Seq<char>>) -> Option<(u16, Seq<char>)> {
    let port = match arg_value(cmd, "--app-port="@) {
        Some(v) => text::u16_of_text(v),
        None => None,
    };
    match (port, arg_value(cmd, "--remoting-auth-token="@)) {
        (Some(p), Some(t)) => Some((p, t)),
        _ => None,
    }
}

/// The port and token of the first client process whose command line carries both.
pub open spec fn process_credentials(procs: Seq<ProcessInfo>) -> Option<(u16, Seq<char>)>
    decreases procs.len(),
{
    if procs.len() == 0 {
        None
    } else if is_client_name(procs[0].name@) && cmd_credentials(
        text::views_of(procs[0].cmd@),
    ) is Some {
        cmd_credentials(text::views_of(procs[0].cmd@))
    } else {
        process_credentials(procs.drop_first())
    }
}

/// `r` holds the port and token `c`, found at `source`; or both are absent.
pub open spec fn found_as(
    r: Option<LcuCredentials>,
    c: Option<(u16, Seq<char>)>,
    source: Seq<char>,
) -> bool {
    match (r, c) {
        (Some(x), Some(pt)) => x@.port == pt.0 && x@.token == pt.1 && x@.source == source,
        (None, None) => true,
        _ => false,
    }
}

/// The port and token on the command line of a client process.
fn credentials_in_cmd(cmd: &[String]) -> (r: Option<(u16, String)>)
    ensures
        match (r, cmd_credentials(text::views_of(cmd@))) {
            (Some(x), Some(pt)) => x.0 == pt.0 && x.1@ == pt.1,
            (None, None) => true,
            _ => false,
        },
{
    let port = match find_arg_value(cmd, "--app-port=") {
        Some(v) => text::parse_u16(v.as_str()),
        None => None,
    };
    let token = find_arg_value(cmd, "--remoting-auth-token=");
    match (port, token) {
        (Some(p), Some(t)) => Some((p, t)),
        _ => None,
    }
}

/// The credentials on the command line of the first client process that carries them.
pub fn from_process(processes: &[ProcessInfo]) -> (r: Option<LcuCredentials>)
    ensures
        found_as(r, process_credentials(processes@), "process"@),
{
    let n = processes.len();
    let mut i: usize = 0;
    assert(processes@.skip(0) =~= processes@);
    while i < n
        invariant
            n == processes@.len(),
            i <= n,
            process_credentials(processes@) == process_credentials(processes@.skip(i as int)),
        decreases n - i,
    {
        let p = &processes[i];
        assert(processes@.skip(i as int)[0] == processes@[i as int]);
        if is_client_process(p.name.as_str()) {
            if let Some((port, token)) = credentials_in_cmd(p.cmd.as_slice()) {
                return Some(LcuCredentials { port, token, source: "process" });
            }
        }
        assert(processes@.skip(i as int).drop_first() =~= processes@.skip(i + 1));
        i = i + 1;
    }
    None
}

/// The lockfiles that the client may have written, at fixed places, in the order they
/// are tried (before the one under the home directory).
pub fn lockfile_candidates() -> (r: Vec<String>)
    ensures
        text::views_of(r@) == seq![
            "C:\\Riot Games\\League of Legends\\lockfile"@,
            "C:\\Program Files\\Riot Games\\League of Legends\\lockfile"@,
            "C:\\Program Files (x86)\\Riot Games\\League of Legends\\lockfile"@,
            "/Applications/League of Legends.app/Contents/LoL/lockfile"@,
        ],
{
    let mut r: Vec<String> = Vec::new();
    r.push("C:\\Riot Games\\League of Legends\\lockfile".to_owned());
    r.push("C:\\Program Files\\Riot Games\\League of Legends\\lockfile".to_owned());
    r.push("C:\\Program Files (x86)\\Riot Games\\League of Legends\\lockfile".to_owned());
    r.push("/Applications/League of Legends.app/Contents/LoL/lockfile".to_owned());
    assert(text::views_of(r@) =~= seq![
        "C:\\Riot Games\\League of Legends\\lockfile"@,
        "C:\\Program Files\\Riot Games\\League of Legends\\lockfile"@,
        "C:\\Program Files (x86)\\Riot Games\\League of Legends\\lockfile"@,
        "/Applications/League of Legends.app/Contents/LoL/lockfile"@,
    ]);
    r
}

/// The path components, below the home directory, of the last lockfile tried.
pub fn home_lockfile_parts() -> (r: Vec<String>)
    ensures
        text::views_of(r@) == seq!["Riot Games"@, "League of Legends"@, "lockfile"@],
{
    let mut r: Vec<String> = Vec::new();
    r.push("Riot Games".to_owned());
    r.push("League of Legends".to_owned());
    r.push("lockfile".to_owned());
    assert(text::views_of(r@) =~= seq!["Riot Games"@, "League of Legends"@, "lockfile"@]);
    r
}

/// The fields of a lockfile: its text, trimmed, split at `':'`.
pub open spec fn lockfile_fields(contents: Seq<char>) -> Seq<Seq<char>> {
    text::split_seq(text::trim_seq(contents, text::TrimSet::Whitespace), ':')
}

/// What one lockfile gives: nothing when it has fewer than four fields (the search goes
/// on), `Some(None)` when its third field is not a port (the search stops empty-handed),
/// else the port of the third field and the token of the fourth.
pub open spec fn lockfile_reading(contents: Seq<char>) -> Option<Option<(u16, Seq<char>)>> {
    let parts = lockfile_fields(contents);
    if parts.len() >= 4 {
        match text::u16_of_text(parts[2]) {
            Some(p) => Some(Some((p, parts[3]))),
            None => Some(None),
        }
    } else {
        None
    }
}

/// Reads the text of a lockfile (`name:pid:port:token:protocol`).
pub fn parse_lockfile(contents: &str) -> (r: Option<Option<(u16, String)>>)
    ensures
        match (r, lockfile_reading(contents@)) {
            (Some(Some(x)), Some(Some(pt))) => x.0 == pt.0 && x.1@ == pt.1,
            (Some(None), Some(None)) => true,
            (None, None) => true,
            _ => false,
        },
{
    let parts = text::split_char(text::trim(contents), ':');
    if parts.len() >= 4 {
        assert(text::views_of(parts@)[2] == parts@[2]@);
        assert(text::views_of(parts@)[3] == parts@[3]@);
        match text::parse_u16(parts[2].as_str()) {
            Some(port) => Some(Some((port, parts[3].clone()))),
            None => Some(None),
        }
    } else {
        None
    }
}

/// The credentials of the lockfiles in turn; a file that could not be read is `None`.
pub open spec fn lockfile_credentials(files: Seq<Option<String>>) -> Option<(u16, Seq<char>)>
    decreases files.len(),
{
    if files.len() == 0 {
        None
    } else {
        match files[0] {
            None => lockfile_credentials(files.drop_first()),
            Some(c) => match lockfile_reading(c@) {
                None => lockfile_credentials(files.drop_first()),
                Some(found) => found,
            },
        }
    }
}

/// The credentials of the first lockfile that has enough fields, given the contents of
/// each candidate lockfile in order (`None` where it is missing or unreadable).
pub fn from_lockfile(lockfiles: &[Option<String>]) -> (r: Option<LcuCredentials>)
    ensures
        found_as(r, lockfile_credentials(lockfiles@), "lockfile"@),
{
    let n = lockfiles.len();
    let mut i: usize = 0;
    assert(lockfiles@.skip(0) =~= lockfiles@);
    while i < n
        invariant
            n == lockfiles@.len(),
            i <= n,
            lockfile_credentials(lockfiles@) == lockfile_credentials(lockfiles@.skip(i as int)),
        decreases n - i,
    {
        assert(lockfiles@.skip(i as int)[0] == lockfiles@[i as int]);
        assert(lockfiles@.skip(i as int).drop_first() =~= lockfiles@.skip(i + 1));
        if let Some(contents) = &lockfiles[i] {
            match parse_lockfile(contents.as_str()) {
                Some(Some((port, token))) => {
                    return Some(LcuCredentials { port, token, source: "lockfile" });
                },
                Some(None) => {
                    return None;
                },
                None => {},
            }
        }
        i = i + 1;
    }
    None
}

/// The credentials of a running client: those of a client process when one carries
/// them, else those of the lockfiles.
pub open spec fn detected(
    r: Option<LcuCredentials>,
    processes: Seq<ProcessInfo>,
    lockfiles: Seq<Option<String>>,
) -> bool {
    if process_credentials(processes) is Some {
        found_as(r, process_credentials(processes), "process"@)
    } else {
        found_as(r, lockfile_credentials(lockfiles), "lockfile"@)
    }
}

/// Detects a running client from the running processes, falling back to the lockfiles.
pub fn detect_lcu(processes: &[ProcessInfo], lockfiles: &[Option<String>]) -> (r: Option<
    LcuCredentials,
>)
    ensures
        detected(r, processes@, lockfiles@),
{
    if let Some(creds) = from_process(processes) {
        return Some(creds);
    }
    from_lockfile(lockfiles)
}

} // verus!

verus! {

/// Processes none of which is the client's (under either name, in any ASCII case) yield
/// no credentials.
pub proof fn lemma_no_client_process_no_credentials(processes: Seq<ProcessInfo>)
    requires
        forall|i: int|
            0 <= i < processes.len() ==> !text::eq_ignore_ascii_case_spec(
                #[trigger] processes[i].name@,
                "LeagueClientUx.exe"@,
            ) && !text::eq_ignore_ascii_case_spec(processes[i].name@, "LeagueClientUx"@),
    ensures
        process_credentials(processes) is None,
    decreases processes.len(),
{
    if processes.len() > 0 {
        let rest = processes.drop_first();
        assert forall|i: int| 0 <= i < rest.len() implies !text::eq_ignore_ascii_case_spec(
            #[trigger] rest[i].name@,
            "LeagueClientUx.exe"@,
        ) && !text::eq_ignore_ascii_case_spec(rest[i].name@, "LeagueClientUx"@) by {
            assert(rest[i] == processes[i + 1]);
        }
        assert(!is_client_name(processes[0].name@));
        lemma_no_client_process_no_credentials(rest);
    }
}

/// The lockfile is the fallback: whenever no process yields the client's credentials,
/// whatever other processes run, the detected credentials are exactly those of the
/// lockfiles, marked as found in a lockfile.
pub proof fn lemma_lockfile_fallback(
    r: Option<LcuCredentials>,
    processes: Seq<ProcessInfo>,
    lockfiles: Seq<Option<String>>,
)
    requires
        detected(r, processes, lockfiles),
        process_credentials(processes) is None,
    ensures
        found_as(r, lockfile_credentials(lockfiles), "lockfile"@),
        r matches Some(c) ==> c.source@ == "lockfile"@,
{
}

/// When no process running is the League client, the client is found through the
/// lockfiles alone: the lockfile credentials are found whenever the lockfiles hold some.
pub proof fn lemma_other_programs_do_not_hide_lockfile(
    r: Option<LcuCredentials>,
    processes: Seq<ProcessInfo>,
    lockfiles: Seq<Option<String>>,
)
    requires
        detected(r, processes, lockfiles),
        forall|i: int|
            0 <= i < processes.len() ==> !text::eq_ignore_ascii_case_spec(
                #[trigger] processes[i].name@,
                "LeagueClientUx.exe"@,
            ) && !text::eq_ignore_ascii_case_spec(processes[i].name@, "LeagueClientUx"@),
    ensures
        r is Some <==> lockfile_credentials(lockfiles) is Some,
        r matches Some(c) ==> c.source@ == "lockfile"@ && Some((c.port, c.token@))
            == lockfile_credentials(lockfiles),
{
    lemma_no_client_process_no_credentials(processes);
}

/// A client process that carries its credentials wins over any lockfile.
pub proof fn lemma_process_first(
    r: Option<LcuCredentials>,
    processes: Seq<ProcessInfo>,
    lockfiles: Seq<Option<String>>,
)
    requires
        detected(r, processes, lockfiles),
        process_credentials(processes) is Some,
    ensures
        r matches Some(c) && c.source@ == "process"@ && Some((c.port, c.token@))
            == process_credentials(processes),
{
}

} // verus!

verus! {

/// The text of the lockfile that the client writes: `name:pid:port:token:protocol`, the
/// port in decimal.
pub open spec fn lockfile_text(
    name: Seq<char>,
    pid: Seq<char>,
    port: u16,
    token: Seq<char>,
    protocol: Seq<char>,
) -> Seq<char> {
    name.push(':') + pid.push(':') + text::decimal_chars(port as nat).push(':') + token.push(':')
        + protocol
}

/// A piece of text without `':'`.
pub open spec fn no_colon(s: Seq<char>) -> bool {
    forall|i: int| 0 <= i < s.len() ==> s[i] != ':'
}

/// The lockfile that the client writes gives its port and token: for every name, process
/// id, port, token and protocol without `':'` (the text not starting or ending in white
/// space), the reading is the port and the token.
pub proof fn lemma_lockfile_gives_port_and_token(
    name: Seq<char>,
    pid: Seq<char>,
    port: u16,
    token: Seq<char>,
    protocol: Seq<char>,
)
    requires
        no_colon(name),
        no_colon(pid),
        no_colon(token),
        no_colon(protocol),
        name.len() > 0,
        protocol.len() > 0,
        !text::is_whitespace_char(name[0]),
        !text::is_whitespace_char(protocol.last()),
    ensures
        lockfile_fields(lockfile_text(name, pid, port, token, protocol)) == seq![
            name,
            pid,
            text::decimal_chars(port as nat),
            token,
            protocol,
        ],
        lockfile_reading(lockfile_text(name, pid, port, token, protocol)) == Some(
            Some((port, token)),
        ),
{
    let dec = text::decimal_chars(port as nat);
    text::lemma_decimal_chars(port as nat);
    text::lemma_parse_u16_of_decimal(port);
    assert forall|i: int| 0 <= i < dec.len() implies dec[i] != ':' by {
        assert(text::is_digit_char(dec[i]));
    }
    let s = lockfile_text(name, pid, port, token, protocol);
    let e = Seq::<char>::empty();
    // The pieces, one separator at a time.
    let p1 = e + name;
    let p2 = p1.push(':');
    let p3 = p2 + pid;
    let p4 = p3.push(':');
    let p5 = p4 + dec;
    let p6 = p5.push(':');
    let p7 = p6 + token;
    let p8 = p7.push(':');
    let p9 = p8 + protocol;
    assert(p9 =~= s);
    assert(s[0] == name[0]);
    assert(s.last() == protocol.last());
    text::lemma_trim_keeps_unpadded(s);
    assert(text::split_seq(e, ':') == seq![e]);
    text::lemma_split_append_text(e, name, ':');
    assert(text::split_seq(p1, ':') =~= seq![name]);
    text::lemma_split_push_separator(p1, ':');
    text::lemma_split_append_text(p2, pid, ':');
    assert(text::split_seq(p3, ':') =~= seq![name, pid]);
    text::lemma_split_push_separator(p3, ':');
    text::lemma_split_append_text(p4, dec, ':');
    assert(text::split_seq(p5, ':') =~= seq![name, pid, dec]);
    text::lemma_split_push_separator(p5, ':');
    text::lemma_split_append_text(p6, token, ':');
    assert(text::split_seq(p7, ':') =~= seq![name, pid, dec, token]);
    text::lemma_split_push_separator(p7, ':');
    text::lemma_split_append_text(p8, protocol, ':');
    assert(text::split_seq(p9, ':') =~= seq![name, pid, dec, token, protocol]);
}

/// The value of an argument is read from the first argument that starts with the
/// prefix: it is that argument without the prefix, and no argument before it starts
/// with the prefix; with no such argument there is no value.
pub proof fn lemma_arg_value_is_first_match(args: Seq<Seq<char>>, prefix: Seq<char>)
    ensures
        arg_value(args, prefix) is None <==> forall|i: int|
            0 <= i < args.len() ==> !prefix.is_prefix_of(#[trigger] args[i]),
        arg_value(args, prefix) matches Some(v) ==> exists|k: int|
            0 <= k < args.len() && prefix.is_prefix_of(#[trigger] args[k]) && v == args[k].skip(
                prefix.len() as int,
            ) && forall|j: int| 0 <= j < k ==> !prefix.is_prefix_of(#[trigger] args[j]),
    decreases args.len(),
{
    if args.len() > 0 {
        let rest = args.drop_first();
        lemma_arg_value_is_first_match(rest, prefix);
        if !prefix.is_prefix_of(args[0]) {
            assert forall|i: int| 0 <= i < rest.len() implies rest[i] == args[i + 1] by {}
            if arg_value(rest, prefix) is None {
                assert forall|i: int| 0 <= i < args.len() implies !prefix.is_prefix_of(
                    #[trigger] args[i],
                ) by {
                    if i > 0 {
                        assert(args[i] == rest[i - 1]);
                    }
                }
            } else {
                let v = arg_value(rest, prefix)->0;
                let k = choose|k: int|
                    0 <= k < rest.len() && prefix.is_prefix_of(#[trigger] rest[k]) && v
                        == rest[k].skip(prefix.len() as int) && forall|j: int|
                        0 <= j < k ==> !prefix.is_prefix_of(#[trigger] rest[j]);
                assert(args[k + 1] == rest[k]);
                assert forall|j: int| 0 <= j < k + 1 implies !prefix.is_prefix_of(
                    #[trigger] args[j],
                ) by {
                    if j > 0 {
                        assert(args[j] == rest[j - 1]);
                    }
                }
                assert(!(forall|i: int| 0 <= i < args.len() ==> !prefix.is_prefix_of(
                    #[trigger] args[i],
                )));
            }
        } else {
            assert(!(forall|i: int| 0 <= i < args.len() ==> !prefix.is_prefix_of(
                #[trigger] args[i],
            )));
        }
    }
}

} // verus!

verus! {

/// The lockfiles are tried in order: missing ones and ones with too few fields are
/// passed over, and the first one with enough fields decides (its credentials, or none
/// when its port field is not a port).
pub proof fn lemma_first_complete_lockfile_decides(files: Seq<Option<String>>, k: int)
    requires
        0 <= k < files.len(),
        forall|j: int|
            0 <= j < k ==> (#[trigger] files[j] matches Some(c) ==> lockfile_reading(c@) is None),
        files[k] matches Some(c) && lockfile_reading(c@) is Some,
    ensures
        lockfile_credentials(files) == lockfile_reading(files[k]->0@)->0,
    decreases k,
{
    if k > 0 {
        let rest = files.drop_first();
        assert(files[0] == files[0]);
        assert forall|j: int| 0 <= j < k - 1 implies (#[trigger] rest[j] matches Some(c)
            ==> lockfile_reading(c@) is None) by {
            assert(rest[j] == files[j + 1]);
        }
        assert(rest[k - 1] == files[k]);
        lemma_first_complete_lockfile_decides(rest, k - 1);
    }
}

/// A client process whose command line carries a port and a token gives them, before
/// any process listed after it.
pub proof fn lemma_client_process_gives_credentials(
    p: ProcessInfo,
    others: Seq<ProcessInfo>,
    port: u16,
    token: Seq<char>,
)
    requires
        is_client_name(p.name@),
        arg_value(text::views_of(p.cmd@), "--app-port="@) == Some(text::decimal_chars(port as nat)),
        arg_value(text::views_of(p.cmd@), "--remoting-auth-token="@) == Some(token),
    ensures
        process_credentials(seq![p] + others) == Some((port, token)),
{
    text::lemma_parse_u16_of_decimal(port);
    assert((seq![p] + others)[0] == p);
}

} // verus!
