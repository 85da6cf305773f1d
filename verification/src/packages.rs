//! Installing and initializing packages: the refusals an install makes up
//! front, the credential file a MySQL client authenticates with, the argv of
//! the two `mysqld` runs of an initialization, and the decisions around
//! them.
use vstd::prelude::*;
use crate::databases::{MariadbDatadirStateDto, MysqlDatadirStateDto, MysqlInitOutcomeDto};
use crate::error::{ErrorView, IpcError};
use crate::text::{concat, join_path, list_contains, path_join, views};

verus! {

// ---------------------------------------------------------------------------
// Before an install
// ---------------------------------------------------------------------------

/// Refuses to install a PHP major that is already installed (`installed`
/// lists the installed majors).
pub fn brew_install_precheck(installed: &[String], major: &str) -> (r: Result<(), IpcError>)
    ensures
        !views(installed@).contains(major@) ==> r is Ok,
        views(installed@).contains(major@) ==> (r matches Err(e) && e@ == (ErrorView::Core {
            message: "PHP "@ + major@ + " is already installed"@,
        })),
{
    if list_contains(installed, major) {
        let mut message = concat("PHP ", major);
        message.append(" is already installed");
        Err(IpcError::Core { message })
    } else {
        Ok(())
    }
}

/// `parts` joined with `sep` between each two.
pub open spec fn joined(parts: Seq<Seq<char>>, sep: Seq<char>) -> Seq<char>
    decreases parts.len(),
{
    if parts.len() == 0 {
        Seq::empty()
    } else if parts.len() == 1 {
        parts[0]
    } else {
        joined(parts.drop_last(), sep) + sep + parts.last()
    }
}

/// `parts` joined with `sep` (`[String]::join`).
pub fn join(parts: &[String], sep: &str) -> (r: String)
    ensures
        r@ == joined(views(parts@), sep@),
{
    let mut out = String::new();
    let mut k: usize = 0;
    while k < parts.len()
        invariant
            0 <= k <= parts@.len(),
            out@ == joined(views(parts@.take(k as int)), sep@),
        decreases parts.len() - k,
    {
        let ghost before = views(parts@.take(k as int));
        assert(views(parts@.take(k + 1)) =~= before.push(parts@[k as int]@));
        assert(views(parts@.take(k + 1)).drop_last() =~= before);
        if k > 0 {
            out.append(sep);
        } else {
            assert(out@ + parts@[0]@ =~= parts@[0]@);
        }
        out.append(parts[k].as_str());
        k += 1;
    }
    assert(parts@.take(parts@.len() as int) =~= parts@);
    out
}

/// The refusal given when Homebrew is not found under any of `prefixes`,
/// naming every place that was searched.
pub fn brew_missing_error(prefixes: &[String]) -> (e: IpcError)
    ensures
        e@ == (ErrorView::Core {
            message: "Homebrew was not found. Looked for bin/brew under: "@ + joined(
                views(prefixes@),
                ", "@,
            ),
        }),
{
    let mut message = String::from_str("Homebrew was not found. Looked for bin/brew under: ");
    message.append(join(prefixes, ", ").as_str());
    IpcError::Core { message }
}

/// Where Homebrew was looked for: `bin/brew` under each prefix, in order.
pub fn brew_searched_paths(prefixes: &[String]) -> (r: Vec<String>)
    ensures
        views(r@) == views(prefixes@).map_values(|p: Seq<char>| path_join(p, "bin/brew"@)),
{
    let mut out: Vec<String> = Vec::new();
    let mut k: usize = 0;
    while k < prefixes.len()
        invariant
            0 <= k <= prefixes@.len(),
            views(out@) == views(prefixes@.take(k as int)).map_values(
                |p: Seq<char>| path_join(p, "bin/brew"@),
            ),
        decreases prefixes.len() - k,
    {
        let ghost before = views(prefixes@.take(k as int));
        let ghost old_out = views(out@);
        out.push(join_path(prefixes[k].as_str(), "bin/brew"));
        assert(views(out@) =~= old_out.push(path_join(prefixes@[k as int]@, "bin/brew"@)));
        assert(views(prefixes@.take(k + 1)) =~= before.push(prefixes@[k as int]@));
        assert(before.push(prefixes@[k as int]@).map_values(|p: Seq<char>| path_join(p, "bin/brew"@))
            =~= before.map_values(|p: Seq<char>| path_join(p, "bin/brew"@)).push(
            path_join(prefixes@[k as int]@, "bin/brew"@),
        ));
        k += 1;
    }
    assert(prefixes@.take(prefixes@.len() as int) =~= prefixes@);
    out
}

/// The refusal of a default PHP major that is not installed: a preference
/// for something absent is a state one arrives at by uninstalling, never one
/// that is chosen.
pub fn default_php_precheck(installed: &[String], major: &str) -> (r: Result<(), IpcError>)
    ensures
        views(installed@).contains(major@) ==> r is Ok,
        !views(installed@).contains(major@) ==> (r matches Err(e) && e@
            == (ErrorView::Validation {
            field: "default_major"@,
            message: "PHP "@ + major@ + " is not installed, so it cannot be made the default"@,
        })),
{
    if list_contains(installed, major) {
        Ok(())
    } else {
        let mut message = concat("PHP ", major);
        message.append(" is not installed, so it cannot be made the default");
        Err(crate::error::validation("default_major", message))
    }
}

/// The index of `major` among the cached MySQL runtimes' majors, or the
/// refusal naming it as not installed.
pub fn find_mysql_runtime(majors: &[String], major: &str) -> (r: Result<usize, IpcError>)
    ensures
        match r {
            Ok(i) => i < majors@.len() && majors@[i as int]@ == major@ && forall|j: int|
                0 <= j < i ==> majors@[j]@ != major@,
            Err(e) => !views(majors@).contains(major@) && e@ == (ErrorView::Core {
                message: "MySQL "@ + major@ + " is not installed"@,
            }),
        },
{
    let mut k: usize = 0;
    while k < majors.len()
        invariant
            0 <= k <= majors@.len(),
            forall|j: int| 0 <= j < k ==> majors@[j]@ != major@,
        decreases majors.len() - k,
    {
        if crate::text::str_eq(majors[k].as_str(), major) {
            return Ok(k);
        }
        k += 1;
    }
    assert forall|j: int| 0 <= j < views(majors@).len() implies views(majors@)[j] != major@ by {
        assert(majors@[j]@ != major@);
    }
    let mut message = concat("MySQL ", major);
    message.append(" is not installed");
    Err(IpcError::Core { message })
}

/// The refusal when no MariaDB install was discovered, or the index of the
/// one that was (this build ships a single series).
pub fn find_mariadb_runtime(installed: usize, series: &str) -> (r: Result<usize, IpcError>)
    ensures
        installed > 0 ==> r == Ok::<usize, IpcError>(0),
        installed == 0 ==> (r matches Err(e) && e@ == (ErrorView::Core {
            message: "MariaDB "@ + series@ + " is not installed"@,
        })),
{
    if installed > 0 {
        Ok(0)
    } else {
        let mut message = concat("MariaDB ", series);
        message.append(" is not installed");
        Err(IpcError::Core { message })
    }
}

// ---------------------------------------------------------------------------
// The credential file
// ---------------------------------------------------------------------------

/// `c` is a lowercase hexadecimal digit.
pub open spec fn is_lower_hex(c: char) -> bool {
    ('0' <= c && c <= '9') || ('a' <= c && c <= 'f')
}

/// The lowercase hexadecimal digit for `n`, which is in `0..16`.
pub open spec fn hex_digit(n: int) -> char {
    if n < 10 {
        ('0' as int + n) as char
    } else {
        ('a' as int + (n - 10)) as char
    }
}

/// Byte `i` of a version-4 UUID built from `bytes`: byte 6 carries the
/// version (`4`) in its high nibble, byte 8 the RFC 4122 variant (`10`) in
/// its two high bits, and every other byte is kept.
pub open spec fn v4_byte(bytes: Seq<u8>, i: int) -> int {
    if i == 6 {
        bytes[6] as int % 16 + 0x40
    } else if i == 8 {
        bytes[8] as int % 64 + 0x80
    } else {
        bytes[i] as int
    }
}

/// The simple (unhyphenated, lowercase) text of the version-4 UUID built from
/// the 16 random `bytes`: two hexadecimal digits per byte, high nibble first.
pub open spec fn v4_simple_text(bytes: Seq<u8>) -> Seq<char> {
    Seq::new(
        32,
        |k: int|
            if k % 2 == 0 {
                hex_digit(v4_byte(bytes, k / 2) / 16)
            } else {
                hex_digit(v4_byte(bytes, k / 2) % 16)
            },
    )
}

/// `getrandom::fill` into 16 bytes: the bytes when the operating system's
/// random source answered, `None` when it failed. Nothing is claimed of which
/// bytes come back; two calls may give anything.
#[verifier::external_body]
fn random_bytes() -> (r: Option<[u8; 16]>)
{
    let mut bytes = [0u8; 16];
    match getrandom::fill(&mut bytes) {
        Ok(()) => Some(bytes),
        Err(_) => None,
    }
}

/// `uuid::Builder::from_random_bytes(bytes).into_uuid().simple()` rendered:
/// `bytes` with the version and variant bits set, as 32 lowercase
/// hexadecimal digits.
#[verifier::external_body]
fn uuid_v4_simple(bytes: [u8; 16]) -> (r: String)
    ensures
        r@ == v4_simple_text(bytes@),
{
    uuid::Builder::from_random_bytes(bytes).into_uuid().simple().to_string()
}

/// Every character of a version-4 UUID's simple text is a lowercase
/// hexadecimal digit, and there are 32 of them.
pub proof fn lemma_v4_simple_text_is_lower_hex(bytes: Seq<u8>)
    requires
        bytes.len() == 16,
    ensures
        v4_simple_text(bytes).len() == 32,
        forall|i: int| 0 <= i < 32 ==> is_lower_hex(#[trigger] v4_simple_text(bytes)[i]),
{
    assert forall|i: int| 0 <= i < 32 implies is_lower_hex(#[trigger] v4_simple_text(bytes)[i]) by {
        let b = v4_byte(bytes, i / 2);
        assert(0 <= b < 256);
        assert(0 <= b / 16 < 16);
        assert(0 <= b % 16 < 16);
    }
}

/// The name of an ephemeral credential file for the random `bytes`:
/// `.mysql-defaults-` followed by the simple text of the version-4 UUID they
/// make.
pub fn defaults_file_name_for(bytes: [u8; 16]) -> (r: String)
    ensures
        r@ == ".mysql-defaults-"@ + v4_simple_text(bytes@),
{
    let id = uuid_v4_simple(bytes);
    concat(".mysql-defaults-", id.as_str())
}

/// A fresh name for an ephemeral credential file: `.mysql-defaults-`
/// followed by a random version-4 UUID's 32 lowercase hexadecimal digits, or
/// `None` when the operating system's random source failed.
pub fn defaults_file_name() -> (r: Option<String>)
    ensures
        r matches Some(name) ==> {
            &&& exists|bytes: Seq<u8>|
                bytes.len() == 16 && name@ == ".mysql-defaults-"@ + #[trigger] v4_simple_text(bytes)
            &&& name@.len() == 48
            &&& name@.take(16) == ".mysql-defaults-"@
            &&& forall|i: int| 16 <= i < 48 ==> is_lower_hex(#[trigger] name@[i])
        },
{
    match random_bytes() {
        Some(bytes) => {
            let name = defaults_file_name_for(bytes);
            proof {
                reveal_strlit(".mysql-defaults-");
                lemma_v4_simple_text_is_lower_hex(bytes@);
                assert(name@.take(16) =~= ".mysql-defaults-"@);
                assert forall|i: int| 16 <= i < 48 implies is_lower_hex(#[trigger] name@[i]) by {
                    assert(name@[i] == v4_simple_text(bytes@)[i - 16]);
                }
            }
            Some(name)
        },
        None => None,
    }
}

/// The contents of a credential file authenticating as `root` with
/// `password` over the unix socket `socket`, and pinned to that socket (the
/// client must never fall back to TCP, where a different server may listen).
pub open spec fn defaults_file_text(password: Seq<char>, socket: Seq<char>) -> Seq<char> {
    "[client]\nuser=root\npassword="@ + password + "\nsocket="@ + socket + "\nprotocol=SOCKET\n"@
}

/// The contents of the credential file: see [`defaults_file_text`].
pub fn defaults_file_contents(password: &str, socket: &str) -> (r: String)
    ensures
        r@ == defaults_file_text(password@, socket@),
{
    let mut r = String::from_str("[client]\nuser=root\npassword=");
    r.append(password);
    r.append("\nsocket=");
    r.append(socket);
    r.append("\nprotocol=SOCKET\n");
    r
}

// ---------------------------------------------------------------------------
// The two mysqld runs of an initialization
// ---------------------------------------------------------------------------

/// The arguments of `mysqld --initialize-insecure` into `staging`: no option
/// file at all (nothing a user dropped into the include directory reaches
/// the init), and the X plugin off.
pub open spec fn init_args(staging: Seq<char>) -> Seq<Seq<char>> {
    seq!["--no-defaults"@, "--initialize-insecure"@, "--datadir="@ + staging, "--mysqlx=OFF"@]
}

/// The arguments of the network-less temporary server over `staging`,
/// listening only on `init_socket`: no option file, no TCP, and the X
/// plugin off (it would otherwise bind a world-writable socket and a port
/// while root still has an empty password).
pub open spec fn temp_server_args(staging: Seq<char>, init_socket: Seq<char>) -> Seq<Seq<char>> {
    seq![
        "--no-defaults"@,
        "--datadir="@ + staging,
        "--skip-networking"@,
        "--socket="@ + init_socket,
        "--mysqlx=OFF"@,
    ]
}

/// The argv (after the program) of `mysqld --initialize-insecure`.
pub fn mysqld_init_args(staging: &str) -> (r: Vec<String>)
    ensures
        views(r@) == init_args(staging@),
{
    let mut r: Vec<String> = Vec::new();
    r.push(String::from_str("--no-defaults"));
    r.push(String::from_str("--initialize-insecure"));
    r.push(concat("--datadir=", staging));
    r.push(String::from_str("--mysqlx=OFF"));
    assert(views(r@) =~= init_args(staging@));
    r
}

/// The argv (after the program) of the temporary server.
pub fn mysqld_temp_server_args(staging: &str, init_socket: &str) -> (r: Vec<String>)
    ensures
        views(r@) == temp_server_args(staging@, init_socket@),
{
    let mut r: Vec<String> = Vec::new();
    r.push(String::from_str("--no-defaults"));
    r.push(concat("--datadir=", staging));
    r.push(String::from_str("--skip-networking"));
    r.push(concat("--socket=", init_socket));
    r.push(String::from_str("--mysqlx=OFF"));
    assert(views(r@) =~= temp_server_args(staging@, init_socket@));
    r
}

/// What to do after one readiness probe of the temporary server.
#[derive(Debug, Clone, Copy, PartialEq, Eq, Structural)]
pub enum PollStep {
    /// It answered the ping.
    Ready,
    /// It died on its own, or the deadline passed: stop polling.
    GiveUp,
    /// Wait, then probe again.
    Wait,
}

/// Decides after one probe: ready as soon as the ping answers; otherwise
/// give up when the server has exited or the deadline has passed; otherwise
/// wait and probe again.
pub fn poll_step(pinged: bool, server_exited: bool, past_deadline: bool) -> (r: PollStep)
    ensures
        pinged ==> r == PollStep::Ready,
        !pinged && (server_exited || past_deadline) ==> r == PollStep::GiveUp,
        !pinged && !server_exited && !past_deadline ==> r == PollStep::Wait,
{
    if pinged {
        PollStep::Ready
    } else if server_exited || past_deadline {
        PollStep::GiveUp
    } else {
        PollStep::Wait
    }
}

// ---------------------------------------------------------------------------
// The datadir, before an initialization
// ---------------------------------------------------------------------------

/// The state shown for the datadir at `dir`, given how classifying it went:
/// a directory that could not be inspected is `Foreign`, never the
/// safe-looking `NotInitialized`.
pub fn datadir_state_dto(classified: Result<MysqlDatadirStateDto, String>, dir: &str) -> (r:
    MysqlDatadirStateDto)
    ensures
        match classified {
            Ok(s) => r == s,
            Err(e) => r matches MysqlDatadirStateDto::Foreign { detail } && detail@
                == "could not inspect "@ + dir@ + ": "@ + e@,
        },
{
    match classified {
        Ok(s) => s,
        Err(e) => {
            let mut detail = concat("could not inspect ", dir);
            detail.append(": ");
            detail.append(e.as_str());
            MysqlDatadirStateDto::Foreign { detail }
        },
    }
}

/// The state shown for MariaDB's datadir at `dir`: as for MySQL, one that
/// could not be inspected is `Foreign`.
pub fn mariadb_datadir_state_dto(classified: Result<MariadbDatadirStateDto, String>, dir: &str) -> (r:
    MariadbDatadirStateDto)
    ensures
        match classified {
            Ok(s) => r == s,
            Err(e) => r matches MariadbDatadirStateDto::Foreign { detail } && detail@
                == "could not inspect "@ + dir@ + ": "@ + e@,
        },
{
    match classified {
        Ok(s) => s,
        Err(e) => {
            let mut detail = concat("could not inspect ", dir);
            detail.append(": ");
            detail.append(e.as_str());
            MariadbDatadirStateDto::Foreign { detail }
        },
    }
}

/// The early answer of an initialization, given how classifying the datadir
/// at `dir` went: `None` to proceed (it is empty); an already-initialized or
/// foreign datadir answered at once, with nothing touched; a datadir that
/// could not be inspected refused.
pub fn datadir_gate(classified: Result<MysqlDatadirStateDto, String>, dir: &str) -> (r: Option<
    Result<MysqlInitOutcomeDto, IpcError>,
>)
    ensures
        match classified {
            Ok(MysqlDatadirStateDto::NotInitialized) => r is None,
            Ok(MysqlDatadirStateDto::Initialized) => r matches Some(
                Ok(MysqlInitOutcomeDto::AlreadyInitialized),
            ),
            Ok(MysqlDatadirStateDto::Foreign { detail }) => r matches Some(
                Ok(MysqlInitOutcomeDto::Foreign { detail: d }),
            ) && d@ == detail@,
            Err(e) => r matches Some(Err(x)) && x@ == (ErrorView::Core {
                message: "could not inspect "@ + dir@ + ": "@ + e@,
            }),
        },
{
    match classified {
        Ok(MysqlDatadirStateDto::NotInitialized) => None,
        Ok(MysqlDatadirStateDto::Initialized) => Some(Ok(MysqlInitOutcomeDto::AlreadyInitialized)),
        Ok(MysqlDatadirStateDto::Foreign { detail }) => Some(
            Ok(MysqlInitOutcomeDto::Foreign { detail }),
        ),
        Err(e) => {
            let mut message = concat("could not inspect ", dir);
            message.append(": ");
            message.append(e.as_str());
            Some(Err(IpcError::Core { message }))
        },
    }
}

} // verus!
