//! Command-line argument handling of the daemon and of the service tool.

use vstd::prelude::*;
use crate::storage::default_db_path;
use crate::text::{starts_with, str_equal, str_skip, str_starts_with};

verus! {

/// The position of the first argument equal to `key`, or the length when none is.
pub open spec fn first_index_of(args: Seq<String>, key: Seq<char>) -> int
    decreases args.len(),
{
    if args.len() == 0 {
        0
    } else if args[0]@ == key {
        0
    } else {
        1 + first_index_of(args.drop_first(), key)
    }
}

/// `first_index_of` is the least position holding `key`, or the length.
pub proof fn lemma_first_index_of(args: Seq<String>, key: Seq<char>)
    ensures
        0 <= first_index_of(args, key) <= args.len(),
        first_index_of(args, key) < args.len() ==> args[first_index_of(args, key)]@ == key,
        forall|j: int| 0 <= j < first_index_of(args, key) ==> (#[trigger] args[j])@ != key,
    decreases args.len(),
{
    if args.len() > 0 && args[0]@ != key {
        lemma_first_index_of(args.drop_first(), key);
        assert forall|j: int| 0 <= j < first_index_of(args, key) implies (#[trigger] args[j])@
            != key by {
            if j > 0 {
                assert(args[j] == args.drop_first()[j - 1]);
            }
        }
        if first_index_of(args, key) < args.len() {
            assert(args[first_index_of(args, key)] == args.drop_first()[first_index_of(
                args.drop_first(),
                key,
            )]);
        }
    }
}

/// The value given for `key`: the argument right after its first occurrence, if any.
pub open spec fn arg_value(args: Seq<String>, key: Seq<char>) -> Option<Seq<char>> {
    let i = first_index_of(args, key);
    if i + 1 < args.len() {
        Some(args[i + 1]@)
    } else {
        None
    }
}

/// The argument that follows the first occurrence of `key`.
pub fn parse_arg_value(args: &[String], key: &str) -> (r: Option<String>)
    ensures
        r is Some <==> arg_value(args@, key@) is Some,
        r matches Some(v) ==> arg_value(args@, key@) == Some(v@),
{
    proof {
        lemma_first_index_of(args@, key@);
    }
    let n = args.len();
    let mut i: usize = 0;
    while i < n
        invariant
            n == args@.len(),
            i <= n,
            i <= first_index_of(args@, key@) <= n,
            first_index_of(args@, key@) < n ==> args@[first_index_of(args@, key@)]@ == key@,
            forall|j: int| 0 <= j < first_index_of(args@, key@) ==> (#[trigger] args@[j])@ != key@,
        decreases n - i,
    {
        if str_equal(args[i].as_str(), key) {
            if i + 1 < n {
                return Some(args[i + 1].clone());
            }
            return None;
        }
        i += 1;
    }
    None
}

/// What the daemon was asked to do.
#[derive(Debug)]
pub struct DaemonOptions {
    pub db_path: String,
    pub force_reset: bool,
}

/// The path named by the last `--db-path=` argument, if any.
pub open spec fn daemon_db_path(args: Seq<String>) -> Option<Seq<char>>
    decreases args.len(),
{
    if args.len() == 0 {
        None
    } else {
        let a = args.last()@;
        if a == "--force-reset"@ {
            daemon_db_path(args.drop_last())
        } else if starts_with(a, "--db-path="@) {
            Some(a.skip(10))
        } else {
            daemon_db_path(args.drop_last())
        }
    }
}

/// `--force-reset` is not a `--db-path=` argument.
proof fn lemma_force_reset_names_no_path()
    ensures
        !starts_with("--force-reset"@, "--db-path="@),
{
    reveal_strlit("--force-reset");
    reveal_strlit("--db-path=");
    assert("--force-reset"@.take(10)[2] != "--db-path="@[2]);
}

/// The chosen path is the text after `--db-path=` in the last argument that starts with
/// it, whatever arguments (`--force-reset` among them) stand around or after it; without
/// such an argument no path is chosen.
pub proof fn lemma_daemon_db_path_last(args: Seq<String>)
    ensures
        forall|j: int|
            0 <= j < args.len() && starts_with((#[trigger] args[j])@, "--db-path="@) && (forall|k: int|
                j < k < args.len() ==> !starts_with((#[trigger] args[k])@, "--db-path="@))
                ==> daemon_db_path(args) == Some(args[j]@.skip(10)),
        (forall|k: int| 0 <= k < args.len() ==> !starts_with((#[trigger] args[k])@, "--db-path="@))
            ==> daemon_db_path(args) is None,
    decreases args.len(),
{
    lemma_force_reset_names_no_path();
    if args.len() > 0 {
        let init = args.drop_last();
        lemma_daemon_db_path_last(init);
        let n = args.len() - 1;
        assert forall|j: int|
            0 <= j < args.len() && starts_with((#[trigger] args[j])@, "--db-path="@) && (forall|k: int|
                j < k < args.len() ==> !starts_with((#[trigger] args[k])@, "--db-path="@))
            implies daemon_db_path(args) == Some(args[j]@.skip(10)) by {
            if j < n {
                assert(!starts_with(args[n]@, "--db-path="@));
                assert(init[j] == args[j]);
                assert forall|k: int| j < k < init.len() implies !starts_with(
                    (#[trigger] init[k])@,
                    "--db-path="@,
                ) by {
                    assert(init[k] == args[k]);
                }
            }
        }
        if forall|k: int| 0 <= k < args.len() ==> !starts_with((#[trigger] args[k])@, "--db-path="@) {
            assert forall|k: int| 0 <= k < init.len() implies !starts_with(
                (#[trigger] init[k])@,
                "--db-path="@,
            ) by {
                assert(init[k] == args[k]);
            }
            assert(!starts_with(args[n]@, "--db-path="@));
        }
    }
}

/// A `--force-reset` added after the other arguments leaves the chosen path as it was.
pub proof fn lemma_force_reset_keeps_path(args: Seq<String>, a: String)
    requires
        a@ == "--force-reset"@,
    ensures
        daemon_db_path(args.push(a)) == daemon_db_path(args),
{
    assert(args.push(a).drop_last() =~= args);
}

/// Reads the daemon's arguments (those after the program name): `--force-reset` asks for a
/// reset, and the last `--db-path=<path>` chooses the database, which defaults to
/// `data/job_agent.db`.
pub fn parse_daemon_args(args: &[String]) -> (o: DaemonOptions)
    ensures
        o.force_reset == exists|i: int| 0 <= i < args@.len() && (#[trigger] args@[i])@
            == "--force-reset"@,
        o.db_path@ == (match daemon_db_path(args@) {
            Some(p) => p,
            None => "data/job_agent.db"@,
        }),
{
    let mut db_path: Option<String> = None;
    let mut force_reset = false;
    let n = args.len();
    let mut i: usize = 0;
    proof {
        reveal_strlit("--db-path=");
    }
    assert(args@.take(0) =~= Seq::<String>::empty());
    while i < n
        invariant
            n == args@.len(),
            i <= n,
            "--db-path="@.len() == 10,
            force_reset == exists|j: int| 0 <= j < i && (#[trigger] args@[j])@ == "--force-reset"@,
            match db_path {
                Some(p) => daemon_db_path(args@.take(i as int)) == Some(p@),
                None => daemon_db_path(args@.take(i as int)) is None,
            },
        decreases n - i,
    {
        assert(args@.take(i + 1).drop_last() =~= args@.take(i as int));
        assert(args@.take(i + 1).last() == args@[i as int]);
        let arg = args[i].as_str();
        if str_equal(arg, "--force-reset") {
            force_reset = true;
        } else if str_starts_with(arg, "--db-path=") {
            db_path = Some(str_skip(arg, 10));
        }
        i += 1;
    }
    assert(args@.take(n as int) =~= args@);
    let db_path = match db_path {
        Some(p) => p,
        None => default_db_path(),
    };
    DaemonOptions { db_path, force_reset }
}

/// What the service tool was asked to do.
#[derive(Debug)]
pub enum ServiceCliCommand {
    /// Print the provider with this name, read from the database at `db_path`.
    Get { provider: String, db_path: String },
    /// `get` was given without `--provider <name>`.
    MissingProvider,
    /// Any other command: print the usage line.
    Usage,
}

/// Reads the service tool's arguments (the program name first): `get` needs
/// `--provider <name>` and takes `--db-path <path>`, defaulting to `data/job_agent.db`.
pub fn parse_service_cli_args(args: &[String]) -> (c: ServiceCliCommand)
    ensures
        !(args@.len() > 1 && args@[1]@ == "get"@) ==> c is Usage,
        args@.len() > 1 && args@[1]@ == "get"@ ==> match arg_value(args@, "--provider"@) {
            None => c is MissingProvider,
            Some(p) => (c matches ServiceCliCommand::Get { provider, db_path } && provider@ == p
                && db_path@ == (match arg_value(args@, "--db-path"@) {
                Some(d) => d,
                None => "data/job_agent.db"@,
            })),
        },
{
    if args.len() < 2 || !str_equal(args[1].as_str(), "get") {
        return ServiceCliCommand::Usage;
    }
    let provider = match parse_arg_value(args, "--provider") {
        Some(p) => p,
        None => {
            return ServiceCliCommand::MissingProvider;
        },
    };
    let db_path = match parse_arg_value(args, "--db-path") {
        Some(d) => d,
        None => default_db_path(),
    };
    ServiceCliCommand::Get { provider, db_path }
}

} // verus!
