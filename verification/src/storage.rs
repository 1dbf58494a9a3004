//! Decisions of the database bootstrap: when to check integrity, when to set a corrupted
//! file aside, what the report says, how a reset ends, and how the schema script is cut
//! into statements.

use vstd::prelude::*;
use crate::text::{
    chars_of, decimal, eq_ignore_ascii_case, lemma_trim_idempotent, lemma_trim_shape,
    str_eq_ignore_ascii_case, string_from_chars, trim, trim_chars, u64_to_decimal,
};

verus! {

/// The database file used when no other path is given.
pub fn default_db_path() -> (p: String)
    ensures
        p@ == "data/job_agent.db"@,
{
    String::from_str("data/job_agent.db")
}

/// Why a database operation failed.
#[derive(Debug)]
pub enum StorageError {
    /// A file-system operation failed; the text describes it.
    Io(String),
    /// The database driver failed; the text describes it.
    Sqlx(String),
    /// The path cannot serve as a database location.
    InvalidPath(String),
    /// The integrity check reported a problem.
    IntegrityFailed { details: String },
    /// A reset did not produce a fresh database; the previous file was kept here.
    RecoveryFailed { backup_path: String },
}

/// What opening or recovering the database did.
#[derive(Debug)]
pub struct DatabaseInitReport {
    pub db_path: String,
    pub created_or_rebuilt: bool,
    pub recovered_from_corruption: bool,
    pub backup_path: Option<String>,
}

/// A report is consistent when recovery happened exactly when a backup exists, and a
/// recovered database counts as rebuilt.
pub open spec fn report_consistent(r: DatabaseInitReport) -> bool {
    &&& r.recovered_from_corruption <==> r.backup_path is Some
    &&& r.recovered_from_corruption ==> r.created_or_rebuilt
}

/// The next piece of outside work that opening the database needs.
#[derive(Debug, PartialEq, Eq, Structural)]
pub enum InitAction {
    /// Run the integrity check on the existing file and record whether it passed.
    CheckHealth,
    /// Move the corrupted file aside and record where it went.
    BackUpCorrupted,
    /// Open (creating if missing), apply the pragmas and the schema, and record success.
    ApplySchema,
    /// Nothing is left to do; the report is ready.
    Finish,
}

/// Progress of opening (and if needed recovering) one database file.
pub struct DatabaseInit {
    db_path: String,
    existed_before: bool,
    health: Option<bool>,
    corrupted_backup: Option<String>,
    schema_applied: bool,
}

/// The action that follows from what is known so far.
pub open spec fn init_action(existed: bool, health: Option<bool>, backup: Option<Seq<char>>, applied: bool) -> InitAction {
    if existed && health is None {
        InitAction::CheckHealth
    } else if existed && health == Some(false) && backup is None {
        InitAction::BackUpCorrupted
    } else if !applied {
        InitAction::ApplySchema
    } else {
        InitAction::Finish
    }
}

impl DatabaseInit {
    /// Facts recorded so far are those the protocol allows: a health result only for a
    /// file that existed, a backup only of an existing file that failed the check.
    #[verifier::type_invariant]
    pub closed spec fn wf(self) -> bool {
        &&& self.health is Some ==> self.existed_before
        &&& self.corrupted_backup is Some ==> self.existed_before && self.health == Some(false)
        &&& self.schema_applied ==> (self.existed_before ==> self.health is Some)
        &&& self.schema_applied ==> (self.existed_before && self.health == Some(false)
            ==> self.corrupted_backup is Some)
    }

    pub closed spec fn path(self) -> Seq<char> {
        self.db_path@
    }

    pub closed spec fn existed(self) -> bool {
        self.existed_before
    }

    pub closed spec fn health(self) -> Option<bool> {
        self.health
    }

    pub closed spec fn backup(self) -> Option<Seq<char>> {
        match self.corrupted_backup {
            Some(b) => Some(b@),
            None => None,
        }
    }

    pub closed spec fn applied(self) -> bool {
        self.schema_applied
    }

    /// Whether the run counts as recovered: the existing file failed the integrity check.
    pub open spec fn recovers(self) -> bool {
        self.existed() && self.health() == Some(false)
    }

    /// Whether the run counts as creating or rebuilding the database: the file was missing,
    /// or it failed the integrity check.
    pub open spec fn rebuilds(self) -> bool {
        !self.existed() || self.health() == Some(false)
    }

    /// The action this progress calls for.
    pub open spec fn action(self) -> InitAction {
        init_action(self.existed(), self.health(), self.backup(), self.applied())
    }

    /// Starts opening `db_path`, given whether the file existed beforehand.
    pub fn new(db_path: String, existed_before: bool) -> (s: Self)
        ensures
            s.path() == db_path@,
            s.existed() == existed_before,
            s.health() is None,
            s.backup() is None,
            !s.applied(),
    {
        DatabaseInit {
            db_path,
            existed_before,
            health: None,
            corrupted_backup: None,
            schema_applied: false,
        }
    }

    /// The next piece of outside work.
    pub fn next_action(&self) -> (a: InitAction)
        ensures
            a == self.action(),
    {
        if self.existed_before && self.health.is_none() {
            InitAction::CheckHealth
        } else if self.existed_before && self.health == Some(false)
            && self.corrupted_backup.is_none() {
            InitAction::BackUpCorrupted
        } else if !self.schema_applied {
            InitAction::ApplySchema
        } else {
            InitAction::Finish
        }
    }

    /// Records the integrity check's verdict; ignored unless a check was due.
    pub fn record_health(&mut self, healthy: bool)
        ensures
            final(self).path() == old(self).path(),
            final(self).existed() == old(self).existed(),
            final(self).backup() == old(self).backup(),
            final(self).applied() == old(self).applied(),
            old(self).action() == InitAction::CheckHealth ==> final(self).health() == Some(healthy),
            old(self).action() != InitAction::CheckHealth ==> final(self).health() == old(self).health(),
    {
        proof {
            use_type_invariant(&*self);
        }
        if self.existed_before && self.health.is_none() {
            self.health = Some(healthy);
        }
    }

    /// Records where the corrupted file was moved; ignored unless a backup was due.
    pub fn record_backup(&mut self, backup_path: String)
        ensures
            final(self).path() == old(self).path(),
            final(self).existed() == old(self).existed(),
            final(self).health() == old(self).health(),
            final(self).applied() == old(self).applied(),
            old(self).action() == InitAction::BackUpCorrupted ==> final(self).backup() == Some(
                backup_path@,
            ),
            old(self).action() != InitAction::BackUpCorrupted ==> final(self).backup() == old(
                self,
            ).backup(),
    {
        proof {
            use_type_invariant(&*self);
        }
        if self.existed_before && self.health == Some(false) && self.corrupted_backup.is_none() {
            self.corrupted_backup = Some(backup_path);
        }
    }

    /// Records that the schema was applied; ignored unless that was the next step.
    pub fn record_schema_applied(&mut self)
        ensures
            final(self).path() == old(self).path(),
            final(self).existed() == old(self).existed(),
            final(self).health() == old(self).health(),
            final(self).backup() == old(self).backup(),
            old(self).action() == InitAction::ApplySchema ==> final(self).applied(),
            old(self).action() != InitAction::ApplySchema ==> final(self).applied() == old(
                self,
            ).applied(),
    {
        proof {
            use_type_invariant(&*self);
        }
        if self.next_action() == InitAction::ApplySchema {
            self.schema_applied = true;
        }
    }

    /// The report, once every step is done: the database counts as created or rebuilt
    /// when it did not exist or was recovered, and it was recovered when the existing
    /// file failed the integrity check and was set aside.
    pub fn report(self) -> (r: Option<DatabaseInitReport>)
        ensures
            self.action() != InitAction::Finish ==> r is None,
            self.action() == InitAction::Finish ==> (r matches Some(rep) && rep.db_path@
                == self.path() && rep.recovered_from_corruption == self.recovers()
                && rep.created_or_rebuilt == self.rebuilds() && rep.backup_path.is_some() == self.backup().is_some() && (
            rep.backup_path matches Some(b) ==> self.backup() == Some(b@)) && report_consistent(
                rep,
            )),
    {
        proof {
            use_type_invariant(&self);
        }
        if self.next_action() != InitAction::Finish {
            return None;
        }
        let recovered = self.corrupted_backup.is_some();
        Some(
            DatabaseInitReport {
                db_path: self.db_path,
                created_or_rebuilt: !self.existed_before || recovered,
                recovered_from_corruption: recovered,
                backup_path: self.corrupted_backup,
            },
        )
    }
}

/// Opening a database file that exists and passes the integrity check (as the file left by
/// an earlier successful opening does while untouched): no backup is ever due, so nothing
/// is moved aside; the schema step comes next until it is done, and then the run is
/// finished; and the report counts nothing as created, rebuilt or recovered and names no
/// backup.
pub proof fn lemma_reopen_healthy(s: DatabaseInit)
    requires
        s.wf(),
        s.existed(),
        s.health() == Some(true),
    ensures
        s.backup() is None,
        s.action() == (if s.applied() { InitAction::Finish } else { InitAction::ApplySchema }),
        !s.rebuilds(),
        !s.recovers(),
{
}

/// How a reset ends once the database was re-initialised: the path when a fresh database
/// was made, otherwise the recovery failure naming the reset backup (or, without one, the
/// database path).
pub fn reset_outcome(db_path: String, reset_backup: Option<String>, report: DatabaseInitReport) -> (r:
    Result<String, StorageError>)
    ensures
        report.created_or_rebuilt ==> (r matches Ok(p) && p@ == report.db_path@),
        !report.created_or_rebuilt ==> (r matches Err(StorageError::RecoveryFailed { backup_path })
            && backup_path@ == (match reset_backup {
            Some(b) => b@,
            None => db_path@,
        })),
{
    if !report.created_or_rebuilt {
        let backup_path = match reset_backup {
            Some(b) => b,
            None => db_path,
        };
        return Err(StorageError::RecoveryFailed { backup_path });
    }
    Ok(report.db_path)
}

/// The directory that holds the database file, or the invalid-path error naming the file
/// (shown as `db_path_text`) when it has none.
pub fn require_parent<T>(db_path_text: &str, parent: Option<T>) -> (r: Result<T, StorageError>)
    ensures
        parent is None ==> (r matches Err(StorageError::InvalidPath(p)) && p@ == db_path_text@),
        parent matches Some(d) ==> r == Ok::<T, StorageError>(d),
{
    match parent {
        Some(d) => Ok(d),
        None => Err(StorageError::InvalidPath(String::from_str(db_path_text))),
    }
}

/// Whether the integrity check's answer means the database is sound: it is `ok` up to ASCII case.
pub fn quick_check_passed(status: &str) -> (b: bool)
    ensures
        b == eq_ignore_ascii_case(status@, "ok"@),
{
    str_eq_ignore_ascii_case(status, "ok")
}

/// The name under which a database file is set aside: `<file>.<suffix>.<seconds>`.
pub fn backup_file_name(file_name: &str, suffix: &str, timestamp_secs: u64) -> (r: String)
    ensures
        r@ == file_name@ + "."@ + suffix@ + "."@ + decimal(timestamp_secs as nat),
{
    let mut r = String::from_str(file_name);
    r.append(".");
    r.append(suffix);
    r.append(".");
    let ts = u64_to_decimal(timestamp_secs);
    r.append(ts.as_str());
    r
}

/// The pieces of `s` between `;` separators, as `str::split(';')` yields them.
pub open spec fn split_semicolons(s: Seq<char>) -> Seq<Seq<char>>
    decreases s.len(),
{
    if s.len() == 0 {
        seq![Seq::<char>::empty()]
    } else {
        let rest = split_semicolons(s.drop_last());
        if s.last() == ';' {
            rest.push(Seq::<char>::empty())
        } else {
            rest.update(rest.len() - 1, rest.last().push(s.last()))
        }
    }
}

/// The trimmed pieces that are not blank, in order.
pub open spec fn keep_statements(pieces: Seq<Seq<char>>) -> Seq<Seq<char>>
    decreases pieces.len(),
{
    if pieces.len() == 0 {
        Seq::<Seq<char>>::empty()
    } else {
        let rest = keep_statements(pieces.drop_last());
        let t = trim(pieces.last());
        if t.len() == 0 {
            rest
        } else {
            rest.push(t)
        }
    }
}

/// The statements of a schema script.
pub open spec fn statements_of(sql: Seq<char>) -> Seq<Seq<char>> {
    keep_statements(split_semicolons(sql))
}

/// Splitting always yields at least one piece, and no piece holds a separator.
pub proof fn lemma_split_semicolons(s: Seq<char>)
    ensures
        split_semicolons(s).len() >= 1,
        forall|i: int| 0 <= i < split_semicolons(s).len() ==> !(#[trigger] split_semicolons(s)[i]).contains(';'),
    decreases s.len(),
{
    if s.len() > 0 {
        lemma_split_semicolons(s.drop_last());
        let rest = split_semicolons(s.drop_last());
        if s.last() != ';' {
            let last = rest.last().push(s.last());
            assert forall|k: int| 0 <= k < last.len() implies last[k] != ';' by {
                if k < rest.last().len() {
                    assert(rest[rest.len() - 1][k] != ';') by {
                        if rest[rest.len() - 1][k] == ';' {
                            assert(rest[rest.len() - 1].contains(';'));
                        }
                    }
                }
            }
        }
        assert forall|i: int| 0 <= i < split_semicolons(s).len() implies !(
        #[trigger] split_semicolons(s)[i]).contains(';') by {
            if s.last() == ';' {
                if i < rest.len() {
                    assert(split_semicolons(s)[i] == rest[i]);
                }
            } else {
                if i < rest.len() - 1 {
                    assert(split_semicolons(s)[i] == rest[i]);
                } else {
                    let last = rest.last().push(s.last());
                    assert(split_semicolons(s)[i] == last);
                    if last.contains(';') {
                        let k = choose|k: int| 0 <= k < last.len() && last[k] == ';';
                        if k < rest.last().len() {
                            assert(rest[rest.len() - 1][k] == ';');
                            assert(rest[rest.len() - 1].contains(';'));
                        }
                    }
                }
            }
        }
    }
}

/// Kept statements are non-empty, trimmed, and free of separators when the pieces are.
pub proof fn lemma_keep_statements(pieces: Seq<Seq<char>>)
    requires
        forall|i: int| 0 <= i < pieces.len() ==> !(#[trigger] pieces[i]).contains(';'),
    ensures
        forall|i: int|
            0 <= i < keep_statements(pieces).len() ==> {
                let st = #[trigger] keep_statements(pieces)[i];
                &&& st.len() > 0
                &&& trim(st) == st
                &&& !st.contains(';')
            },
    decreases pieces.len(),
{
    if pieces.len() > 0 {
        let init = pieces.drop_last();
        assert forall|i: int| 0 <= i < init.len() implies !(#[trigger] init[i]).contains(';') by {
            assert(init[i] == pieces[i]);
        }
        lemma_keep_statements(init);
        let rest = keep_statements(init);
        let p = pieces.last();
        let t = trim(p);
        assert(!pieces[pieces.len() - 1].contains(';'));
        lemma_trim_shape(p);
        lemma_trim_idempotent(p);
        if t.len() > 0 {
            let (a, b) = choose|a: int, b: int| 0 <= a <= b <= p.len() && t == p.subrange(a, b);
            if t.contains(';') {
                let k = choose|k: int| 0 <= k < t.len() && t[k] == ';';
                assert(p[a + k] == ';');
                assert(p.contains(';'));
            }
            assert forall|i: int| 0 <= i < keep_statements(pieces).len() implies {
                let st = #[trigger] keep_statements(pieces)[i];
                &&& st.len() > 0
                &&& trim(st) == st
                &&& !st.contains(';')
            } by {
                if i < rest.len() {
                    assert(keep_statements(pieces)[i] == rest[i]);
                } else {
                    assert(keep_statements(pieces)[i] == t);
                }
            }
        }
    }
}

/// Adding a piece at the end adds its trimmed text as the last statement when it is not
/// blank, and adds nothing when it is: no non-blank piece is ever left out.
pub proof fn lemma_keep_statements_push(pieces: Seq<Seq<char>>, p: Seq<char>)
    ensures
        trim(p).len() > 0 ==> keep_statements(pieces.push(p)) == keep_statements(pieces).push(trim(p)),
        trim(p).len() == 0 ==> keep_statements(pieces.push(p)) == keep_statements(pieces),
{
    assert(pieces.push(p).drop_last() =~= pieces);
}

/// The statements are exactly the trimmed pieces, in order, with the blank ones left out.
pub proof fn lemma_keep_statements_all(pieces: Seq<Seq<char>>)
    ensures
        keep_statements(pieces) == pieces.map_values(|p: Seq<char>| trim(p)).filter(
            |t: Seq<char>| t.len() > 0,
        ),
    decreases pieces.len(),
{
    reveal(Seq::filter);
    let f = |p: Seq<char>| trim(p);
    let keep = |t: Seq<char>| t.len() > 0;
    if pieces.len() > 0 {
        lemma_keep_statements_all(pieces.drop_last());
        assert(pieces.map_values(f).drop_last() =~= pieces.drop_last().map_values(f));
        assert(pieces.map_values(f).last() == trim(pieces.last()));
    } else {
        assert(pieces.map_values(f) =~= Seq::<Seq<char>>::empty());
    }
}

/// The statements of a schema script are all its `;`-separated pieces, trimmed, in
/// order, with the blank ones left out.
pub proof fn lemma_statements_of_script(sql: Seq<char>)
    ensures
        statements_of(sql) == split_semicolons(sql).map_values(|p: Seq<char>| trim(p)).filter(
            |t: Seq<char>| t.len() > 0,
        ),
{
    lemma_keep_statements_all(split_semicolons(sql));
}

/// Every statement of a schema script is non-empty, trimmed and free of `;`.
pub proof fn lemma_statements_clean(sql: Seq<char>)
    ensures
        forall|i: int|
            0 <= i < statements_of(sql).len() ==> {
                let st = #[trigger] statements_of(sql)[i];
                &&& st.len() > 0
                &&& trim(st) == st
                &&& !st.contains(';')
            },
{
    lemma_split_semicolons(sql);
    lemma_keep_statements(split_semicolons(sql));
}

/// The statements of `sql`: the pieces between `;`, trimmed, with blank pieces left out.
pub fn schema_statements(sql: &str) -> (r: Vec<String>)
    ensures
        r@.len() == statements_of(sql@).len(),
        forall|i: int| 0 <= i < r@.len() ==> #[trigger] r@[i]@ == statements_of(sql@)[i],
{
    let v = chars_of(sql);
    let n = v.len();
    let mut out: Vec<String> = Vec::new();
    let mut cur: Vec<char> = Vec::new();
    let ghost mut done: Seq<Seq<char>> = Seq::empty();
    let mut i: usize = 0;
    assert(v@.take(0) =~= Seq::<char>::empty());
    assert(split_semicolons(Seq::<char>::empty()) =~= Seq::<Seq<char>>::empty().push(cur@));
    while i < n
        invariant
            n == v@.len(),
            v@ == sql@,
            i <= n,
            split_semicolons(v@.take(i as int)) == done.push(cur@),
            out@.len() == keep_statements(done).len(),
            forall|k: int| 0 <= k < out@.len() ==> #[trigger] out@[k]@ == keep_statements(done)[k],
        decreases n - i,
    {
        let c = v[i];
        assert(v@.take(i + 1).drop_last() =~= v@.take(i as int));
        if c == ';' {
            let t = trim_chars(&cur);
            proof {
                assert(done.push(cur@).drop_last() =~= done);
            }
            if t.len() > 0 {
                out.push(string_from_chars(&t));
            }
            proof {
                done = done.push(cur@);
            }
            cur = Vec::new();
            assert(split_semicolons(v@.take(i + 1)) =~= done.push(cur@));
        } else {
            let ghost before = cur@;
            cur.push(c);
            assert(split_semicolons(v@.take(i + 1)) =~= done.push(cur@));
        }
        i += 1;
    }
    assert(v@.take(n as int) =~= v@);
    let t = trim_chars(&cur);
    proof {
        assert(done.push(cur@).drop_last() =~= done);
    }
    if t.len() > 0 {
        out.push(string_from_chars(&t));
    }
    out
}

} // verus!
