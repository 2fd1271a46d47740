use vstd::prelude::*;

use crate::model::{DatabaseRecord, NewSnapshot, Snapshot};
use crate::prober::{records_probe, update_db_datas, ProbeResult};

verus! {

/// Why a backup produced no snapshot.
pub enum BackupError {
    /// The fresh probe before the dump failed; holds its diagnostic.
    Connection(String),
    /// The dump utility could not be started or exited with an error.
    Execution(String),
}

impl BackupError {
    /// The human-readable diagnostic.
    pub fn message(&self) -> (r: String)
        ensures
            r@ == error_text(*self),
    {
        match self {
            BackupError::Connection(m) => m.clone(),
            BackupError::Execution(m) => m.clone(),
        }
    }
}

/// The diagnostic that a backup error carries.
pub open spec fn error_text(e: BackupError) -> Seq<char> {
    match e {
        BackupError::Connection(m) => m@,
        BackupError::Execution(m) => m@,
    }
}

/// One run of the dump utility, and the snapshot it yields on success.
pub struct DumpJob {
    pub database_id: String,
    pub timestamp: i64,
    pub manual: bool,
    /// Directory the dump writes into.
    pub output_dir: String,
    /// Arguments of the dump utility.
    pub args: Vec<String>,
}

/// The character of a decimal digit.
pub open spec fn digit_char(d: int) -> char {
    if d == 0 {
        '0'
    } else if d == 1 {
        '1'
    } else if d == 2 {
        '2'
    } else if d == 3 {
        '3'
    } else if d == 4 {
        '4'
    } else if d == 5 {
        '5'
    } else if d == 6 {
        '6'
    } else if d == 7 {
        '7'
    } else if d == 8 {
        '8'
    } else {
        '9'
    }
}

/// Decimal notation of a natural number, without leading zeros.
pub open spec fn decimal(n: nat) -> Seq<char>
    decreases n,
{
    if n < 10 {
        seq![digit_char(n as int)]
    } else {
        decimal(n / 10).push(digit_char((n % 10) as int))
    }
}

/// Decimal notation of an integer, with a leading `-` when negative.
pub open spec fn signed_decimal(n: int) -> Seq<char> {
    if n < 0 {
        seq!['-'] + decimal((-n) as nat)
    } else {
        decimal(n as nat)
    }
}

/// The directory of the snapshot of database `db_id` taken at `timestamp`.
pub open spec fn snapshot_dir_of(db_id: Seq<char>, timestamp: int) -> Seq<char> {
    "db_saves/"@ + db_id + "/"@ + signed_decimal(timestamp)
}

/// The authentication database that the dump uses: `admin` when none is set.
pub open spec fn auth_database_of(given: Seq<char>) -> Seq<char> {
    if given.len() == 0 {
        "admin"@
    } else {
        given
    }
}

/// The arguments of the dump utility: compressed output into `out`, of
/// database `db` at `uri`, authenticating against `auth`.
pub open spec fn dump_args_of(
    out: Seq<char>,
    auth: Seq<char>,
    db: Seq<char>,
    uri: Seq<char>,
) -> Seq<Seq<char>> {
    seq![
        "--out"@,
        out,
        "--gzip"@,
        "--authenticationDatabase"@,
        auth,
        "--db"@,
        db,
        "--uri"@,
        uri,
    ]
}

/// The views of a sequence of strings.
pub open spec fn texts(v: Seq<String>) -> Seq<Seq<char>> {
    v.map_values(|s: String| s@)
}

/// The dump planned for `rec` at time `now`.
pub open spec fn planned_job(rec: DatabaseRecord, manual: bool, now: int, job: DumpJob) -> bool {
    &&& job.database_id == rec.id
    &&& job.timestamp == now
    &&& job.manual == manual
    &&& job.output_dir@ == snapshot_dir_of(rec.id@, now)
    &&& texts(job.args@) == dump_args_of(
        job.output_dir@,
        auth_database_of(rec.authentication_database@),
        rec.name@,
        rec.connection_string@,
    )
}

fn digit_str(d: u64) -> (r: &'static str)
    requires
        d < 10,
    ensures
        r@ == seq![digit_char(d as int)],
{
    if d == 0 {
        proof { reveal_strlit("0"); }
        "0"
    } else if d == 1 {
        proof { reveal_strlit("1"); }
        "1"
    } else if d == 2 {
        proof { reveal_strlit("2"); }
        "2"
    } else if d == 3 {
        proof { reveal_strlit("3"); }
        "3"
    } else if d == 4 {
        proof { reveal_strlit("4"); }
        "4"
    } else if d == 5 {
        proof { reveal_strlit("5"); }
        "5"
    } else if d == 6 {
        proof { reveal_strlit("6"); }
        "6"
    } else if d == 7 {
        proof { reveal_strlit("7"); }
        "7"
    } else if d == 8 {
        proof { reveal_strlit("8"); }
        "8"
    } else {
        proof { reveal_strlit("9"); }
        "9"
    }
}

fn append_decimal(out: &mut String, n: u64)
    ensures
        final(out)@ == old(out)@ + decimal(n as nat),
    decreases n,
{
    if n >= 10 {
        append_decimal(out, n / 10);
    }
    out.append(digit_str(n % 10));
    proof {
        if n >= 10 {
            assert(decimal(n as nat) == decimal((n / 10) as nat).push(digit_char((n % 10) as int)));
            assert(out@ =~= old(out)@ + decimal(n as nat));
        } else {
            assert(out@ =~= old(out)@ + decimal(n as nat));
        }
    }
}

/// Appends the decimal notation of `n` to `out`.
pub fn append_signed_decimal(out: &mut String, n: i64)
    ensures
        final(out)@ == old(out)@ + signed_decimal(n as int),
{
    if n < 0 {
        out.append("-");
        proof { reveal_strlit("-"); }
        append_decimal(out, (-(n as i128)) as u64);
        assert(out@ =~= old(out)@ + signed_decimal(n as int));
    } else {
        append_decimal(out, n as u64);
    }
}

/// The directory that holds the snapshot of database `db_id` taken at
/// `timestamp`: `db_saves/{db_id}/{timestamp}`.
pub fn snapshot_dir(db_id: &String, timestamp: i64) -> (r: String)
    ensures
        r@ == snapshot_dir_of(db_id@, timestamp as int),
{
    let mut out = String::from_str("db_saves/");
    out.append(db_id.as_str());
    out.append("/");
    append_signed_decimal(&mut out, timestamp);
    assert(out@ =~= snapshot_dir_of(db_id@, timestamp as int));
    out
}

/// Plans the dump of `rec` started at `now` (milliseconds since the epoch).
pub fn save_db(rec: &DatabaseRecord, manual: bool, now: i64) -> (r: DumpJob)
    ensures
        planned_job(*rec, manual, now as int, r),
{
    let output_dir = snapshot_dir(&rec.id, now);
    let auth = if rec.authentication_database.as_str().unicode_len() == 0 {
        String::from_str("admin")
    } else {
        rec.authentication_database.clone()
    };
    let mut args: Vec<String> = Vec::new();
    args.push(String::from_str("--out"));
    args.push(output_dir.clone());
    args.push(String::from_str("--gzip"));
    args.push(String::from_str("--authenticationDatabase"));
    args.push(auth);
    args.push(String::from_str("--db"));
    args.push(rec.name.clone());
    args.push(String::from_str("--uri"));
    args.push(rec.connection_string.clone());
    let job = DumpJob {
        database_id: rec.id.clone(),
        timestamp: now,
        manual,
        output_dir,
        args,
    };
    assert(texts(job.args@) =~= dump_args_of(
        job.output_dir@,
        auth_database_of(rec.authentication_database@),
        rec.name@,
        rec.connection_string@,
    ));
    job
}

/// Records a fresh probe of `rec` and, when it reached the database, plans the
/// dump started at `now`. An unreachable database yields the probe's
/// diagnostic as a connection error, and nothing to dump.
pub fn secure_save_db(
    rec: &mut DatabaseRecord,
    probe: &ProbeResult,
    manual: bool,
    now: i64,
) -> (r: Result<DumpJob, BackupError>)
    ensures
        records_probe(*old(rec), *probe, *final(rec)),
        r is Ok <==> probe.reachable,
        r matches Ok(job) ==> planned_job(*final(rec), manual, now as int, job),
        r matches Err(e) ==> e is Connection && error_text(e) == probe.error@,
{
    let _ = update_db_datas(rec, probe);
    if probe.reachable {
        Ok(save_db(rec, manual, now))
    } else {
        Err(BackupError::Connection(probe.error.clone()))
    }
}

/// The diagnostic of a failed dump.
pub open spec fn dump_failure_message(output: Seq<char>) -> Seq<char> {
    "Error while saving db: "@ + output
}

/// Settles a dump from what the process reported: `Ok` when it exited with
/// success, else its diagnostic output. A successful dump yields the snapshot
/// to store and becomes the record's last save.
pub fn finish_backup(
    rec: &mut DatabaseRecord,
    job: &DumpJob,
    outcome: &Result<(), String>,
) -> (r: Result<NewSnapshot, BackupError>)
    ensures
        r is Ok <==> outcome is Ok,
        r matches Ok(s) ==> s.database_id == job.database_id && s.timestamp == job.timestamp
            && s.manual == job.manual,
        r matches Ok(_) ==> final(rec).last_save == Some(job.timestamp),
        outcome matches Err(out) ==> r matches Err(e) && e is Execution && error_text(e)
            == dump_failure_message(out@),
        final(rec).id == old(rec).id,
        final(rec).name == old(rec).name,
        final(rec).custom_name == old(rec).custom_name,
        final(rec).connection_string == old(rec).connection_string,
        final(rec).authentication_database == old(rec).authentication_database,
        final(rec).status == old(rec).status,
        final(rec).collections == old(rec).collections,
        final(rec).message == old(rec).message,
        r is Err ==> final(rec).last_save == old(rec).last_save,
{
    match outcome {
        Ok(()) => {
            rec.last_save = Some(job.timestamp);
            Ok(
                NewSnapshot {
                    database_id: job.database_id.clone(),
                    timestamp: job.timestamp,
                    manual: job.manual,
                },
            )
        },
        Err(out) => {
            let mut message = String::from_str("Error while saving db: ");
            message.append(out.as_str());
            Err(BackupError::Execution(message))
        },
    }
}

/// The directory to remove along with `save`: the one its dump wrote into.
pub fn delete_save(save: &Snapshot) -> (r: String)
    ensures
        r@ == snapshot_dir_of(save.database_id@, save.timestamp as int),
{
    snapshot_dir(&save.database_id, save.timestamp)
}

/// A database id that can name one level of the snapshot tree.
pub open spec fn plain_segment(id: Seq<char>) -> bool {
    forall|i: int| 0 <= i < id.len() ==> id[i] != '/'
}

/// A decimal numeral is non-empty and made of digits only.
pub proof fn lemma_decimal_digits(n: nat)
    ensures
        decimal(n).len() >= 1,
        n >= 10 ==> decimal(n).len() >= 2,
        forall|i: int| 0 <= i < decimal(n).len() ==> decimal(n)[i] != '/' && decimal(n)[i] != '-',
    decreases n,
{
    if n >= 10 {
        lemma_decimal_digits(n / 10);
    }
}

/// Distinct digits have distinct characters.
pub proof fn lemma_digit_char_injective(x: int, y: int)
    requires
        0 <= x < 10,
        0 <= y < 10,
        digit_char(x) == digit_char(y),
    ensures
        x == y,
{
}

/// Distinct numbers have distinct decimal numerals.
pub proof fn lemma_decimal_injective(a: nat, b: nat)
    requires
        decimal(a) == decimal(b),
    ensures
        a == b,
    decreases a + b,
{
    lemma_decimal_digits(a);
    lemma_decimal_digits(b);
    if a >= 10 && b >= 10 {
        assert(decimal(a).last() == digit_char((a % 10) as int));
        assert(decimal(b).last() == digit_char((b % 10) as int));
        assert(decimal(a).drop_last() =~= decimal(a / 10));
        assert(decimal(b).drop_last() =~= decimal(b / 10));
        lemma_decimal_injective(a / 10, b / 10);
        lemma_digit_char_injective((a % 10) as int, (b % 10) as int);
        assert(a == (a / 10) * 10 + a % 10);
        assert(b == (b / 10) * 10 + b % 10);
    } else if a < 10 && b < 10 {
        assert(decimal(a) == seq![digit_char(a as int)]);
        assert(decimal(b) == seq![digit_char(b as int)]);
        assert(seq![digit_char(a as int)][0] == digit_char(a as int));
        assert(seq![digit_char(b as int)][0] == digit_char(b as int));
        assert(decimal(a)[0] == decimal(b)[0]);
        lemma_digit_char_injective(a as int, b as int);
    }
}

/// Distinct integers have distinct signed numerals, which hold no `/`.
pub proof fn lemma_signed_decimal(a: int, b: int)
    ensures
        forall|i: int| 0 <= i < signed_decimal(a).len() ==> signed_decimal(a)[i] != '/',
        signed_decimal(a) == signed_decimal(b) ==> a == b,
{
    lemma_decimal_digits((-a) as nat);
    lemma_decimal_digits(a as nat);
    lemma_decimal_digits((-b) as nat);
    lemma_decimal_digits(b as nat);
    assert forall|i: int| 0 <= i < signed_decimal(a).len() implies signed_decimal(a)[i] != '/' by {
        if a < 0 && i > 0 {
            assert(signed_decimal(a)[i] == decimal((-a) as nat)[i - 1]);
        }
    }
    if signed_decimal(a) == signed_decimal(b) {
        if a < 0 && b < 0 {
            assert(decimal((-a) as nat) =~= signed_decimal(a).subrange(1, signed_decimal(a).len() as int));
            assert(decimal((-b) as nat) =~= signed_decimal(b).subrange(1, signed_decimal(b).len() as int));
            lemma_decimal_injective((-a) as nat, (-b) as nat);
        } else if a >= 0 && b >= 0 {
            lemma_decimal_injective(a as nat, b as nat);
        } else if a < 0 {
            assert(signed_decimal(a)[0] == '-');
            assert(signed_decimal(b)[0] == decimal(b as nat)[0]);
        } else {
            assert(signed_decimal(b)[0] == '-');
            assert(signed_decimal(a)[0] == decimal(a as nat)[0]);
        }
    }
}

/// Each snapshot has a directory of its own: two snapshots share a directory
/// only when they belong to the same database and have the same timestamp.
pub proof fn lemma_snapshot_dir_unique(a_id: Seq<char>, a_time: int, b_id: Seq<char>, b_time: int)
    requires
        plain_segment(a_id),
        plain_segment(b_id),
        snapshot_dir_of(a_id, a_time) == snapshot_dir_of(b_id, b_time),
    ensures
        a_id == b_id,
        a_time == b_time,
{
    let pre = "db_saves/"@;
    let sa = signed_decimal(a_time);
    let sb = signed_decimal(b_time);
    let x = a_id + "/"@ + sa;
    let y = b_id + "/"@ + sb;
    reveal_strlit("/");
    assert(snapshot_dir_of(a_id, a_time) =~= pre + x);
    assert(snapshot_dir_of(b_id, b_time) =~= pre + y);
    assert(x =~= (pre + x).subrange(pre.len() as int, (pre + x).len() as int));
    assert(y =~= (pre + y).subrange(pre.len() as int, (pre + y).len() as int));
    assert(x == y);
    if a_id.len() < b_id.len() {
        assert(x[a_id.len() as int] == '/');
        assert(y[a_id.len() as int] == b_id[a_id.len() as int]);
    } else if b_id.len() < a_id.len() {
        assert(y[b_id.len() as int] == '/');
        assert(x[b_id.len() as int] == a_id[b_id.len() as int]);
    }
    assert(a_id.len() == b_id.len());
    assert(a_id =~= x.subrange(0, a_id.len() as int));
    assert(b_id =~= y.subrange(0, b_id.len() as int));
    assert(sa =~= x.subrange(a_id.len() as int + 1, x.len() as int));
    assert(sb =~= y.subrange(b_id.len() as int + 1, y.len() as int));
    lemma_signed_decimal(a_time, b_time);
}

} // verus!
