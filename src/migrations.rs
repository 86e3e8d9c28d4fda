//! The schema migration plan: an ordered list of schema changes, each
//! applied once, in order, with a backup of the store taken before each.

use vstd::prelude::*;
use crate::decimal::{decimal, u64_to_decimal};

verus! {

/// Creates the one-row table that holds the index of the next migration.
pub const META_MIGRATION: &'static str = "CREATE TABLE IF NOT EXISTS meta_migration_schema ( next_migration_idx INTEGER );";

/// The number of migrations.
pub const MIGRATION_COUNT: usize = 18;

/// The statement of migration `idx` (empty past the last one).
pub open spec fn migration_text(idx: nat) -> Seq<char> {
    if idx == 0 {
        "CREATE SEQUENCE seq_scans_id START 1;"@
    } else if idx == 1 {
        "CREATE SEQUENCE seq_scan_dividers_id START 1;"@
    } else if idx == 2 {
        "CREATE TABLE IF NOT EXISTS scans ( id INTEGER PRIMARY KEY DEFAULT nextval('seq_scans_id'), status TEXT NOT NULL, scanner TEXT NOT NULL, scan_parameters TEXT NOT NULL, path TEXT NOT NULL, scanned_at TIMESTAMP NOT NULL );"@
    } else if idx == 3 {
        "CREATE TABLE IF NOT EXISTS scan_dividers ( id INTEGER PRIMARY KEY DEFAULT nextval('seq_scan_dividers_id'), ts TIMESTAMP NOT NULL );"@
    } else if idx == 4 {
        "CREATE SEQUENCE seq_scan_groups_id START 1;"@
    } else if idx == 5 {
        "CREATE TABLE IF NOT EXISTS scan_groups ( id INTEGER PRIMARY KEY DEFAULT nextval('seq_scan_groups_id'), title TEXT NOT NULL );"@
    } else if idx == 6 {
        "ALTER TABLE scans ADD COLUMN scan_group_id INTEGER;"@
    } else if idx == 7 {
        "ALTER TABLE scan_groups ADD COLUMN created_at TIMESTAMP DEFAULT CURRENT_TIMESTAMP;"@
    } else if idx == 8 {
        "ALTER TABLE scan_groups ADD COLUMN updated_at TIMESTAMP DEFAULT CURRENT_TIMESTAMP;"@
    } else if idx == 9 {
        "ALTER TABLE scan_groups ADD COLUMN status TEXT DEFAULT 'scanning';"@
    } else if idx == 10 {
        "ALTER TABLE scan_groups ADD COLUMN comment TEXT DEFAULT '';"@
    } else if idx == 11 {
        "ALTER TABLE scan_groups ADD COLUMN tags TEXT DEFAULT '[]';"@
    } else if idx == 12 {
        "ALTER TABLE scans ADD COLUMN rotation INTEGER DEFAULT 0;"@
    } else if idx == 13 {
        "ALTER TABLE scans ADD COLUMN crop_coordinates TEXT DEFAULT NULL;"@
    } else if idx == 14 {
        "ALTER TABLE scans ADD COLUMN original_path TEXT;"@
    } else if idx == 15 {
        "ALTER TABLE scans ADD COLUMN edited_path TEXT;"@
    } else if idx == 16 {
        "UPDATE scans SET original_path = path WHERE original_path IS NULL;"@
    } else if idx == 17 {
        "INSERT INTO scan_groups (title, status, created_at) SELECT 'Untitled Group ' || d.id, 'scanning', d.ts FROM scan_dividers d WHERE NOT EXISTS ( SELECT 1 FROM scan_groups g WHERE g.created_at = d.ts );"@
    } else {
        Seq::empty()
    }
}

/// The statement of migration `idx`, if there is one.
pub fn migration_sql(idx: usize) -> (r: Option<&'static str>)
    ensures
        r is Some <==> idx < MIGRATION_COUNT,
        r matches Some(t) ==> t@ == migration_text(idx as nat),
{
    match idx {
        0 => Some("CREATE SEQUENCE seq_scans_id START 1;"),
        1 => Some("CREATE SEQUENCE seq_scan_dividers_id START 1;"),
        2 => Some("CREATE TABLE IF NOT EXISTS scans ( id INTEGER PRIMARY KEY DEFAULT nextval('seq_scans_id'), status TEXT NOT NULL, scanner TEXT NOT NULL, scan_parameters TEXT NOT NULL, path TEXT NOT NULL, scanned_at TIMESTAMP NOT NULL );"),
        3 => Some("CREATE TABLE IF NOT EXISTS scan_dividers ( id INTEGER PRIMARY KEY DEFAULT nextval('seq_scan_dividers_id'), ts TIMESTAMP NOT NULL );"),
        4 => Some("CREATE SEQUENCE seq_scan_groups_id START 1;"),
        5 => Some("CREATE TABLE IF NOT EXISTS scan_groups ( id INTEGER PRIMARY KEY DEFAULT nextval('seq_scan_groups_id'), title TEXT NOT NULL );"),
        6 => Some("ALTER TABLE scans ADD COLUMN scan_group_id INTEGER;"),
        7 => Some("ALTER TABLE scan_groups ADD COLUMN created_at TIMESTAMP DEFAULT CURRENT_TIMESTAMP;"),
        8 => Some("ALTER TABLE scan_groups ADD COLUMN updated_at TIMESTAMP DEFAULT CURRENT_TIMESTAMP;"),
        9 => Some("ALTER TABLE scan_groups ADD COLUMN status TEXT DEFAULT 'scanning';"),
        10 => Some("ALTER TABLE scan_groups ADD COLUMN comment TEXT DEFAULT '';"),
        11 => Some("ALTER TABLE scan_groups ADD COLUMN tags TEXT DEFAULT '[]';"),
        12 => Some("ALTER TABLE scans ADD COLUMN rotation INTEGER DEFAULT 0;"),
        13 => Some("ALTER TABLE scans ADD COLUMN crop_coordinates TEXT DEFAULT NULL;"),
        14 => Some("ALTER TABLE scans ADD COLUMN original_path TEXT;"),
        15 => Some("ALTER TABLE scans ADD COLUMN edited_path TEXT;"),
        16 => Some("UPDATE scans SET original_path = path WHERE original_path IS NULL;"),
        17 => Some("INSERT INTO scan_groups (title, status, created_at) SELECT 'Untitled Group ' || d.id, 'scanning', d.ts FROM scan_dividers d WHERE NOT EXISTS ( SELECT 1 FROM scan_groups g WHERE g.created_at = d.ts );"),
        _ => None,
    }
}

/// One step of a migration run.
#[derive(Debug, Clone, Copy, PartialEq, Eq, Structural)]
pub enum MigrationStep {
    /// Copy the whole store aside, tagged with this migration index.
    Backup(usize),
    /// Apply the migration with this index.
    Apply(usize),
    /// Store this value as the index of the next migration.
    SetNextIndex(usize),
}

/// The step at position `i` of the run that starts at migration `next`:
/// three steps per migration.
pub open spec fn step_at(next: nat, i: int) -> MigrationStep {
    let k = (next + i / 3) as usize;
    if i % 3 == 0 {
        MigrationStep::Backup(k)
    } else if i % 3 == 1 {
        MigrationStep::Apply(k)
    } else {
        MigrationStep::SetNextIndex((k + 1) as usize)
    }
}

/// The steps of a run that starts at migration `next`: for each migration
/// from `next` on, in ascending order, a backup, the migration, and the new
/// next index.
pub open spec fn plan_spec(next: nat) -> Seq<MigrationStep> {
    if next >= MIGRATION_COUNT {
        Seq::empty()
    } else {
        Seq::new((3 * (MIGRATION_COUNT - next)) as nat, |i: int| step_at(next, i))
    }
}

/// The next index stored once the steps have run, starting from `next`.
pub open spec fn index_after(next: nat, steps: Seq<MigrationStep>) -> nat
    decreases steps.len(),
{
    if steps.len() == 0 {
        next
    } else {
        match steps.last() {
            MigrationStep::SetNextIndex(k) => k as nat,
            _ => index_after(next, steps.drop_last()),
        }
    }
}

/// The number of migrations the steps apply.
pub open spec fn applied_count(steps: Seq<MigrationStep>) -> nat
    decreases steps.len(),
{
    if steps.len() == 0 {
        0
    } else {
        applied_count(steps.drop_last()) + if steps.last() is Apply {
            1nat
        } else {
            0nat
        }
    }
}

/// Why a migration run cannot start.
#[derive(Debug, Clone, Copy, PartialEq, Eq, Structural)]
pub enum MigrationError {
    /// The stored next index lies beyond the known migrations: the store was
    /// written by a newer schema.
    StoreAhead,
}

/// Where a run starts for the stored next index, and whether the row that
/// holds it has to be created: 0 with a new row when nothing (or no valid
/// index) is stored.
pub open spec fn start_of(stored: Option<i64>) -> Result<(nat, bool), MigrationError> {
    match stored {
        Some(i) => if i < 0 {
            Ok((0nat, true))
        } else if i <= MIGRATION_COUNT {
            Ok((i as nat, false))
        } else {
            Err(MigrationError::StoreAhead)
        },
        None => Ok((0nat, true)),
    }
}

/// The index a run starts from, given the stored one.
pub fn start_index(stored: Option<i64>) -> (r: Result<(usize, bool), MigrationError>)
    ensures
        match r {
            Ok((idx, create)) => start_of(stored) == Ok::<(nat, bool), MigrationError>(
                (idx as nat, create),
            ),
            Err(e) => start_of(stored) == Err::<(nat, bool), MigrationError>(e),
        },
{
    match stored {
        Some(i) => {
            if i < 0 {
                Ok((0, true))
            } else if i <= MIGRATION_COUNT as i64 {
                Ok((i as usize, false))
            } else {
                Err(MigrationError::StoreAhead)
            }
        },
        None => Ok((0, true)),
    }
}

/// The steps of a run that starts at migration `next`.
pub fn plan(next: usize) -> (r: Vec<MigrationStep>)
    ensures
        r@ == plan_spec(next as nat),
{
    let mut r: Vec<MigrationStep> = Vec::new();
    if next >= MIGRATION_COUNT {
        assert(r@ =~= plan_spec(next as nat));
        return r;
    }
    let mut k: usize = next;
    while k < MIGRATION_COUNT
        invariant
            next <= k <= MIGRATION_COUNT,
            r@ =~= Seq::new((3 * (k - next)) as nat, |i: int| step_at(next as nat, i)),
        decreases MIGRATION_COUNT - k,
    {
        let ghost before = r@;
        r.push(MigrationStep::Backup(k));
        r.push(MigrationStep::Apply(k));
        r.push(MigrationStep::SetNextIndex(k + 1));
        proof {
            let n = 3 * (k - next);
            assert forall|i: int| 0 <= i < n + 3 implies r@[i] == step_at(next as nat, i) by {
                if i >= n {
                    assert(i / 3 == k - next);
                }
            }
        }
        k = k + 1;
    }
    r
}

/// A migration is applied right after the backup taken for it, and right
/// before its index is advanced past it; migrations come in ascending order.
pub proof fn lemma_backup_precedes_apply(next: nat)
    ensures
        forall|i: int|
            0 <= i < plan_spec(next).len() && (#[trigger] plan_spec(next)[i]) is Apply ==> 1 <= i
                && plan_spec(next)[i - 1] == MigrationStep::Backup(plan_spec(next)[i]->Apply_0) && i
                + 1 < plan_spec(next).len() && plan_spec(next)[i + 1]
                == MigrationStep::SetNextIndex((plan_spec(next)[i]->Apply_0 + 1) as usize),
        forall|i: int, j: int|
            0 <= i < j < plan_spec(next).len() && (#[trigger] plan_spec(next)[i]) is Apply && (
            #[trigger] plan_spec(next)[j]) is Apply ==> plan_spec(next)[i]->Apply_0 < plan_spec(
                next,
            )[j]->Apply_0,
{
    let p = plan_spec(next);
    assert forall|i: int| 0 <= i < p.len() && (#[trigger] p[i]) is Apply implies 1 <= i && p[i
        - 1] == MigrationStep::Backup(p[i]->Apply_0) && i + 1 < p.len() && p[i + 1]
        == MigrationStep::SetNextIndex((p[i]->Apply_0 + 1) as usize) by {
        assert(i % 3 == 1);
        assert((i - 1) / 3 == i / 3);
        assert((i + 1) / 3 == i / 3);
        assert((i + 1) % 3 == 2);
        assert(p.len() % 3 == 0);
    }
    assert forall|i: int, j: int|
        0 <= i < j < p.len() && (#[trigger] p[i]) is Apply && (#[trigger] p[j]) is Apply implies p[i]->Apply_0
        < p[j]->Apply_0 by {
        assert(i % 3 == 1 && j % 3 == 1);
        assert(i / 3 < j / 3);
    }
}

/// The next index after a full run from `next`, and how many it applies.
pub proof fn lemma_full_run(next: nat)
    requires
        next <= MIGRATION_COUNT,
    ensures
        index_after(next, plan_spec(next)) == MIGRATION_COUNT,
        applied_count(plan_spec(next)) == MIGRATION_COUNT - next,
    decreases MIGRATION_COUNT - next,
{
    if next < MIGRATION_COUNT {
        let p = plan_spec(next);
        let q = plan_spec(next + 1);
        lemma_full_run(next + 1);
        let head = seq![
            MigrationStep::Backup(next as usize),
            MigrationStep::Apply(next as usize),
            MigrationStep::SetNextIndex((next + 1) as usize),
        ];
        assert(p =~= head + q) by {
            assert forall|i: int| 0 <= i < p.len() implies p[i] == (head + q)[i] by {
                if i >= 3 {
                    assert((i - 3) / 3 == i / 3 - 1);
                    assert((i - 3) % 3 == i % 3);
                }
            }
        }
        lemma_run_concat(next, head, q);
        let h2 = head.drop_last();
        let h1 = h2.drop_last();
        assert(h1 =~= seq![MigrationStep::Backup(next as usize)]);
        assert(h1.drop_last() =~= Seq::<MigrationStep>::empty());
        assert(applied_count(h1.drop_last()) == 0);
        assert(!(h1.last() is Apply));
        assert(applied_count(h1) == 0);
        assert(h2.last() is Apply);
        assert(applied_count(h2) == 1);
        assert(index_after(next, head) == next + 1);
        assert(applied_count(head) == 1);
    }
}

proof fn lemma_run_concat(n: nat, a: Seq<MigrationStep>, b: Seq<MigrationStep>)
    ensures
        index_after(n, a + b) == index_after(index_after(n, a), b),
        applied_count(a + b) == applied_count(a) + applied_count(b),
    decreases b.len(),
{
    if b.len() == 0 {
        assert(a + b =~= a);
    } else {
        assert((a + b).last() == b.last());
        assert((a + b).drop_last() =~= a + b.drop_last());
        lemma_run_concat(n, a, b.drop_last());
    }
}

/// Running the migrations twice: whatever the store held, a run that can
/// start leaves the stored next index at the number of migrations, and a
/// second run right after applies nothing and leaves that index unchanged.
pub proof fn lemma_migrate_idempotent(stored: Option<i64>)
    requires
        start_of(stored) is Ok,
    ensures
        ({
            let start = start_of(stored)->Ok_0.0;
            let first = index_after(start, plan_spec(start));
            &&& first == MIGRATION_COUNT
            &&& start_of(Some(first as i64)) == Ok::<(nat, bool), MigrationError>((first, false))
            &&& applied_count(plan_spec(first)) == 0
            &&& index_after(first, plan_spec(first)) == first
        }),
{
    let start = start_of(stored)->Ok_0.0;
    lemma_full_run(start);
    let first = index_after(start, plan_spec(start));
    assert(plan_spec(first) =~= Seq::<MigrationStep>::empty());
}

pub open spec fn backup_suffix(idx: nat) -> Seq<char> {
    seq!['.', 'p', 'r', 'e', '-'] + decimal(idx) + seq!['-', 'b', 'a', 'c', 'k', 'u', 'p']
}

/// Where the store at `db_path` is copied before migration `idx`.
pub fn backup_path(db_path: &str, idx: usize) -> (r: String)
    ensures
        r@ == db_path@ + backup_suffix(idx as nat),
{
    proof {
        reveal_strlit(".pre-");
        reveal_strlit("-backup");
        assert(".pre-"@ =~= seq!['.', 'p', 'r', 'e', '-']);
        assert("-backup"@ =~= seq!['-', 'b', 'a', 'c', 'k', 'u', 'p']);
    }
    let mut s = String::from_str(db_path);
    s.append(".pre-");
    let digits = u64_to_decimal(idx as u64);
    s.append(digits.as_str());
    s.append("-backup");
    assert(s@ =~= db_path@ + backup_suffix(idx as nat));
    s
}

} // verus!
