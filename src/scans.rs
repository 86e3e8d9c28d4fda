//! Scan records and scan groups, and the changes the job lifecycle makes to them.

use vstd::prelude::*;
use crate::asset_path::{base_name_of, AssetPath};
use crate::allocator::{allocate, candidate_name, is_first_free, names_view, scan_path};
use crate::decimal::{i32_to_decimal, signed_decimal};

verus! {

/// Where a scan job stands.
#[derive(Debug, Clone, Copy, PartialEq, Eq, Structural)]
pub enum ScanStatus {
    Pending,
    Complete,
    Failed,
}

pub open spec fn status_text(s: ScanStatus) -> Seq<char> {
    match s {
        ScanStatus::Pending => seq!['P', 'E', 'N', 'D', 'I', 'N', 'G'],
        ScanStatus::Complete => seq!['C', 'O', 'M', 'P', 'L', 'E', 'T', 'E'],
        ScanStatus::Failed => seq!['F', 'A', 'I', 'L', 'E', 'D'],
    }
}

impl ScanStatus {
    /// The text under which the status is stored.
    pub fn as_str(&self) -> (r: &'static str)
        ensures
            r@ == status_text(*self),
    {
        proof {
            reveal_strlit("PENDING");
            reveal_strlit("COMPLETE");
            reveal_strlit("FAILED");
        }
        match self {
            ScanStatus::Pending => "PENDING",
            ScanStatus::Complete => "COMPLETE",
            ScanStatus::Failed => "FAILED",
        }
    }

    /// The status stored under `text`, if any.
    pub fn from_text(text: &String) -> (r: Option<ScanStatus>)
        ensures
            r matches Some(s) ==> status_text(s) == text@,
            r is None ==> forall|s: ScanStatus| status_text(s) != text@,
    {
        let pending = String::from_str(ScanStatus::Pending.as_str());
        let complete = String::from_str(ScanStatus::Complete.as_str());
        let failed = String::from_str(ScanStatus::Failed.as_str());
        if *text == pending {
            Some(ScanStatus::Pending)
        } else if *text == complete {
            Some(ScanStatus::Complete)
        } else if *text == failed {
            Some(ScanStatus::Failed)
        } else {
            proof {
                assert forall|s: ScanStatus| status_text(s) != text@ by {
                    match s {
                        ScanStatus::Pending => {},
                        ScanStatus::Complete => {},
                        ScanStatus::Failed => {},
                    }
                }
            }
            None
        }
    }
}

/// Relies on chrono's `Utc::now`: the current time, in microseconds since
/// the Unix epoch. Nothing is promised of its value.
#[verifier::external_body]
fn utc_now_micros() -> (r: i64) {
    chrono::Utc::now().timestamp_micros()
}

/// A named collection of scans.
#[derive(Debug, Clone)]
pub struct ScanGroup {
    /// 0 until the group is first stored.
    pub id: i32,
    pub title: String,
    /// Microseconds since the Unix epoch.
    pub created_at: i64,
    /// Microseconds since the Unix epoch.
    pub updated_at: i64,
    pub status: String,
    pub comment: String,
    pub tags: Vec<String>,
}

impl ScanGroup {
    /// A group not yet stored, created now.
    pub fn create(title: String, status: String) -> (r: Self)
        ensures
            r.id == 0,
            r.title@ == title@,
            r.status@ == status@,
            r.created_at == r.updated_at,
            r.comment@.len() == 0,
            r.tags@.len() == 0,
    {
        let now = utc_now_micros();
        ScanGroup {
            id: 0,
            title,
            created_at: now,
            updated_at: now,
            status,
            comment: String::new(),
            tags: Vec::new(),
        }
    }

    /// Whether the group still has to be inserted rather than updated.
    pub fn is_new(&self) -> (r: bool)
        ensures
            r == (self.id == 0),
    {
        self.id == 0
    }

    /// Records the time of a save.
    pub fn touch(&mut self, now: i64)
        ensures
            final(self).updated_at == now,
            final(self).id == old(self).id,
            final(self).title == old(self).title,
            final(self).created_at == old(self).created_at,
            final(self).status == old(self).status,
            final(self).comment == old(self).comment,
            final(self).tags == old(self).tags,
    {
        self.updated_at = now;
    }

    /// Replaces each field for which a new value is given.
    pub fn apply_update(
        &mut self,
        title: Option<String>,
        status: Option<String>,
        comment: Option<String>,
        tags: Option<Vec<String>>,
    )
        ensures
            final(self).id == old(self).id,
            final(self).created_at == old(self).created_at,
            final(self).updated_at == old(self).updated_at,
            final(self).title == (match title {
                Some(t) => t,
                None => old(self).title,
            }),
            final(self).status == (match status {
                Some(t) => t,
                None => old(self).status,
            }),
            final(self).comment == (match comment {
                Some(t) => t,
                None => old(self).comment,
            }),
            final(self).tags == (match tags {
                Some(t) => t,
                None => old(self).tags,
            }),
    {
        if let Some(t) = title {
            self.title = t;
        }
        if let Some(s) = status {
            self.status = s;
        }
        if let Some(c) = comment {
            self.comment = c;
        }
        if let Some(t) = tags {
            self.tags = t;
        }
    }
}

/// Device-specific scan options: pairs of option name and value.
pub type ScanParameters = Vec<(String, String)>;

/// No option name occurs twice.
pub open spec fn keys_unique(p: Seq<(String, String)>) -> bool {
    forall|i: int, j: int| 0 <= i < p.len() && 0 <= j < p.len() && i != j ==> p[i].0@ != p[j].0@
}

/// Whether no option name occurs twice.
pub fn keys_are_unique(p: &ScanParameters) -> (r: bool)
    ensures
        r == keys_unique(p@),
{
    let mut i: usize = 0;
    while i < p.len()
        invariant
            i <= p@.len(),
            forall|a: int, b: int| 0 <= a < i && 0 <= b < p@.len() && a != b ==> p@[a].0@ != p@[b].0@,
        decreases p@.len() - i,
    {
        let mut j: usize = 0;
        while j < p.len()
            invariant
                i < p@.len(),
                j <= p@.len(),
                forall|a: int, b: int| 0 <= a < i && 0 <= b < p@.len() && a != b ==> p@[a].0@ != p@[b].0@,
                forall|b: int| 0 <= b < j && b != i ==> p@[i as int].0@ != p@[b].0@,
            decreases p@.len() - j,
        {
            if j != i && p[i].0 == p[j].0 {
                return false;
            }
            j = j + 1;
        }
        i = i + 1;
    }
    true
}

/// Errors of operations on scan records.
#[derive(Debug, Clone, Copy, PartialEq, Eq, Structural)]
pub enum ScanError {
    /// The record has not been stored yet, so it has no identifier.
    NotSaved,
    /// The scan options are not a JSON object of strings.
    BadParameters,
}

/// One scan job and the image it produced.
#[derive(Debug, Clone)]
pub struct Scan {
    /// Assigned by the store on first save.
    pub id: Option<i32>,
    pub status: ScanStatus,
    /// Microseconds since the Unix epoch.
    pub scanned_at: i64,
    pub scanner: String,
    pub scan_parameters: ScanParameters,
    /// Where the most recent image for this record is.
    pub path: AssetPath,
    pub group: Option<ScanGroup>,
    /// Degrees: 0, 90, 180 or 270.
    pub rotation: i32,
    pub crop_coordinates: Option<String>,
    /// The path of the first image; never replaced once set.
    pub original_path: Option<AssetPath>,
    pub edited_path: Option<AssetPath>,
}

/// The placeholder path of a scan whose output has not been allocated yet.
pub open spec fn placeholder_path() -> Seq<char> {
    seq!['s', 'c', 'a', 'n', 's', '/', 't', 'm', 'p', '.', 'p', 'n', 'g']
}

/// The base name of the output file of job `id`: the base name of the first
/// image for a rescan, the identifier for a first scan.
pub open spec fn job_base_name(original: Option<AssetPath>, id: int) -> Seq<char> {
    match original {
        Some(p) => base_name_of(p@),
        None => signed_decimal(id),
    }
}

/// The rotation `degrees` as one of the right angles 0, 90, 180, 270: brought
/// into `0..360`, then rounded down to a multiple of 90.
pub open spec fn normalized_rotation(degrees: int) -> int {
    (degrees % 360) / 90 * 90
}

/// A rotation the record can hold.
pub open spec fn is_right_angle(r: int) -> bool {
    r == 0 || r == 90 || r == 180 || r == 270
}

impl Scan {
    /// The record's validity: option names are distinct and the rotation is
    /// a right angle.
    pub open spec fn wf(&self) -> bool {
        &&& keys_unique(self.scan_parameters@)
        &&& is_right_angle(self.rotation as int)
    }

    /// A record not yet stored, with no rotation, crop, group or edited image.
    pub fn new(
        status: ScanStatus,
        path: String,
        scanner: String,
        scan_parameters: ScanParameters,
        scanned_at: i64,
    ) -> (r: Self)
        requires
            keys_unique(scan_parameters@),
        ensures
            r.wf(),
            r.id is None,
            r.status == status,
            r.path@ == path@,
            r.scanner == scanner,
            r.scan_parameters == scan_parameters,
            r.scanned_at == scanned_at,
            r.group is None,
            r.rotation == 0,
            r.crop_coordinates is None,
            r.original_path is None,
            r.edited_path is None,
    {
        Scan {
            id: None,
            status,
            scanned_at,
            scanner,
            scan_parameters,
            path: AssetPath::from_relative_path(path),
            group: None,
            rotation: 0,
            crop_coordinates: None,
            original_path: None,
            edited_path: None,
        }
    }

    /// A new pending job for `scanner`, with the placeholder output path.
    pub fn pending(scanner: String, scan_parameters: ScanParameters, scanned_at: i64) -> (r: Self)
        requires
            keys_unique(scan_parameters@),
        ensures
            r.wf(),
            r.id is None,
            r.status == ScanStatus::Pending,
            r.path@ == placeholder_path(),
            r.scanner == scanner,
            r.scan_parameters == scan_parameters,
            r.scanned_at == scanned_at,
            r.group is None,
            r.rotation == 0,
            r.crop_coordinates is None,
            r.original_path is None,
            r.edited_path is None,
    {
        proof {
            reveal_strlit("scans/tmp.png");
            assert("scans/tmp.png"@ =~= placeholder_path());
        }
        Scan::new(
            ScanStatus::Pending,
            String::from_str("scans/tmp.png"),
            scanner,
            scan_parameters,
            scanned_at,
        )
    }

    /// Puts a finished job back into the queue, for `scanner` with new options.
    pub fn reset_for_retry(&mut self, scanner: String, scan_parameters: ScanParameters)
        requires
            keys_unique(scan_parameters@),
        ensures
            old(self).wf() ==> final(self).wf(),
            final(self).status == ScanStatus::Pending,
            final(self).scanner == scanner,
            final(self).scan_parameters == scan_parameters,
            final(self).id == old(self).id,
            final(self).path == old(self).path,
            final(self).original_path == old(self).original_path,
            final(self).edited_path == old(self).edited_path,
            final(self).scanned_at == old(self).scanned_at,
            final(self).group == old(self).group,
            final(self).rotation == old(self).rotation,
            final(self).crop_coordinates == old(self).crop_coordinates,
    {
        self.status = ScanStatus::Pending;
        self.scanner = scanner;
        self.scan_parameters = scan_parameters;
    }

    /// The base name from which the output file of job `scan_id` is allocated.
    pub fn output_base_name(&self, scan_id: i32) -> (r: String)
        ensures
            r@ == job_base_name(self.original_path, scan_id as int),
    {
        match &self.original_path {
            Some(p) => p.base_name(),
            None => i32_to_decimal(scan_id),
        }
    }

    /// Allocates a fresh output path for job `scan_id`, given the names
    /// present in the scans directory. The first path allocated for a record
    /// also becomes its original path.
    pub fn prepare_output(&mut self, scan_id: i32, existing: &Vec<String>)
        ensures
            old(self).wf() ==> final(self).wf(),
            exists|n: nat|
                is_first_free(
                    job_base_name(old(self).original_path, scan_id as int),
                    names_view(existing@),
                    n,
                ) && final(self).path@ == scan_path(
                    #[trigger] candidate_name(job_base_name(old(self).original_path, scan_id as int), n),
                ),
            final(self).original_path == (match old(self).original_path {
                Some(p) => Some(p),
                None => Some(final(self).path),
            }),
            final(self).id == old(self).id,
            final(self).status == old(self).status,
            final(self).scanner == old(self).scanner,
            final(self).scan_parameters == old(self).scan_parameters,
            final(self).scanned_at == old(self).scanned_at,
            final(self).group == old(self).group,
            final(self).rotation == old(self).rotation,
            final(self).crop_coordinates == old(self).crop_coordinates,
            final(self).edited_path == old(self).edited_path,
    {
        let base = self.output_base_name(scan_id);
        let path = allocate(base.as_str(), existing);
        if self.original_path.is_none() {
            self.original_path = Some(AssetPath(path.0.clone()));
        }
        self.path = path;
    }

    /// Records how the driver run ended; only a pending job can end.
    pub fn finish(&mut self, status: ScanStatus)
        requires
            old(self).status == ScanStatus::Pending,
            status != ScanStatus::Pending,
        ensures
            old(self).wf() ==> final(self).wf(),
            final(self).status == status,
            final(self).id == old(self).id,
            final(self).path == old(self).path,
            final(self).original_path == old(self).original_path,
            final(self).edited_path == old(self).edited_path,
            final(self).scanner == old(self).scanner,
            final(self).scan_parameters == old(self).scan_parameters,
            final(self).scanned_at == old(self).scanned_at,
            final(self).group == old(self).group,
            final(self).rotation == old(self).rotation,
            final(self).crop_coordinates == old(self).crop_coordinates,
    {
        self.status = status;
    }

    /// Sets the rotation, brought into `0..360`.
    pub fn rotate(&mut self, rotation: i32)
        ensures
            old(self).wf() ==> final(self).wf(),
            final(self).rotation == normalized_rotation(rotation as int),
            is_right_angle(final(self).rotation as int),
            final(self).id == old(self).id,
            final(self).status == old(self).status,
            final(self).path == old(self).path,
            final(self).original_path == old(self).original_path,
            final(self).edited_path == old(self).edited_path,
            final(self).scanner == old(self).scanner,
            final(self).scan_parameters == old(self).scan_parameters,
            final(self).scanned_at == old(self).scanned_at,
            final(self).group == old(self).group,
            final(self).crop_coordinates == old(self).crop_coordinates,
    {
        self.rotation = normalize_rotation(rotation);
    }

    /// Assigns the record to `group`; only a stored record can be assigned.
    pub fn set_group(&mut self, group: ScanGroup) -> (r: Result<(), ScanError>)
        ensures
            old(self).wf() ==> final(self).wf(),
            r is Ok <==> old(self).id is Some,
            r == Err::<(), ScanError>(ScanError::NotSaved) <==> old(self).id is None,
            r is Ok ==> final(self).group == Some(group),
            r is Err ==> *final(self) == *old(self),
            final(self).id == old(self).id,
            final(self).status == old(self).status,
            final(self).path == old(self).path,
            final(self).original_path == old(self).original_path,
            final(self).edited_path == old(self).edited_path,
            final(self).scanner == old(self).scanner,
            final(self).scan_parameters == old(self).scan_parameters,
            final(self).scanned_at == old(self).scanned_at,
            final(self).rotation == old(self).rotation,
            final(self).crop_coordinates == old(self).crop_coordinates,
    {
        if self.id.is_none() {
            return Err(ScanError::NotSaved);
        }
        self.group = Some(group);
        Ok(())
    }
}

/// `rotation` as a right angle: its Euclidean remainder by 360, rounded
/// down to a multiple of 90. A multiple of 90 keeps its remainder.
pub fn normalize_rotation(rotation: i32) -> (r: i32)
    ensures
        r == normalized_rotation(rotation as int),
        is_right_angle(r as int),
        (rotation as int) % 90 == 0 ==> r == (rotation as int) % 360,
{
    let m: i32 = rotation % 360;
    let turned: i32 = (m + 360) % 360;
    let r: i32 = turned / 90 * 90;
    r
}

/// The group that every scan of a non-empty list belongs to, if there is one.
pub open spec fn shared_group(groups: Seq<Option<i32>>) -> Option<i32> {
    if groups.len() > 0 && groups[0] is Some && forall|i: int|
        0 <= i < groups.len() ==> #[trigger] groups[i] == groups[0] {
        groups[0]
    } else {
        None
    }
}

/// The group shared by all given scans: `Some(g)` exactly when the list is
/// not empty and every scan belongs to group `g`.
pub fn common_group(groups: &Vec<Option<i32>>) -> (r: Option<i32>)
    ensures
        r == shared_group(groups@),
{
    if groups.len() == 0 {
        return None;
    }
    let first = groups[0];
    match first {
        None => None,
        Some(g) => {
            let mut i: usize = 1;
            while i < groups.len()
                invariant
                    1 <= i <= groups@.len(),
                    groups@[0] == Some(g),
                    forall|k: int| 0 <= k < i ==> groups@[k] == Some(g),
                decreases groups@.len() - i,
            {
                if groups[i] != Some(g) {
                    assert(groups@[i as int] != groups@[0]);
                    return None;
                }
                i = i + 1;
            }
            Some(g)
        },
    }
}

/// A marker between batches of scans, kept for stores written before groups.
#[derive(Debug, Clone, Copy)]
pub struct ScanDivider {
    /// Assigned by the store on first save.
    pub id: Option<i32>,
    /// Microseconds since the Unix epoch.
    pub ts: i64,
}

impl ScanDivider {
    /// A divider not yet stored.
    pub fn new(ts: i64) -> (r: Self)
        ensures
            r.id is None,
            r.ts == ts,
    {
        ScanDivider { id: None, ts }
    }
}

} // verus!
