//! The device catalog: the devices reported by the scanner driver, cached
//! for a fixed time, and the driver's device-listing output format.
//!
//! A device line reads `device '<name>' is a <description>`, with plain
//! quotes around the name. Other lines, including ones whose name opens
//! with another quote character, are ignored.

use vstd::prelude::*;

verus! {

/// How long a device listing stays fresh, in milliseconds.
pub const REFRESH_TTL_MS: u64 = 600000;

/// One device, as the driver describes it.
#[derive(Debug, Clone)]
pub struct ScannerInfo {
    pub name: String,
    pub description: String,
}

impl View for ScannerInfo {
    type V = (Seq<char>, Seq<char>);

    open spec fn view(&self) -> (Seq<char>, Seq<char>) {
        (self.name@, self.description@)
    }
}

pub open spec fn devices_view(v: Seq<ScannerInfo>) -> Seq<(Seq<char>, Seq<char>)> {
    v.map_values(|d: ScannerInfo| d@)
}

/// The index of the first `c` in `s` at or after `from`, or `s.len()`.
pub open spec fn first_from(s: Seq<char>, c: char, from: int) -> int
    decreases s.len() - from,
{
    if from < 0 || from >= s.len() {
        s.len() as int
    } else if s[from] == c {
        from
    } else {
        first_from(s, c, from + 1)
    }
}

/// What a device line starts with, up to the opening quote of the name.
pub open spec fn device_word() -> Seq<char> {
    seq!['d', 'e', 'v', 'i', 'c', 'e', ' ', '\'']
}

pub open spec fn is_a_word() -> Seq<char> {
    seq!['\'', ' ', 'i', 's', ' ', 'a', ' ']
}

/// The name and description of a listing line whose match starts at `i`.
pub open spec fn match_at(line: Seq<char>, i: int) -> Option<(Seq<char>, Seq<char>)> {
    let j = first_from(line, '\'', i + 8);
    if 0 <= i && i + 8 <= line.len() && line.subrange(i, i + 8) == device_word() && j + 7
        <= line.len() && line.subrange(j, j + 7) == is_a_word() && first_from(line, '\n', j + 7)
        == line.len() {
        Some((line.subrange(i + 8, j), line.subrange(j + 7, line.len() as int)))
    } else {
        None
    }
}

/// The leftmost match in `line` at or after `i`.
pub open spec fn match_from(line: Seq<char>, i: int) -> Option<(Seq<char>, Seq<char>)>
    decreases line.len() - i,
{
    if i < 0 || i >= line.len() {
        None
    } else if match_at(line, i) is Some {
        match_at(line, i)
    } else {
        match_from(line, i + 1)
    }
}

/// The device that a listing line describes, if it is a device line.
pub open spec fn device_of_line(line: Seq<char>) -> Option<(Seq<char>, Seq<char>)> {
    match_from(line, 0)
}

/// A line without its line ending: a `\r` before the `\n` goes too.
pub open spec fn strip_cr(l: Seq<char>) -> Seq<char> {
    if l.len() > 0 && l.last() == '\r' {
        l.drop_last()
    } else {
        l
    }
}

/// The lines of `s` from position `start` on, as `str::lines` gives them.
pub open spec fn lines_from(s: Seq<char>, start: int) -> Seq<Seq<char>>
    decreases s.len() - start,
{
    if start < 0 || start >= s.len() {
        Seq::empty()
    } else {
        let k = first_from(s, '\n', start);
        if k < start || k >= s.len() {
            seq![s.subrange(start, s.len() as int)]
        } else {
            seq![strip_cr(s.subrange(start, k))] + lines_from(s, k + 1)
        }
    }
}

/// The devices described by the device lines among `lines`, in order.
pub open spec fn devices_of_lines(lines: Seq<Seq<char>>) -> Seq<(Seq<char>, Seq<char>)>
    decreases lines.len(),
{
    if lines.len() == 0 {
        Seq::empty()
    } else {
        let rest = devices_of_lines(lines.drop_first());
        match device_of_line(lines[0]) {
            Some(d) => seq![d] + rest,
            None => rest,
        }
    }
}

/// The devices of a whole device listing.
pub open spec fn devices_of_listing(s: Seq<char>) -> Seq<(Seq<char>, Seq<char>)> {
    devices_of_lines(lines_from(s, 0))
}

proof fn lemma_first_from_bounds(s: Seq<char>, c: char, from: int)
    requires
        0 <= from,
    ensures
        from <= first_from(s, c, from) <= s.len() || (from > s.len() && first_from(s, c, from)
            == s.len()),
        first_from(s, c, from) < s.len() ==> s[first_from(s, c, from)] == c,
        forall|k: int| from <= k < first_from(s, c, from) ==> s[k] != c,
    decreases s.len() - from,
{
    if from < s.len() && s[from] != c {
        lemma_first_from_bounds(s, c, from + 1);
    }
}

/// The first position at or after `from` that holds `c`, or the length.
fn find_char(line: &str, c: char, from: usize) -> (r: usize)
    requires
        from <= line@.len(),
    ensures
        r == first_from(line@, c, from as int),
{
    let len = line.unicode_len();
    let mut k: usize = from;
    while k < len && line.get_char(k) != c
        invariant
            from <= k <= len == line@.len(),
            first_from(line@, c, from as int) == first_from(line@, c, k as int),
        decreases len - k,
    {
        k = k + 1;
    }
    k
}

/// Whether `word` occurs in `line` at position `at`.
fn has_at(line: &str, at: usize, word: &str) -> (r: bool)
    requires
        at <= line@.len(),
    ensures
        r == (at + word@.len() <= line@.len() && line@.subrange(at as int, at + word@.len())
            == word@),
{
    let len = line.unicode_len();
    let wlen = word.unicode_len();
    if wlen > len - at {
        return false;
    }
    let mut k: usize = 0;
    while k < wlen
        invariant
            k <= wlen == word@.len(),
            len == line@.len(),
            at + wlen <= len,
            forall|m: int| 0 <= m < k ==> line@[at + m] == word@[m],
        decreases wlen - k,
    {
        if line.get_char(at + k) != word.get_char(k) {
            assert(line@.subrange(at as int, at + word@.len())[k as int] != word@[k as int]);
            return false;
        }
        k = k + 1;
    }
    assert(line@.subrange(at as int, at + word@.len()) =~= word@);
    true
}

/// The device of a listing line whose match starts at `i`, if it does.
fn device_at(line: &str, i: usize) -> (r: Option<ScannerInfo>)
    requires
        i <= line@.len(),
    ensures
        match_at(line@, i as int) == (match r {
            Some(d) => Some(d@),
            None => None,
        }),
{
    proof {
        reveal_strlit("device '");
        reveal_strlit("' is a ");
        assert("device '"@ =~= device_word());
        assert("' is a "@ =~= is_a_word());
    }
    let len = line.unicode_len();
    if len - i < 8 || !has_at(line, i, "device '") {
        return None;
    }
    let j = find_char(line, '\'', i + 8);
    proof {
        lemma_first_from_bounds(line@, '\'', i + 8);
    }
    if j == len || len - j < 7 || !has_at(line, j, "' is a ") {
        return None;
    }
    let end = find_char(line, '\n', j + 7);
    if end != len {
        return None;
    }
    let name = String::from_str(line.substring_char(i + 8, j));
    let description = String::from_str(line.substring_char(j + 7, len));
    Some(ScannerInfo { name, description })
}

/// The device described by one line of a device listing, if it is a
/// device line: the leftmost match of the line format.
pub fn parse_device_line(line: &str) -> (r: Option<ScannerInfo>)
    ensures
        device_of_line(line@) == (match r {
            Some(d) => Some(d@),
            None => None,
        }),
{
    let len = line.unicode_len();
    let mut i: usize = 0;
    while i < len
        invariant
            i <= len == line@.len(),
            device_of_line(line@) == match_from(line@, i as int),
        decreases len - i,
    {
        let d = device_at(line, i);
        if d.is_some() {
            return d;
        }
        i = i + 1;
    }
    None
}

/// The devices of a device listing, one per device line, in order.
pub fn parse_device_list(listing: &str) -> (r: Vec<ScannerInfo>)
    ensures
        devices_view(r@) == devices_of_listing(listing@),
{
    let len = listing.unicode_len();
    let mut result: Vec<ScannerInfo> = Vec::new();
    let mut start: usize = 0;
    while start < len
        invariant
            start <= len == listing@.len(),
            devices_of_listing(listing@) == devices_view(result@) + devices_of_lines(
                lines_from(listing@, start as int),
            ),
        decreases len - start,
    {
        let k = find_char(listing, '\n', start);
        proof {
            lemma_first_from_bounds(listing@, '\n', start as int);
        }
        let mut end: usize = k;
        if k > start && listing.get_char(k - 1) == '\r' && k < len {
            end = k - 1;
        }
        let line = listing.substring_char(start, end);
        let ghost lines = lines_from(listing@, start as int);
        proof {
            if k >= len {
                assert(lines == seq![listing@.subrange(start as int, len as int)]);
                assert(end == k);
                assert(lines.drop_first() =~= Seq::<Seq<char>>::empty());
            } else {
                assert(lines == seq![strip_cr(listing@.subrange(start as int, k as int))]
                    + lines_from(listing@, k + 1));
                assert(strip_cr(listing@.subrange(start as int, k as int)) =~= listing@.subrange(
                    start as int,
                    end as int,
                ));
                assert(lines.drop_first() =~= lines_from(listing@, k + 1));
            }
            assert(lines[0] == line@);
        }
        let ghost before = result@;
        match parse_device_line(line) {
            Some(d) => {
                result.push(d);
                proof {
                    assert(devices_view(result@) =~= devices_view(before) + seq![d@]);
                }
            },
            None => {},
        }
        if k >= len {
            start = len;
        } else {
            start = k + 1;
        }
    }
    proof {
        assert(lines_from(listing@, start as int) =~= Seq::<Seq<char>>::empty());
        assert(devices_view(result@) + Seq::<(Seq<char>, Seq<char>)>::empty() =~= devices_view(
            result@,
        ));
    }
    result
}

/// Time elapsed from `last` to `now`, in milliseconds; zero when `now` is earlier.
pub open spec fn elapsed(last: u64, now: u64) -> nat {
    if now >= last {
        (now - last) as nat
    } else {
        0
    }
}

/// A device list and the time it was fetched, kept together.
#[derive(Debug, Clone)]
pub struct DeviceCache {
    pub cached: Vec<ScannerInfo>,
    /// Milliseconds since the Unix epoch.
    pub last_refreshed: u64,
}

/// A copy of a device list.
fn copy_devices(v: &Vec<ScannerInfo>) -> (r: Vec<ScannerInfo>)
    ensures
        devices_view(r@) == devices_view(v@),
{
    let mut r: Vec<ScannerInfo> = Vec::new();
    let mut i: usize = 0;
    while i < v.len()
        invariant
            i <= v@.len(),
            devices_view(r@) == devices_view(v@.subrange(0, i as int)),
        decreases v@.len() - i,
    {
        let ghost before = r@;
        let d = ScannerInfo { name: v[i].name.clone(), description: v[i].description.clone() };
        assert(d@ == v@[i as int]@);
        r.push(d);
        assert(v@.subrange(0, i + 1) =~= v@.subrange(0, i as int).push(v@[i as int]));
        assert(devices_view(r@) =~= devices_view(before).push(d@));
        assert(devices_view(r@) =~= devices_view(v@.subrange(0, i + 1)));
        i = i + 1;
    }
    assert(v@.subrange(0, v@.len() as int) =~= v@);
    r
}

impl DeviceCache {
    /// An empty cache that counts as fetched at the Unix epoch, so that the
    /// first listing fetches.
    pub fn new() -> (r: Self)
        ensures
            r.cached@.len() == 0,
            r.last_refreshed == 0,
    {
        DeviceCache { cached: Vec::new(), last_refreshed: 0 }
    }

    /// Milliseconds since the list was fetched.
    pub fn staleness(&self, now: u64) -> (r: u64)
        ensures
            r == elapsed(self.last_refreshed, now),
    {
        if now >= self.last_refreshed {
            now - self.last_refreshed
        } else {
            0
        }
    }

    /// Whether the list is too old to be handed out.
    pub fn is_stale(&self, now: u64) -> (r: bool)
        ensures
            r == (elapsed(self.last_refreshed, now) > REFRESH_TTL_MS),
    {
        self.staleness(now) > REFRESH_TTL_MS
    }

    /// The cached list, or `None` when it is stale and must be fetched again.
    pub fn lookup(&self, now: u64) -> (r: Option<Vec<ScannerInfo>>)
        ensures
            r is None <==> elapsed(self.last_refreshed, now) > REFRESH_TTL_MS,
            r matches Some(v) ==> devices_view(v@) == devices_view(self.cached@),
    {
        if self.is_stale(now) {
            None
        } else {
            Some(copy_devices(&self.cached))
        }
    }

    /// Replaces the list and its time together, and hands the new list back.
    pub fn replace(&mut self, devices: Vec<ScannerInfo>, now: u64) -> (r: Vec<ScannerInfo>)
        ensures
            devices_view(final(self).cached@) == devices_view(devices@),
            final(self).last_refreshed == now,
            devices_view(r@) == devices_view(devices@),
    {
        let r = copy_devices(&devices);
        self.cached = devices;
        self.last_refreshed = now;
        r
    }
}

/// The catalog of hardware devices, fetched with the driver's listing command.
#[derive(Debug, Clone)]
pub struct RealScannerManager {
    pub cache: DeviceCache,
}

/// The catalog of a development setup without hardware: one synthetic device.
#[derive(Debug, Clone)]
pub struct MockScannerManager {
    pub cache: DeviceCache,
}

pub open spec fn mock_device() -> (Seq<char>, Seq<char>) {
    (
        seq!['m', 'o', 'c', 'k', ':', 's', 'c', 'a', 'n', 'n', 'e', 'r'],
        seq![
            'M', 'o', 'c', 'k', ' ', 'S', 'c', 'a', 'n', 'n', 'e', 'r', ' ', 'f', 'o', 'r', ' ',
            'D', 'e', 'v', 'e', 'l', 'o', 'p', 'm', 'e', 'n', 't',
        ],
    )
}

/// The one device of the mock catalog.
pub fn mock_scanner() -> (r: ScannerInfo)
    ensures
        r@ == mock_device(),
{
    proof {
        reveal_strlit("mock:scanner");
        reveal_strlit("Mock Scanner for Development");
        assert("mock:scanner"@ =~= mock_device().0);
        assert("Mock Scanner for Development"@ =~= mock_device().1);
    }
    ScannerInfo {
        name: String::from_str("mock:scanner"),
        description: String::from_str("Mock Scanner for Development"),
    }
}

impl RealScannerManager {
    pub fn new() -> (r: Self)
        ensures
            r.cache.cached@.len() == 0,
            r.cache.last_refreshed == 0,
    {
        RealScannerManager { cache: DeviceCache::new() }
    }

    /// Replaces the cache with the devices of `listing`, the output of the
    /// driver's listing command, fetched at `now`.
    pub fn force_list_scanners(&mut self, listing: &str, now: u64) -> (r: Vec<ScannerInfo>)
        ensures
            devices_view(r@) == devices_of_listing(listing@),
            devices_view(final(self).cache.cached@) == devices_of_listing(listing@),
            final(self).cache.last_refreshed == now,
    {
        let devices = parse_device_list(listing);
        self.cache.replace(devices, now)
    }
}

impl MockScannerManager {
    pub fn new() -> (r: Self)
        ensures
            r.cache.cached@.len() == 0,
            r.cache.last_refreshed == 0,
    {
        MockScannerManager { cache: DeviceCache::new() }
    }

    /// Replaces the cache with the synthetic device, as of `now`.
    pub fn force_list_scanners(&mut self, now: u64) -> (r: Vec<ScannerInfo>)
        ensures
            devices_view(r@) == seq![mock_device()],
            devices_view(final(self).cache.cached@) == seq![mock_device()],
            final(self).cache.last_refreshed == now,
    {
        let mut devices: Vec<ScannerInfo> = Vec::new();
        devices.push(mock_scanner());
        assert(devices_view(devices@) =~= seq![mock_device()]);
        self.cache.replace(devices, now)
    }
}

/// The two catalogs; which one a process uses is chosen once, at start.
#[derive(Debug, Clone)]
pub enum ScannerManagerKind {
    Real(RealScannerManager),
    Mock(MockScannerManager),
}

/// The device catalog of the process.
#[derive(Debug, Clone)]
pub struct ScannerManager {
    pub inner: ScannerManagerKind,
}

/// The devices a refresh of a catalog yields, given the output of the
/// listing command (which the mock catalog does not run).
pub open spec fn refreshed_devices(mock: bool, listing: Seq<char>) -> Seq<(Seq<char>, Seq<char>)> {
    if mock {
        seq![mock_device()]
    } else {
        devices_of_listing(listing)
    }
}

/// What a listing at `now` hands out for a cache fetched at `last` holding
/// `cached`: the cached devices while fresh, `None` (fetch again) once stale.
pub open spec fn listing_at(cached: Seq<(Seq<char>, Seq<char>)>, last: u64, now: u64) -> Option<
    Seq<(Seq<char>, Seq<char>)>,
> {
    if elapsed(last, now) > REFRESH_TTL_MS {
        None
    } else {
        Some(cached)
    }
}

impl ScannerManager {
    /// A catalog with nothing fetched yet; the mock one when `mock` holds.
    pub fn new(mock: bool) -> (r: Self)
        ensures
            r.is_mock() == mock,
            r.cache().cached@.len() == 0,
            r.cache().last_refreshed == 0,
    {
        if mock {
            ScannerManager { inner: ScannerManagerKind::Mock(MockScannerManager::new()) }
        } else {
            ScannerManager { inner: ScannerManagerKind::Real(RealScannerManager::new()) }
        }
    }

    pub open spec fn is_mock(&self) -> bool {
        self.inner is Mock
    }

    pub open spec fn cache(&self) -> DeviceCache {
        match self.inner {
            ScannerManagerKind::Real(m) => m.cache,
            ScannerManagerKind::Mock(m) => m.cache,
        }
    }

    /// Whether a refresh runs the driver's listing command.
    pub fn needs_device_listing(&self) -> (r: bool)
        ensures
            r == !self.is_mock(),
    {
        match &self.inner {
            ScannerManagerKind::Real(_) => true,
            ScannerManagerKind::Mock(_) => false,
        }
    }

    /// When the device list was last fetched, in milliseconds since the Unix epoch.
    pub fn last_refreshed(&self) -> (r: u64)
        ensures
            r == self.cache().last_refreshed,
    {
        match &self.inner {
            ScannerManagerKind::Real(m) => m.cache.last_refreshed,
            ScannerManagerKind::Mock(m) => m.cache.last_refreshed,
        }
    }

    /// Milliseconds since the device list was fetched.
    pub fn staleness(&self, now: u64) -> (r: u64)
        ensures
            r == elapsed(self.cache().last_refreshed, now),
    {
        match &self.inner {
            ScannerManagerKind::Real(m) => m.cache.staleness(now),
            ScannerManagerKind::Mock(m) => m.cache.staleness(now),
        }
    }

    /// The cached devices while they are fresh; `None` when they must be
    /// fetched again with `force_list_scanners`.
    pub fn list_scanners(&self, now: u64) -> (r: Option<Vec<ScannerInfo>>)
        ensures
            (match r {
                Some(v) => Some(devices_view(v@)),
                None => None,
            }) == listing_at(devices_view(self.cache().cached@), self.cache().last_refreshed, now),
    {
        match &self.inner {
            ScannerManagerKind::Real(m) => m.cache.lookup(now),
            ScannerManagerKind::Mock(m) => m.cache.lookup(now),
        }
    }

    /// Fetches the device list anew at `now`: from `listing`, the output of
    /// the driver's listing command, for hardware; the synthetic device for
    /// the mock catalog, which ignores `listing`.
    pub fn force_list_scanners(&mut self, listing: &str, now: u64) -> (r: Vec<ScannerInfo>)
        ensures
            final(self).is_mock() == old(self).is_mock(),
            devices_view(r@) == refreshed_devices(old(self).is_mock(), listing@),
            devices_view(final(self).cache().cached@) == refreshed_devices(
                old(self).is_mock(),
                listing@,
            ),
            final(self).cache().last_refreshed == now,
    {
        match &mut self.inner {
            ScannerManagerKind::Real(m) => m.force_list_scanners(listing, now),
            ScannerManagerKind::Mock(m) => m.force_list_scanners(now),
        }
    }
}

/// Within the refresh interval after a fetch, every listing hands out the
/// fetched devices, without a new fetch; after it, a listing asks for one
/// fetch, and the listings after that fetch are served from it again.
pub proof fn lemma_listing_cached_within_ttl(
    mock: bool,
    listing: Seq<char>,
    fetched_at: u64,
    now: u64,
)
    ensures
        fetched_at <= now <= fetched_at + REFRESH_TTL_MS ==> listing_at(
            refreshed_devices(mock, listing),
            fetched_at,
            now,
        ) == Some(refreshed_devices(mock, listing)),
        now > fetched_at + REFRESH_TTL_MS ==> listing_at(
            refreshed_devices(mock, listing),
            fetched_at,
            now,
        ) is None,
        listing_at(refreshed_devices(mock, listing), now, now) == Some(
            refreshed_devices(mock, listing),
        ),
{
}

} // verus!
