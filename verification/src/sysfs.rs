//! Resolution of class-directory entries to device records.
//!
//! A class entry names a device instance; its `device` symbolic link ends
//! in the textual bus location, and its `dev` file holds the textual
//! `MAJOR:MINOR` device number.  The entry's own name is not trusted to
//! find the backing node (it may have been renamed): instead the device
//! number is packed into a single key and the device-node listing is
//! scanned for the first node whose metadata carries the same key.
//!
//! The functions here work on plain values handed in by the surrounding
//! glue: the raw text of each artifact (`None` where it could not be
//! read) and the node listing with each node's recorded device number.

use vstd::prelude::*;
use vstd::string::*;

use crate::pci::{is_dec_digit, digit_val, spec_parse_location, Location};

verus! {

/// One entry of the device-node directory: its path and the device
/// number its metadata records.
#[derive(Clone, PartialEq, Eq, Debug)]
pub struct DevNode {
    pub path: String,
    pub rdev: u64,
}

/// Mathematical image of a `DevNode`.
pub struct DevNodeView {
    pub path: Seq<char>,
    pub rdev: u64,
}

impl DeepView for DevNode {
    type V = DevNodeView;

    open spec fn deep_view(&self) -> DevNodeView {
        DevNodeView { path: self.path@, rdev: self.rdev }
    }
}

/// The raw artifacts of one class-directory entry, as read by the
/// surrounding glue.  A field is `None` where the artifact was missing
/// or unreadable.
#[derive(Clone, PartialEq, Eq, Debug)]
pub struct ClassEntry {
    /// The entry's own directory name.
    pub name: Option<String>,
    /// Final path component of the target of the `device` link.
    pub link_tail: Option<String>,
    /// Contents of the `dev` file.
    pub dev_contents: Option<String>,
}

/// Mathematical image of a `ClassEntry`.
pub struct ClassEntryView {
    pub name: Option<Seq<char>>,
    pub link_tail: Option<Seq<char>>,
    pub dev_contents: Option<Seq<char>>,
}

impl DeepView for ClassEntry {
    type V = ClassEntryView;

    open spec fn deep_view(&self) -> ClassEntryView {
        ClassEntryView {
            name: self.name.deep_view(),
            link_tail: self.link_tail.deep_view(),
            dev_contents: self.dev_contents.deep_view(),
        }
    }
}

/// A successfully resolved device: the raw entry name at enumeration
/// time (not authoritative for identity), the path of the backing
/// device node, and the bus location.
#[derive(Clone, PartialEq, Eq, Debug)]
pub struct Device {
    pub name: String,
    pub mount: String,
    pub location: Location,
}

/// Mathematical image of a `Device`.
pub struct DeviceView {
    pub name: Seq<char>,
    pub mount: Seq<char>,
    pub location: Location,
}

impl DeepView for Device {
    type V = DeviceView;

    open spec fn deep_view(&self) -> DeviceView {
        DeviceView { name: self.name@, mount: self.mount@, location: self.location }
    }
}

/// Returned when a sysfs artifact is missing or unreadable, its contents
/// do not parse, or no device node matches the device number.
#[derive(Copy, Clone, PartialEq, Eq, Structural, Debug)]
pub struct SysfsLookupError;

/// End of the maximal run of decimal digits starting at position `i`.
pub open spec fn digit_run_end(t: Seq<char>, i: int) -> int
    recommends
        0 <= i <= t.len(),
    decreases t.len() - i,
{
    if i < t.len() && is_dec_digit(t[i]) {
        digit_run_end(t, i + 1)
    } else {
        i
    }
}

/// The run end lies between `i` and the text's end, everything from `i`
/// up to it is a digit, and the character at it (if any) is no digit.
pub proof fn lemma_digit_run_end(t: Seq<char>, i: int)
    requires
        0 <= i <= t.len(),
    ensures
        i <= digit_run_end(t, i) <= t.len(),
        forall|k: int| i <= k < digit_run_end(t, i) ==> is_dec_digit(t[k]),
        digit_run_end(t, i) < t.len() ==> !is_dec_digit(t[digit_run_end(t, i)]),
    decreases t.len() - i,
{
    if i < t.len() && is_dec_digit(t[i]) {
        lemma_digit_run_end(t, i + 1);
    }
}

/// True when the textual device-number pattern (a digit run, a colon,
/// another digit run) matches at position `i`.
pub open spec fn rdev_match_at(t: Seq<char>, i: int) -> bool
    recommends
        0 <= i <= t.len(),
{
    &&& i < t.len()
    &&& is_dec_digit(t[i])
    &&& digit_run_end(t, i) + 1 < t.len()
    &&& t[digit_run_end(t, i)] == ':'
    &&& is_dec_digit(t[digit_run_end(t, i) + 1])
}

/// Leftmost position at or after `i` where the device-number pattern
/// matches, if any.
pub open spec fn rdev_match_start(t: Seq<char>, i: int) -> Option<int>
    recommends
        0 <= i,
    decreases t.len() - i,
{
    if i >= t.len() {
        None
    } else if rdev_match_at(t, i) {
        Some(i)
    } else {
        rdev_match_start(t, i + 1)
    }
}

/// Value of a string of decimal digits.
pub open spec fn dec_value(t: Seq<char>) -> int
    recommends
        forall|k: int| 0 <= k < t.len() ==> is_dec_digit(t[k]),
    decreases t.len(),
{
    if t.len() == 0 {
        0
    } else {
        dec_value(t.drop_last()) * 10 + digit_val(t.last())
    }
}

proof fn lemma_dec_value_nonneg(t: Seq<char>)
    requires
        forall|k: int| 0 <= k < t.len() ==> is_dec_digit(t[k]),
    ensures
        dec_value(t) >= 0,
    decreases t.len(),
{
    if t.len() > 0 {
        lemma_dec_value_nonneg(t.drop_last());
    }
}

/// Law: a leading zero does not change the value of a digit run, so
/// differently padded but equal-valued device-number texts read as the
/// same numbers and pack to the same key.
pub proof fn lemma_dec_value_leading_zero(t: Seq<char>)
    ensures
        dec_value(seq!['0'] + t) == dec_value(t),
    decreases t.len(),
{
    reveal_with_fuel(dec_value, 3);
    if t.len() == 0 {
        assert(seq!['0'] + t =~= seq!['0']);
        assert(seq!['0'].drop_last() =~= Seq::<char>::empty());
    } else {
        lemma_dec_value_leading_zero(t.drop_last());
        assert((seq!['0'] + t).drop_last() =~= seq!['0'] + t.drop_last());
        assert((seq!['0'] + t).last() == t.last());
    }
}

/// A digit string is worth at least any of its prefixes.
proof fn lemma_dec_value_prefix_le(t: Seq<char>, m: int)
    requires
        0 <= m <= t.len(),
        forall|k: int| 0 <= k < t.len() ==> is_dec_digit(t[k]),
    ensures
        dec_value(t.subrange(0, m)) <= dec_value(t),
    decreases t.len() - m,
{
    if m == t.len() {
        assert(t.subrange(0, m) =~= t);
    } else {
        lemma_dec_value_prefix_le(t, m + 1);
        let p = t.subrange(0, m);
        let q = t.subrange(0, m + 1);
        assert(q.drop_last() =~= p);
        lemma_dec_value_nonneg(p);
        assert(dec_value(q) == dec_value(p) * 10 + digit_val(q.last()));
    }
}

/// Numeric parse of a digit string as an unsigned 8-bit value: fails on
/// overflow rather than truncating.
pub open spec fn spec_parse_u8(t: Seq<char>) -> Option<u8>
    recommends
        forall|k: int| 0 <= k < t.len() ==> is_dec_digit(t[k]),
{
    if 0 <= dec_value(t) <= 255 {
        Some(dec_value(t) as u8)
    } else {
        None
    }
}

/// The packed device-number key: the major number in the bits above the
/// low eight, the minor number in the low eight, as the kernel packs
/// them.
pub open spec fn spec_pack_rdev(major: u8, minor: u8) -> u64 {
    (major as int * 256 + minor as int) as u64
}

/// What parsing a `dev` file yields: the leftmost match of the
/// `MAJOR:MINOR` pattern, both runs read as unsigned 8-bit numbers and
/// packed into one key.  `None` when no match exists or either number
/// overflows.
pub open spec fn spec_parse_rdev(t: Seq<char>) -> Option<u64> {
    match rdev_match_start(t, 0) {
        None => None,
        Some(i) => {
            let j = digit_run_end(t, i);
            let k = digit_run_end(t, j + 1);
            match (spec_parse_u8(t.subrange(i, j)), spec_parse_u8(t.subrange(j + 1, k))) {
                (Some(major), Some(minor)) => Some(spec_pack_rdev(major, minor)),
                _ => None,
            }
        },
    }
}

/// Exec mirror of `is_dec_digit`.
fn is_dec_digit_exec(c: char) -> (r: bool)
    ensures
        r == is_dec_digit(c),
{
    '0' <= c && c <= '9'
}

/// End of the maximal digit run of `s` starting at `i`.
fn digit_run_end_exec(s: &str, i: usize, n: usize) -> (r: usize)
    requires
        n == s@.len(),
        i <= n,
    ensures
        r as int == digit_run_end(s@, i as int),
        i <= r <= n,
    decreases n - i,
{
    let mut j = i;
    while j < n
        invariant
            i <= j <= n,
            n == s@.len(),
            digit_run_end(s@, i as int) == digit_run_end(s@, j as int),
        decreases n - j,
    {
        let c = s.get_char(j);
        if !is_dec_digit_exec(c) {
            return j;
        }
        j += 1;
    }
    j
}

/// True when the device-number pattern matches `s` at position `i`.
fn rdev_match_at_exec(s: &str, i: usize, n: usize) -> (r: bool)
    requires
        n == s@.len(),
        i < n,
    ensures
        r == rdev_match_at(s@, i as int),
{
    if !is_dec_digit_exec(s.get_char(i)) {
        return false;
    }
    let j = digit_run_end_exec(s, i, n);
    if j >= n - 1 {
        return false;
    }
    if s.get_char(j) != ':' {
        return false;
    }
    is_dec_digit_exec(s.get_char(j + 1))
}

/// Read the digit run `s[from..to]` as an unsigned 8-bit number,
/// rejecting values above 255.
fn parse_u8_digits(s: &str, from: usize, to: usize) -> (r: Option<u8>)
    requires
        from <= to <= s@.len(),
        forall|k: int| from <= k < to ==> is_dec_digit(s@[k]),
    ensures
        r == spec_parse_u8(s@.subrange(from as int, to as int)),
{
    let ghost g = s@.subrange(from as int, to as int);
    proof {
        assert(forall|k: int| 0 <= k < g.len() ==> is_dec_digit(g[k]));
    }
    let mut acc: u32 = 0;
    let mut m = from;
    while m < to
        invariant
            from <= m <= to <= s@.len(),
            g == s@.subrange(from as int, to as int),
            forall|k: int| 0 <= k < g.len() ==> is_dec_digit(g[k]),
            acc <= 255,
            acc as int == dec_value(g.subrange(0, m - from)),
        decreases to - m,
    {
        let c = s.get_char(m);
        proof {
            assert(g[m - from] == s@[m as int]);
            assert(is_dec_digit(c));
        }
        let d = (c as u32) - 48;
        acc = acc * 10 + d;
        proof {
            let q = g.subrange(0, m + 1 - from);
            assert(q.drop_last() =~= g.subrange(0, m - from));
            assert(q.last() == g[m - from]);
        }
        if acc > 255 {
            proof {
                lemma_dec_value_prefix_le(g, m + 1 - from);
            }
            return None;
        }
        m += 1;
    }
    proof {
        assert(g.subrange(0, to - from) =~= g);
    }
    Some(acc as u8)
}

/// Find the leftmost `MAJOR:MINOR` pattern in `s`, read both numbers as
/// unsigned 8-bit values and pack them into one device-number key.
pub fn parse_rdev(s: &str) -> (r: Option<u64>)
    ensures
        r == spec_parse_rdev(s@),
{
    let n = s.unicode_len();
    let mut i: usize = 0;
    while i < n
        invariant
            0 <= i <= n,
            n == s@.len(),
            rdev_match_start(s@, 0) == rdev_match_start(s@, i as int),
        decreases n - i,
    {
        if rdev_match_at_exec(s, i, n) {
            let j = digit_run_end_exec(s, i, n);
            let k = digit_run_end_exec(s, j + 1, n);
            proof {
                lemma_digit_run_end(s@, i as int);
                lemma_digit_run_end(s@, j as int + 1);
            }
            let major = match parse_u8_digits(s, i, j) {
                Some(v) => v,
                None => return None,
            };
            let minor = match parse_u8_digits(s, j + 1, k) {
                Some(v) => v,
                None => return None,
            };
            return Some(major as u64 * 256 + minor as u64);
        }
        i += 1;
    }
    None
}

/// Path of the first node in the listing whose recorded device number
/// equals `key`, in listing order.
pub open spec fn spec_find_node(nodes: Seq<DevNodeView>, key: u64) -> Option<Seq<char>>
    decreases nodes.len(),
{
    if nodes.len() == 0 {
        None
    } else if nodes[0].rdev == key {
        Some(nodes[0].path)
    } else {
        spec_find_node(nodes.drop_first(), key)
    }
}

/// Scan the node listing for the first node whose device number is `key`.
fn find_node(nodes: &Vec<DevNode>, key: u64) -> (r: Option<String>)
    ensures
        match spec_find_node(nodes.deep_view(), key) {
            Some(p) => r matches Some(m) && m@ == p,
            None => r is None,
        },
{
    let ghost nv = nodes.deep_view();
    proof {
        assert(nv.skip(0) =~= nv);
    }
    let mut i: usize = 0;
    while i < nodes.len()
        invariant
            0 <= i <= nodes.len(),
            nv == nodes.deep_view(),
            spec_find_node(nv, key) == spec_find_node(nv.skip(i as int), key),
        decreases nodes.len() - i,
    {
        if nodes[i].rdev == key {
            proof {
                assert(nv.skip(i as int)[0] == nv[i as int]);
            }
            return Some(nodes[i].path.clone());
        }
        proof {
            assert(nv.skip(i as int).drop_first() =~= nv.skip(i as int + 1));
        }
        i += 1;
    }
    None
}

/// The bus location a class entry names: the final component of its
/// `device` link target, read in the canonical textual form.
pub open spec fn spec_read_dev_location(link_tail: Option<Seq<char>>) -> Option<Location> {
    match link_tail {
        None => None,
        Some(t) => spec_parse_location(t),
    }
}

/// Determine the bus location of an attached device from the target of
/// its `device` link.
fn read_dev_location(link_tail: &Option<String>) -> (r: Result<Location, SysfsLookupError>)
    ensures
        match spec_read_dev_location(link_tail.deep_view()) {
            Some(l) => r == Ok::<Location, SysfsLookupError>(l),
            None => r == Err::<Location, SysfsLookupError>(SysfsLookupError),
        },
{
    match link_tail {
        None => Err(SysfsLookupError),
        Some(t) => match Location::parse(t.as_str()) {
            Ok(l) => Ok(l),
            Err(_) => Err(SysfsLookupError),
        },
    }
}

/// The node path a class entry resolves to: its `dev` file read as a
/// packed device-number key, and the first listed node carrying that
/// key.  The entry's own name plays no part.
pub open spec fn spec_read_dev_mount(
    dev_contents: Option<Seq<char>>,
    nodes: Seq<DevNodeView>,
) -> Option<Seq<char>> {
    match dev_contents {
        None => None,
        Some(t) => match spec_parse_rdev(t) {
            None => None,
            Some(key) => spec_find_node(nodes, key),
        },
    }
}

/// Determine the backing device node of an attached device from its
/// `dev` file and the node listing.
fn read_dev_mount(dev_contents: &Option<String>, nodes: &Vec<DevNode>) -> (r: Result<
    String,
    SysfsLookupError,
>)
    ensures
        match spec_read_dev_mount(dev_contents.deep_view(), nodes.deep_view()) {
            Some(p) => r matches Ok(m) && m@ == p,
            None => r == Err::<String, SysfsLookupError>(SysfsLookupError),
        },
{
    match dev_contents {
        None => Err(SysfsLookupError),
        Some(t) => match parse_rdev(t.as_str()) {
            None => Err(SysfsLookupError),
            Some(key) => match find_node(nodes, key) {
                Some(p) => Ok(p),
                None => Err(SysfsLookupError),
            },
        },
    }
}

/// The device record a class entry resolves to, if every step succeeds:
/// the raw entry name, the bus location from the `device` link, and the
/// node found through the device number.
pub open spec fn spec_resolve_entry(e: ClassEntryView, nodes: Seq<DevNodeView>) -> Option<
    DeviceView,
> {
    match (e.name, spec_read_dev_location(e.link_tail), spec_read_dev_mount(e.dev_contents, nodes)) {
        (Some(name), Some(location), Some(mount)) => Some(
            DeviceView { name, mount, location },
        ),
        _ => None,
    }
}

impl Device {
    /// Resolve one class entry against the device-node listing.  Fails
    /// when the `device` link or the `dev` file is absent or does not
    /// parse, or when no listed node carries the entry's device number.
    pub fn read_device(entry: &ClassEntry, nodes: &Vec<DevNode>) -> (r: Result<
        Device,
        SysfsLookupError,
    >)
        ensures
            match spec_resolve_entry(entry.deep_view(), nodes.deep_view()) {
                Some(d) => r matches Ok(dev) && dev.deep_view() == d,
                None => r == Err::<Device, SysfsLookupError>(SysfsLookupError),
            },
    {
        let location = match read_dev_location(&entry.link_tail) {
            Ok(l) => l,
            Err(e) => return Err(e),
        };
        let mount = match read_dev_mount(&entry.dev_contents, nodes) {
            Ok(m) => m,
            Err(e) => return Err(e),
        };
        let name = match &entry.name {
            Some(n) => n.clone(),
            None => return Err(SysfsLookupError),
        };
        Ok(Device { name, mount, location })
    }
}

} // verus!
