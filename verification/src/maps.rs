//! The memory map of the tracee, as the kernel lists it in
//! `/proc/<pid>/maps`, and the load shift of the executable that follows
//! from it.
//!
//! Every line of the listing has the form
//! `start-end perms offset dev inode pathname`, with the fields separated
//! by white space and the numbers in hexadecimal.

use vstd::prelude::*;
use crate::bytes::{copy_range, same_bytes};
use crate::elf::ElfType;
use crate::error::DebugError;

verus! {

/// The permissions of a mapping.
#[derive(PartialEq, Eq, Structural, Clone, Copy, Debug)]
pub struct MapBits {
    pub r: bool,
    pub w: bool,
    pub x: bool,
    pub p: bool,
}

/// One mapping of the tracee's address space that is backed by a name.
#[derive(Debug)]
pub struct MemoryMap {
    pub name: Vec<u8>,
    pub range: (u64, u64),
    pub permissions: MapBits,
    /// Offset of the mapping in its file.
    pub offset: u64,
}

/// A [`MemoryMap`] as a value.
pub ghost struct MemoryMapView {
    pub name: Seq<u8>,
    pub range: (u64, u64),
    pub permissions: MapBits,
    pub offset: u64,
}

impl View for MemoryMap {
    type V = MemoryMapView;

    open spec fn view(&self) -> MemoryMapView {
        MemoryMapView {
            name: self.name@,
            range: self.range,
            permissions: self.permissions,
            offset: self.offset,
        }
    }
}

/// The mappings as values.
pub open spec fn map_views(maps: Seq<MemoryMap>) -> Seq<MemoryMapView> {
    maps.map_values(|m: MemoryMap| m@)
}

pub const LINE_FEED: u8 = 0x0a;

pub const DASH: u8 = 0x2d;

/// ASCII white space.
pub open spec fn is_space(b: u8) -> bool {
    b == 0x20 || b == 0x09 || b == 0x0a || b == 0x0c || b == 0x0d
}

/// The end of the run of bytes that starts at `from` and consists of white
/// space (`space`) or of anything else (`!space`).
pub open spec fn run_end(s: Seq<u8>, from: int, space: bool) -> int
    decreases s.len() - from,
{
    if from < 0 || from >= s.len() || is_space(s[from]) != space {
        from
    } else {
        run_end(s, from + 1, space)
    }
}

/// The index of the first `b` in `s` at or after `from`, or the length of
/// `s` where there is none.
pub open spec fn find_byte(s: Seq<u8>, from: int, b: u8) -> int
    decreases s.len() - from,
{
    if from < 0 || from >= s.len() {
        s.len() as int
    } else if s[from] == b {
        from
    } else {
        find_byte(s, from + 1, b)
    }
}

/// Where the `k`-th field of a line starts.
pub open spec fn field_start(s: Seq<u8>, k: nat) -> int
    decreases k, 0nat,
{
    if k == 0 {
        run_end(s, 0, true)
    } else {
        run_end(s, field_end(s, (k - 1) as nat), true)
    }
}

/// Where the `k`-th field of a line ends.
pub open spec fn field_end(s: Seq<u8>, k: nat) -> int
    decreases k, 1nat,
{
    run_end(s, field_start(s, k), false)
}

/// The `k`-th field of a line; empty where the line has fewer fields.
pub open spec fn field(s: Seq<u8>, k: nat) -> Seq<u8> {
    s.subrange(field_start(s, k), field_end(s, k))
}

/// The value of a hexadecimal digit.
pub open spec fn hex_digit(b: u8) -> Option<nat> {
    if 0x30 <= b <= 0x39 {
        Some((b - 0x30) as nat)
    } else if 0x61 <= b <= 0x66 {
        Some((b - 0x61 + 10) as nat)
    } else if 0x41 <= b <= 0x46 {
        Some((b - 0x41 + 10) as nat)
    } else {
        None
    }
}

/// The value of a string of hexadecimal digits.
pub open spec fn hex_value(s: Seq<u8>) -> Option<nat>
    decreases s.len(),
{
    if s.len() == 0 {
        Some(0)
    } else {
        match (hex_value(s.drop_last()), hex_digit(s.last())) {
            (Some(v), Some(d)) => Some(16 * v + d),
            _ => None,
        }
    }
}

/// The number that `s` spells in hexadecimal: `s` is not empty, all digits,
/// and the value fits in 64 bits.
pub open spec fn hex_u64(s: Seq<u8>) -> Option<u64> {
    if s.len() > 0 && hex_value(s) is Some && hex_value(s).unwrap() <= u64::MAX {
        Some(hex_value(s).unwrap() as u64)
    } else {
        None
    }
}

/// What a line of the listing holds.
pub ghost enum LineView {
    /// An empty line, or a mapping without a name.
    Skip,
    Entry(MemoryMapView),
    /// Not of the form of a mapping.
    Bad,
}

/// The first number of the `start-end` field.
pub open spec fn range_start(f: Seq<u8>) -> Option<u64> {
    hex_u64(f.subrange(0, find_byte(f, 0, DASH)))
}

/// The second number of the `start-end` field: what stands between the
/// first dash and the next one, or the end.
pub open spec fn range_stop(f: Seq<u8>) -> Option<u64> {
    let dash = find_byte(f, 0, DASH);
    if dash >= f.len() {
        None
    } else {
        hex_u64(f.subrange(dash + 1, find_byte(f, dash + 1, DASH)))
    }
}

/// The permissions that the four bytes of a `perms` field spell.
pub open spec fn bits_of(f: Seq<u8>) -> MapBits {
    MapBits { r: f[0] == 0x72, w: f[1] == 0x77, x: f[2] == 0x78, p: f[3] == 0x70 }
}

/// What a line of the listing holds.
pub open spec fn line_view(line: Seq<u8>) -> LineView {
    if line.len() == 0 {
        LineView::Skip
    } else if range_start(field(line, 0)) is None || range_stop(field(line, 0)) is None || field(
        line,
        1,
    ).len() < 4 || hex_u64(field(line, 2)) is None {
        LineView::Bad
    } else if field(line, 5).len() == 0 {
        LineView::Skip
    } else {
        LineView::Entry(
            MemoryMapView {
                name: field(line, 5),
                range: (range_start(field(line, 0)).unwrap(), range_stop(field(line, 0)).unwrap()),
                permissions: bits_of(field(line, 1)),
                offset: hex_u64(field(line, 2)).unwrap(),
            },
        )
    }
}

/// The mappings that the listing holds from `from` on, line by line; `None`
/// where a line is not of the form of a mapping.
pub open spec fn listing_view(content: Seq<u8>, from: int) -> Option<Seq<MemoryMapView>>
    decreases content.len() + 1 - from,
{
    if from < 0 || from > content.len() {
        Some(Seq::empty())
    } else {
        let end = find_byte(content, from, LINE_FEED);
        if end < from || end > content.len() {
            None
        } else {
            let rest = listing_view(content, end + 1);
            match (line_view(content.subrange(from, end)), rest) {
                (LineView::Bad, _) => None,
                (_, None) => None,
                (LineView::Skip, Some(rest)) => Some(rest),
                (LineView::Entry(m), Some(rest)) => Some(seq![m] + rest),
            }
        }
    }
}

/// The end of the run that starts at `from`.
fn scan_run(s: &[u8], from: usize, space: bool) -> (end: usize)
    requires
        from <= s@.len(),
    ensures
        end == run_end(s@, from as int, space),
        from <= end <= s@.len(),
{
    let mut i: usize = from;
    while i < s.len() && (s[i] == 0x20 || s[i] == 0x09 || s[i] == 0x0a || s[i] == 0x0c || s[i]
        == 0x0d) == space
        invariant
            from <= i <= s@.len(),
            run_end(s@, from as int, space) == run_end(s@, i as int, space),
        decreases s@.len() - i,
    {
        i += 1;
    }
    i
}

/// The index of the first `b` at or after `from`.
fn scan_byte(s: &[u8], from: usize, b: u8) -> (at: usize)
    requires
        from <= s@.len(),
    ensures
        at == find_byte(s@, from as int, b),
        from <= at <= s@.len(),
{
    let mut i: usize = from;
    while i < s.len() && s[i] != b
        invariant
            from <= i <= s@.len(),
            find_byte(s@, from as int, b) == find_byte(s@, i as int, b),
        decreases s@.len() - i,
    {
        i += 1;
    }
    i
}

/// A larger string of digits has a larger value.
proof fn lemma_hex_value_grows(s: Seq<u8>, n: int)
    requires
        0 <= n <= s.len(),
        hex_value(s) is Some,
    ensures
        hex_value(s.take(n)) is Some,
        hex_value(s.take(n)).unwrap() <= hex_value(s).unwrap(),
    decreases s.len() - n,
{
    if n == s.len() {
        assert(s.take(n) =~= s);
    } else {
        assert(s.drop_last().take(n) =~= s.take(n));
        lemma_hex_value_grows(s.drop_last(), n);
    }
}

/// Reads a hexadecimal number.
fn parse_hex(s: &[u8]) -> (number: Option<u64>)
    ensures
        number == hex_u64(s@),
{
    if s.len() == 0 {
        return None;
    }
    let mut acc: u64 = 0;
    let mut i: usize = 0;
    assert(s@.take(0) =~= Seq::<u8>::empty());
    while i < s.len()
        invariant
            i <= s@.len(),
            hex_value(s@.take(i as int)) == Some(acc as nat),
        decreases s@.len() - i,
    {
        let b = s[i];
        let digit: u64 = if 0x30 <= b && b <= 0x39 {
            (b - 0x30) as u64
        } else if 0x61 <= b && b <= 0x66 {
            (b - 0x61 + 10) as u64
        } else if 0x41 <= b && b <= 0x46 {
            (b - 0x41 + 10) as u64
        } else {
            proof {
                assert(s@.take(i + 1).drop_last() =~= s@.take(i as int));
                assert(hex_value(s@.take(i + 1)) is None);
                if hex_value(s@) is Some {
                    lemma_hex_value_grows(s@, i + 1);
                }
            }
            return None;
        };
        proof {
            assert(s@.take(i + 1).drop_last() =~= s@.take(i as int));
            assert(hex_value(s@.take(i + 1)) == Some((16 * acc + digit) as nat));
        }
        if acc > (u64::MAX - digit) / 16 {
            proof {
                if hex_value(s@) is Some {
                    lemma_hex_value_grows(s@, i + 1);
                }
            }
            return None;
        }
        acc = acc * 16 + digit;
        i += 1;
    }
    assert(s@.take(i as int) =~= s@);
    Some(acc)
}

/// A field of a line: the bytes and where they end.
struct Field {
    bytes: Vec<u8>,
    end: usize,
}

/// The field that starts after the white space at `from`.
fn take_field(line: &[u8], from: usize) -> (f: Field)
    requires
        from <= line@.len(),
    ensures
        f.end == run_end(line@, run_end(line@, from as int, true), false),
        f.bytes@ == line@.subrange(run_end(line@, from as int, true), f.end as int),
        from <= f.end <= line@.len(),
{
    let start = scan_run(line, from, true);
    let end = scan_run(line, start, false);
    Field { bytes: copy_range(line, start, end), end }
}

/// What a line of the listing holds.
enum Line {
    Skip,
    Entry(MemoryMap),
    Bad,
}

/// A [`Line`] as a value.
spec fn line_value(line: Line) -> LineView {
    match line {
        Line::Skip => LineView::Skip,
        Line::Entry(m) => LineView::Entry(m@),
        Line::Bad => LineView::Bad,
    }
}

/// Reads one line of the listing.
fn parse_line(line: &[u8]) -> (parsed: Line)
    ensures
        line_value(parsed) == line_view(line@),
{
    if line.len() == 0 {
        return Line::Skip;
    }
    proof {
        reveal_with_fuel(field_start, 7);
        reveal_with_fuel(field_end, 7);
    }
    let f0 = take_field(line, 0);
    let f1 = take_field(line, f0.end);
    let f2 = take_field(line, f1.end);
    let f3 = take_field(line, f2.end);
    let f4 = take_field(line, f3.end);
    let f5 = take_field(line, f4.end);
    assert(f0.bytes@ == field(line@, 0));
    assert(f1.bytes@ == field(line@, 1));
    assert(f2.bytes@ == field(line@, 2));
    assert(f5.bytes@ == field(line@, 5));
    let range = f0.bytes.as_slice();
    let dash = scan_byte(range, 0, DASH);
    let first = copy_range(range, 0, dash);
    let start = match parse_hex(first.as_slice()) {
        Some(n) => n,
        None => {
            return Line::Bad;
        },
    };
    if dash >= range.len() {
        return Line::Bad;
    }
    let dash2 = scan_byte(range, dash + 1, DASH);
    let second = copy_range(range, dash + 1, dash2);
    let stop = match parse_hex(second.as_slice()) {
        Some(n) => n,
        None => {
            return Line::Bad;
        },
    };
    if f1.bytes.len() < 4 {
        return Line::Bad;
    }
    let permissions = MapBits {
        r: f1.bytes[0] == 0x72,
        w: f1.bytes[1] == 0x77,
        x: f1.bytes[2] == 0x78,
        p: f1.bytes[3] == 0x70,
    };
    let offset = match parse_hex(f2.bytes.as_slice()) {
        Some(n) => n,
        None => {
            return Line::Bad;
        },
    };
    if f5.bytes.len() == 0 {
        return Line::Skip;
    }
    Line::Entry(MemoryMap { name: f5.bytes, range: (start, stop), permissions, offset })
}

/// The listing from `from` on, after the mappings in `head`.
spec fn continued(head: Seq<MemoryMapView>, content: Seq<u8>, from: int) -> Option<
    Seq<MemoryMapView>,
> {
    match listing_view(content, from) {
        Some(rest) => Some(head + rest),
        None => None,
    }
}

/// Reads the listing of `/proc/<pid>/maps`.
///
/// Returns the mappings that have a name, in the order of the listing.
/// Empty lines and mappings without a name are left out. A line that is not
/// of the form of a mapping makes the listing unreadable: `MemoryReadError`
/// is returned.
pub fn get_process_maps(content: &[u8]) -> (maps: Result<Vec<MemoryMap>, DebugError>)
    ensures
        maps is Ok <==> listing_view(content@, 0) is Some,
        maps matches Ok(m) ==> listing_view(content@, 0) == Some(map_views(m@)),
        maps matches Err(e) ==> e == DebugError::MemoryReadError,
{
    let mut maps: Vec<MemoryMap> = Vec::new();
    let mut from: usize = 0;
    assert(map_views(maps@) =~= Seq::<MemoryMapView>::empty());
    assert(continued(map_views(maps@), content@, 0) == listing_view(content@, 0)) by {
        if listing_view(content@, 0) is Some {
            assert(Seq::<MemoryMapView>::empty() + listing_view(content@, 0).unwrap()
                =~= listing_view(content@, 0).unwrap());
        }
    }
    while from <= content.len()
        invariant
            from <= content@.len() + 1,
            continued(map_views(maps@), content@, from as int) == listing_view(content@, 0),
        decreases content@.len() + 1 - from,
    {
        let end = scan_byte(content, from, LINE_FEED);
        let line = copy_range(content, from, end);
        let ghost head = map_views(maps@);
        match parse_line(line.as_slice()) {
            Line::Bad => {
                return Err(DebugError::MemoryReadError);
            },
            Line::Skip => {},
            Line::Entry(m) => {
                let ghost added = m@;
                maps.push(m);
                proof {
                    assert(map_views(maps@) =~= head.push(added));
                    if listing_view(content@, end + 1) is Some {
                        let rest = listing_view(content@, end + 1).unwrap();
                        assert(head.push(added) + rest =~= head + (seq![added] + rest));
                    }
                }
            },
        }
        if end == usize::MAX {
            proof {
                assert(listing_view(content@, end + 1) == Some(Seq::<MemoryMapView>::empty()));
                assert(map_views(maps@) + Seq::<MemoryMapView>::empty() =~= map_views(maps@));
            }
            return Ok(maps);
        }
        from = end + 1;
    }
    proof {
        assert(map_views(maps@) + Seq::<MemoryMapView>::empty() =~= map_views(maps@));
    }
    Ok(maps)
}

/// `i` is the first mapping of the executable `exe` that can be executed.
pub open spec fn first_code_mapping(maps: Seq<MemoryMapView>, exe: Seq<u8>, i: int) -> bool {
    &&& 0 <= i < maps.len()
    &&& maps[i].name == exe && maps[i].permissions.x
    &&& forall|j: int| 0 <= j < i ==> !(maps[j].name == exe && maps[j].permissions.x)
}

/// The load shift of an executable of kind `etype` whose path is `exe`.
///
/// An executable that is linked to fixed addresses runs where it was
/// linked: its shift is 0. Any other is shifted by the start of its first
/// executable mapping less that mapping's offset in the file.
pub open spec fn load_shift(etype: ElfType, maps: Seq<MemoryMapView>, exe: Seq<u8>) -> Option<u64> {
    if etype == ElfType::Executable {
        Some(0)
    } else if exists|i: int| first_code_mapping(maps, exe, i) {
        let i = choose|i: int| first_code_mapping(maps, exe, i);
        if maps[i].range.0 >= maps[i].offset {
            Some((maps[i].range.0 - maps[i].offset) as u64)
        } else {
            None
        }
    } else {
        None
    }
}

/// An executable linked to fixed addresses has no load shift, whatever the
/// mappings are.
pub proof fn lemma_fixed_executable_is_not_shifted(maps: Seq<MemoryMapView>, exe: Seq<u8>)
    ensures
        load_shift(ElfType::Executable, maps, exe) == Some(0u64),
{
}

/// Works out the load shift of the executable from the tracee's mappings.
pub fn dynamic_load_shift(etype: ElfType, maps: &Vec<MemoryMap>, exe: &[u8]) -> (shift: Option<u64>)
    ensures
        shift == load_shift(etype, map_views(maps@), exe@),
{
    match etype {
        ElfType::Executable => {
            return Some(0);
        },
        _ => {},
    }
    assert(etype != ElfType::Executable);
    let ghost views = map_views(maps@);
    let mut i: usize = 0;
    while i < maps.len()
        invariant
            i <= maps@.len(),
            etype != ElfType::Executable,
            views == map_views(maps@),
            forall|j: int| 0 <= j < i ==> !(views[j].name == exe@ && views[j].permissions.x),
        decreases maps@.len() - i,
    {
        let m = &maps[i];
        assert(views[i as int] == m@);
        if m.permissions.x && same_bytes(m.name.as_slice(), exe) {
            proof {
                assert(first_code_mapping(views, exe@, i as int));
                let c = choose|c: int| first_code_mapping(views, exe@, c);
                assert(c == i);
            }
            return m.range.0.checked_sub(m.offset);
        }
        i += 1;
    }
    None
}

} // verus!
