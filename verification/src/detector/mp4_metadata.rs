//! MP4 / MOV container metadata: box parsing, iTunes-style `ilst` atoms, the
//! AIGC labelling standard and H.264 SEI watermark markers.
//!
//! The parser follows the container layout byte for byte. A few malformed
//! inputs make the walk impossible to continue (a 64-bit box size whose end
//! lies beyond the range of a `u64`, or a box whose header is longer than the
//! size it declares, so that its content would end before it starts); on those
//! the parsing functions return `None` and say so in their contracts.
use vstd::prelude::*;
use vstd::slice::slice_subrange;
use vstd::string::*;

use crate::detector::{opt_str_view, pairs_view, signals_view, Confidence, Signal, SignalSource, SignalView};
use crate::known_tools::{ai_tool_of, match_ai_tool};
use crate::text::{
    chars_eq_ignore_ascii_case, chars_of, contains_seq, eq_ignore_ascii_case, find_subsequence,
    find_chars, find_seq, from_utf8_lossy, lowercase, push_char, push_decimal,
    string_from_chars, to_lowercase, trim_bounds, trim_by, trim_start_bound, trim_start_by,
    utf8_lossy, decimal, TrimClass,
};

verus! {

broadcast use vstd::string::group_string_axioms;

// ---------------------------------------------------------------------------
// Big-endian integers
// ---------------------------------------------------------------------------

/// The big-endian 32-bit integer stored at `off`.
pub open spec fn be_u32(d: Seq<u8>, off: int) -> int {
    d[off] * 0x1000000 + d[off + 1] * 0x10000 + d[off + 2] * 0x100 + d[off + 3]
}

/// The big-endian 64-bit integer stored at `off`.
pub open spec fn be_u64(d: Seq<u8>, off: int) -> int {
    be_u32(d, off) * 0x1_0000_0000 + be_u32(d, off + 4)
}

/// Reads a big-endian `u32` at `offset`, if four bytes are there.
pub fn read_u32_be(data: &[u8], offset: usize) -> (r: Option<u32>)
    requires
        offset + 4 <= usize::MAX,
    ensures
        r is Some <==> offset + 4 <= data@.len(),
        r matches Some(v) ==> v as int == be_u32(data@, offset as int),
{
    if offset + 4 > data.len() {
        return None;
    }
    let a = data[offset] as u32;
    let b = data[offset + 1] as u32;
    let c = data[offset + 2] as u32;
    let d = data[offset + 3] as u32;
    Some(a * 0x1000000 + b * 0x10000 + c * 0x100 + d)
}

fn read_u64_be(data: &[u8], offset: usize) -> (r: u64)
    requires
        offset + 8 <= data@.len(),
        data@.len() <= isize::MAX,
    ensures
        r as int == be_u64(data@, offset as int),
{
    let hi = read_u32_be(data, offset).unwrap() as u64;
    let lo = read_u32_be(data, offset + 4).unwrap() as u64;
    hi * 0x1_0000_0000 + lo
}

// ---------------------------------------------------------------------------
// Boxes
// ---------------------------------------------------------------------------

/// A box found while walking a byte range: its four-byte type, where its
/// content starts and where it ends.
#[derive(Debug, Clone, Copy)]
pub struct BoxInfo {
    pub box_type: [u8; 4],
    pub content_start: usize,
    pub box_end: usize,
}

/// The mathematical content of a [`BoxInfo`].
pub struct BoxSpec {
    pub box_type: Seq<u8>,
    pub content_start: int,
    pub box_end: int,
}

impl View for BoxInfo {
    type V = BoxSpec;

    open spec fn view(&self) -> BoxSpec {
        BoxSpec {
            box_type: self.box_type@,
            content_start: self.content_start as int,
            box_end: self.box_end as int,
        }
    }
}

pub open spec fn boxes_view(v: Seq<BoxInfo>) -> Seq<BoxSpec> {
    v.map_values(|b: BoxInfo| b@)
}

pub open spec fn spec_min(a: int, b: int) -> int {
    if a <= b {
        a
    } else {
        b
    }
}

/// The sibling boxes in `d[pos..end]`, read one header after the other: a
/// 32-bit size and a type; size 1 announces a 64-bit size after the type,
/// size 0 a box reaching to `end`. The walk stops at a header that does not
/// fit or a size below 8, and each box is cut at `end`. `None` when a box's
/// end lies beyond the `u64` range.
pub open spec fn spec_find_boxes(d: Seq<u8>, pos: int, end: int) -> Option<Seq<BoxSpec>>
    decreases end - pos,
{
    if pos < 0 || pos + 8 > end || pos + 4 > d.len() {
        Some(Seq::empty())
    } else {
        let size = be_u32(d, pos);
        if size == 1 && pos + 16 > end {
            Some(Seq::empty())
        } else {
            let content = if size == 1 {
                pos + 16
            } else {
                pos + 8
            };
            let actual = if size == 1 {
                be_u64(d, pos + 8)
            } else if size == 0 {
                end - pos
            } else {
                size
            };
            if actual < 8 {
                Some(Seq::empty())
            } else if pos + actual > u64::MAX {
                None
            } else {
                let box_end = spec_min(pos + actual, end);
                match spec_find_boxes(d, box_end, end) {
                    None => None,
                    Some(rest) => Some(
                        seq![BoxSpec { box_type: d.subrange(pos + 4, pos + 8), content_start: content, box_end }]
                            + rest,
                    ),
                }
            }
        }
    }
}

pub open spec fn box_in_range(b: BoxSpec, end: int) -> bool {
    &&& b.box_type.len() == 4
    &&& 0 <= b.content_start <= end
    &&& 0 <= b.box_end <= end
}

/// Walks the sibling boxes in `data[start..end]`.
pub fn find_boxes(data: &[u8], start: usize, end: usize) -> (r: Option<Vec<BoxInfo>>)
    requires
        end <= data@.len(),
        start <= data@.len(),
        data@.len() <= isize::MAX,
    ensures
        match r {
            Some(v) => spec_find_boxes(data@, start as int, end as int) == Some(boxes_view(v@)),
            None => spec_find_boxes(data@, start as int, end as int) is None,
        },
        r matches Some(v) ==> forall|i: int| 0 <= i < v@.len() ==> box_in_range(#[trigger] v@[i]@, end as int),
{
    let mut boxes: Vec<BoxInfo> = Vec::new();
    let mut pos = start;
    while pos + 8 <= end
        invariant
            end <= data@.len() <= isize::MAX,
            pos <= data@.len(),
            spec_find_boxes(data@, start as int, end as int) == match spec_find_boxes(data@, pos as int, end as int) {
                None => None,
                Some(rest) => Some(boxes_view(boxes@) + rest),
            },
            forall|i: int| 0 <= i < boxes@.len() ==> box_in_range(#[trigger] boxes@[i]@, end as int),
        ensures
            spec_find_boxes(data@, start as int, end as int) == match spec_find_boxes(data@, pos as int, end as int) {
                None => None,
                Some(rest) => Some(boxes_view(boxes@) + rest),
            },
            forall|i: int| 0 <= i < boxes@.len() ==> box_in_range(#[trigger] boxes@[i]@, end as int),
            spec_find_boxes(data@, pos as int, end as int) == Some(Seq::<BoxSpec>::empty()),
        decreases end - pos,
    {
        let size = match read_u32_be(data, pos) {
            Some(s) => s as u64,
            None => break,
        };
        let box_type: [u8; 4] = [data[pos + 4], data[pos + 5], data[pos + 6], data[pos + 7]];
        let content_start: usize;
        let actual_size: u64;
        if size == 1 {
            if pos + 16 > end {
                break;
            }
            actual_size = read_u64_be(data, pos + 8);
            content_start = pos + 16;
        } else if size == 0 {
            actual_size = (end - pos) as u64;
            content_start = pos + 8;
        } else {
            actual_size = size;
            content_start = pos + 8;
        }
        if actual_size < 8 {
            break;
        }
        if actual_size > u64::MAX - pos as u64 {
            return None;
        }
        let total = pos as u64 + actual_size;
        let box_end: usize = if total < end as u64 {
            total as usize
        } else {
            end
        };
        let info = BoxInfo { box_type, content_start, box_end };
        proof {
            assert(box_type@ =~= data@.subrange(pos + 4, pos + 8));
            assert(boxes_view(boxes@.push(info)) =~= boxes_view(boxes@).push(info@));
            let ghost rest = spec_find_boxes(data@, box_end as int, end as int);
            if let Some(r) = rest {
                assert(boxes_view(boxes@) + (seq![info@] + r) =~= boxes_view(boxes@.push(info)) + r);
            }
        }
        boxes.push(info);
        pos = box_end;
    }
    proof {
        assert(spec_find_boxes(data@, pos as int, end as int) == Some(Seq::<BoxSpec>::empty()));
        assert(boxes_view(boxes@) + Seq::<BoxSpec>::empty() =~= boxes_view(boxes@));
    }
    Some(boxes)
}

/// The first box of type `ty` in `bs[i..]`, as `(content_start, box_end)`.
pub open spec fn first_of_type(bs: Seq<BoxSpec>, ty: Seq<u8>, i: int) -> Option<(int, int)>
    decreases bs.len() - i,
{
    if i < 0 || i >= bs.len() {
        None
    } else if bs[i].box_type == ty {
        Some((bs[i].content_start, bs[i].box_end))
    } else {
        first_of_type(bs, ty, i + 1)
    }
}

/// The first box of type `ty` among the siblings in `d[start..end]`; the
/// outer `None` when the walk itself cannot be completed.
pub open spec fn spec_get_box(d: Seq<u8>, start: int, end: int, ty: Seq<u8>) -> Option<Option<(int, int)>> {
    match spec_find_boxes(d, start, end) {
        None => None,
        Some(bs) => Some(first_of_type(bs, ty, 0)),
    }
}

pub open spec fn opt_pair_view(r: Option<(usize, usize)>) -> Option<(int, int)> {
    match r {
        Some(p) => Some((p.0 as int, p.1 as int)),
        None => None,
    }
}

/// Finds the first box of a given type among the siblings in `data[start..end]`.
pub fn get_box(data: &[u8], start: usize, end: usize, box_type: &[u8; 4]) -> (r: Option<Option<(usize, usize)>>)
    requires
        end <= data@.len(),
        start <= data@.len(),
        data@.len() <= isize::MAX,
    ensures
        match r {
            Some(found) => spec_get_box(data@, start as int, end as int, box_type@) == Some(opt_pair_view(found)),
            None => spec_get_box(data@, start as int, end as int, box_type@) is None,
        },
        r matches Some(Some(p)) ==> p.0 <= end && p.1 <= end,
{
    let boxes = match find_boxes(data, start, end) {
        Some(b) => b,
        None => return None,
    };
    let ghost bs = boxes_view(boxes@);
    let mut i: usize = 0;
    while i < boxes.len()
        invariant
            i <= boxes@.len(),
            bs == boxes_view(boxes@),
            spec_find_boxes(data@, start as int, end as int) == Some(bs),
            first_of_type(bs, box_type@, 0) == first_of_type(bs, box_type@, i as int),
            forall|j: int| 0 <= j < boxes@.len() ==> box_in_range(#[trigger] boxes@[j]@, end as int),
        decreases boxes.len() - i,
    {
        let b = boxes[i];
        assert(bs[i as int] == b@);
        assert(box_in_range(boxes@[i as int]@, end as int));
        if b.box_type[0] == box_type[0] && b.box_type[1] == box_type[1] && b.box_type[2] == box_type[2]
            && b.box_type[3] == box_type[3] {
            assert(b.box_type@ =~= box_type@);
            assert(first_of_type(bs, box_type@, i as int) == Some((b.content_start as int, b.box_end as int)));
            return Some(Some((b.content_start, b.box_end)));
        }
        assert(b.box_type@ != box_type@) by {
            if b.box_type@ == box_type@ {
                assert(b.box_type@[0] == box_type@[0]);
                assert(b.box_type@[1] == box_type@[1]);
                assert(b.box_type@[2] == box_type@[2]);
                assert(b.box_type@[3] == box_type@[3]);
            }
        }
        i = i + 1;
    }
    Some(None)
}

/// A box type read as Latin-1 text (so that `0xa9` reads as `©`).
pub open spec fn latin1(b: Seq<u8>) -> Seq<char> {
    b.map_values(|x: u8| x as char)
}

/// Converts a four-byte box type to text, one character per byte (Latin-1).
pub fn box_type_to_string(box_type: &[u8; 4]) -> (s: String)
    ensures
        s@ == latin1(box_type@),
{
    let mut s = String::new();
    let mut i: usize = 0;
    while i < 4
        invariant
            i <= 4,
            box_type@.len() == 4,
            s@ == latin1(box_type@.take(i as int)),
        decreases 4 - i,
    {
        push_char(&mut s, box_type[i] as char);
        assert(latin1(box_type@.take(i + 1)) =~= latin1(box_type@.take(i as int)).push(box_type@[i as int] as char));
        i = i + 1;
    }
    assert(box_type@.take(4) =~= box_type@);
    s
}


// ---------------------------------------------------------------------------
// ilst parsing
// ---------------------------------------------------------------------------

pub open spec fn tag4(a: u8, b: u8, c: u8, e: u8) -> Seq<u8> {
    seq![a, b, c, e]
}

pub open spec fn data_tag() -> Seq<u8> {
    tag4(0x64, 0x61, 0x74, 0x61)
}

/// Key/value entries as text.
pub open spec fn entries_view(v: Seq<(String, String)>) -> Seq<(Seq<char>, Seq<char>)> {
    pairs_view(v)
}

/// The value of the `data` atom inside an item box: the bytes after its 4
/// bytes of type/flags and 4 bytes of locale, decoded leniently and with NUL
/// characters trimmed at both ends; `Some(None)` when there is no data atom,
/// it is shorter than 8 bytes, or the value is empty; `None` when the walk
/// cannot be completed.
pub open spec fn spec_item_value(d: Seq<u8>, item: BoxSpec) -> Option<Option<Seq<char>>> {
    match spec_get_box(d, item.content_start, item.box_end, data_tag()) {
        None => None,
        Some(None) => Some(None),
        Some(Some((cs, ce))) => if ce < cs {
            None
        } else if ce - cs >= 8 {
            let v = trim_by(utf8_lossy(d.subrange(cs + 8, ce)), TrimClass::Nul);
            if v.len() == 0 {
                Some(None)
            } else {
                Some(Some(v))
            }
        } else {
            Some(None)
        },
    }
}

fn item_value(data: &[u8], item: &BoxInfo) -> (r: Option<Option<String>>)
    requires
        box_in_range(item@, data@.len() as int),
        data@.len() <= isize::MAX,
    ensures
        match r {
            Some(v) => spec_item_value(data@, item@) == Some(opt_str_view(v)),
            None => spec_item_value(data@, item@) is None,
        },
{
    let tag: [u8; 4] = [0x64, 0x61, 0x74, 0x61];
    assert(tag@ =~= data_tag());
    match get_box(data, item.content_start, item.box_end, &tag) {
        None => None,
        Some(None) => Some(None),
        Some(Some((cs, ce))) => {
            if ce < cs {
                return None;
            }
            if ce - cs >= 8 {
                let s = from_utf8_lossy(slice_subrange(data, cs + 8, ce));
                let chars = chars_of(s.as_str());
                let (a, b) = trim_bounds(chars.as_slice(), 0, chars.len(), TrimClass::Nul);
                assert(chars@.subrange(0, chars@.len() as int) =~= chars@);
                if a == b {
                    Some(None)
                } else {
                    Some(Some(string_from_chars(chars.as_slice(), a, b)))
                }
            } else {
                Some(None)
            }
        },
    }
}

/// Entries of a standard iTunes-style `ilst`: each item box's type (as
/// Latin-1 text) paired with its data value, items without a value skipped.
pub open spec fn standard_items(d: Seq<u8>, items: Seq<BoxSpec>) -> Option<Seq<(Seq<char>, Seq<char>)>>
    decreases items.len(),
{
    if items.len() == 0 {
        Some(Seq::empty())
    } else {
        match standard_items(d, items.drop_last()) {
            None => None,
            Some(r) => match spec_item_value(d, items.last()) {
                None => None,
                Some(None) => Some(r),
                Some(Some(v)) => Some(r.push((latin1(items.last().box_type), v))),
            },
        }
    }
}

proof fn lemma_standard_abort_persists(d: Seq<u8>, items: Seq<BoxSpec>, k: int)
    requires
        0 <= k <= items.len(),
        standard_items(d, items.take(k)) is None,
    ensures
        standard_items(d, items) is None,
    decreases items.len() - k,
{
    if k < items.len() {
        assert(items.drop_last().take(k) =~= items.take(k));
        lemma_standard_abort_persists(d, items.drop_last(), k);
    } else {
        assert(items.take(k) =~= items);
    }
}

pub open spec fn spec_parse_ilst_standard(d: Seq<u8>, start: int, end: int) -> Option<Seq<(Seq<char>, Seq<char>)>> {
    match spec_find_boxes(d, start, end) {
        None => None,
        Some(items) => standard_items(d, items),
    }
}

/// Parses a standard iTunes-style `ilst` whose child atom types are the keys (e.g. `©too`).
pub fn parse_ilst_standard(data: &[u8], start: usize, end: usize) -> (r: Option<Vec<(String, String)>>)
    requires
        end <= data@.len(),
        start <= data@.len(),
        data@.len() <= isize::MAX,
    ensures
        match r {
            Some(v) => spec_parse_ilst_standard(data@, start as int, end as int) == Some(entries_view(v@)),
            None => spec_parse_ilst_standard(data@, start as int, end as int) is None,
        },
{
    let items = match find_boxes(data, start, end) {
        Some(b) => b,
        None => return None,
    };
    let ghost bs = boxes_view(items@);
    let mut results: Vec<(String, String)> = Vec::new();
    let mut i: usize = 0;
    while i < items.len()
        invariant
            i <= items@.len(),
            end <= data@.len() <= isize::MAX,
            bs == boxes_view(items@),
            spec_find_boxes(data@, start as int, end as int) == Some(bs),
            forall|j: int| 0 <= j < items@.len() ==> box_in_range(#[trigger] items@[j]@, end as int),
            standard_items(data@, bs.take(i as int)) == Some(entries_view(results@)),
        decreases items.len() - i,
    {
        let item = items[i];
        assert(box_in_range(items@[i as int]@, end as int));
        let ghost t = bs.take(i + 1);
        assert(t.drop_last() =~= bs.take(i as int));
        assert(t.last() == item@);
        match item_value(data, &item) {
            None => {
                proof {
                    lemma_standard_abort_persists(data@, bs, i + 1);
                }
                return None;
            },
            Some(None) => {},
            Some(Some(value)) => {
                let key = box_type_to_string(&item.box_type);
                let ghost old_results = results@;
                results.push((key, value));
                assert(entries_view(results@) =~= entries_view(old_results).push((key@, value@)));
            },
        }
        i = i + 1;
    }
    assert(bs.take(items@.len() as int) =~= bs);
    Some(results)
}

pub open spec fn keys_view(v: Seq<String>) -> Seq<Seq<char>> {
    v.map_values(|k: String| k@)
}

/// Key names of a `keys` box, read from `offset` on for at most `n` entries:
/// each entry is a 32-bit size, a 4-byte namespace and the name; reading stops
/// at an entry that does not fit before `end` or whose size is below 8.
pub open spec fn spec_keys_from(d: Seq<u8>, end: int, offset: int, n: nat) -> Seq<Seq<char>>
    decreases n,
{
    if n == 0 || offset + 8 > end {
        Seq::empty()
    } else {
        let ks = be_u32(d, offset);
        if ks < 8 || offset + ks > end {
            Seq::empty()
        } else {
            seq![utf8_lossy(d.subrange(offset + 8, offset + ks))] + spec_keys_from(d, end, offset + ks, (n - 1) as nat)
        }
    }
}

/// Key names of a `keys` box whose content is `d[start..end]` (4 bytes of
/// version/flags, a 32-bit entry count, then the entries); `None` when the
/// content would end before it starts.
pub open spec fn spec_parse_keys(d: Seq<u8>, start: int, end: int) -> Option<Seq<Seq<char>>> {
    if end < start {
        None
    } else if end - start < 8 {
        Some(Seq::empty())
    } else {
        Some(spec_keys_from(d, end, start + 8, be_u32(d, start + 4) as nat))
    }
}

/// Parses a `keys` box to get its key names.
pub fn parse_keys(data: &[u8], start: usize, end: usize) -> (r: Option<Vec<String>>)
    requires
        end <= data@.len(),
        start <= data@.len(),
        data@.len() <= isize::MAX,
    ensures
        match r {
            Some(v) => spec_parse_keys(data@, start as int, end as int) == Some(keys_view(v@)),
            None => spec_parse_keys(data@, start as int, end as int) is None,
        },
{
    if end < start {
        return None;
    }
    if end - start < 8 {
        return Some(Vec::new());
    }
    let count = read_u32_be(data, start + 4).unwrap();
    let ghost total = spec_keys_from(data@, end as int, start + 8, count as nat);
    let mut keys: Vec<String> = Vec::new();
    let mut offset = start + 8;
    let mut i: u32 = 0;
    assert(keys_view(keys@) + spec_keys_from(data@, end as int, offset as int, (count - i) as nat) =~= total);
    while i < count
        invariant
            end <= data@.len() <= isize::MAX,
            offset <= end,
            i <= count,
            total == keys_view(keys@) + spec_keys_from(data@, end as int, offset as int, (count - i) as nat),
        ensures
            total == keys_view(keys@) + spec_keys_from(data@, end as int, offset as int, (count - i) as nat),
            spec_keys_from(data@, end as int, offset as int, (count - i) as nat) == Seq::<Seq<char>>::empty(),
        decreases count - i,
    {
        if offset + 8 > end {
            break;
        }
        let key_size = read_u32_be(data, offset).unwrap();
        if key_size < 8 || key_size as u64 > (end - offset) as u64 {
            break;
        }
        let ks = key_size as usize;
        let name = from_utf8_lossy(slice_subrange(data, offset + 8, offset + ks));
        let ghost old_keys = keys@;
        let ghost old_offset = offset;
        keys.push(name);
        offset = offset + ks;
        i = i + 1;
        proof {
            assert(keys_view(keys@) =~= keys_view(old_keys).push(name@));
            let rest = spec_keys_from(data@, end as int, offset as int, (count - i) as nat);
            assert(spec_keys_from(data@, end as int, old_offset as int, (count - (i - 1)) as nat) == seq![name@] + rest);
            assert(keys_view(keys@) + rest =~= keys_view(old_keys) + (seq![name@] + rest));
        }
    }
    assert(keys_view(keys@) + Seq::<Seq<char>>::empty() =~= keys_view(keys@));
    Some(keys)
}

/// The key name of an item in a keys-based `ilst`: the item's type read as a
/// 1-based big-endian index into `keys`, or `idx:<n>` when out of range.
pub open spec fn key_name_for(keys: Seq<Seq<char>>, ty: Seq<u8>) -> Seq<char> {
    let idx = be_u32(ty, 0);
    if 0 < idx <= keys.len() {
        keys[idx - 1]
    } else {
        "idx:"@ + decimal(idx as nat)
    }
}

/// Entries of a keys-based `ilst`: each item's key name paired with its data
/// value, items without a value skipped.
pub open spec fn keyed_items(d: Seq<u8>, keys: Seq<Seq<char>>, items: Seq<BoxSpec>) -> Option<Seq<(Seq<char>, Seq<char>)>>
    decreases items.len(),
{
    if items.len() == 0 {
        Some(Seq::empty())
    } else {
        match keyed_items(d, keys, items.drop_last()) {
            None => None,
            Some(r) => match spec_item_value(d, items.last()) {
                None => None,
                Some(None) => Some(r),
                Some(Some(v)) => Some(r.push((key_name_for(keys, items.last().box_type), v))),
            },
        }
    }
}

proof fn lemma_keyed_abort_persists(d: Seq<u8>, keys: Seq<Seq<char>>, items: Seq<BoxSpec>, k: int)
    requires
        0 <= k <= items.len(),
        keyed_items(d, keys, items.take(k)) is None,
    ensures
        keyed_items(d, keys, items) is None,
    decreases items.len() - k,
{
    if k < items.len() {
        assert(items.drop_last().take(k) =~= items.take(k));
        lemma_keyed_abort_persists(d, keys, items.drop_last(), k);
    } else {
        assert(items.take(k) =~= items);
    }
}

pub open spec fn spec_parse_ilst_keyed(d: Seq<u8>, keys: Seq<Seq<char>>, start: int, end: int) -> Option<Seq<(Seq<char>, Seq<char>)>> {
    match spec_find_boxes(d, start, end) {
        None => None,
        Some(items) => keyed_items(d, keys, items),
    }
}

fn key_name(keys: &Vec<String>, box_type: &[u8; 4]) -> (r: String)
    ensures
        r@ == key_name_for(keys_view(keys@), box_type@),
{
    let idx: u32 = (box_type[0] as u32) * 0x1000000 + (box_type[1] as u32) * 0x10000 + (box_type[2] as u32)
        * 0x100 + (box_type[3] as u32);
    if idx > 0 && (idx as u64) <= (keys.len() as u64) {
        keys[(idx - 1) as usize].clone()
    } else {
        let mut s = String::from_str("idx:");
        push_decimal(&mut s, idx);
        s
    }
}

/// Parses a keys-based `ilst` whose items reference key names by 1-based index.
pub fn parse_ilst_keyed(data: &[u8], keys: &Vec<String>, ilst_start: usize, ilst_end: usize) -> (r: Option<Vec<(String, String)>>)
    requires
        ilst_end <= data@.len(),
        ilst_start <= data@.len(),
        data@.len() <= isize::MAX,
    ensures
        match r {
            Some(v) => spec_parse_ilst_keyed(data@, keys_view(keys@), ilst_start as int, ilst_end as int) == Some(entries_view(v@)),
            None => spec_parse_ilst_keyed(data@, keys_view(keys@), ilst_start as int, ilst_end as int) is None,
        },
{
    let items = match find_boxes(data, ilst_start, ilst_end) {
        Some(b) => b,
        None => return None,
    };
    let ghost bs = boxes_view(items@);
    let ghost kv = keys_view(keys@);
    let mut results: Vec<(String, String)> = Vec::new();
    let mut i: usize = 0;
    while i < items.len()
        invariant
            i <= items@.len(),
            ilst_end <= data@.len() <= isize::MAX,
            bs == boxes_view(items@),
            kv == keys_view(keys@),
            spec_find_boxes(data@, ilst_start as int, ilst_end as int) == Some(bs),
            forall|j: int| 0 <= j < items@.len() ==> box_in_range(#[trigger] items@[j]@, ilst_end as int),
            keyed_items(data@, kv, bs.take(i as int)) == Some(entries_view(results@)),
        decreases items.len() - i,
    {
        let item = items[i];
        assert(box_in_range(items@[i as int]@, ilst_end as int));
        let ghost t = bs.take(i + 1);
        assert(t.drop_last() =~= bs.take(i as int));
        assert(t.last() == item@);
        match item_value(data, &item) {
            None => {
                proof {
                    lemma_keyed_abort_persists(data@, kv, bs, i + 1);
                }
                return None;
            },
            Some(None) => {},
            Some(Some(value)) => {
                let key = key_name(keys, &item.box_type);
                let ghost old_results = results@;
                results.push((key, value));
                assert(entries_view(results@) =~= entries_view(old_results).push((key@, value@)));
            },
        }
        i = i + 1;
    }
    assert(bs.take(items@.len() as int) =~= bs);
    Some(results)
}


// ---------------------------------------------------------------------------
// Navigation: moov > udta > meta > ilst
// ---------------------------------------------------------------------------

pub open spec fn moov_tag() -> Seq<u8> {
    tag4(0x6d, 0x6f, 0x6f, 0x76)
}

pub open spec fn udta_tag() -> Seq<u8> {
    tag4(0x75, 0x64, 0x74, 0x61)
}

pub open spec fn meta_tag() -> Seq<u8> {
    tag4(0x6d, 0x65, 0x74, 0x61)
}

pub open spec fn keys_tag() -> Seq<u8> {
    tag4(0x6b, 0x65, 0x79, 0x73)
}

pub open spec fn ilst_tag() -> Seq<u8> {
    tag4(0x69, 0x6c, 0x73, 0x74)
}

pub open spec fn mdat_tag() -> Seq<u8> {
    tag4(0x6d, 0x64, 0x61, 0x74)
}

pub open spec fn ftyp_tag() -> Seq<u8> {
    tag4(0x66, 0x74, 0x79, 0x70)
}

/// The metadata entries of a file: found under `moov > udta > meta` (a full
/// box: 4 bytes of version/flags first), read from its `ilst` keys-based when
/// a `keys` box is present and standard otherwise; empty when a box on the
/// way is missing.
pub open spec fn spec_extract_ilst_entries(d: Seq<u8>) -> Option<Seq<(Seq<char>, Seq<char>)>> {
    match spec_get_box(d, 0, d.len() as int, moov_tag()) {
        None => None,
        Some(None) => Some(Seq::empty()),
        Some(Some(moov)) => match spec_get_box(d, moov.0, moov.1, udta_tag()) {
            None => None,
            Some(None) => Some(Seq::empty()),
            Some(Some(udta)) => match spec_get_box(d, udta.0, udta.1, meta_tag()) {
                None => None,
                Some(None) => Some(Seq::empty()),
                Some(Some(meta)) => if meta.0 + 4 >= meta.1 {
                    Some(Seq::empty())
                } else {
                    match spec_get_box(d, meta.0 + 4, meta.1, keys_tag()) {
                        None => None,
                        Some(keys_box) => match spec_get_box(d, meta.0 + 4, meta.1, ilst_tag()) {
                            None => None,
                            Some(None) => Some(Seq::empty()),
                            Some(Some(ilst)) => match keys_box {
                                Some(kb) => match spec_parse_keys(d, kb.0, kb.1) {
                                    None => None,
                                    Some(keys) => spec_parse_ilst_keyed(d, keys, ilst.0, ilst.1),
                                },
                                None => spec_parse_ilst_standard(d, ilst.0, ilst.1),
                            },
                        },
                    }
                },
            },
        },
    }
}

/// Extracts the `ilst` metadata entries of an MP4/MOV file.
pub fn extract_ilst_entries(data: &[u8]) -> (r: Option<Vec<(String, String)>>)
    requires
        data@.len() <= isize::MAX,
    ensures
        match r {
            Some(v) => spec_extract_ilst_entries(data@) == Some(entries_view(v@)),
            None => spec_extract_ilst_entries(data@) is None,
        },
{
    let t_moov: [u8; 4] = [0x6d, 0x6f, 0x6f, 0x76];
    let t_udta: [u8; 4] = [0x75, 0x64, 0x74, 0x61];
    let t_meta: [u8; 4] = [0x6d, 0x65, 0x74, 0x61];
    let t_keys: [u8; 4] = [0x6b, 0x65, 0x79, 0x73];
    let t_ilst: [u8; 4] = [0x69, 0x6c, 0x73, 0x74];
    assert(t_moov@ =~= moov_tag());
    assert(t_udta@ =~= udta_tag());
    assert(t_meta@ =~= meta_tag());
    assert(t_keys@ =~= keys_tag());
    assert(t_ilst@ =~= ilst_tag());
    let moov = match get_box(data, 0, data.len(), &t_moov) {
        None => return None,
        Some(None) => return Some(Vec::new()),
        Some(Some(m)) => m,
    };
    let udta = match get_box(data, moov.0, moov.1, &t_udta) {
        None => return None,
        Some(None) => return Some(Vec::new()),
        Some(Some(u)) => u,
    };
    let meta = match get_box(data, udta.0, udta.1, &t_meta) {
        None => return None,
        Some(None) => return Some(Vec::new()),
        Some(Some(m)) => m,
    };
    let meta_content = meta.0 + 4;
    if meta_content >= meta.1 {
        return Some(Vec::new());
    }
    let keys_box = match get_box(data, meta_content, meta.1, &t_keys) {
        None => return None,
        Some(k) => k,
    };
    let ilst = match get_box(data, meta_content, meta.1, &t_ilst) {
        None => return None,
        Some(None) => return Some(Vec::new()),
        Some(Some(i)) => i,
    };
    match keys_box {
        Some((keys_start, keys_end)) => {
            let keys = match parse_keys(data, keys_start, keys_end) {
                None => return None,
                Some(k) => k,
            };
            parse_ilst_keyed(data, &keys, ilst.0, ilst.1)
        },
        None => parse_ilst_standard(data, ilst.0, ilst.1),
    }
}

// ---------------------------------------------------------------------------
// Detection methods
// ---------------------------------------------------------------------------

/// Keys whose values name the tool that wrote the file.
pub open spec fn is_tool_key(k: Seq<char>) -> bool {
    ||| eq_ignore_ascii_case(k, "\u{a9}too"@)
    ||| eq_ignore_ascii_case(k, "\u{a9}swr"@)
    ||| eq_ignore_ascii_case(k, "encoder"@)
    ||| eq_ignore_ascii_case(k, "tool"@)
    ||| eq_ignore_ascii_case(k, "software"@)
}

/// How a tool key is shown in a description.
pub open spec fn tool_label(k: Seq<char>) -> Seq<char> {
    if k == "\u{a9}too"@ {
        "Encoding Tool"@
    } else if k == "\u{a9}swr"@ {
        "Software"@
    } else {
        k
    }
}

/// The signal that one `ilst` entry gives: for a tool key whose value names a
/// known AI tool, or whose value is `google` in any case (Google Veo), a
/// medium-confidence signal naming the tool.
pub open spec fn ilst_tool_signal(k: Seq<char>, v: Seq<char>) -> Option<SignalView> {
    if !is_tool_key(k) {
        None
    } else {
        let desc = tool_label(k) + " matches AI tool: "@ + v;
        match ai_tool_of(v) {
            Some(t) => Some(
                SignalView {
                    source: SignalSource::Mp4Metadata,
                    confidence: Confidence::Medium,
                    description: desc,
                    tool: Some(t),
                    details: seq![(k, v)],
                },
            ),
            None => if lowercase(v) == "google"@ {
                Some(
                    SignalView {
                        source: SignalSource::Mp4Metadata,
                        confidence: Confidence::Medium,
                        description: desc,
                        tool: Some("google veo"@),
                        details: seq![(k, v)],
                    },
                )
            } else {
                None
            },
        }
    }
}

pub open spec fn spec_ilst_tools(es: Seq<(Seq<char>, Seq<char>)>) -> Seq<SignalView>
    decreases es.len(),
{
    if es.len() == 0 {
        Seq::empty()
    } else {
        let r = spec_ilst_tools(es.drop_last());
        match ilst_tool_signal(es.last().0, es.last().1) {
            Some(sg) => r.push(sg),
            None => r,
        }
    }
}

fn chars_equal(a: &[char], b: &[char]) -> (r: bool)
    ensures
        r == (a@ == b@),
{
    if a.len() != b.len() {
        return false;
    }
    let mut i: usize = 0;
    while i < a.len()
        invariant
            a@.len() == b@.len(),
            i <= a@.len(),
            forall|j: int| 0 <= j < i ==> a@[j] == b@[j],
        decreases a.len() - i,
    {
        if a[i] != b[i] {
            return false;
        }
        i = i + 1;
    }
    assert(a@ =~= b@);
    true
}

fn single_detail(k: &String, v: &String) -> (r: Vec<(String, String)>)
    ensures
        pairs_view(r@) == seq![(k@, v@)],
{
    let mut d: Vec<(String, String)> = Vec::new();
    d.push((k.clone(), v.clone()));
    assert(pairs_view(d@) =~= seq![(k@, v@)]);
    d
}

fn tool_signal_for(key: &String, value: &String) -> (r: Option<Signal>)
    ensures
        match r {
            Some(sg) => ilst_tool_signal(key@, value@) == Some(sg@),
            None => ilst_tool_signal(key@, value@) is None,
        },
{
    let kc = chars_of(key.as_str());
    let too = chars_of("\u{a9}too");
    let swr = chars_of("\u{a9}swr");
    let is_tool_key = chars_eq_ignore_ascii_case(kc.as_slice(), too.as_slice())
        || chars_eq_ignore_ascii_case(kc.as_slice(), swr.as_slice())
        || chars_eq_ignore_ascii_case(kc.as_slice(), chars_of("encoder").as_slice())
        || chars_eq_ignore_ascii_case(kc.as_slice(), chars_of("tool").as_slice())
        || chars_eq_ignore_ascii_case(kc.as_slice(), chars_of("software").as_slice());
    if !is_tool_key {
        return None;
    }
    let mut desc = if chars_equal(kc.as_slice(), too.as_slice()) {
        String::from_str("Encoding Tool")
    } else if chars_equal(kc.as_slice(), swr.as_slice()) {
        String::from_str("Software")
    } else {
        key.clone()
    };
    desc.append(" matches AI tool: ");
    desc.append(value.as_str());
    if let Some(tool_name) = match_ai_tool(value.as_str()) {
        return Some(
            Signal {
                source: SignalSource::Mp4Metadata,
                confidence: Confidence::Medium,
                description: desc,
                tool: Some(String::from_str(tool_name)),
                details: single_detail(key, value),
            },
        );
    }
    let lower = to_lowercase(value.as_str());
    if chars_equal(chars_of(lower.as_str()).as_slice(), chars_of("google").as_slice()) {
        return Some(
            Signal {
                source: SignalSource::Mp4Metadata,
                confidence: Confidence::Medium,
                description: desc,
                tool: Some(String::from_str("google veo")),
                details: single_detail(key, value),
            },
        );
    }
    None
}

/// Method A: matches the tool/software values of the entries against known AI tools.
pub fn detect_ilst_tools(entries: &Vec<(String, String)>) -> (r: Vec<Signal>)
    ensures
        signals_view(r@) == spec_ilst_tools(entries_view(entries@)),
{
    let ghost es = entries_view(entries@);
    let mut signals: Vec<Signal> = Vec::new();
    let mut i: usize = 0;
    while i < entries.len()
        invariant
            i <= entries@.len(),
            es == entries_view(entries@),
            signals_view(signals@) == spec_ilst_tools(es.take(i as int)),
        decreases entries.len() - i,
    {
        let ghost t = es.take(i + 1);
        assert(t.drop_last() =~= es.take(i as int));
        assert(t.last() == (entries@[i as int].0@, entries@[i as int].1@));
        let (key, value) = &entries[i];
        if let Some(sg) = tool_signal_for(key, value) {
            let ghost old = signals@;
            signals.push(sg);
            assert(signals_view(signals@) =~= signals_view(old).push(sg@));
        }
        i = i + 1;
    }
    assert(es.take(entries@.len() as int) =~= es);
    signals
}

/// The text between the quotes of `"field": "value"` in a JSON-like string:
/// after the first occurrence of the quoted field name come optional
/// whitespace, a colon, optional whitespace and an opening quote; the value
/// runs to the next quote.
pub open spec fn spec_json_field(json: Seq<char>, field: Seq<char>) -> Option<Seq<char>> {
    let pat = seq!['"'] + field + seq!['"'];
    match find_seq(json, pat) {
        None => None,
        Some(idx) => {
            let a1 = trim_start_by(json.subrange(idx + pat.len(), json.len() as int), TrimClass::Whitespace);
            if a1.len() == 0 || a1[0] != ':' {
                None
            } else {
                let a2 = trim_start_by(a1.drop_first(), TrimClass::Whitespace);
                if a2.len() == 0 || a2[0] != '"' {
                    None
                } else {
                    let a3 = a2.drop_first();
                    match find_seq(a3, seq!['"']) {
                        None => None,
                        Some(e) => Some(a3.subrange(0, e)),
                    }
                }
            }
        },
    }
}

/// Simple JSON field extractor: the quoted string value of `field` in `json`.
pub fn extract_json_field(json: &str, field: &str) -> (r: Option<String>)
    ensures
        opt_str_view(r) == spec_json_field(json@, field@),
{
    let v = chars_of(json);
    let fc = chars_of(field);
    let mut pat: Vec<char> = Vec::new();
    pat.push('"');
    let mut k: usize = 0;
    while k < fc.len()
        invariant
            k <= fc@.len(),
            pat@ == seq!['"'] + fc@.take(k as int),
        decreases fc.len() - k,
    {
        pat.push(fc[k]);
        assert(fc@.take(k + 1) =~= fc@.take(k as int).push(fc@[k as int]));
        assert(seq!['"'] + fc@.take(k + 1) =~= (seq!['"'] + fc@.take(k as int)).push(fc@[k as int]));
        k = k + 1;
    }
    pat.push('"');
    assert(fc@.take(fc@.len() as int) =~= fc@);
    assert(pat@ =~= seq!['"'] + fc@ + seq!['"']);
    let len = v.len();
    let idx = match find_chars(v.as_slice(), pat.as_slice()) {
        None => return None,
        Some(i) => i,
    };
    let p1 = idx + pat.len();
    let p2 = trim_start_bound(v.as_slice(), p1, len, TrimClass::Whitespace);
    let ghost a1 = v@.subrange(p2 as int, len as int);
    if p2 == len || v[p2] != ':' {
        return None;
    }
    assert(a1[0] == v@[p2 as int]);
    let p3 = p2 + 1;
    assert(a1.drop_first() =~= v@.subrange(p3 as int, len as int));
    let p4 = trim_start_bound(v.as_slice(), p3, len, TrimClass::Whitespace);
    let ghost a2 = v@.subrange(p4 as int, len as int);
    if p4 == len || v[p4] != '"' {
        return None;
    }
    assert(a2[0] == v@[p4 as int]);
    let p5 = p4 + 1;
    let ghost a3 = v@.subrange(p5 as int, len as int);
    assert(a2.drop_first() =~= a3);
    let mut quote: Vec<char> = Vec::new();
    quote.push('"');
    assert(quote@ =~= seq!['"']);
    let rest = slice_subrange(v.as_slice(), p5, len);
    let e = match find_chars(rest, quote.as_slice()) {
        None => return None,
        Some(e) => e,
    };
    assert(a3.subrange(0, e as int) =~= v@.subrange(p5 as int, p5 + e));
    Some(string_from_chars(v.as_slice(), p5, p5 + e))
}

/// The signal that one entry gives under the AIGC labelling standard: an
/// `AIGC` key (any case) whose JSON value carries `"Label":"1"` (with or
/// without a space after the colon) marks the content as AI-generated; the
/// `ProduceID` field, when present, is reported.
pub open spec fn aigc_signal(k: Seq<char>, v: Seq<char>) -> Option<SignalView> {
    if !eq_ignore_ascii_case(k, "AIGC"@) {
        None
    } else if !(contains_seq(v, "\"Label\":\"1\""@) || contains_seq(v, "\"Label\": \"1\""@)) {
        None
    } else {
        let pid = spec_json_field(v, "ProduceID"@);
        Some(
            SignalView {
                source: SignalSource::Mp4Metadata,
                confidence: Confidence::Medium,
                description: match pid {
                    Some(p) => "AIGC label indicates AI-generated content (ProduceID: "@ + p + ")"@,
                    None => "AIGC label indicates AI-generated content"@,
                },
                tool: None,
                details: match pid {
                    Some(p) => seq![("AIGC"@, v), ("ProduceID"@, p)],
                    None => seq![("AIGC"@, v)],
                },
            },
        )
    }
}

pub open spec fn spec_aigc_labels(es: Seq<(Seq<char>, Seq<char>)>) -> Seq<SignalView>
    decreases es.len(),
{
    if es.len() == 0 {
        Seq::empty()
    } else {
        let r = spec_aigc_labels(es.drop_last());
        match aigc_signal(es.last().0, es.last().1) {
            Some(sg) => r.push(sg),
            None => r,
        }
    }
}

fn aigc_signal_for(key: &String, value: &String) -> (r: Option<Signal>)
    ensures
        match r {
            Some(sg) => aigc_signal(key@, value@) == Some(sg@),
            None => aigc_signal(key@, value@) is None,
        },
{
    let kc = chars_of(key.as_str());
    if !chars_eq_ignore_ascii_case(kc.as_slice(), chars_of("AIGC").as_slice()) {
        return None;
    }
    let vc = chars_of(value.as_str());
    let has_ai_label = find_chars(vc.as_slice(), chars_of("\"Label\":\"1\"").as_slice()).is_some()
        || find_chars(vc.as_slice(), chars_of("\"Label\": \"1\"").as_slice()).is_some();
    if !has_ai_label {
        return None;
    }
    let produce_id = extract_json_field(value.as_str(), "ProduceID");
    let mut details: Vec<(String, String)> = Vec::new();
    details.push((String::from_str("AIGC"), value.clone()));
    let description = match &produce_id {
        Some(pid) => {
            let mut d = String::from_str("AIGC label indicates AI-generated content (ProduceID: ");
            d.append(pid.as_str());
            d.append(")");
            details.push((String::from_str("ProduceID"), pid.clone()));
            d
        },
        None => String::from_str("AIGC label indicates AI-generated content"),
    };
    let sg = Signal {
        source: SignalSource::Mp4Metadata,
        confidence: Confidence::Medium,
        description,
        tool: None,
        details,
    };
    assert(sg@.details =~= aigc_signal(key@, value@)->0.details);
    Some(sg)
}

/// Method B: detects the China AIGC labelling standard in the entries.
pub fn detect_aigc_label(entries: &Vec<(String, String)>) -> (r: Vec<Signal>)
    ensures
        signals_view(r@) == spec_aigc_labels(entries_view(entries@)),
{
    let ghost es = entries_view(entries@);
    let mut signals: Vec<Signal> = Vec::new();
    let mut i: usize = 0;
    while i < entries.len()
        invariant
            i <= entries@.len(),
            es == entries_view(entries@),
            signals_view(signals@) == spec_aigc_labels(es.take(i as int)),
        decreases entries.len() - i,
    {
        let ghost t = es.take(i + 1);
        assert(t.drop_last() =~= es.take(i as int));
        assert(t.last() == (entries@[i as int].0@, entries@[i as int].1@));
        let (key, value) = &entries[i];
        if let Some(sg) = aigc_signal_for(key, value) {
            let ghost old = signals@;
            signals.push(sg);
            assert(signals_view(signals@) =~= signals_view(old).push(sg@));
        }
        i = i + 1;
    }
    assert(es.take(entries@.len() as int) =~= es);
    signals
}


/// The bytes `kling-ai`: the marker that Kling writes into an H.264 SEI
/// `user_data_unregistered` message.
pub open spec fn kling_marker() -> Seq<u8> {
    seq![0x6b, 0x6c, 0x69, 0x6e, 0x67, 0x2d, 0x61, 0x69]
}

/// Number of bytes of `mdat` content that are scanned for markers.
pub const SEI_SCAN_LIMIT: usize = 1048576;

pub open spec fn sei_signal() -> SignalView {
    SignalView {
        source: SignalSource::Mp4Metadata,
        confidence: Confidence::Medium,
        description: "H.264 SEI watermark: kling-ai"@,
        tool: Some("kling"@),
        details: seq![("SEI marker"@, "kling-ai"@)],
    }
}

/// Where markers are searched: the first `SEI_SCAN_LIMIT` bytes of the first
/// `mdat` box; `Some(None)` without an `mdat` box, `None` when the walk cannot
/// be completed or the box's content would end before it starts.
pub open spec fn spec_mdat_scan_contains_marker(d: Seq<u8>) -> Option<Option<bool>> {
    match spec_get_box(d, 0, d.len() as int, mdat_tag()) {
        None => None,
        Some(None) => Some(None),
        Some(Some(mdat)) => {
            let scan_end = spec_min(mdat.1, mdat.0 + SEI_SCAN_LIMIT);
            if mdat.0 > scan_end {
                None
            } else {
                Some(Some(contains_seq(d.subrange(mdat.0, scan_end), kling_marker())))
            }
        },
    }
}

/// Signals of the SEI marker scan.
pub open spec fn spec_sei_signals(d: Seq<u8>) -> Option<Seq<SignalView>> {
    match spec_mdat_scan_contains_marker(d) {
        None => None,
        Some(None) => Some(Seq::empty()),
        Some(Some(found)) => Some(
            if found {
                seq![sei_signal()]
            } else {
                Seq::empty()
            },
        ),
    }
}

fn mdat_scan_contains_marker(data: &[u8]) -> (r: Option<Option<bool>>)
    requires
        data@.len() <= isize::MAX,
    ensures
        match r {
            Some(f) => spec_mdat_scan_contains_marker(data@) == Some(f),
            None => spec_mdat_scan_contains_marker(data@) is None,
        },
{
    let t_mdat: [u8; 4] = [0x6d, 0x64, 0x61, 0x74];
    assert(t_mdat@ =~= mdat_tag());
    let mdat = match get_box(data, 0, data.len(), &t_mdat) {
        None => return None,
        Some(None) => return Some(None),
        Some(Some(m)) => m,
    };
    let scan_end = if mdat.1 < mdat.0 + SEI_SCAN_LIMIT {
        mdat.1
    } else {
        mdat.0 + SEI_SCAN_LIMIT
    };
    if mdat.0 > scan_end {
        return None;
    }
    let marker: [u8; 8] = [0x6b, 0x6c, 0x69, 0x6e, 0x67, 0x2d, 0x61, 0x69];
    assert(marker@ =~= kling_marker());
    let scan = slice_subrange(data, mdat.0, scan_end);
    Some(Some(find_subsequence(scan, &marker).is_some()))
}

/// Method C: scans the start of `mdat` for known H.264 SEI watermark markers.
pub fn detect_sei_markers(data: &[u8]) -> (r: Option<Vec<Signal>>)
    requires
        data@.len() <= isize::MAX,
    ensures
        match r {
            Some(v) => spec_sei_signals(data@) == Some(signals_view(v@)),
            None => spec_sei_signals(data@) is None,
        },
{
    let mut signals: Vec<Signal> = Vec::new();
    match mdat_scan_contains_marker(data) {
        None => None,
        Some(None) => {
            assert(signals_view(signals@) =~= Seq::<SignalView>::empty());
            Some(signals)
        },
        Some(Some(found)) => {
            if found {
                let mut details: Vec<(String, String)> = Vec::new();
                details.push((String::from_str("SEI marker"), String::from_str("kling-ai")));
                signals.push(
                    Signal {
                        source: SignalSource::Mp4Metadata,
                        confidence: Confidence::Medium,
                        description: String::from_str("H.264 SEI watermark: kling-ai"),
                        tool: Some(String::from_str("kling")),
                        details,
                    },
                );
                assert(pairs_view(details@) =~= seq![("SEI marker"@, "kling-ai"@)]);
                assert(signals_view(signals@) =~= seq![sei_signal()]);
            } else {
                assert(signals_view(signals@) =~= Seq::<SignalView>::empty());
            }
            Some(signals)
        },
    }
}

/// Whether the file starts like an MP4/MOV file: an `ftyp` box among the
/// boxes of its first 64 bytes (outer `None` when that walk cannot be completed).
pub open spec fn spec_has_ftyp(d: Seq<u8>) -> Option<bool> {
    match spec_get_box(d, 0, spec_min(d.len() as int, 64), ftyp_tag()) {
        None => None,
        Some(found) => Some(found is Some),
    }
}

fn has_ftyp(data: &[u8]) -> (r: Option<bool>)
    requires
        data@.len() <= isize::MAX,
    ensures
        r == spec_has_ftyp(data@),
{
    let t_ftyp: [u8; 4] = [0x66, 0x74, 0x79, 0x70];
    assert(t_ftyp@ =~= ftyp_tag());
    let end = if data.len() < 64 {
        data.len()
    } else {
        64
    };
    match get_box(data, 0, end, &t_ftyp) {
        None => None,
        Some(found) => Some(found.is_some()),
    }
}

/// All MP4 metadata signals of a file: tool atoms, then AIGC labels, then SEI
/// markers; nothing for a file without an `ftyp` box at its start. `None`
/// when the box walk cannot be completed.
pub open spec fn spec_detect(d: Seq<u8>) -> Option<Seq<SignalView>> {
    match spec_has_ftyp(d) {
        None => None,
        Some(false) => Some(Seq::empty()),
        Some(true) => match spec_extract_ilst_entries(d) {
            None => None,
            Some(es) => match spec_sei_signals(d) {
                None => None,
                Some(sei) => Some(spec_ilst_tools(es) + spec_aigc_labels(es) + sei),
            },
        },
    }
}

/// Detects AI signals in the bytes of an MP4/MOV file.
pub fn detect(data: &[u8]) -> (r: Option<Vec<Signal>>)
    requires
        data@.len() <= isize::MAX,
    ensures
        match r {
            Some(v) => spec_detect(data@) == Some(signals_view(v@)),
            None => spec_detect(data@) is None,
        },
{
    match has_ftyp(data) {
        None => return None,
        Some(false) => {
            let v: Vec<Signal> = Vec::new();
            assert(signals_view(v@) =~= Seq::<SignalView>::empty());
            return Some(v);
        },
        Some(true) => {},
    }
    let entries = match extract_ilst_entries(data) {
        None => return None,
        Some(e) => e,
    };
    let mut signals = detect_ilst_tools(&entries);
    let mut aigc = detect_aigc_label(&entries);
    let mut sei = match detect_sei_markers(data) {
        None => return None,
        Some(s) => s,
    };
    let ghost a = signals@;
    let ghost b = aigc@;
    let ghost c = sei@;
    signals.append(&mut aigc);
    signals.append(&mut sei);
    assert(signals@ =~= a + b + c);
    assert(signals_view(signals@) =~= signals_view(a) + signals_view(b) + signals_view(c));
    Some(signals)
}

/// All MP4 metadata of a file for display: its `ilst` entries, then a line
/// for each SEI marker found; nothing for a file without an `ftyp` box.
pub open spec fn spec_dump_info(d: Seq<u8>) -> Option<Seq<(Seq<char>, Seq<char>)>> {
    match spec_has_ftyp(d) {
        None => None,
        Some(false) => Some(Seq::empty()),
        Some(true) => match spec_extract_ilst_entries(d) {
            None => None,
            Some(es) => match spec_mdat_scan_contains_marker(d) {
                None => None,
                Some(Some(true)) => Some(es.push(("SEI watermark"@, "kling-ai (kling)"@))),
                Some(_) => Some(es),
            },
        },
    }
}

/// Dumps all MP4 metadata for the `info` subcommand.
pub fn dump_info(data: &[u8]) -> (r: Option<Vec<(String, String)>>)
    requires
        data@.len() <= isize::MAX,
    ensures
        match r {
            Some(v) => spec_dump_info(data@) == Some(entries_view(v@)),
            None => spec_dump_info(data@) is None,
        },
{
    match has_ftyp(data) {
        None => return None,
        Some(false) => {
            let v: Vec<(String, String)> = Vec::new();
            assert(entries_view(v@) =~= Seq::<(Seq<char>, Seq<char>)>::empty());
            return Some(v);
        },
        Some(true) => {},
    }
    let mut props = match extract_ilst_entries(data) {
        None => return None,
        Some(e) => e,
    };
    match mdat_scan_contains_marker(data) {
        None => None,
        Some(Some(true)) => {
            let ghost old = props@;
            props.push((String::from_str("SEI watermark"), String::from_str("kling-ai (kling)")));
            assert(entries_view(props@) =~= entries_view(old).push(("SEI watermark"@, "kling-ai (kling)"@)));
            Some(props)
        },
        Some(_) => Some(props),
    }
}


// ---------------------------------------------------------------------------
// Laws
// ---------------------------------------------------------------------------

/// The boxes found in `d[pos..end]` follow one another inside the range: each
/// starts with an 8-byte header at or after the end of the previous one and
/// ends no later than `end`.
pub proof fn lemma_boxes_within_range(d: Seq<u8>, pos: int, end: int)
    requires
        0 <= pos,
    ensures
        spec_find_boxes(d, pos, end) matches Some(bs) ==> forall|i: int| 0 <= i < bs.len() ==> {
            &&& pos + 8 <= (#[trigger] bs[i]).box_end <= end
            &&& bs[i].content_start <= end
            &&& i > 0 ==> bs[i - 1].box_end + 8 <= bs[i].box_end
        },
    decreases end - pos,
{
    if let Some(bs) = spec_find_boxes(d, pos, end) {
        if bs.len() > 0 {
            let first = bs[0];
            lemma_boxes_within_range(d, first.box_end, end);
            let rest = spec_find_boxes(d, first.box_end, end)->0;
            assert(bs == seq![first] + rest);
            assert forall|i: int| 0 <= i < bs.len() implies {
                &&& pos + 8 <= (#[trigger] bs[i]).box_end <= end
                &&& bs[i].content_start <= end
                &&& i > 0 ==> bs[i - 1].box_end + 8 <= bs[i].box_end
            } by {
                if i > 0 {
                    assert(bs[i] == rest[i - 1]);
                    if i > 1 {
                        assert(bs[i - 1] == rest[i - 2]);
                    }
                }
            }
        }
    }
}

proof fn lemma_tools_medium(es: Seq<(Seq<char>, Seq<char>)>)
    ensures
        forall|i: int| 0 <= i < spec_ilst_tools(es).len() ==> {
            &&& (#[trigger] spec_ilst_tools(es)[i]).source == SignalSource::Mp4Metadata
            &&& spec_ilst_tools(es)[i].confidence == Confidence::Medium
        },
    decreases es.len(),
{
    if es.len() > 0 {
        lemma_tools_medium(es.drop_last());
        let p = spec_ilst_tools(es.drop_last());
        assert forall|i: int| 0 <= i < spec_ilst_tools(es).len() implies {
            &&& (#[trigger] spec_ilst_tools(es)[i]).source == SignalSource::Mp4Metadata
            &&& spec_ilst_tools(es)[i].confidence == Confidence::Medium
        } by {
            if i < p.len() {
                assert(spec_ilst_tools(es)[i] == p[i]);
            }
        }
    }
}

proof fn lemma_aigc_medium(es: Seq<(Seq<char>, Seq<char>)>)
    ensures
        forall|i: int| 0 <= i < spec_aigc_labels(es).len() ==> {
            &&& (#[trigger] spec_aigc_labels(es)[i]).source == SignalSource::Mp4Metadata
            &&& spec_aigc_labels(es)[i].confidence == Confidence::Medium
        },
    decreases es.len(),
{
    if es.len() > 0 {
        lemma_aigc_medium(es.drop_last());
        let p = spec_aigc_labels(es.drop_last());
        assert forall|i: int| 0 <= i < spec_aigc_labels(es).len() implies {
            &&& (#[trigger] spec_aigc_labels(es)[i]).source == SignalSource::Mp4Metadata
            &&& spec_aigc_labels(es)[i].confidence == Confidence::Medium
        } by {
            if i < p.len() {
                assert(spec_aigc_labels(es)[i] == p[i]);
            }
        }
    }
}

/// Every MP4 container signal is a medium-confidence signal from the MP4 source.
pub proof fn lemma_mp4_signals_are_medium(d: Seq<u8>)
    ensures
        spec_detect(d) matches Some(s) ==> forall|i: int| 0 <= i < s.len() ==> {
            &&& (#[trigger] s[i]).source == SignalSource::Mp4Metadata
            &&& s[i].confidence == Confidence::Medium
        },
{
    if let Some(s) = spec_detect(d) {
        if spec_has_ftyp(d) == Some(true) {
            let es = spec_extract_ilst_entries(d)->0;
            let sei = spec_sei_signals(d)->0;
            let a = spec_ilst_tools(es);
            let b = spec_aigc_labels(es);
            lemma_tools_medium(es);
            lemma_aigc_medium(es);
            assert(s == a + b + sei);
            assert forall|i: int| 0 <= i < s.len() implies {
                &&& (#[trigger] s[i]).source == SignalSource::Mp4Metadata
                &&& s[i].confidence == Confidence::Medium
            } by {
                if i < a.len() {
                    assert(s[i] == a[i]);
                } else if i < a.len() + b.len() {
                    assert(s[i] == b[i - a.len()]);
                } else {
                    assert(s[i] == sei[i - a.len() - b.len()]);
                }
            }
        }
    }
}

/// A file that does not start with an `ftyp` box gives no MP4 signal.
pub proof fn lemma_not_mp4_no_signals(d: Seq<u8>)
    requires
        spec_has_ftyp(d) == Some(false),
    ensures
        spec_detect(d) == Some(Seq::<SignalView>::empty()),
{
}

/// An extracted JSON string value never holds a double quote.
pub proof fn lemma_json_field_has_no_quote(json: Seq<char>, field: Seq<char>)
    ensures
        spec_json_field(json, field) matches Some(v) ==> forall|i: int| 0 <= i < v.len() ==> v[i] != '"',
{
    let pat = seq!['"'] + field + seq!['"'];
    if let Some(idx) = find_seq(json, pat) {
        let a1 = trim_start_by(json.subrange(idx + pat.len(), json.len() as int), TrimClass::Whitespace);
        if a1.len() > 0 && a1[0] == ':' {
            let a2 = trim_start_by(a1.drop_first(), TrimClass::Whitespace);
            if a2.len() > 0 && a2[0] == '"' {
                let a3 = a2.drop_first();
                if let Some(e) = find_seq(a3, seq!['"']) {
                    let w = choose|w: int| crate::text::is_first_match(a3, seq!['"'], w);
                    assert(crate::text::is_first_match(a3, seq!['"'], w));
                    assert forall|i: int| 0 <= i < e implies a3[i] != '"' by {
                        assert(!crate::text::matches_at(a3, seq!['"'], i));
                        if a3[i] == '"' {
                            assert(a3.subrange(i, i + 1) =~= seq!['"']);
                        }
                    }
                }
            }
        }
    }
}

proof fn lemma_ilst_tools_contains(es: Seq<(Seq<char>, Seq<char>)>, i: int)
    requires
        0 <= i < es.len(),
    ensures
        ilst_tool_signal(es[i].0, es[i].1) matches Some(sg) ==> exists|j: int|
            0 <= j < spec_ilst_tools(es).len() && #[trigger] spec_ilst_tools(es)[j] == sg,
    decreases es.len(),
{
    let r = spec_ilst_tools(es.drop_last());
    if i < es.len() - 1 {
        lemma_ilst_tools_contains(es.drop_last(), i);
        assert(es.drop_last()[i] == es[i]);
        if let Some(sg) = ilst_tool_signal(es[i].0, es[i].1) {
            let j = choose|j: int| 0 <= j < r.len() && r[j] == sg;
            assert(spec_ilst_tools(es)[j] == sg);
        }
    } else {
        if let Some(sg) = ilst_tool_signal(es[i].0, es[i].1) {
            assert(spec_ilst_tools(es) == r.push(sg));
            assert(spec_ilst_tools(es)[r.len() as int] == sg);
        }
    }
}

/// An `ilst` entry whose key is one of `©too`, `©swr`, `encoder`, `tool` and
/// `software` (in any ASCII case) and whose value names a known AI tool gives
/// a medium-confidence MP4 signal naming that tool, with the entry as its
/// detail.
pub proof fn lemma_tool_keys_recognized(es: Seq<(Seq<char>, Seq<char>)>, i: int)
    requires
        0 <= i < es.len(),
        ai_tool_of(es[i].1) is Some,
        eq_ignore_ascii_case(es[i].0, "\u{a9}too"@) || eq_ignore_ascii_case(es[i].0, "\u{a9}swr"@)
            || eq_ignore_ascii_case(es[i].0, "encoder"@) || eq_ignore_ascii_case(es[i].0, "tool"@)
            || eq_ignore_ascii_case(es[i].0, "software"@),
    ensures
        exists|j: int|
            0 <= j < spec_ilst_tools(es).len() && {
                let sg = #[trigger] spec_ilst_tools(es)[j];
                &&& sg.source == SignalSource::Mp4Metadata
                &&& sg.confidence == Confidence::Medium
                &&& sg.tool == ai_tool_of(es[i].1)
                &&& sg.details == seq![(es[i].0, es[i].1)]
            },
{
    lemma_ilst_tools_contains(es, i);
}

proof fn lemma_aigc_labels_contain(es: Seq<(Seq<char>, Seq<char>)>, i: int)
    requires
        0 <= i < es.len(),
    ensures
        aigc_signal(es[i].0, es[i].1) is Some ==> exists|j: int|
            0 <= j < spec_aigc_labels(es).len() && #[trigger] spec_aigc_labels(es)[j] == aigc_signal(es[i].0, es[i].1)->0,
    decreases es.len(),
{
    let r = spec_aigc_labels(es.drop_last());
    if i < es.len() - 1 {
        lemma_aigc_labels_contain(es.drop_last(), i);
        assert(es.drop_last()[i] == es[i]);
        if aigc_signal(es[i].0, es[i].1) is Some {
            let j = choose|j: int| 0 <= j < r.len() && r[j] == aigc_signal(es[i].0, es[i].1)->0;
            assert(spec_aigc_labels(es)[j] == r[j]);
        }
    } else if aigc_signal(es[i].0, es[i].1) is Some {
        assert(spec_aigc_labels(es)[r.len() as int] == aigc_signal(es[i].0, es[i].1)->0);
    }
}

/// An `AIGC` entry (in any ASCII case) whose JSON value holds `"Label":"1"`
/// (or `"Label": "1"`) gives a medium-confidence MP4 signal carrying the label.
pub proof fn lemma_aigc_label_reported(es: Seq<(Seq<char>, Seq<char>)>, i: int)
    requires
        0 <= i < es.len(),
        eq_ignore_ascii_case(es[i].0, "AIGC"@),
        contains_seq(es[i].1, "\"Label\":\"1\""@) || contains_seq(es[i].1, "\"Label\": \"1\""@),
    ensures
        exists|j: int|
            0 <= j < spec_aigc_labels(es).len() && {
                let sg = #[trigger] spec_aigc_labels(es)[j];
                &&& sg.source == SignalSource::Mp4Metadata
                &&& sg.confidence == Confidence::Medium
                &&& sg.details[0] == ("AIGC"@, es[i].1)
            },
{
    lemma_aigc_labels_contain(es, i);
}

} // verus!
