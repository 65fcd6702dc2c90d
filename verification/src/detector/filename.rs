//! Signals from the file name alone (AI audio and media tools name their
//! downloads recognisably).
use vstd::prelude::*;
use vstd::string::*;
use vstd::utf8::encode_utf8;

use crate::detector::{pairs_view, signals_view, Confidence, Signal, SignalSource, SignalView};
use crate::text::{chars_of, contains_seq, find_chars, lowercase, string_from_chars, to_lowercase};

verus! {

broadcast use vstd::string::group_string_axioms;

// ---------------------------------------------------------------------------
// The file name of a path
// ---------------------------------------------------------------------------

/// Start of the path segment that ends at `j`: just after the last `/` before `j`.
pub open spec fn segment_start(p: Seq<char>, j: int) -> int
    decreases j,
{
    if j <= 0 || j > p.len() {
        0
    } else if p[j - 1] == '/' {
        j
    } else {
        segment_start(p, j - 1)
    }
}

/// The final component of a `/`-separated path when it is a normal name, as
/// `Path::file_name` gives it: trailing separators and `.` components are
/// skipped; a final `..`, a root or an empty path have none.
pub open spec fn file_name_of(p: Seq<char>) -> Option<Seq<char>>
    decreases p.len(),
{
    if p.len() == 0 {
        None
    } else if p.last() == '/' {
        file_name_of(p.drop_last())
    } else {
        let start = segment_start(p, p.len() as int);
        let seg = p.subrange(start, p.len() as int);
        if seg == seq!['.'] {
            if 0 <= start < p.len() {
                file_name_of(p.subrange(0, start))
            } else {
                None
            }
        } else if seg == seq!['.', '.'] {
            None
        } else {
            Some(seg)
        }
    }
}

proof fn lemma_segment_start_bounds(p: Seq<char>, j: int)
    requires
        0 <= j <= p.len(),
    ensures
        0 <= segment_start(p, j) <= j,
        forall|k: int| segment_start(p, j) <= k < j ==> p[k] != '/',
        segment_start(p, j) > 0 ==> p[segment_start(p, j) - 1] == '/',
    decreases j,
{
    if j > 0 && p[j - 1] != '/' {
        lemma_segment_start_bounds(p, j - 1);
    }
}

/// The file name of a path, as `Path::file_name` gives it for `/`-separated paths.
pub fn file_name(path: &str) -> (r: Option<String>)
    ensures
        match r {
            Some(s) => file_name_of(path@) == Some(s@),
            None => file_name_of(path@) is None,
        },
{
    let v = chars_of(path);
    let mut end = v.len();
    assert(v@.subrange(0, end as int) =~= v@);
    while end > 0
        invariant
            end <= v@.len(),
            v@ == path@,
            file_name_of(v@) == file_name_of(v@.subrange(0, end as int)),
        decreases end,
    {
        let ghost p = v@.subrange(0, end as int);
        assert(p.last() == v@[end - 1]);
        if v[end - 1] == '/' {
            assert(p.drop_last() =~= v@.subrange(0, end - 1));
            end = end - 1;
            continue;
        }
        let mut start = end;
        while start > 0 && v[start - 1] != '/'
            invariant
                start <= end <= v@.len(),
                end > 0,
                v@[end - 1] != '/',
                file_name_of(v@) == file_name_of(v@.subrange(0, end as int)),
                p == v@.subrange(0, end as int),
                segment_start(p, end as int) == segment_start(p, start as int),
            decreases start,
        {
            assert(p[start - 1] == v@[start - 1]);
            start = start - 1;
        }
        proof {
            if start > 0 {
                assert(p[start - 1] == v@[start - 1]);
            }
            assert(segment_start(p, start as int) == start);
        }
        let ghost seg = p.subrange(start as int, end as int);
        assert(seg =~= v@.subrange(start as int, end as int));
        if end - start == 1 && v[start] == '.' {
            assert(seg =~= seq!['.']);
            if start == 0 {
                assert(p.subrange(0, 0) =~= Seq::<char>::empty());
                assert(file_name_of(p.subrange(0, 0)) is None);
                return None;
            }
            assert(p.subrange(0, start as int) =~= v@.subrange(0, start as int));
            end = start;
            continue;
        }
        if end - start == 2 && v[start] == '.' && v[start + 1] == '.' {
            assert(seg =~= seq!['.', '.']);
            return None;
        }
        proof {
            if end - start == 1 {
                assert(seg[0] == v@[start as int]);
                assert(seg != seq!['.']);
            } else {
                assert(seg.len() != 1);
            }
            if end - start == 2 {
                assert(seg[0] == v@[start as int]);
                assert(seg[1] == v@[start + 1]);
                assert(seg != seq!['.', '.']);
            } else {
                assert(seg.len() != 2);
            }
        }
        return Some(string_from_chars(v.as_slice(), start, end));
    }
    assert(v@.subrange(0, 0) =~= Seq::<char>::empty());
    None
}

// ---------------------------------------------------------------------------
// Patterns
// ---------------------------------------------------------------------------

/// Number of entries in the file name pattern table.
pub const PATTERN_COUNT: usize = 12;

/// Known file name patterns of AI audio/media tools: a lowercase substring
/// and the tool it identifies; the first matching entry wins.
pub open spec fn filename_patterns() -> Seq<(Seq<char>, Seq<char>)> {
    seq![
        ("elevenlabs_"@, "elevenlabs"@),
        ("suno_"@, "suno"@),
        ("soundraw_"@, "soundraw"@),
        ("aiva_"@, "aiva"@),
        ("mubert_"@, "mubert"@),
        ("boomy_"@, "boomy"@),
        ("beatoven_"@, "beatoven"@),
        ("dall-e"@, "dall-e"@),
        ("dalle"@, "dall-e"@),
        ("midjourney"@, "midjourney"@),
        ("comfyui"@, "comfyui"@),
        ("stability_"@, "stable diffusion"@)
    ]
}

fn pattern_entry(i: usize) -> (r: (&'static str, &'static str))
    requires
        i < PATTERN_COUNT,
    ensures
        r.0@ == filename_patterns()[i as int].0,
        r.1@ == filename_patterns()[i as int].1,
{
    match i {
        0 => ("elevenlabs_", "elevenlabs"),
        1 => ("suno_", "suno"),
        2 => ("soundraw_", "soundraw"),
        3 => ("aiva_", "aiva"),
        4 => ("mubert_", "mubert"),
        5 => ("boomy_", "boomy"),
        6 => ("beatoven_", "beatoven"),
        7 => ("dall-e", "dall-e"),
        8 => ("dalle", "dall-e"),
        9 => ("midjourney", "midjourney"),
        10 => ("comfyui", "comfyui"),
        _ => ("stability_", "stable diffusion"),
    }
}

/// The first pattern entry, from entry `i` on, that occurs in `lower`.
pub open spec fn first_pattern_from(lower: Seq<char>, i: int) -> Option<(Seq<char>, Seq<char>)>
    decreases PATTERN_COUNT - i,
{
    if i < 0 || i >= PATTERN_COUNT {
        None
    } else if contains_seq(lower, filename_patterns()[i].0) {
        Some(filename_patterns()[i])
    } else {
        first_pattern_from(lower, i + 1)
    }
}

/// The bytes of `elevenlabs_`.
pub open spec fn elevenlabs_prefix() -> Seq<u8> {
    seq![0x65, 0x6c, 0x65, 0x76, 0x65, 0x6e, 0x6c, 0x61, 0x62, 0x73, 0x5f]
}

/// ElevenLabs names downloads `elevenlabs_YYYY-MM-DDTHH_MM_SS_…`: after the
/// prefix come at least 20 bytes, with `-` at offsets 4 and 7, `t` at 10 and
/// `_` at 13 and 16 (checked on the UTF-8 bytes of the lowercased name).
pub open spec fn is_elevenlabs_name(lower: Seq<char>) -> bool {
    let b = encode_utf8(lower);
    &&& b.len() >= 11
    &&& b.subrange(0, 11) == elevenlabs_prefix()
    &&& b.len() - 11 >= 20
    &&& b[11int + 4] == 0x2d
    &&& b[11int + 7] == 0x2d
    &&& b[11int + 10] == 0x74
    &&& b[11int + 13] == 0x5f
    &&& b[11int + 16] == 0x5f
}

/// Checks for the ElevenLabs timestamp pattern `elevenlabs_YYYY-MM-DDTHH_MM_SS_`.
pub fn detect_elevenlabs_pattern(lower: &str) -> (r: bool)
    ensures
        r == is_elevenlabs_name(lower@),
{
    let b = lower.as_bytes();
    let prefix: [u8; 11] = [0x65, 0x6c, 0x65, 0x76, 0x65, 0x6e, 0x6c, 0x61, 0x62, 0x73, 0x5f];
    assert(prefix@ =~= elevenlabs_prefix());
    if b.len() < 11 {
        return false;
    }
    let mut i: usize = 0;
    while i < 11
        invariant
            i <= 11,
            b@.len() >= 11,
            b@ == encode_utf8(lower@),
            prefix@ == elevenlabs_prefix(),
            forall|j: int| 0 <= j < i ==> b@[j] == prefix@[j],
        decreases 11 - i,
    {
        if b[i] != prefix[i] {
            assert(b@.subrange(0, 11)[i as int] != elevenlabs_prefix()[i as int]);
            return false;
        }
        i = i + 1;
    }
    assert(b@.subrange(0, 11) =~= elevenlabs_prefix());
    if b.len() - 11 < 20 {
        return false;
    }
    b[15] == 0x2d && b[18] == 0x2d && b[21] == 0x74 && b[24] == 0x5f && b[27] == 0x5f
}

// ---------------------------------------------------------------------------
// Detection
// ---------------------------------------------------------------------------

pub open spec fn filename_signal(description: Seq<char>, tool: Seq<char>, name: Seq<char>) -> SignalView {
    SignalView {
        source: SignalSource::Filename,
        confidence: Confidence::Low,
        description,
        tool: Some(tool),
        details: seq![("filename"@, name)],
    }
}

/// Signals for a file name: one low-confidence signal for the first known
/// pattern that occurs in the lowercased name, otherwise one for the
/// ElevenLabs naming convention, otherwise none.
pub open spec fn spec_detect_file_name(name: Seq<char>) -> Seq<SignalView> {
    let lower = lowercase(name);
    match first_pattern_from(lower, 0) {
        Some(pt) => seq![filename_signal("Filename matches AI tool pattern: "@ + pt.0, pt.1, name)],
        None => if is_elevenlabs_name(lower) {
            seq![filename_signal("Filename matches ElevenLabs naming convention"@, "elevenlabs"@, name)]
        } else {
            Seq::empty()
        },
    }
}

/// Signals for a path: those of its file name, none when it has no file name.
pub open spec fn spec_detect(path: Seq<char>) -> Seq<SignalView> {
    match file_name_of(path) {
        Some(name) => spec_detect_file_name(name),
        None => Seq::empty(),
    }
}

fn one_signal(description: String, tool: &str, name: &str) -> (r: Vec<Signal>)
    ensures
        signals_view(r@) == seq![filename_signal(description@, tool@, name@)],
{
    let mut details: Vec<(String, String)> = Vec::new();
    details.push((String::from_str("filename"), String::from_str(name)));
    let mut v: Vec<Signal> = Vec::new();
    v.push(
        Signal {
            source: SignalSource::Filename,
            confidence: Confidence::Low,
            description,
            tool: Some(String::from_str(tool)),
            details,
        },
    );
    assert(pairs_view(details@) =~= seq![("filename"@, name@)]);
    assert(signals_view(v@) =~= seq![filename_signal(description@, tool@, name@)]);
    v
}

/// Detects AI signals in a file name.
pub fn detect_file_name(name: &str) -> (r: Vec<Signal>)
    ensures
        signals_view(r@) == spec_detect_file_name(name@),
{
    let lower = to_lowercase(name);
    let lc = chars_of(lower.as_str());
    let mut i: usize = 0;
    while i < PATTERN_COUNT
        invariant
            i <= PATTERN_COUNT,
            lc@ == lowercase(name@),
            first_pattern_from(lc@, 0) == first_pattern_from(lc@, i as int),
        decreases PATTERN_COUNT - i,
    {
        let (pattern, tool) = pattern_entry(i);
        if find_chars(lc.as_slice(), chars_of(pattern).as_slice()).is_some() {
            let mut desc = String::from_str("Filename matches AI tool pattern: ");
            desc.append(pattern);
            return one_signal(desc, tool, name);
        }
        i = i + 1;
    }
    if detect_elevenlabs_pattern(lower.as_str()) {
        return one_signal(String::from_str("Filename matches ElevenLabs naming convention"), "elevenlabs", name);
    }
    let v: Vec<Signal> = Vec::new();
    assert(signals_view(v@) =~= Seq::<SignalView>::empty());
    v
}

/// Detects AI signals from the file name of a path.
pub fn detect(path: &str) -> (r: Vec<Signal>)
    ensures
        signals_view(r@) == spec_detect(path@),
{
    match file_name(path) {
        Some(name) => detect_file_name(name.as_str()),
        None => {
            let v: Vec<Signal> = Vec::new();
            assert(signals_view(v@) =~= Seq::<SignalView>::empty());
            v
        },
    }
}


/// One match is enough: a path gives at most one signal, and it is a
/// low-confidence file name signal.
pub proof fn lemma_filename_single_low_signal(path: Seq<char>)
    ensures
        spec_detect(path).len() <= 1,
        forall|i: int| 0 <= i < spec_detect(path).len() ==> {
            &&& (#[trigger] spec_detect(path)[i]).source == SignalSource::Filename
            &&& spec_detect(path)[i].confidence == Confidence::Low
        },
{
}

} // verus!
