//! XMP / IPTC metadata embedded as XML in the file.
use vstd::prelude::*;
use vstd::slice::slice_subrange;
use vstd::string::*;
use vstd::utf8::{decode_utf8, encode_utf8, valid_utf8};

use crate::detector::{opt_str_view, pairs_view, signals_view, Confidence, Signal, SignalSource, SignalView};
use crate::known_tools::{ai_tool_of, match_ai_tool, opt_static_view};
use crate::text::{
    agrees_from, chars_of, contains_seq, find_subsequence, find_chars, find_seq, from_utf8, lemma_contains_iff_occurs,
    matches_at, occurs_from, string_from_chars, trim_bounds, trim_by, TrimClass,
};

verus! {

broadcast use vstd::string::group_string_axioms;

// ---------------------------------------------------------------------------
// Locating the XMP packet
// ---------------------------------------------------------------------------

/// The begin/end markers tried in turn: `<x:xmpmeta`…`</x:xmpmeta>`, then
/// `<xmpmeta`…`</xmpmeta>`, then a bare `<rdf:RDF`…`</rdf:RDF>`.
pub open spec fn xmp_marker(k: int) -> (Seq<u8>, Seq<u8>) {
    if k == 0 {
        (encode_utf8("<x:xmpmeta"@), encode_utf8("</x:xmpmeta>"@))
    } else if k == 1 {
        (encode_utf8("<xmpmeta"@), encode_utf8("</xmpmeta>"@))
    } else {
        (encode_utf8("<rdf:RDF"@), encode_utf8("</rdf:RDF>"@))
    }
}

fn marker_pair(k: usize) -> (r: (&'static [u8], &'static [u8]))
    requires
        k < 3,
    ensures
        r.0@ == xmp_marker(k as int).0,
        r.1@ == xmp_marker(k as int).1,
        r.0@.len() > 0,
        r.1@.len() > 0,
{
    let (b, e) = if k == 0 {
        ("<x:xmpmeta", "</x:xmpmeta>")
    } else if k == 1 {
        ("<xmpmeta", "</xmpmeta>")
    } else {
        ("<rdf:RDF", "</rdf:RDF>")
    };
    proof {
        reveal_strlit("<x:xmpmeta");
        reveal_strlit("</x:xmpmeta>");
        reveal_strlit("<xmpmeta");
        reveal_strlit("</xmpmeta>");
        reveal_strlit("<rdf:RDF");
        reveal_strlit("</rdf:RDF>");
    }
    let bb = b.as_bytes();
    let eb = e.as_bytes();
    proof {
        vstd::utf8::encode_utf8_first_scalar(b@);
        vstd::utf8::encode_utf8_first_scalar(e@);
    }
    (bb, eb)
}

/// The XML of the first marker pair, in order, whose begin marker occurs and
/// is followed by its end marker, provided the bytes from the begin marker
/// through the end marker are valid UTF-8.
pub open spec fn xmp_from(d: Seq<u8>, k: int) -> Option<Seq<char>>
    decreases 3 - k,
{
    if k < 0 || k >= 3 {
        None
    } else {
        let (b, e) = xmp_marker(k);
        match find_seq(d, b) {
            None => xmp_from(d, k + 1),
            Some(s) => match find_seq(d.subrange(s, d.len() as int), e) {
                None => xmp_from(d, k + 1),
                Some(ep) => {
                    let x = d.subrange(s, s + ep + e.len());
                    if valid_utf8(x) {
                        Some(decode_utf8(x))
                    } else {
                        xmp_from(d, k + 1)
                    }
                },
            },
        }
    }
}

/// Extracts the raw XMP XML from a file's bytes.
pub fn extract_xmp_xml(data: &[u8]) -> (r: Option<String>)
    ensures
        opt_str_view(r) == xmp_from(data@, 0),
{
    let mut k: usize = 0;
    while k < 3
        invariant
            k <= 3,
            xmp_from(data@, 0) == xmp_from(data@, k as int),
        decreases 3 - k,
    {
        let (begin, end) = marker_pair(k);
        if let Some(start_pos) = find_subsequence(data, begin) {
            let rest = slice_subrange(data, start_pos, data.len());
            if let Some(end_pos) = find_subsequence(rest, end) {
                proof {
                    let ep = end_pos as int;
                    assert(rest@.subrange(ep, ep + end@.len()) == end@);
                }
                let xml_end = start_pos + end_pos + end.len();
                assert(data@.subrange(start_pos as int, xml_end as int) =~= rest@.subrange(0, end_pos + end@.len()));
                if let Some(xml) = from_utf8(slice_subrange(data, start_pos, xml_end)) {
                    return Some(xml);
                }
            }
        }
        k = k + 1;
    }
    None
}

// ---------------------------------------------------------------------------
// Properties
// ---------------------------------------------------------------------------

pub const PREFIX_COUNT: usize = 5;

/// Namespace prefixes tried, in order, in front of a property name.
pub open spec fn xmp_prefix(i: int) -> Seq<char> {
    if i == 0 {
        "Iptc4xmpExt:"@
    } else if i == 1 {
        "xmp:"@
    } else if i == 2 {
        "dc:"@
    } else if i == 3 {
        "photoshop:"@
    } else {
        ""@
    }
}

fn prefix_at(i: usize) -> (r: &'static str)
    requires
        i < PREFIX_COUNT,
    ensures
        r@ == xmp_prefix(i as int),
{
    if i == 0 {
        "Iptc4xmpExt:"
    } else if i == 1 {
        "xmp:"
    } else if i == 2 {
        "dc:"
    } else if i == 3 {
        "photoshop:"
    } else {
        ""
    }
}

/// The element form `<ns:Prop …>value</ns:Prop>`: the first occurrence of the
/// opening tag, the first `>` after it, the first closing tag after it; the
/// trimmed text between `>` and the closing tag when that is non-empty.
pub open spec fn element_value(x: Seq<char>, prefix: Seq<char>, prop: Seq<char>) -> Option<Seq<char>> {
    let open = seq!['<'] + prefix + prop;
    match find_seq(x, open) {
        None => None,
        Some(st) => {
            let after = x.subrange(st + open.len(), x.len() as int);
            match find_seq(after, seq!['>']) {
                None => None,
                Some(gt) => {
                    let close = seq!['<', '/'] + prefix + prop + seq!['>'];
                    match find_seq(after, close) {
                        None => None,
                        Some(ep) => if ep > gt + 1 {
                            let v = trim_by(after.subrange(gt + 1, ep), TrimClass::Whitespace);
                            if v.len() > 0 {
                                Some(v)
                            } else {
                                None
                            }
                        } else {
                            None
                        },
                    }
                },
            }
        },
    }
}

/// The attribute form `ns:Prop="value"`: the text up to the next quote after
/// the first occurrence, when non-empty.
pub open spec fn attribute_value(x: Seq<char>, prefix: Seq<char>, prop: Seq<char>) -> Option<Seq<char>> {
    let attr = prefix + prop + seq!['=', '"'];
    match find_seq(x, attr) {
        None => None,
        Some(st) => {
            let vs = st + attr.len();
            match find_seq(x.subrange(vs, x.len() as int), seq!['"']) {
                None => None,
                Some(e) => if e > 0 {
                    Some(x.subrange(vs, vs + e))
                } else {
                    None
                },
            }
        },
    }
}

pub open spec fn first_element_value(x: Seq<char>, prop: Seq<char>, i: int) -> Option<Seq<char>>
    decreases PREFIX_COUNT - i,
{
    if i < 0 || i >= PREFIX_COUNT {
        None
    } else {
        match element_value(x, xmp_prefix(i), prop) {
            Some(v) => Some(v),
            None => first_element_value(x, prop, i + 1),
        }
    }
}

pub open spec fn first_attribute_value(x: Seq<char>, prop: Seq<char>, i: int) -> Option<Seq<char>>
    decreases PREFIX_COUNT - i,
{
    if i < 0 || i >= PREFIX_COUNT {
        None
    } else {
        match attribute_value(x, xmp_prefix(i), prop) {
            Some(v) => Some(v),
            None => first_attribute_value(x, prop, i + 1),
        }
    }
}

/// The value of an XMP property: the element form under any prefix, tried in
/// order, and failing that the attribute form.
pub open spec fn spec_property(x: Seq<char>, prop: Seq<char>) -> Option<Seq<char>> {
    match first_element_value(x, prop, 0) {
        Some(v) => Some(v),
        None => first_attribute_value(x, prop, 0),
    }
}

fn push_all(v: &mut Vec<char>, s: &str)
    ensures
        final(v)@ == old(v)@ + s@,
{
    let cs = chars_of(s);
    let ghost start = v@;
    let mut i: usize = 0;
    while i < cs.len()
        invariant
            i <= cs@.len(),
            cs@ == s@,
            v@ == start + cs@.take(i as int),
        decreases cs.len() - i,
    {
        v.push(cs[i]);
        assert(start + cs@.take(i + 1) =~= (start + cs@.take(i as int)).push(cs@[i as int]));
        i = i + 1;
    }
    assert(cs@.take(cs@.len() as int) =~= cs@);
}

fn element_value_exec(x: &Vec<char>, prefix: &str, prop: &str) -> (r: Option<String>)
    ensures
        opt_str_view(r) == element_value(x@, prefix@, prop@),
{
    let mut open: Vec<char> = Vec::new();
    open.push('<');
    push_all(&mut open, prefix);
    push_all(&mut open, prop);
    assert(open@ =~= seq!['<'] + prefix@ + prop@);
    let st = match find_chars(x.as_slice(), open.as_slice()) {
        None => return None,
        Some(s) => s,
    };
    assert(crate::text::matches_at(x@, open@, st as int));
    assert(x@.len() == x.len());
    let a0 = st + open.len();
    let after = slice_subrange(x.as_slice(), a0, x.len());
    let mut gt_pat: Vec<char> = Vec::new();
    gt_pat.push('>');
    assert(gt_pat@ =~= seq!['>']);
    let gt = match find_chars(after, gt_pat.as_slice()) {
        None => return None,
        Some(g) => g,
    };
    let mut close: Vec<char> = Vec::new();
    close.push('<');
    close.push('/');
    push_all(&mut close, prefix);
    push_all(&mut close, prop);
    close.push('>');
    assert(close@ =~= seq!['<', '/'] + prefix@ + prop@ + seq!['>']);
    let ep = match find_chars(after, close.as_slice()) {
        None => return None,
        Some(e) => e,
    };
    if ep > gt + 1 {
        let (a, b) = trim_bounds(x.as_slice(), a0 + gt + 1, a0 + ep, TrimClass::Whitespace);
        assert(after@.subrange(gt + 1, ep as int) =~= x@.subrange(a0 + gt + 1, a0 + ep));
        if a < b {
            return Some(string_from_chars(x.as_slice(), a, b));
        }
    }
    None
}

fn attribute_value_exec(x: &Vec<char>, prefix: &str, prop: &str) -> (r: Option<String>)
    ensures
        opt_str_view(r) == attribute_value(x@, prefix@, prop@),
{
    let mut attr: Vec<char> = Vec::new();
    push_all(&mut attr, prefix);
    push_all(&mut attr, prop);
    attr.push('=');
    attr.push('"');
    assert(attr@ =~= prefix@ + prop@ + seq!['=', '"']);
    let st = match find_chars(x.as_slice(), attr.as_slice()) {
        None => return None,
        Some(s) => s,
    };
    assert(crate::text::matches_at(x@, attr@, st as int));
    assert(x@.len() == x.len());
    let vs = st + attr.len();
    let mut quote: Vec<char> = Vec::new();
    quote.push('"');
    assert(quote@ =~= seq!['"']);
    let e = match find_chars(slice_subrange(x.as_slice(), vs, x.len()), quote.as_slice()) {
        None => return None,
        Some(e) => e,
    };
    if e > 0 {
        Some(string_from_chars(x.as_slice(), vs, vs + e))
    } else {
        None
    }
}

fn property_of_chars(x: &Vec<char>, prop: &str) -> (r: Option<String>)
    ensures
        opt_str_view(r) == spec_property(x@, prop@),
{
    let mut i: usize = 0;
    while i < PREFIX_COUNT
        invariant
            i <= PREFIX_COUNT,
            first_element_value(x@, prop@, 0) == first_element_value(x@, prop@, i as int),
        decreases PREFIX_COUNT - i,
    {
        if let Some(v) = element_value_exec(x, prefix_at(i), prop) {
            return Some(v);
        }
        i = i + 1;
    }
    let mut j: usize = 0;
    while j < PREFIX_COUNT
        invariant
            j <= PREFIX_COUNT,
            first_element_value(x@, prop@, 0) is None,
            first_attribute_value(x@, prop@, 0) == first_attribute_value(x@, prop@, j as int),
        decreases PREFIX_COUNT - j,
    {
        if let Some(v) = attribute_value_exec(x, prefix_at(j), prop) {
            return Some(v);
        }
        j = j + 1;
    }
    None
}

/// Extracts a simple property value from XMP XML, by element or by attribute.
pub fn extract_property(xml: &str, prop_name: &str) -> (r: Option<String>)
    ensures
        opt_str_view(r) == spec_property(xml@, prop_name@),
{
    let x = chars_of(xml);
    property_of_chars(&x, prop_name)
}


// ---------------------------------------------------------------------------
// Detection
// ---------------------------------------------------------------------------

/// Number of bytes at the start of a file in which the XMP packet is searched.
pub const XMP_SEARCH_LIMIT: usize = 1048576;

pub const SOURCE_TYPE_COUNT: usize = 6;

/// IPTC digital source types that indicate AI generation, in the order tried.
pub open spec fn ai_source_type(i: int) -> Seq<char> {
    if i == 0 {
        "trainedAlgorithmicMedia"@
    } else if i == 1 {
        "compositeWithTrainedAlgorithmicMedia"@
    } else if i == 2 {
        "algorithmicMedia"@
    } else if i == 3 {
        "compositeSynthetic"@
    } else if i == 4 {
        "dataDrivenMedia"@
    } else {
        "trainedAlgorithmicData"@
    }
}

fn source_type_at(i: usize) -> (r: &'static str)
    requires
        i < SOURCE_TYPE_COUNT,
    ensures
        r@ == ai_source_type(i as int),
{
    if i == 0 {
        "trainedAlgorithmicMedia"
    } else if i == 1 {
        "compositeWithTrainedAlgorithmicMedia"
    } else if i == 2 {
        "algorithmicMedia"
    } else if i == 3 {
        "compositeSynthetic"
    } else if i == 4 {
        "dataDrivenMedia"
    } else {
        "trainedAlgorithmicData"
    }
}

/// The first AI source type, from entry `i` on, that occurs in `v`.
pub open spec fn first_source_type_from(v: Seq<char>, i: int) -> Option<Seq<char>>
    decreases SOURCE_TYPE_COUNT - i,
{
    if i < 0 || i >= SOURCE_TYPE_COUNT {
        None
    } else if contains_seq(v, ai_source_type(i)) {
        Some(ai_source_type(i))
    } else {
        first_source_type_from(v, i + 1)
    }
}

pub open spec fn xmp_signal(
    description: Seq<char>,
    tool: Option<Seq<char>>,
    key: Seq<char>,
    value: Seq<char>,
) -> SignalView {
    SignalView {
        source: SignalSource::Xmp,
        confidence: Confidence::Medium,
        description,
        tool,
        details: seq![(key, value)],
    }
}

/// `DigitalSourceType` naming an AI source type.
pub open spec fn source_type_signals(x: Seq<char>) -> Seq<SignalView> {
    match spec_property(x, "DigitalSourceType"@) {
        None => Seq::empty(),
        Some(v) => match first_source_type_from(v, 0) {
            None => Seq::empty(),
            Some(name) => seq![xmp_signal("DigitalSourceType = "@ + name, None, "DigitalSourceType"@, v)],
        },
    }
}

/// `AISystemUsed`, whatever it names.
pub open spec fn ai_system_signals(x: Seq<char>) -> Seq<SignalView> {
    match spec_property(x, "AISystemUsed"@) {
        None => Seq::empty(),
        Some(v) => seq![xmp_signal("AISystemUsed = "@ + v, ai_tool_of(v), "AISystemUsed"@, v)],
    }
}

/// `AIPromptInformation`, whatever it holds.
pub open spec fn prompt_signals(x: Seq<char>) -> Seq<SignalView> {
    match spec_property(x, "AIPromptInformation"@) {
        None => Seq::empty(),
        Some(v) => seq![xmp_signal("AIPromptInformation present"@, None, "AIPromptInformation"@, v)],
    }
}

/// `CreatorTool` naming a known AI tool.
pub open spec fn creator_tool_signals(x: Seq<char>) -> Seq<SignalView> {
    match spec_property(x, "CreatorTool"@) {
        None => Seq::empty(),
        Some(v) => match ai_tool_of(v) {
            None => Seq::empty(),
            Some(t) => seq![xmp_signal("CreatorTool matches AI tool: "@ + v, Some(t), "CreatorTool"@, v)],
        },
    }
}

pub open spec fn xmp_signals(x: Seq<char>) -> Seq<SignalView> {
    source_type_signals(x) + ai_system_signals(x) + prompt_signals(x) + creator_tool_signals(x)
}

/// The part of a file searched for XMP: its first `XMP_SEARCH_LIMIT` bytes.
pub open spec fn search_window(d: Seq<u8>) -> Seq<u8> {
    if d.len() > XMP_SEARCH_LIMIT {
        d.take(XMP_SEARCH_LIMIT as int)
    } else {
        d
    }
}

/// Signals of the XMP packet found in the file's first megabyte, none without one.
pub open spec fn spec_detect(d: Seq<u8>) -> Seq<SignalView> {
    match xmp_from(search_window(d), 0) {
        None => Seq::empty(),
        Some(x) => xmp_signals(x),
    }
}

fn one_xmp_signal(description: String, tool: Option<String>, key: &str, value: String) -> (r: Vec<Signal>)
    ensures
        signals_view(r@) == seq![xmp_signal(description@, opt_str_view(tool), key@, value@)],
{
    let mut details: Vec<(String, String)> = Vec::new();
    details.push((String::from_str(key), value));
    let mut v: Vec<Signal> = Vec::new();
    v.push(Signal { source: SignalSource::Xmp, confidence: Confidence::Medium, description, tool, details });
    assert(pairs_view(details@) =~= seq![(key@, value@)]);
    assert(signals_view(v@) =~= seq![xmp_signal(description@, opt_str_view(tool), key@, value@)]);
    v
}

fn no_signals() -> (r: Vec<Signal>)
    ensures
        signals_view(r@) == Seq::<SignalView>::empty(),
{
    let v: Vec<Signal> = Vec::new();
    assert(signals_view(v@) =~= Seq::<SignalView>::empty());
    v
}

fn source_type_signals_exec(x: &Vec<char>) -> (r: Vec<Signal>)
    ensures
        signals_view(r@) == source_type_signals(x@),
{
    let value = match property_of_chars(x, "DigitalSourceType") {
        None => return no_signals(),
        Some(v) => v,
    };
    let vc = chars_of(value.as_str());
    let mut i: usize = 0;
    while i < SOURCE_TYPE_COUNT
        invariant
            i <= SOURCE_TYPE_COUNT,
            vc@ == value@,
            spec_property(x@, "DigitalSourceType"@) == Some(value@),
            first_source_type_from(vc@, 0) == first_source_type_from(vc@, i as int),
        decreases SOURCE_TYPE_COUNT - i,
    {
        let name = source_type_at(i);
        if find_chars(vc.as_slice(), chars_of(name).as_slice()).is_some() {
            let mut desc = String::from_str("DigitalSourceType = ");
            desc.append(name);
            return one_xmp_signal(desc, None, "DigitalSourceType", value);
        }
        i = i + 1;
    }
    no_signals()
}

fn opt_tool_string(t: Option<&'static str>) -> (r: Option<String>)
    ensures
        opt_str_view(r) == opt_static_view(t),
{
    match t {
        Some(s) => Some(String::from_str(s)),
        None => None,
    }
}

/// Detects AI signals in the XMP/IPTC metadata of a file's bytes.
pub fn detect(data: &[u8]) -> (r: Vec<Signal>)
    ensures
        signals_view(r@) == spec_detect(data@),
{
    let search = if data.len() > XMP_SEARCH_LIMIT {
        slice_subrange(data, 0, XMP_SEARCH_LIMIT)
    } else {
        data
    };
    assert(search@ == search_window(data@));
    let xml = match extract_xmp_xml(search) {
        None => return no_signals(),
        Some(x) => x,
    };
    let x = chars_of(xml.as_str());
    let mut signals = source_type_signals_exec(&x);
    let mut more = match property_of_chars(&x, "AISystemUsed") {
        None => no_signals(),
        Some(value) => {
            let tool = opt_tool_string(match_ai_tool(value.as_str()));
            let mut desc = String::from_str("AISystemUsed = ");
            desc.append(value.as_str());
            one_xmp_signal(desc, tool, "AISystemUsed", value)
        },
    };
    let mut prompt = match property_of_chars(&x, "AIPromptInformation") {
        None => no_signals(),
        Some(value) => one_xmp_signal(
            String::from_str("AIPromptInformation present"),
            None,
            "AIPromptInformation",
            value,
        ),
    };
    let mut creator = match property_of_chars(&x, "CreatorTool") {
        None => no_signals(),
        Some(value) => match match_ai_tool(value.as_str()) {
            None => no_signals(),
            Some(tool_name) => {
                let mut desc = String::from_str("CreatorTool matches AI tool: ");
                desc.append(value.as_str());
                one_xmp_signal(desc, Some(String::from_str(tool_name)), "CreatorTool", value)
            },
        },
    };
    let ghost a = signals@;
    let ghost b = more@;
    let ghost c = prompt@;
    let ghost e = creator@;
    signals.append(&mut more);
    signals.append(&mut prompt);
    signals.append(&mut creator);
    assert(signals@ =~= a + b + c + e);
    assert(signals_view(signals@) =~= signals_view(a) + signals_view(b) + signals_view(c) + signals_view(e));
    signals
}

pub const PROPERTY_COUNT: usize = 5;

/// The XMP properties listed by the `info` subcommand, in order.
pub open spec fn info_property(i: int) -> Seq<char> {
    if i == 0 {
        "DigitalSourceType"@
    } else if i == 1 {
        "AISystemUsed"@
    } else if i == 2 {
        "AISystemVersionUsed"@
    } else if i == 3 {
        "AIPromptInformation"@
    } else {
        "CreatorTool"@
    }
}

fn info_property_at(i: usize) -> (r: &'static str)
    requires
        i < PROPERTY_COUNT,
    ensures
        r@ == info_property(i as int),
{
    if i == 0 {
        "DigitalSourceType"
    } else if i == 1 {
        "AISystemUsed"
    } else if i == 2 {
        "AISystemVersionUsed"
    } else if i == 3 {
        "AIPromptInformation"
    } else {
        "CreatorTool"
    }
}

/// The listed properties, from index 0 up to `n`, that the XML holds, with their values.
pub open spec fn present_properties(x: Seq<char>, n: int) -> Seq<(Seq<char>, Seq<char>)>
    decreases n,
{
    if n <= 0 {
        Seq::empty()
    } else {
        let r = present_properties(x, n - 1);
        match spec_property(x, info_property(n - 1)) {
            Some(v) => r.push((info_property(n - 1), v)),
            None => r,
        }
    }
}

/// The XMP properties of a file as the `info` subcommand lists them.
pub open spec fn spec_dump_info(d: Seq<u8>) -> Seq<(Seq<char>, Seq<char>)> {
    match xmp_from(search_window(d), 0) {
        None => Seq::empty(),
        Some(x) => present_properties(x, PROPERTY_COUNT as int),
    }
}

/// Dumps the XMP properties of a file's bytes for the `info` subcommand.
pub fn dump_info(data: &[u8]) -> (r: Vec<(String, String)>)
    ensures
        pairs_view(r@) == spec_dump_info(data@),
{
    let search = if data.len() > XMP_SEARCH_LIMIT {
        slice_subrange(data, 0, XMP_SEARCH_LIMIT)
    } else {
        data
    };
    assert(search@ == search_window(data@));
    let mut props: Vec<(String, String)> = Vec::new();
    let xml = match extract_xmp_xml(search) {
        None => {
            assert(pairs_view(props@) =~= Seq::<(Seq<char>, Seq<char>)>::empty());
            return props;
        },
        Some(x) => x,
    };
    let x = chars_of(xml.as_str());
    let mut i: usize = 0;
    assert(pairs_view(props@) =~= present_properties(x@, 0));
    while i < PROPERTY_COUNT
        invariant
            i <= PROPERTY_COUNT,
            pairs_view(props@) == present_properties(x@, i as int),
        decreases PROPERTY_COUNT - i,
    {
        let name = info_property_at(i);
        if let Some(value) = property_of_chars(&x, name) {
            let ghost old = props@;
            props.push((String::from_str(name), value));
            assert(pairs_view(props@) =~= pairs_view(old).push((name@, value@)));
        }
        i = i + 1;
    }
    props
}


/// Every XMP signal is a medium-confidence signal from the XMP source.
pub proof fn lemma_xmp_signals_are_medium(d: Seq<u8>)
    ensures
        forall|i: int| 0 <= i < spec_detect(d).len() ==> {
            &&& (#[trigger] spec_detect(d)[i]).source == SignalSource::Xmp
            &&& spec_detect(d)[i].confidence == Confidence::Medium
        },
{
    if let Some(x) = xmp_from(search_window(d), 0) {
        let a = source_type_signals(x);
        let b = ai_system_signals(x);
        let c = prompt_signals(x);
        let e = creator_tool_signals(x);
        assert forall|i: int| 0 <= i < spec_detect(d).len() implies {
            &&& (#[trigger] spec_detect(d)[i]).source == SignalSource::Xmp
            &&& spec_detect(d)[i].confidence == Confidence::Medium
        } by {
            let s = spec_detect(d);
            assert(s == a + b + c + e);
            if i < a.len() {
                assert(s[i] == a[i]);
            } else if i < a.len() + b.len() {
                assert(s[i] == b[i - a.len()]);
            } else if i < a.len() + b.len() + c.len() {
                assert(s[i] == c[i - a.len() - b.len()]);
            } else {
                assert(s[i] == e[i - a.len() - b.len() - c.len()]);
            }
        }
    }
}

/// A file without an XMP packet in its first megabyte gives no XMP signal.
pub proof fn lemma_no_packet_no_signals(d: Seq<u8>)
    requires
        xmp_from(search_window(d), 0) is None,
    ensures
        spec_detect(d).len() == 0,
{
}


proof fn lemma_first_element_nonempty(x: Seq<char>, prop: Seq<char>, i: int)
    ensures
        first_element_value(x, prop, i) matches Some(v) ==> v.len() > 0,
    decreases PREFIX_COUNT - i,
{
    if 0 <= i < PREFIX_COUNT {
        lemma_first_element_nonempty(x, prop, i + 1);
    }
}

proof fn lemma_first_attribute_nonempty(x: Seq<char>, prop: Seq<char>, i: int)
    ensures
        first_attribute_value(x, prop, i) matches Some(v) ==> v.len() > 0,
    decreases PREFIX_COUNT - i,
{
    if 0 <= i < PREFIX_COUNT {
        lemma_first_attribute_nonempty(x, prop, i + 1);
    }
}

/// A property that is found always has a non-empty value.
pub proof fn lemma_property_value_nonempty(x: Seq<char>, prop: Seq<char>)
    ensures
        spec_property(x, prop) matches Some(v) ==> v.len() > 0,
{
    lemma_first_element_nonempty(x, prop, 0);
    lemma_first_attribute_nonempty(x, prop, 0);
}

proof fn lemma_names_source_type_trainedalgorithmicmedia()
    ensures
        first_source_type_from("trainedAlgorithmicMedia"@, 0) == Some("trainedAlgorithmicMedia"@),
{
    reveal_strlit("trainedAlgorithmicMedia");
    assert(first_source_type_from("trainedAlgorithmicMedia"@, 0) == Some("trainedAlgorithmicMedia"@)) by {
        assert("trainedAlgorithmicMedia"@.subrange(0, 23) =~= "trainedAlgorithmicMedia"@);
        assert(matches_at("trainedAlgorithmicMedia"@, "trainedAlgorithmicMedia"@, 0));
    }
}

proof fn lemma_names_source_type_compositewithtrainedalgorithmicmedia()
    ensures
        first_source_type_from("compositeWithTrainedAlgorithmicMedia"@, 0) == Some("compositeWithTrainedAlgorithmicMedia"@),
{
    reveal_strlit("compositeWithTrainedAlgorithmicMedia");
    reveal_strlit("trainedAlgorithmicMedia");
    assert(first_source_type_from("compositeWithTrainedAlgorithmicMedia"@, 1) == Some("compositeWithTrainedAlgorithmicMedia"@)) by {
        assert("compositeWithTrainedAlgorithmicMedia"@.subrange(0, 36) =~= "compositeWithTrainedAlgorithmicMedia"@);
        assert(matches_at("compositeWithTrainedAlgorithmicMedia"@, "compositeWithTrainedAlgorithmicMedia"@, 0));
    }
    assert(!contains_seq("compositeWithTrainedAlgorithmicMedia"@, "trainedAlgorithmicMedia"@)) by {
        lemma_contains_iff_occurs("compositeWithTrainedAlgorithmicMedia"@, "trainedAlgorithmicMedia"@);
        reveal_with_fuel(occurs_from, 38);
        reveal_with_fuel(agrees_from, 24);
    }
    assert(first_source_type_from("compositeWithTrainedAlgorithmicMedia"@, 0) == first_source_type_from("compositeWithTrainedAlgorithmicMedia"@, 1));
}

proof fn lemma_names_source_type_algorithmicmedia()
    ensures
        first_source_type_from("algorithmicMedia"@, 0) == Some("algorithmicMedia"@),
{
    reveal_strlit("algorithmicMedia");
    reveal_strlit("compositeWithTrainedAlgorithmicMedia");
    reveal_strlit("trainedAlgorithmicMedia");
    assert(first_source_type_from("algorithmicMedia"@, 2) == Some("algorithmicMedia"@)) by {
        assert("algorithmicMedia"@.subrange(0, 16) =~= "algorithmicMedia"@);
        assert(matches_at("algorithmicMedia"@, "algorithmicMedia"@, 0));
    }
    assert(!contains_seq("algorithmicMedia"@, "compositeWithTrainedAlgorithmicMedia"@)) by {
        lemma_contains_iff_occurs("algorithmicMedia"@, "compositeWithTrainedAlgorithmicMedia"@);
    }
    assert(first_source_type_from("algorithmicMedia"@, 1) == first_source_type_from("algorithmicMedia"@, 2));
    assert(!contains_seq("algorithmicMedia"@, "trainedAlgorithmicMedia"@)) by {
        lemma_contains_iff_occurs("algorithmicMedia"@, "trainedAlgorithmicMedia"@);
    }
    assert(first_source_type_from("algorithmicMedia"@, 0) == first_source_type_from("algorithmicMedia"@, 1));
}

proof fn lemma_names_source_type_compositesynthetic()
    ensures
        first_source_type_from("compositeSynthetic"@, 0) == Some("compositeSynthetic"@),
{
    reveal_strlit("algorithmicMedia");
    reveal_strlit("compositeSynthetic");
    reveal_strlit("compositeWithTrainedAlgorithmicMedia");
    reveal_strlit("trainedAlgorithmicMedia");
    assert(first_source_type_from("compositeSynthetic"@, 3) == Some("compositeSynthetic"@)) by {
        assert("compositeSynthetic"@.subrange(0, 18) =~= "compositeSynthetic"@);
        assert(matches_at("compositeSynthetic"@, "compositeSynthetic"@, 0));
    }
    assert(!contains_seq("compositeSynthetic"@, "algorithmicMedia"@)) by {
        lemma_contains_iff_occurs("compositeSynthetic"@, "algorithmicMedia"@);
        reveal_with_fuel(occurs_from, 20);
        reveal_with_fuel(agrees_from, 17);
    }
    assert(first_source_type_from("compositeSynthetic"@, 2) == first_source_type_from("compositeSynthetic"@, 3));
    assert(!contains_seq("compositeSynthetic"@, "compositeWithTrainedAlgorithmicMedia"@)) by {
        lemma_contains_iff_occurs("compositeSynthetic"@, "compositeWithTrainedAlgorithmicMedia"@);
    }
    assert(first_source_type_from("compositeSynthetic"@, 1) == first_source_type_from("compositeSynthetic"@, 2));
    assert(!contains_seq("compositeSynthetic"@, "trainedAlgorithmicMedia"@)) by {
        lemma_contains_iff_occurs("compositeSynthetic"@, "trainedAlgorithmicMedia"@);
    }
    assert(first_source_type_from("compositeSynthetic"@, 0) == first_source_type_from("compositeSynthetic"@, 1));
}

proof fn lemma_names_source_type_datadrivenmedia()
    ensures
        first_source_type_from("dataDrivenMedia"@, 0) == Some("dataDrivenMedia"@),
{
    reveal_strlit("algorithmicMedia");
    reveal_strlit("compositeSynthetic");
    reveal_strlit("compositeWithTrainedAlgorithmicMedia");
    reveal_strlit("dataDrivenMedia");
    reveal_strlit("trainedAlgorithmicMedia");
    assert(first_source_type_from("dataDrivenMedia"@, 4) == Some("dataDrivenMedia"@)) by {
        assert("dataDrivenMedia"@.subrange(0, 15) =~= "dataDrivenMedia"@);
        assert(matches_at("dataDrivenMedia"@, "dataDrivenMedia"@, 0));
    }
    assert(!contains_seq("dataDrivenMedia"@, "compositeSynthetic"@)) by {
        lemma_contains_iff_occurs("dataDrivenMedia"@, "compositeSynthetic"@);
    }
    assert(first_source_type_from("dataDrivenMedia"@, 3) == first_source_type_from("dataDrivenMedia"@, 4));
    assert(!contains_seq("dataDrivenMedia"@, "algorithmicMedia"@)) by {
        lemma_contains_iff_occurs("dataDrivenMedia"@, "algorithmicMedia"@);
    }
    assert(first_source_type_from("dataDrivenMedia"@, 2) == first_source_type_from("dataDrivenMedia"@, 3));
    assert(!contains_seq("dataDrivenMedia"@, "compositeWithTrainedAlgorithmicMedia"@)) by {
        lemma_contains_iff_occurs("dataDrivenMedia"@, "compositeWithTrainedAlgorithmicMedia"@);
    }
    assert(first_source_type_from("dataDrivenMedia"@, 1) == first_source_type_from("dataDrivenMedia"@, 2));
    assert(!contains_seq("dataDrivenMedia"@, "trainedAlgorithmicMedia"@)) by {
        lemma_contains_iff_occurs("dataDrivenMedia"@, "trainedAlgorithmicMedia"@);
    }
    assert(first_source_type_from("dataDrivenMedia"@, 0) == first_source_type_from("dataDrivenMedia"@, 1));
}

proof fn lemma_names_source_type_trainedalgorithmicdata()
    ensures
        first_source_type_from("trainedAlgorithmicData"@, 0) == Some("trainedAlgorithmicData"@),
{
    reveal_strlit("algorithmicMedia");
    reveal_strlit("compositeSynthetic");
    reveal_strlit("compositeWithTrainedAlgorithmicMedia");
    reveal_strlit("dataDrivenMedia");
    reveal_strlit("trainedAlgorithmicData");
    reveal_strlit("trainedAlgorithmicMedia");
    assert(first_source_type_from("trainedAlgorithmicData"@, 5) == Some("trainedAlgorithmicData"@)) by {
        assert("trainedAlgorithmicData"@.subrange(0, 22) =~= "trainedAlgorithmicData"@);
        assert(matches_at("trainedAlgorithmicData"@, "trainedAlgorithmicData"@, 0));
    }
    assert(!contains_seq("trainedAlgorithmicData"@, "dataDrivenMedia"@)) by {
        lemma_contains_iff_occurs("trainedAlgorithmicData"@, "dataDrivenMedia"@);
        reveal_with_fuel(occurs_from, 24);
        reveal_with_fuel(agrees_from, 16);
    }
    assert(first_source_type_from("trainedAlgorithmicData"@, 4) == first_source_type_from("trainedAlgorithmicData"@, 5));
    assert(!contains_seq("trainedAlgorithmicData"@, "compositeSynthetic"@)) by {
        lemma_contains_iff_occurs("trainedAlgorithmicData"@, "compositeSynthetic"@);
        reveal_with_fuel(occurs_from, 24);
        reveal_with_fuel(agrees_from, 19);
    }
    assert(first_source_type_from("trainedAlgorithmicData"@, 3) == first_source_type_from("trainedAlgorithmicData"@, 4));
    assert(!contains_seq("trainedAlgorithmicData"@, "algorithmicMedia"@)) by {
        lemma_contains_iff_occurs("trainedAlgorithmicData"@, "algorithmicMedia"@);
        reveal_with_fuel(occurs_from, 24);
        reveal_with_fuel(agrees_from, 17);
    }
    assert(first_source_type_from("trainedAlgorithmicData"@, 2) == first_source_type_from("trainedAlgorithmicData"@, 3));
    assert(!contains_seq("trainedAlgorithmicData"@, "compositeWithTrainedAlgorithmicMedia"@)) by {
        lemma_contains_iff_occurs("trainedAlgorithmicData"@, "compositeWithTrainedAlgorithmicMedia"@);
    }
    assert(first_source_type_from("trainedAlgorithmicData"@, 1) == first_source_type_from("trainedAlgorithmicData"@, 2));
    assert(!contains_seq("trainedAlgorithmicData"@, "trainedAlgorithmicMedia"@)) by {
        lemma_contains_iff_occurs("trainedAlgorithmicData"@, "trainedAlgorithmicMedia"@);
    }
    assert(first_source_type_from("trainedAlgorithmicData"@, 0) == first_source_type_from("trainedAlgorithmicData"@, 1));
}

/// A `DigitalSourceType` property naming one of the six IPTC source types
/// that indicate AI generation (trainedAlgorithmicMedia,
/// compositeWithTrainedAlgorithmicMedia, algorithmicMedia, compositeSynthetic,
/// dataDrivenMedia, trainedAlgorithmicData) gives exactly one medium-confidence
/// XMP signal, described by that name; it comes first among the packet's signals.
pub proof fn lemma_ai_source_types_recognized(x: Seq<char>)
    ensures
        spec_property(x, "DigitalSourceType"@) == Some("trainedAlgorithmicMedia"@) ==> source_type_signals(x) == seq![
            SignalView {
                source: SignalSource::Xmp,
                confidence: Confidence::Medium,
                description: "DigitalSourceType = trainedAlgorithmicMedia"@,
                tool: None,
                details: seq![("DigitalSourceType"@, "trainedAlgorithmicMedia"@)],
            },
        ],
        spec_property(x, "DigitalSourceType"@) == Some("compositeWithTrainedAlgorithmicMedia"@) ==> source_type_signals(x) == seq![
            SignalView {
                source: SignalSource::Xmp,
                confidence: Confidence::Medium,
                description: "DigitalSourceType = compositeWithTrainedAlgorithmicMedia"@,
                tool: None,
                details: seq![("DigitalSourceType"@, "compositeWithTrainedAlgorithmicMedia"@)],
            },
        ],
        spec_property(x, "DigitalSourceType"@) == Some("algorithmicMedia"@) ==> source_type_signals(x) == seq![
            SignalView {
                source: SignalSource::Xmp,
                confidence: Confidence::Medium,
                description: "DigitalSourceType = algorithmicMedia"@,
                tool: None,
                details: seq![("DigitalSourceType"@, "algorithmicMedia"@)],
            },
        ],
        spec_property(x, "DigitalSourceType"@) == Some("compositeSynthetic"@) ==> source_type_signals(x) == seq![
            SignalView {
                source: SignalSource::Xmp,
                confidence: Confidence::Medium,
                description: "DigitalSourceType = compositeSynthetic"@,
                tool: None,
                details: seq![("DigitalSourceType"@, "compositeSynthetic"@)],
            },
        ],
        spec_property(x, "DigitalSourceType"@) == Some("dataDrivenMedia"@) ==> source_type_signals(x) == seq![
            SignalView {
                source: SignalSource::Xmp,
                confidence: Confidence::Medium,
                description: "DigitalSourceType = dataDrivenMedia"@,
                tool: None,
                details: seq![("DigitalSourceType"@, "dataDrivenMedia"@)],
            },
        ],
        spec_property(x, "DigitalSourceType"@) == Some("trainedAlgorithmicData"@) ==> source_type_signals(x) == seq![
            SignalView {
                source: SignalSource::Xmp,
                confidence: Confidence::Medium,
                description: "DigitalSourceType = trainedAlgorithmicData"@,
                tool: None,
                details: seq![("DigitalSourceType"@, "trainedAlgorithmicData"@)],
            },
        ],
        source_type_signals(x).len() == 1 ==> xmp_signals(x)[0] == source_type_signals(x)[0],
{
    lemma_names_source_type_trainedalgorithmicmedia();
    lemma_names_source_type_compositewithtrainedalgorithmicmedia();
    lemma_names_source_type_algorithmicmedia();
    lemma_names_source_type_compositesynthetic();
    lemma_names_source_type_datadrivenmedia();
    lemma_names_source_type_trainedalgorithmicdata();
    let p = spec_property(x, "DigitalSourceType"@);
    reveal_strlit("DigitalSourceType = trainedAlgorithmicMedia");
    reveal_strlit("DigitalSourceType = ");
    reveal_strlit("trainedAlgorithmicMedia");
    assert("DigitalSourceType = "@ + "trainedAlgorithmicMedia"@ =~= "DigitalSourceType = trainedAlgorithmicMedia"@);
    reveal_strlit("DigitalSourceType = compositeWithTrainedAlgorithmicMedia");
    reveal_strlit("DigitalSourceType = ");
    reveal_strlit("compositeWithTrainedAlgorithmicMedia");
    assert("DigitalSourceType = "@ + "compositeWithTrainedAlgorithmicMedia"@ =~= "DigitalSourceType = compositeWithTrainedAlgorithmicMedia"@);
    reveal_strlit("DigitalSourceType = algorithmicMedia");
    reveal_strlit("DigitalSourceType = ");
    reveal_strlit("algorithmicMedia");
    assert("DigitalSourceType = "@ + "algorithmicMedia"@ =~= "DigitalSourceType = algorithmicMedia"@);
    reveal_strlit("DigitalSourceType = compositeSynthetic");
    reveal_strlit("DigitalSourceType = ");
    reveal_strlit("compositeSynthetic");
    assert("DigitalSourceType = "@ + "compositeSynthetic"@ =~= "DigitalSourceType = compositeSynthetic"@);
    reveal_strlit("DigitalSourceType = dataDrivenMedia");
    reveal_strlit("DigitalSourceType = ");
    reveal_strlit("dataDrivenMedia");
    assert("DigitalSourceType = "@ + "dataDrivenMedia"@ =~= "DigitalSourceType = dataDrivenMedia"@);
    reveal_strlit("DigitalSourceType = trainedAlgorithmicData");
    reveal_strlit("DigitalSourceType = ");
    reveal_strlit("trainedAlgorithmicData");
    assert("DigitalSourceType = "@ + "trainedAlgorithmicData"@ =~= "DigitalSourceType = trainedAlgorithmicData"@);
}

/// Each AI property of an XMP packet is reported with medium confidence:
/// `AISystemUsed` whatever it names (with the tool when it names a known one),
/// `AIPromptInformation` whenever present, and `CreatorTool` when it names a
/// known AI tool.
pub proof fn lemma_ai_properties_reported(x: Seq<char>)
    ensures
        spec_property(x, "AISystemUsed"@) is Some ==> exists|j: int|
            0 <= j < xmp_signals(x).len() && #[trigger] xmp_signals(x)[j] == (SignalView {
                source: SignalSource::Xmp,
                confidence: Confidence::Medium,
                description: "AISystemUsed = "@ + spec_property(x, "AISystemUsed"@)->0,
                tool: ai_tool_of(spec_property(x, "AISystemUsed"@)->0),
                details: seq![("AISystemUsed"@, spec_property(x, "AISystemUsed"@)->0)],
            }),
        spec_property(x, "AIPromptInformation"@) is Some ==> exists|j: int|
            0 <= j < xmp_signals(x).len() && #[trigger] xmp_signals(x)[j] == (SignalView {
                source: SignalSource::Xmp,
                confidence: Confidence::Medium,
                description: "AIPromptInformation present"@,
                tool: None,
                details: seq![("AIPromptInformation"@, spec_property(x, "AIPromptInformation"@)->0)],
            }),
        spec_property(x, "CreatorTool"@) is Some && ai_tool_of(spec_property(x, "CreatorTool"@)->0) is Some
            ==> exists|j: int|
            0 <= j < xmp_signals(x).len() && #[trigger] xmp_signals(x)[j] == (SignalView {
                source: SignalSource::Xmp,
                confidence: Confidence::Medium,
                description: "CreatorTool matches AI tool: "@ + spec_property(x, "CreatorTool"@)->0,
                tool: ai_tool_of(spec_property(x, "CreatorTool"@)->0),
                details: seq![("CreatorTool"@, spec_property(x, "CreatorTool"@)->0)],
            }),
{
    let a = source_type_signals(x);
    let b = ai_system_signals(x);
    let c = prompt_signals(x);
    let d = creator_tool_signals(x);
    let all = xmp_signals(x);
    assert(all == a + b + c + d);
    if b.len() > 0 {
        assert(all[a.len() as int] == b[0]);
    }
    if c.len() > 0 {
        assert(all[(a.len() + b.len()) as int] == c[0]);
    }
    if d.len() > 0 {
        assert(all[(a.len() + b.len() + c.len()) as int] == d[0]);
    }
}

} // verus!
