//! EXIF heuristics: AI tool names in text tags, hash-like artists, and the
//! absence of camera fields.
use vstd::prelude::*;
use vstd::string::*;
use vstd::utf8::encode_utf8;

use crate::detector::{opt_str_view, pairs_view, signals_view, Confidence, Signal, SignalSource, SignalView};
use crate::known_tools::{ai_tool_of, match_ai_tool};
use crate::text::{chars_of, push_char, string_from_chars};

verus! {

broadcast use vstd::string::group_string_axioms;

/// Number of camera tags whose presence is reported in [`ExifFields::camera_tags`].
pub const CAMERA_TAG_COUNT: usize = 10;

/// The EXIF fields of a file's primary image that the heuristics read, each
/// as its displayed value.
pub struct ExifFields {
    pub software: Option<String>,
    pub make: Option<String>,
    pub model: Option<String>,
    pub image_description: Option<String>,
    pub user_comment: Option<String>,
    pub artist: Option<String>,
    /// For each camera tag, in the order Make, Model, LensModel, FocalLength,
    /// FNumber, ExposureTime, PhotographicSensitivity, Flash, MeteringMode,
    /// WhiteBalance: whether the primary image has it.
    pub camera_tags: Vec<bool>,
}

/// `s` without its double quotes (`replace('"', "")`).
pub open spec fn strip_quotes(s: Seq<char>) -> Seq<char>
    decreases s.len(),
{
    if s.len() == 0 {
        Seq::empty()
    } else if s.last() == '"' {
        strip_quotes(s.drop_last())
    } else {
        strip_quotes(s.drop_last()).push(s.last())
    }
}

/// Removes all double quotes from a displayed EXIF value.
pub fn strip_quotes_exec(s: &String) -> (r: String)
    ensures
        r@ == strip_quotes(s@),
{
    let cs = chars_of(s.as_str());
    let mut r = String::new();
    let mut i: usize = 0;
    while i < cs.len()
        invariant
            i <= cs@.len(),
            r@ == strip_quotes(cs@.take(i as int)),
        decreases cs.len() - i,
    {
        assert(cs@.take(i + 1).drop_last() =~= cs@.take(i as int));
        if cs[i] != '"' {
            push_char(&mut r, cs[i]);
        }
        i = i + 1;
    }
    assert(cs@.take(cs@.len() as int) =~= cs@);
    r
}

pub open spec fn exif_signal(description: Seq<char>, tool: Option<Seq<char>>, key: Seq<char>, value: Seq<char>) -> SignalView {
    SignalView {
        source: SignalSource::Exif,
        confidence: Confidence::Low,
        description,
        tool,
        details: seq![(key, value)],
    }
}

/// `Software` naming a known AI tool.
pub open spec fn software_signals(f: Option<Seq<char>>) -> Seq<SignalView> {
    match f {
        None => Seq::empty(),
        Some(raw) => {
            let sw = strip_quotes(raw);
            match ai_tool_of(sw) {
                None => Seq::empty(),
                Some(t) => seq![exif_signal("Software tag matches AI tool: "@ + sw, Some(t), "Software"@, sw)],
            }
        },
    }
}

/// A `Make` or `Model` value naming a known AI tool.
pub open spec fn tag_value_signals(tag: Seq<char>, f: Option<Seq<char>>) -> Seq<SignalView> {
    match f {
        None => Seq::empty(),
        Some(raw) => {
            let v = strip_quotes(raw);
            match ai_tool_of(v) {
                None => Seq::empty(),
                Some(t) => seq![exif_signal(tag + " tag matches AI tool: "@ + v, Some(t), tag, v)],
            }
        },
    }
}

/// An `ImageDescription` or `UserComment` value referring to a known AI tool.
pub open spec fn reference_signals(tag: Seq<char>, f: Option<Seq<char>>) -> Seq<SignalView> {
    match f {
        None => Seq::empty(),
        Some(raw) => {
            let v = strip_quotes(raw);
            match ai_tool_of(v) {
                None => Seq::empty(),
                Some(t) => seq![exif_signal(tag + " references AI tool"@, Some(t), tag, v)],
            }
        },
    }
}

pub open spec fn is_hex_or_dash(c: char) -> bool {
    ('0' <= c && c <= '9') || ('a' <= c && c <= 'f') || ('A' <= c && c <= 'F') || c == '-'
}

/// A value of at least 32 bytes made only of hex digits and dashes.
pub open spec fn is_hex_hash(v: Seq<char>) -> bool {
    &&& encode_utf8(v).len() >= 32
    &&& forall|i: int| 0 <= i < v.len() ==> is_hex_or_dash(v[i])
}

/// An `Artist` value that looks like a hash.
pub open spec fn artist_signals(f: Option<Seq<char>>) -> Seq<SignalView> {
    match f {
        None => Seq::empty(),
        Some(raw) => {
            let v = strip_quotes(raw);
            if is_hex_hash(v) {
                let prefix = v.take(if v.len() < 16 { v.len() as int } else { 16 });
                seq![exif_signal("Artist tag looks like a hash: "@ + prefix, None, "Artist"@, v)]
            } else {
                Seq::empty()
            }
        },
    }
}

pub open spec fn no_camera_signal() -> SignalView {
    exif_signal("No camera EXIF fields present"@, None, "camera_tags_present"@, "0"@)
}

/// The EXIF signals: tool names in Software, Make, Model, ImageDescription and
/// UserComment, a hash-like Artist, and, when any of these fired and no camera
/// tag is present, the absence of camera fields.
pub open spec fn spec_detect(
    software: Option<Seq<char>>,
    make: Option<Seq<char>>,
    model: Option<Seq<char>>,
    description: Option<Seq<char>>,
    comment: Option<Seq<char>>,
    artist: Option<Seq<char>>,
    camera_tags: Seq<bool>,
) -> Seq<SignalView> {
    let found = software_signals(software) + tag_value_signals("Make"@, make) + tag_value_signals("Model"@, model)
        + reference_signals("ImageDescription"@, description) + reference_signals("UserComment"@, comment)
        + artist_signals(artist);
    if found.len() > 0 && (forall|i: int| 0 <= i < camera_tags.len() ==> !camera_tags[i]) {
        found.push(no_camera_signal())
    } else {
        found
    }
}

pub open spec fn spec_detect_fields(f: ExifFields) -> Seq<SignalView> {
    spec_detect(
        opt_str_view(f.software),
        opt_str_view(f.make),
        opt_str_view(f.model),
        opt_str_view(f.image_description),
        opt_str_view(f.user_comment),
        opt_str_view(f.artist),
        f.camera_tags@,
    )
}

fn no_signals() -> (r: Vec<Signal>)
    ensures
        signals_view(r@) == Seq::<SignalView>::empty(),
{
    let v: Vec<Signal> = Vec::new();
    assert(signals_view(v@) =~= Seq::<SignalView>::empty());
    v
}

fn one_exif_signal(description: String, tool: Option<String>, key: &str, value: String) -> (r: Vec<Signal>)
    ensures
        signals_view(r@) == seq![exif_signal(description@, opt_str_view(tool), key@, value@)],
{
    let mut details: Vec<(String, String)> = Vec::new();
    details.push((String::from_str(key), value));
    let mut v: Vec<Signal> = Vec::new();
    v.push(Signal { source: SignalSource::Exif, confidence: Confidence::Low, description, tool, details });
    assert(pairs_view(details@) =~= seq![(key@, value@)]);
    assert(signals_view(v@) =~= seq![exif_signal(description@, opt_str_view(tool), key@, value@)]);
    v
}

fn software_signals_exec(f: &Option<String>) -> (r: Vec<Signal>)
    ensures
        signals_view(r@) == software_signals(opt_str_view(*f)),
{
    match f {
        None => no_signals(),
        Some(raw) => {
            let sw = strip_quotes_exec(raw);
            match match_ai_tool(sw.as_str()) {
                None => no_signals(),
                Some(t) => {
                    let mut desc = String::from_str("Software tag matches AI tool: ");
                    desc.append(sw.as_str());
                    one_exif_signal(desc, Some(String::from_str(t)), "Software", sw)
                },
            }
        },
    }
}

fn tag_value_signals_exec(tag: &str, f: &Option<String>) -> (r: Vec<Signal>)
    ensures
        signals_view(r@) == tag_value_signals(tag@, opt_str_view(*f)),
{
    match f {
        None => no_signals(),
        Some(raw) => {
            let v = strip_quotes_exec(raw);
            match match_ai_tool(v.as_str()) {
                None => no_signals(),
                Some(t) => {
                    let mut desc = String::from_str(tag);
                    desc.append(" tag matches AI tool: ");
                    desc.append(v.as_str());
                    one_exif_signal(desc, Some(String::from_str(t)), tag, v)
                },
            }
        },
    }
}

fn reference_signals_exec(tag: &str, f: &Option<String>) -> (r: Vec<Signal>)
    ensures
        signals_view(r@) == reference_signals(tag@, opt_str_view(*f)),
{
    match f {
        None => no_signals(),
        Some(raw) => {
            let v = strip_quotes_exec(raw);
            match match_ai_tool(v.as_str()) {
                None => no_signals(),
                Some(t) => {
                    let mut desc = String::from_str(tag);
                    desc.append(" references AI tool");
                    one_exif_signal(desc, Some(String::from_str(t)), tag, v)
                },
            }
        },
    }
}

fn artist_signals_exec(f: &Option<String>) -> (r: Vec<Signal>)
    ensures
        signals_view(r@) == artist_signals(opt_str_view(*f)),
{
    let raw = match f {
        None => return no_signals(),
        Some(raw) => raw,
    };
    let v = strip_quotes_exec(raw);
    assert(opt_str_view(*f) == Some(raw@));
    let blen = v.as_str().as_bytes().len();
    assert(blen == encode_utf8(v@).len());
    if blen < 32 {
        assert(!is_hex_hash(v@));
        return no_signals();
    }
    let cs = chars_of(v.as_str());
    let mut i: usize = 0;
    while i < cs.len()
        invariant
            i <= cs@.len(),
            cs@ == v@,
            v@ == strip_quotes(raw@),
            opt_str_view(*f) == Some(raw@),
            forall|j: int| 0 <= j < i ==> is_hex_or_dash(cs@[j]),
        decreases cs.len() - i,
    {
        let c = cs[i];
        if !(('0' <= c && c <= '9') || ('a' <= c && c <= 'f') || ('A' <= c && c <= 'F') || c == '-') {
            assert(!is_hex_or_dash(cs@[i as int]));
            return no_signals();
        }
        i = i + 1;
    }
    let n = if cs.len() < 16 {
        cs.len()
    } else {
        16
    };
    let prefix = string_from_chars(cs.as_slice(), 0, n);
    let mut desc = String::from_str("Artist tag looks like a hash: ");
    desc.append(prefix.as_str());
    assert(cs@.subrange(0, n as int) =~= cs@.take(n as int));
    one_exif_signal(desc, None, "Artist", v)
}

/// Detects AI signals in the EXIF fields of a file.
pub fn detect(fields: &ExifFields) -> (r: Vec<Signal>)
    ensures
        signals_view(r@) == spec_detect_fields(*fields),
{
    let mut signals = software_signals_exec(&fields.software);
    let mut a = tag_value_signals_exec("Make", &fields.make);
    let mut b = tag_value_signals_exec("Model", &fields.model);
    let mut c = reference_signals_exec("ImageDescription", &fields.image_description);
    let mut e = reference_signals_exec("UserComment", &fields.user_comment);
    let mut g = artist_signals_exec(&fields.artist);
    let ghost s0 = signals@;
    let ghost s1 = a@;
    let ghost s2 = b@;
    let ghost s3 = c@;
    let ghost s4 = e@;
    let ghost s5 = g@;
    signals.append(&mut a);
    signals.append(&mut b);
    signals.append(&mut c);
    signals.append(&mut e);
    signals.append(&mut g);
    assert(signals@ =~= s0 + s1 + s2 + s3 + s4 + s5);
    assert(signals_view(signals@) =~= signals_view(s0) + signals_view(s1) + signals_view(s2) + signals_view(s3)
        + signals_view(s4) + signals_view(s5));
    if signals.len() > 0 {
        let mut any_camera = false;
        let mut i: usize = 0;
        while i < fields.camera_tags.len()
            invariant_except_break
                !any_camera,
            invariant
                i <= fields.camera_tags@.len(),
                forall|j: int| 0 <= j < i ==> !fields.camera_tags@[j],
            ensures
                any_camera ==> exists|j: int| 0 <= j < fields.camera_tags@.len() && fields.camera_tags@[j],
                !any_camera ==> forall|j: int| 0 <= j < fields.camera_tags@.len() ==> !fields.camera_tags@[j],
            decreases fields.camera_tags.len() - i,
        {
            if fields.camera_tags[i] {
                assert(fields.camera_tags@[i as int]);
                any_camera = true;
                break;
            }
            i = i + 1;
        }
        if !any_camera {
            let mut details: Vec<(String, String)> = Vec::new();
            details.push((String::from_str("camera_tags_present"), String::from_str("0")));
            let ghost old = signals@;
            signals.push(
                Signal {
                    source: SignalSource::Exif,
                    confidence: Confidence::Low,
                    description: String::from_str("No camera EXIF fields present"),
                    tool: None,
                    details,
                },
            );
            assert(pairs_view(details@) =~= seq![("camera_tags_present"@, "0"@)]);
            assert(signals_view(signals@) =~= signals_view(old).push(no_camera_signal()));
        }
    }
    signals
}


// ---------------------------------------------------------------------------
// Reading the EXIF directories of a file
// ---------------------------------------------------------------------------

/// How a tag number is interpreted: the directory that defines it.
#[derive(Debug, Clone, Copy, PartialEq, Eq, Structural)]
pub enum ExifContext {
    Tiff,
    Exif,
    Gps,
    Interop,
}

/// One field of the EXIF data, as the parser lists it.
pub struct ExifEntry {
    /// Index of the image directory (0 for the primary image, 1 for the thumbnail).
    pub ifd: u16,
    pub context: ExifContext,
    /// The tag number.
    pub number: u16,
    /// The tag's name (its number and context when the tag is not a known one).
    pub name: String,
    /// The field's value as displayed.
    pub value: String,
}

pub struct ExifEntryView {
    pub ifd: u16,
    pub context: ExifContext,
    pub number: u16,
    pub name: Seq<char>,
    pub value: Seq<char>,
}

impl View for ExifEntry {
    type V = ExifEntryView;

    open spec fn view(&self) -> ExifEntryView {
        ExifEntryView {
            ifd: self.ifd,
            context: self.context,
            number: self.number,
            name: self.name@,
            value: self.value@,
        }
    }
}

pub open spec fn entries_view(v: Seq<ExifEntry>) -> Seq<ExifEntryView> {
    v.map_values(|e: ExifEntry| e@)
}

pub open spec fn opt_entries_view(r: Option<Vec<ExifEntry>>) -> Option<Seq<ExifEntryView>> {
    match r {
        Some(v) => Some(entries_view(v@)),
        None => None,
    }
}

/// The fields that `exif::Reader::read_from_container` finds in a file's
/// bytes, in the order the parsed data lists them; `None` when the bytes hold
/// no EXIF data it can parse.
pub uninterp spec fn exif_entries(bytes: Seq<u8>) -> Option<Seq<ExifEntryView>>;

/// Parses the EXIF data of a file's contents with `exif::Reader::read_from_container`
/// and lists every field with `Exif::fields`: its directory index, the context
/// and number of its tag, the tag's name and the displayed value.
/// Claimed: the list is the named function of the bytes (the parser reads
/// nothing but the stream it is given), `None` exactly when parsing fails.
#[verifier::external_body]
fn read_exif_entries(bytes: &[u8]) -> (r: Option<Vec<ExifEntry>>)
    ensures
        opt_entries_view(r) == exif_entries(bytes@),
{
    let exif = exif::Reader::new().read_from_container(&mut std::io::Cursor::new(bytes)).ok()?;
    let mut entries = Vec::new();
    for f in exif.fields() {
        let context = match f.tag.context() {
            exif::Context::Tiff => ExifContext::Tiff,
            exif::Context::Exif => ExifContext::Exif,
            exif::Context::Gps => ExifContext::Gps,
            _ => ExifContext::Interop,
        };
        let (name, value) = (f.tag.to_string(), f.display_value().to_string());
        entries.push(ExifEntry { ifd: f.ifd_num.index(), context, number: f.tag.number(), name, value });
    }
    Some(entries)
}

pub const TAG_IMAGE_DESCRIPTION: u16 = 0x10e;
pub const TAG_MAKE: u16 = 0x10f;
pub const TAG_MODEL: u16 = 0x110;
pub const TAG_SOFTWARE: u16 = 0x131;
pub const TAG_ARTIST: u16 = 0x13b;
pub const TAG_EXPOSURE_TIME: u16 = 0x829a;
pub const TAG_F_NUMBER: u16 = 0x829d;
pub const TAG_PHOTOGRAPHIC_SENSITIVITY: u16 = 0x8827;
pub const TAG_METERING_MODE: u16 = 0x9207;
pub const TAG_FLASH: u16 = 0x9209;
pub const TAG_FOCAL_LENGTH: u16 = 0x920a;
pub const TAG_USER_COMMENT: u16 = 0x9286;
pub const TAG_WHITE_BALANCE: u16 = 0xa403;
pub const TAG_LENS_MODEL: u16 = 0xa434;

/// The displayed value of a tag in the primary image: that of the last entry
/// with this tag in directory 0, as the parser's lookup by tag returns it.
pub open spec fn primary_value(es: Seq<ExifEntryView>, context: ExifContext, number: u16) -> Option<Seq<char>>
    decreases es.len(),
{
    if es.len() == 0 {
        None
    } else if es.last().ifd == 0 && es.last().context == context && es.last().number == number {
        Some(es.last().value)
    } else {
        primary_value(es.drop_last(), context, number)
    }
}

/// The camera tags, in the order of [`ExifFields::camera_tags`].
pub open spec fn camera_tag(i: int) -> (ExifContext, u16) {
    if i == 0 {
        (ExifContext::Tiff, TAG_MAKE)
    } else if i == 1 {
        (ExifContext::Tiff, TAG_MODEL)
    } else if i == 2 {
        (ExifContext::Exif, TAG_LENS_MODEL)
    } else if i == 3 {
        (ExifContext::Exif, TAG_FOCAL_LENGTH)
    } else if i == 4 {
        (ExifContext::Exif, TAG_F_NUMBER)
    } else if i == 5 {
        (ExifContext::Exif, TAG_EXPOSURE_TIME)
    } else if i == 6 {
        (ExifContext::Exif, TAG_PHOTOGRAPHIC_SENSITIVITY)
    } else if i == 7 {
        (ExifContext::Exif, TAG_FLASH)
    } else if i == 8 {
        (ExifContext::Exif, TAG_METERING_MODE)
    } else {
        (ExifContext::Exif, TAG_WHITE_BALANCE)
    }
}

fn camera_tag_exec(i: usize) -> (r: (ExifContext, u16))
    ensures
        r == camera_tag(i as int),
{
    if i == 0 {
        (ExifContext::Tiff, TAG_MAKE)
    } else if i == 1 {
        (ExifContext::Tiff, TAG_MODEL)
    } else if i == 2 {
        (ExifContext::Exif, TAG_LENS_MODEL)
    } else if i == 3 {
        (ExifContext::Exif, TAG_FOCAL_LENGTH)
    } else if i == 4 {
        (ExifContext::Exif, TAG_F_NUMBER)
    } else if i == 5 {
        (ExifContext::Exif, TAG_EXPOSURE_TIME)
    } else if i == 6 {
        (ExifContext::Exif, TAG_PHOTOGRAPHIC_SENSITIVITY)
    } else if i == 7 {
        (ExifContext::Exif, TAG_FLASH)
    } else if i == 8 {
        (ExifContext::Exif, TAG_METERING_MODE)
    } else {
        (ExifContext::Exif, TAG_WHITE_BALANCE)
    }
}

/// The fields the heuristics read agree with the parsed entries: each text tag
/// holds the primary image's displayed value, and each camera flag tells
/// whether the primary image has that camera tag.
pub open spec fn fields_of_entries(f: ExifFields, es: Seq<ExifEntryView>) -> bool {
    &&& opt_str_view(f.software) == primary_value(es, ExifContext::Tiff, TAG_SOFTWARE)
    &&& opt_str_view(f.make) == primary_value(es, ExifContext::Tiff, TAG_MAKE)
    &&& opt_str_view(f.model) == primary_value(es, ExifContext::Tiff, TAG_MODEL)
    &&& opt_str_view(f.image_description) == primary_value(es, ExifContext::Tiff, TAG_IMAGE_DESCRIPTION)
    &&& opt_str_view(f.user_comment) == primary_value(es, ExifContext::Exif, TAG_USER_COMMENT)
    &&& opt_str_view(f.artist) == primary_value(es, ExifContext::Tiff, TAG_ARTIST)
    &&& f.camera_tags@.len() == CAMERA_TAG_COUNT
    &&& forall|i: int| 0 <= i < CAMERA_TAG_COUNT ==>
        #[trigger] f.camera_tags@[i] == (primary_value(es, camera_tag(i).0, camera_tag(i).1) is Some)
}

/// The EXIF signals of parsed entries.
pub open spec fn spec_detect_entries(es: Seq<ExifEntryView>) -> Seq<SignalView> {
    spec_detect(
        primary_value(es, ExifContext::Tiff, TAG_SOFTWARE),
        primary_value(es, ExifContext::Tiff, TAG_MAKE),
        primary_value(es, ExifContext::Tiff, TAG_MODEL),
        primary_value(es, ExifContext::Tiff, TAG_IMAGE_DESCRIPTION),
        primary_value(es, ExifContext::Exif, TAG_USER_COMMENT),
        primary_value(es, ExifContext::Tiff, TAG_ARTIST),
        Seq::new(CAMERA_TAG_COUNT as nat, |i: int| primary_value(es, camera_tag(i).0, camera_tag(i).1) is Some),
    )
}

/// The EXIF signals of a file's contents: none when they hold no EXIF data.
pub open spec fn spec_detect_bytes(bytes: Seq<u8>) -> Seq<SignalView> {
    match exif_entries(bytes) {
        Some(es) => spec_detect_entries(es),
        None => Seq::empty(),
    }
}

/// The displayed value of a tag in the primary image, if it has the tag.
pub fn primary_field(entries: &Vec<ExifEntry>, context: ExifContext, number: u16) -> (r: Option<String>)
    ensures
        opt_str_view(r) == primary_value(entries_view(entries@), context, number),
{
    let ghost es = entries_view(entries@);
    let mut i: usize = entries.len();
    assert(es.take(i as int) =~= es);
    while i > 0
        invariant
            i <= entries@.len(),
            es == entries_view(entries@),
            primary_value(es, context, number) == primary_value(es.take(i as int), context, number),
        decreases i,
    {
        let ghost t = es.take(i as int);
        assert(t.drop_last() =~= es.take(i - 1));
        assert(t.last() == entries@[i - 1]@);
        let e = &entries[i - 1];
        if e.ifd == 0 && e.context == context && e.number == number {
            return Some(e.value.clone());
        }
        i = i - 1;
    }
    None
}

/// The fields the heuristics read, taken from parsed EXIF entries.
pub fn fields_from_entries(entries: &Vec<ExifEntry>) -> (r: ExifFields)
    ensures
        fields_of_entries(r, entries_view(entries@)),
{
    let mut camera_tags: Vec<bool> = Vec::new();
    let mut i: usize = 0;
    while i < CAMERA_TAG_COUNT
        invariant
            i <= CAMERA_TAG_COUNT,
            camera_tags@.len() == i,
            forall|j: int| 0 <= j < i ==>
                #[trigger] camera_tags@[j] == (primary_value(entries_view(entries@), camera_tag(j).0, camera_tag(j).1) is Some),
        decreases CAMERA_TAG_COUNT - i,
    {
        let (context, number) = camera_tag_exec(i);
        let present = primary_field(entries, context, number).is_some();
        camera_tags.push(present);
        i = i + 1;
    }
    ExifFields {
        software: primary_field(entries, ExifContext::Tiff, TAG_SOFTWARE),
        make: primary_field(entries, ExifContext::Tiff, TAG_MAKE),
        model: primary_field(entries, ExifContext::Tiff, TAG_MODEL),
        image_description: primary_field(entries, ExifContext::Tiff, TAG_IMAGE_DESCRIPTION),
        user_comment: primary_field(entries, ExifContext::Exif, TAG_USER_COMMENT),
        artist: primary_field(entries, ExifContext::Tiff, TAG_ARTIST),
        camera_tags,
    }
}

/// The fields the heuristics read from a file's contents; `None` when the
/// contents hold no EXIF data that can be parsed.
pub fn read_exif_fields(bytes: &[u8]) -> (r: Option<ExifFields>)
    ensures
        match r {
            Some(f) => exif_entries(bytes@) matches Some(es) && fields_of_entries(f, es),
            None => exif_entries(bytes@) is None,
        },
{
    match read_exif_entries(bytes) {
        Some(entries) => Some(fields_from_entries(&entries)),
        None => None,
    }
}

/// The signals of parsed EXIF fields are those of the parsed entries.
proof fn lemma_fields_detect(f: ExifFields, es: Seq<ExifEntryView>)
    requires
        fields_of_entries(f, es),
    ensures
        spec_detect_fields(f) == spec_detect_entries(es),
{
    let cams = Seq::new(CAMERA_TAG_COUNT as nat, |i: int| primary_value(es, camera_tag(i).0, camera_tag(i).1) is Some);
    assert(f.camera_tags@ =~= cams);
}

/// Detects AI signals from the EXIF data of a file's contents; none when the
/// contents hold no EXIF data that can be parsed.
pub fn detect_exif_bytes(bytes: &[u8]) -> (r: Vec<Signal>)
    ensures
        signals_view(r@) == spec_detect_bytes(bytes@),
{
    match read_exif_fields(bytes) {
        Some(fields) => {
            proof {
                let es = exif_entries(bytes@)->0;
                lemma_fields_detect(fields, es);
            }
            detect(&fields)
        },
        None => no_signals(),
    }
}

/// The name and displayed value of each parsed entry, in order.
pub open spec fn spec_dump(es: Seq<ExifEntryView>) -> Seq<(Seq<char>, Seq<char>)> {
    es.map_values(|e: ExifEntryView| (e.name, e.value))
}

/// All EXIF fields of a file's contents, each as its tag's name and displayed
/// value; none when the contents hold no EXIF data that can be parsed.
pub fn dump_info(bytes: &[u8]) -> (r: Vec<(String, String)>)
    ensures
        pairs_view(r@) == match exif_entries(bytes@) {
            Some(es) => spec_dump(es),
            None => Seq::empty(),
        },
{
    let entries = match read_exif_entries(bytes) {
        Some(entries) => entries,
        None => {
            let v: Vec<(String, String)> = Vec::new();
            assert(pairs_view(v@) =~= Seq::<(Seq<char>, Seq<char>)>::empty());
            return v;
        },
    };
    let ghost es = entries_view(entries@);
    let mut out: Vec<(String, String)> = Vec::new();
    let mut i: usize = 0;
    while i < entries.len()
        invariant
            i <= entries@.len(),
            es == entries_view(entries@),
            pairs_view(out@) == spec_dump(es.take(i as int)),
        decreases entries.len() - i,
    {
        let ghost prev = out@;
        out.push((entries[i].name.clone(), entries[i].value.clone()));
        assert(pairs_view(out@) =~= pairs_view(prev).push((es[i as int].name, es[i as int].value)));
        assert(spec_dump(es.take(i + 1)) =~= spec_dump(es.take(i as int)).push((es[i as int].name, es[i as int].value)));
        i = i + 1;
    }
    assert(es.take(entries@.len() as int) =~= es);
    out
}

/// Every EXIF signal is a low-confidence signal from the EXIF source.
pub proof fn lemma_exif_signals_are_low(
    software: Option<Seq<char>>,
    make: Option<Seq<char>>,
    model: Option<Seq<char>>,
    description: Option<Seq<char>>,
    comment: Option<Seq<char>>,
    artist: Option<Seq<char>>,
    camera_tags: Seq<bool>,
)
    ensures
        ({
            let s = spec_detect(software, make, model, description, comment, artist, camera_tags);
            forall|i: int| 0 <= i < s.len() ==> {
                &&& (#[trigger] s[i]).source == SignalSource::Exif
                &&& s[i].confidence == Confidence::Low
            }
        }),
{
    let s = spec_detect(software, make, model, description, comment, artist, camera_tags);
    let parts = seq![
        software_signals(software),
        tag_value_signals("Make"@, make),
        tag_value_signals("Model"@, model),
        reference_signals("ImageDescription"@, description),
        reference_signals("UserComment"@, comment),
        artist_signals(artist),
    ];
    let found = parts[0] + parts[1] + parts[2] + parts[3] + parts[4] + parts[5];
    assert forall|k: int, j: int| 0 <= k < 6 && 0 <= j < parts[k].len() implies {
        &&& (#[trigger] parts[k][j]).source == SignalSource::Exif
        &&& parts[k][j].confidence == Confidence::Low
    } by {}
    assert forall|i: int| 0 <= i < found.len() implies {
        &&& (#[trigger] found[i]).source == SignalSource::Exif
        &&& found[i].confidence == Confidence::Low
    } by {
        let l0 = parts[0].len();
        let l1 = l0 + parts[1].len();
        let l2 = l1 + parts[2].len();
        let l3 = l2 + parts[3].len();
        let l4 = l3 + parts[4].len();
        if i < l0 {
            assert(found[i] == parts[0][i]);
        } else if i < l1 {
            assert(found[i] == parts[1][i - l0]);
        } else if i < l2 {
            assert(found[i] == parts[2][i - l1]);
        } else if i < l3 {
            assert(found[i] == parts[3][i - l2]);
        } else if i < l4 {
            assert(found[i] == parts[4][i - l3]);
        } else {
            assert(found[i] == parts[5][i - l4]);
        }
    }
    assert forall|i: int| 0 <= i < s.len() implies {
        &&& (#[trigger] s[i]).source == SignalSource::Exif
        &&& s[i].confidence == Confidence::Low
    } by {
        if i < found.len() {
            assert(s[i] == found[i]);
        }
    }
}

/// Each text tag is examined: a `Software`, `Make`, `Model`,
/// `ImageDescription` or `UserComment` value that, without its double quotes,
/// names a known AI tool gives a low-confidence EXIF signal naming that tool,
/// with the tag and the value as its detail; and when any tag fired and no
/// camera tag is present, the absence of camera fields is reported too.
pub proof fn lemma_exif_text_tags_recognized(
    software: Option<Seq<char>>,
    make: Option<Seq<char>>,
    model: Option<Seq<char>>,
    description: Option<Seq<char>>,
    comment: Option<Seq<char>>,
    artist: Option<Seq<char>>,
    camera_tags: Seq<bool>,
)
    ensures
        software is Some && ai_tool_of(strip_quotes(software->0)) is Some ==> exists|j: int|
            0 <= j < spec_detect(software, make, model, description, comment, artist, camera_tags).len()
                && #[trigger] spec_detect(software, make, model, description, comment, artist, camera_tags)[j] == (SignalView {
                source: SignalSource::Exif,
                confidence: Confidence::Low,
                description: "Software tag matches AI tool: "@ + strip_quotes(software->0),
                tool: ai_tool_of(strip_quotes(software->0)),
                details: seq![("Software"@, strip_quotes(software->0))],
            }),
        make is Some && ai_tool_of(strip_quotes(make->0)) is Some ==> exists|j: int|
            0 <= j < spec_detect(software, make, model, description, comment, artist, camera_tags).len()
                && #[trigger] spec_detect(software, make, model, description, comment, artist, camera_tags)[j] == (SignalView {
                source: SignalSource::Exif,
                confidence: Confidence::Low,
                description: "Make"@ + " tag matches AI tool: "@ + strip_quotes(make->0),
                tool: ai_tool_of(strip_quotes(make->0)),
                details: seq![("Make"@, strip_quotes(make->0))],
            }),
        model is Some && ai_tool_of(strip_quotes(model->0)) is Some ==> exists|j: int|
            0 <= j < spec_detect(software, make, model, description, comment, artist, camera_tags).len()
                && #[trigger] spec_detect(software, make, model, description, comment, artist, camera_tags)[j] == (SignalView {
                source: SignalSource::Exif,
                confidence: Confidence::Low,
                description: "Model"@ + " tag matches AI tool: "@ + strip_quotes(model->0),
                tool: ai_tool_of(strip_quotes(model->0)),
                details: seq![("Model"@, strip_quotes(model->0))],
            }),
        description is Some && ai_tool_of(strip_quotes(description->0)) is Some ==> exists|j: int|
            0 <= j < spec_detect(software, make, model, description, comment, artist, camera_tags).len()
                && #[trigger] spec_detect(software, make, model, description, comment, artist, camera_tags)[j] == (SignalView {
                source: SignalSource::Exif,
                confidence: Confidence::Low,
                description: "ImageDescription"@ + " references AI tool"@,
                tool: ai_tool_of(strip_quotes(description->0)),
                details: seq![("ImageDescription"@, strip_quotes(description->0))],
            }),
        comment is Some && ai_tool_of(strip_quotes(comment->0)) is Some ==> exists|j: int|
            0 <= j < spec_detect(software, make, model, description, comment, artist, camera_tags).len()
                && #[trigger] spec_detect(software, make, model, description, comment, artist, camera_tags)[j] == (SignalView {
                source: SignalSource::Exif,
                confidence: Confidence::Low,
                description: "UserComment"@ + " references AI tool"@,
                tool: ai_tool_of(strip_quotes(comment->0)),
                details: seq![("UserComment"@, strip_quotes(comment->0))],
            }),
        ({
            let s = spec_detect(software, make, model, description, comment, artist, camera_tags);
            (exists|j: int| 0 <= j < s.len() && (#[trigger] s[j]).tool is Some)
                && (forall|i: int| 0 <= i < camera_tags.len() ==> !camera_tags[i]) ==> s.last() == (SignalView {
                source: SignalSource::Exif,
                confidence: Confidence::Low,
                description: "No camera EXIF fields present"@,
                tool: None,
                details: seq![("camera_tags_present"@, "0"@)],
            })
        }),
{
    let s = spec_detect(software, make, model, description, comment, artist, camera_tags);
    let p0 = software_signals(software);
    let p1 = tag_value_signals("Make"@, make);
    let p2 = tag_value_signals("Model"@, model);
    let p3 = reference_signals("ImageDescription"@, description);
    let p4 = reference_signals("UserComment"@, comment);
    let p5 = artist_signals(artist);
    let found = p0 + p1 + p2 + p3 + p4 + p5;
    assert(forall|i: int| 0 <= i < found.len() ==> s[i] == found[i]);
    let l1 = p0.len() as int;
    let l2 = l1 + p1.len();
    let l3 = l2 + p2.len();
    let l4 = l3 + p3.len();
    if p0.len() > 0 {
        assert(found[0] == p0[0]);
        assert(s[0] == p0[0]);
    }
    if p1.len() > 0 {
        assert(found[l1] == p1[0]);
        assert(s[l1] == p1[0]);
    }
    if p2.len() > 0 {
        assert(found[l2] == p2[0]);
        assert(s[l2] == p2[0]);
    }
    if p3.len() > 0 {
        assert(found[l3] == p3[0]);
        assert(s[l3] == p3[0]);
    }
    if p4.len() > 0 {
        assert(found[l4] == p4[0]);
        assert(s[l4] == p4[0]);
    }
    if (exists|j: int| 0 <= j < s.len() && (#[trigger] s[j]).tool is Some)
        && (forall|i: int| 0 <= i < camera_tags.len() ==> !camera_tags[i]) {
        if found.len() == 0 {
            assert(s =~= found);
        }
    }
}

/// An `Artist` value that, without its double quotes, is at least 32 bytes of
/// hexadecimal digits and dashes (a hash rather than a name) gives a
/// low-confidence EXIF signal carrying the value.
pub proof fn lemma_hash_artist_reported(
    software: Option<Seq<char>>,
    make: Option<Seq<char>>,
    model: Option<Seq<char>>,
    description: Option<Seq<char>>,
    comment: Option<Seq<char>>,
    artist: Option<Seq<char>>,
    camera_tags: Seq<bool>,
)
    ensures
        artist is Some && encode_utf8(strip_quotes(artist->0)).len() >= 32 && (forall|i: int|
            0 <= i < strip_quotes(artist->0).len() ==> {
                let c = #[trigger] strip_quotes(artist->0)[i];
                ('0' <= c && c <= '9') || ('a' <= c && c <= 'f') || ('A' <= c && c <= 'F') || c == '-'
            }) ==> exists|j: int|
            0 <= j < spec_detect(software, make, model, description, comment, artist, camera_tags).len() && {
                let sg = #[trigger] spec_detect(software, make, model, description, comment, artist, camera_tags)[j];
                &&& sg.source == SignalSource::Exif
                &&& sg.confidence == Confidence::Low
                &&& sg.tool is None
                &&& sg.details == seq![("Artist"@, strip_quotes(artist->0))]
            },
{
    let s = spec_detect(software, make, model, description, comment, artist, camera_tags);
    let p0 = software_signals(software);
    let p1 = tag_value_signals("Make"@, make);
    let p2 = tag_value_signals("Model"@, model);
    let p3 = reference_signals("ImageDescription"@, description);
    let p4 = reference_signals("UserComment"@, comment);
    let p5 = artist_signals(artist);
    let found = p0 + p1 + p2 + p3 + p4 + p5;
    assert(forall|i: int| 0 <= i < found.len() ==> s[i] == found[i]);
    let l5 = p0.len() + p1.len() + p2.len() + p3.len() + p4.len();
    if p5.len() > 0 {
        assert(found[l5 as int] == p5[0]);
        assert(s[l5 as int] == p5[0]);
    }
}

/// The field is absent or its value names no known AI tool.
pub open spec fn names_no_tool(f: Option<Seq<char>>) -> bool {
    match f {
        Some(raw) => ai_tool_of(strip_quotes(raw)) is None,
        None => true,
    }
}

/// EXIF alone gives no signal unless a text tag names a known AI tool or the
/// artist looks like a hash: the absence of camera fields only counts
/// together with such a signal.
pub proof fn lemma_exif_quiet_without_ai_fields(
    software: Option<Seq<char>>,
    make: Option<Seq<char>>,
    model: Option<Seq<char>>,
    description: Option<Seq<char>>,
    comment: Option<Seq<char>>,
    artist: Option<Seq<char>>,
    camera_tags: Seq<bool>,
)
    requires
        names_no_tool(software),
        names_no_tool(make),
        names_no_tool(model),
        names_no_tool(description),
        names_no_tool(comment),
        match artist {
            Some(raw) => !is_hex_hash(strip_quotes(raw)),
            None => true,
        },
    ensures
        spec_detect(software, make, model, description, comment, artist, camera_tags).len() == 0,
{
}

} // verus!
