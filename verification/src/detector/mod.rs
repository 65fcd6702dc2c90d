//! Signals, reports, and the combination of all detectors.
use vstd::prelude::*;
use vstd::slice::slice_subrange;
use vstd::string::*;

use crate::text::{chars_eq_ignore_ascii_case, chars_of, eq_ignore_ascii_case};

pub mod c2pa_detector;
pub mod exif;
pub mod filename;
pub mod mp4_metadata;
pub mod wav_metadata;
pub mod xmp;

verus! {

/// How strongly a signal indicates AI generation.
#[derive(Debug, Clone, Copy, PartialEq, Eq, Structural, PartialOrd, Ord)]
pub enum Confidence {
    Absent,
    Low,
    Medium,
    High,
}

impl Confidence {
    /// Position in the order `Absent < Low < Medium < High`.
    pub open spec fn rank(self) -> nat {
        match self {
            Confidence::Absent => 0,
            Confidence::Low => 1,
            Confidence::Medium => 2,
            Confidence::High => 3,
        }
    }

    /// The rank of this confidence as a number.
    pub fn level(&self) -> (r: u8)
        ensures
            r as nat == self.rank(),
    {
        match self {
            Confidence::Absent => 0,
            Confidence::Low => 1,
            Confidence::Medium => 2,
            Confidence::High => 3,
        }
    }

    /// The upper-case label under which the confidence is shown.
    pub fn label(&self) -> (s: &'static str)
        ensures
            s@ == self.label_spec(),
    {
        match self {
            Confidence::Absent => "NONE",
            Confidence::Low => "LOW",
            Confidence::Medium => "MEDIUM",
            Confidence::High => "HIGH",
        }
    }

    pub open spec fn label_spec(self) -> Seq<char> {
        match self {
            Confidence::Absent => "NONE"@,
            Confidence::Low => "LOW"@,
            Confidence::Medium => "MEDIUM"@,
            Confidence::High => "HIGH"@,
        }
    }
}

/// Which detector produced a signal.
#[derive(Debug, Clone, Copy, PartialEq, Eq, Structural)]
pub enum SignalSource {
    C2pa,
    Xmp,
    Exif,
    Watermark,
    Filename,
    Mp4Metadata,
    AudioSpectral,
}

impl SignalSource {
    /// The upper-case label under which the source is shown.
    pub fn label(&self) -> (s: &'static str)
        ensures
            s@ == self.label_spec(),
    {
        match self {
            SignalSource::C2pa => "C2PA",
            SignalSource::Xmp => "XMP",
            SignalSource::Exif => "EXIF",
            SignalSource::Watermark => "WATERMARK",
            SignalSource::Filename => "FILENAME",
            SignalSource::Mp4Metadata => "MP4",
            SignalSource::AudioSpectral => "AUDIO",
        }
    }

    pub open spec fn label_spec(self) -> Seq<char> {
        match self {
            SignalSource::C2pa => "C2PA"@,
            SignalSource::Xmp => "XMP"@,
            SignalSource::Exif => "EXIF"@,
            SignalSource::Watermark => "WATERMARK"@,
            SignalSource::Filename => "FILENAME"@,
            SignalSource::Mp4Metadata => "MP4"@,
            SignalSource::AudioSpectral => "AUDIO"@,
        }
    }
}

/// One piece of evidence that a file is AI-generated.
#[derive(Debug, Clone)]
pub struct Signal {
    pub source: SignalSource,
    pub confidence: Confidence,
    pub description: String,
    pub tool: Option<String>,
    pub details: Vec<(String, String)>,
}

/// The mathematical content of a [`Signal`].
pub struct SignalView {
    pub source: SignalSource,
    pub confidence: Confidence,
    pub description: Seq<char>,
    pub tool: Option<Seq<char>>,
    pub details: Seq<(Seq<char>, Seq<char>)>,
}

pub open spec fn opt_str_view(o: Option<String>) -> Option<Seq<char>> {
    match o {
        Some(s) => Some(s@),
        None => None,
    }
}

pub open spec fn pairs_view(v: Seq<(String, String)>) -> Seq<(Seq<char>, Seq<char>)> {
    v.map_values(|p: (String, String)| (p.0@, p.1@))
}

impl View for Signal {
    type V = SignalView;

    open spec fn view(&self) -> SignalView {
        SignalView {
            source: self.source,
            confidence: self.confidence,
            description: self.description@,
            tool: opt_str_view(self.tool),
            details: pairs_view(self.details@),
        }
    }
}

pub open spec fn signals_view(v: Seq<Signal>) -> Seq<SignalView> {
    v.map_values(|s: Signal| s@)
}

/// The combined result of all detectors for one file.
#[derive(Debug, Clone)]
pub struct FileReport {
    pub path: String,
    pub mime_type: Option<String>,
    pub signals: Vec<Signal>,
    pub overall_confidence: Confidence,
    pub ai_generated: bool,
    pub error: Option<String>,
}

/// The highest confidence among the signals, `Absent` when there is none.
pub open spec fn overall_of(s: Seq<SignalView>) -> Confidence
    decreases s.len(),
{
    if s.len() == 0 {
        Confidence::Absent
    } else {
        let rest = overall_of(s.drop_last());
        if s.last().confidence.rank() > rest.rank() {
            s.last().confidence
        } else {
            rest
        }
    }
}

/// A report is consistent when its AI flag follows from its overall confidence.
pub open spec fn report_consistent(r: FileReport) -> bool {
    r.ai_generated == (r.overall_confidence.rank() > 0)
}

impl FileReport {
    /// The report for a file on which the detectors produced `signals`.
    pub fn from_signals(path: String, mime_type: Option<String>, signals: Vec<Signal>) -> (r: Self)
        ensures
            r.path@ == path@,
            opt_str_view(r.mime_type) == opt_str_view(mime_type),
            signals_view(r.signals@) == signals_view(signals@),
            r.overall_confidence == overall_of(signals_view(signals@)),
            r.ai_generated == (r.overall_confidence.rank() > 0),
            r.error is None,
    {
        let mut overall = Confidence::Absent;
        let mut i: usize = 0;
        while i < signals.len()
            invariant
                i <= signals@.len(),
                overall == overall_of(signals_view(signals@).take(i as int)),
            decreases signals.len() - i,
        {
            let c = signals[i].confidence;
            proof {
                let t = signals_view(signals@).take(i + 1);
                assert(t.drop_last() =~= signals_view(signals@).take(i as int));
                assert(t.last() == signals@[i as int]@);
            }
            if c.level() > overall.level() {
                overall = c;
            }
            i = i + 1;
        }
        proof {
            assert(signals_view(signals@).take(signals@.len() as int) =~= signals_view(signals@));
        }
        let ai_generated = overall.level() > 0;
        FileReport { path, mime_type, signals, overall_confidence: overall, ai_generated, error: None }
    }

    /// The report for a file that could not be analyzed.
    pub fn from_error(path: String, error: String) -> (r: Self)
        ensures
            r.path@ == path@,
            r.mime_type is None,
            r.signals@.len() == 0,
            r.overall_confidence == Confidence::Absent,
            !r.ai_generated,
            opt_str_view(r.error) == Some(error@),
    {
        FileReport {
            path,
            mime_type: None,
            signals: Vec::new(),
            overall_confidence: Confidence::Absent,
            ai_generated: false,
            error: Some(error),
        }
    }
}


impl Confidence {
    /// The confidence a name stands for (`low`, `medium` or `high`, in any
    /// ASCII case).
    pub open spec fn named(name: Seq<char>) -> Option<Confidence> {
        if eq_ignore_ascii_case(name, "low"@) {
            Some(Confidence::Low)
        } else if eq_ignore_ascii_case(name, "medium"@) {
            Some(Confidence::Medium)
        } else if eq_ignore_ascii_case(name, "high"@) {
            Some(Confidence::High)
        } else {
            None
        }
    }

    /// Reads a confidence threshold given by name.
    pub fn from_name(name: &str) -> (r: Option<Confidence>)
        ensures
            r == Confidence::named(name@),
    {
        let cs = chars_of(name);
        let low = chars_of("low");
        let medium = chars_of("medium");
        let high = chars_of("high");
        if chars_eq_ignore_ascii_case(cs.as_slice(), low.as_slice()) {
            Some(Confidence::Low)
        } else if chars_eq_ignore_ascii_case(cs.as_slice(), medium.as_slice()) {
            Some(Confidence::Medium)
        } else if chars_eq_ignore_ascii_case(cs.as_slice(), high.as_slice()) {
            Some(Confidence::High)
        } else {
            None
        }
    }
}

/// The signals rated at least `min`, in order.
pub open spec fn at_least(s: Seq<SignalView>, min: Confidence) -> Seq<SignalView>
    decreases s.len(),
{
    if s.len() == 0 {
        Seq::empty()
    } else if s.last().confidence.rank() >= min.rank() {
        at_least(s.drop_last(), min).push(s.last())
    } else {
        at_least(s.drop_last(), min)
    }
}

impl FileReport {
    /// The report keeping only the signals rated at least `min`, its overall
    /// confidence and AI flag taken from those.
    pub fn with_min_confidence(self, min: Confidence) -> (r: Self)
        ensures
            r.path@ == self.path@,
            opt_str_view(r.mime_type) == opt_str_view(self.mime_type),
            opt_str_view(r.error) == opt_str_view(self.error),
            signals_view(r.signals@) == at_least(signals_view(self.signals@), min),
            r.overall_confidence == overall_of(at_least(signals_view(self.signals@), min)),
            r.ai_generated == (r.overall_confidence.rank() > 0),
    {
        let ghost all = signals_view(self.signals@);
        let ghost n = all.len();
        let mut rest = self.signals;
        let mut kept: Vec<Signal> = Vec::new();
        let mut overall = Confidence::Absent;
        let ghost mut k: int = 0;
        assert(signals_view(rest@) =~= all.subrange(0, n as int));
        while rest.len() > 0
            invariant
                0 <= k <= n,
                n == all.len(),
                signals_view(rest@) == all.subrange(k, n as int),
                signals_view(kept@) == at_least(all.take(k), min),
                overall == overall_of(at_least(all.take(k), min)),
            decreases rest.len(),
        {
            let ghost before = rest@;
            let sg = rest.remove(0);
            assert(signals_view(before).len() == before.len());
            assert(k < n);
            assert(signals_view(before)[0] == sg@);
            assert(all.subrange(k, n as int)[0] == all[k]);
            assert(all[k] == sg@);
            let ghost t = all.take(k + 1);
            assert(t.drop_last() =~= all.take(k));
            assert(t.last() == sg@);
            assert(signals_view(rest@) =~= all.subrange(k + 1, n as int)) by {
                assert forall|j: int| 0 <= j < rest@.len() implies signals_view(rest@)[j] == all.subrange(k + 1, n as int)[j] by {
                    assert(rest@[j] == before[j + 1]);
                    assert(signals_view(before)[j + 1] == all.subrange(k, n as int)[j + 1]);
                }
            }
            let c = sg.confidence;
            if c.level() >= min.level() {
                let ghost kb = kept@;
                kept.push(sg);
                assert(signals_view(kept@) =~= signals_view(kb).push(t.last()));
                let ghost prev = at_least(t.drop_last(), min);
                assert(at_least(t, min) == prev.push(t.last()));
                assert(prev.push(t.last()).drop_last() =~= prev);
                if c.level() > overall.level() {
                    overall = c;
                }
            }
            proof {
                k = k + 1;
            }
        }
        assert(all.take(k) =~= all);
        let ai_generated = overall.level() > 0;
        FileReport {
            path: self.path,
            mime_type: self.mime_type,
            signals: kept,
            overall_confidence: overall,
            ai_generated,
            error: self.error,
        }
    }
}

/// The overall confidence of a report is the highest confidence of its
/// signals: no signal is rated above it, and unless there are no signals (when
/// it is `None`) some signal carries it.
pub proof fn lemma_overall_is_maximum(s: Seq<SignalView>)
    ensures
        forall|i: int| 0 <= i < s.len() ==> s[i].confidence.rank() <= overall_of(s).rank(),
        s.len() == 0 ==> overall_of(s) == Confidence::Absent,
        s.len() > 0 ==> exists|i: int| 0 <= i < s.len() && s[i].confidence == overall_of(s),
    decreases s.len(),
{
    if s.len() > 0 {
        let p = s.drop_last();
        lemma_overall_is_maximum(p);
        assert forall|i: int| 0 <= i < s.len() implies s[i].confidence.rank() <= overall_of(s).rank() by {
            if i < s.len() - 1 {
                assert(s[i] == p[i]);
            }
        }
        if s.last().confidence.rank() > overall_of(p).rank() {
            assert(s[s.len() - 1].confidence == overall_of(s));
        } else if p.len() > 0 {
            let j = choose|j: int| 0 <= j < p.len() && p[j].confidence == overall_of(p);
            assert(s[j] == p[j]);
        } else {
            assert(overall_of(p) == Confidence::Absent);
            assert(s.last().confidence.rank() == 0);
            assert(s[s.len() - 1].confidence == overall_of(s));
        }
    }
}

/// A file is reported as AI-generated exactly when at least one of its signals
/// carries a confidence above `Absent`.
pub proof fn lemma_ai_flag_iff_rated_signal(r: FileReport)
    requires
        report_consistent(r),
        r.overall_confidence == overall_of(signals_view(r.signals@)),
    ensures
        r.ai_generated <==> exists|i: int|
            0 <= i < r.signals@.len() && r.signals@[i].confidence.rank() > 0,
{
    let s = signals_view(r.signals@);
    lemma_overall_is_maximum(s);
    if r.ai_generated {
        let i = choose|i: int| 0 <= i < s.len() && s[i].confidence == overall_of(s);
        assert(s[i] == r.signals@[i]@);
    }
    if exists|i: int| 0 <= i < r.signals@.len() && r.signals@[i].confidence.rank() > 0 {
        let i = choose|i: int| 0 <= i < r.signals@.len() && r.signals@[i].confidence.rank() > 0;
        assert(s[i] == r.signals@[i]@);
    }
}


/// Keeping only the signals rated at least `min` keeps the overall confidence
/// when it reaches `min`, and leaves no signal when it does not: a report's
/// verdict survives the filter exactly when its confidence reaches the bar.
pub proof fn lemma_min_confidence_filter(s: Seq<SignalView>, min: Confidence)
    ensures
        overall_of(s).rank() >= min.rank() ==> overall_of(at_least(s, min)) == overall_of(s),
        overall_of(s).rank() < min.rank() ==> at_least(s, min).len() == 0,
    decreases s.len(),
{
    if s.len() > 0 {
        let p = s.drop_last();
        lemma_min_confidence_filter(p, min);
        let fp = at_least(p, min);
        if s.last().confidence.rank() >= min.rank() {
            assert(fp.push(s.last()).drop_last() =~= fp);
        }
    }
}

// ---------------------------------------------------------------------------
// Combining the detectors
// ---------------------------------------------------------------------------

/// What `infer::get` recognizes the type of a buffer as: its MIME type.
pub uninterp spec fn inferred_mime_type(buf: Seq<u8>) -> Option<Seq<char>>;

/// Calls `infer::get` and takes the MIME type of the recognized type.
/// Claimed: the result is the named function of the buffer (the matchers of
/// the crate's default table, tried in order, look at the buffer alone).
#[verifier::external_body]
fn infer_mime_type(buf: &[u8]) -> (r: Option<String>)
    ensures
        opt_str_view(r) == inferred_mime_type(buf@),
{
    infer::get(buf).map(|t| t.mime_type().to_string())
}

/// Number of leading bytes of a file from which its type is inferred.
pub const MIME_SNIFF_LIMIT: usize = 8192;

/// The MIME type of a file's contents, inferred from its first bytes; none
/// when the file could not be read.
pub open spec fn spec_mime_type(contents: Result<Seq<u8>, Seq<char>>) -> Option<Seq<char>> {
    match contents {
        Ok(d) => inferred_mime_type(
            if d.len() > MIME_SNIFF_LIMIT {
                d.take(MIME_SNIFF_LIMIT as int)
            } else {
                d
            },
        ),
        Err(_) => None,
    }
}

pub open spec fn bytes_result_view(r: Result<Vec<u8>, String>) -> Result<Seq<u8>, Seq<char>> {
    match r {
        Ok(v) => Ok(v@),
        Err(e) => Err(e@),
    }
}

/// The signals a detector contributes: its signals when it ran, none when it failed.
pub open spec fn contributed(r: Result<Seq<SignalView>, Seq<char>>) -> Seq<SignalView> {
    match r {
        Ok(s) => s,
        Err(_) => Seq::empty(),
    }
}

pub open spec fn xmp_outcome(r: Result<Seq<u8>, Seq<char>>) -> Result<Seq<SignalView>, Seq<char>> {
    match r {
        Ok(d) => Ok(xmp::spec_detect(d)),
        Err(e) => Err(e),
    }
}

pub open spec fn watermark_outcome(r: Option<Result<Vec<Signal>, String>>) -> Result<Seq<SignalView>, Seq<char>> {
    match r {
        Some(Ok(v)) => Ok(signals_view(v@)),
        Some(Err(e)) => Err(e@),
        None => Ok(Seq::empty()),
    }
}

/// The signals a detector contributes when it may find the data unusable
/// (`None`): its signals, or none.
pub open spec fn found(r: Option<Seq<SignalView>>) -> Seq<SignalView> {
    match r {
        Some(s) => s,
        None => Seq::empty(),
    }
}

/// The signals of a file: those read from its contents (C2PA, then XMP, then
/// EXIF, then MP4 metadata; none when the file could not be read), then, when
/// pixel-level analysis was run, those of the invisible watermark; a detector
/// that failed contributes nothing.
pub open spec fn combined_signals(
    contents: Result<Seq<u8>, Seq<char>>,
    c2pa: Result<Vec<c2pa_detector::C2paManifest>, c2pa_detector::C2paReadError>,
    watermark: Option<Result<Vec<Signal>, String>>,
) -> Seq<SignalView> {
    let from_contents = match contents {
        Ok(d) => contributed(c2pa_detector::spec_detect(c2pa)) + xmp::spec_detect(d) + exif::spec_detect_bytes(d)
            + found(mp4_metadata::spec_detect(d)),
        Err(_) => Seq::empty(),
    };
    from_contents + contributed(watermark_outcome(watermark))
}

fn add_outcome(signals: &mut Vec<Signal>, outcome: Result<Vec<Signal>, String>)
    ensures
        signals_view(final(signals)@) == signals_view(old(signals)@) + contributed(c2pa_detector::result_view(outcome)),
{
    match outcome {
        Ok(mut more) => {
            let ghost a = signals@;
            let ghost b = more@;
            signals.append(&mut more);
            assert(signals@ =~= a + b);
            assert(signals_view(signals@) =~= signals_view(a) + signals_view(b));
        },
        Err(_) => {
            assert(signals_view(signals@) + Seq::<SignalView>::empty() =~= signals_view(signals@));
        },
    }
}

fn append_signals(signals: &mut Vec<Signal>, more: Vec<Signal>)
    ensures
        signals_view(final(signals)@) == signals_view(old(signals)@) + signals_view(more@),
{
    let mut more = more;
    let ghost a = signals@;
    let ghost b = more@;
    signals.append(&mut more);
    assert(signals@ =~= a + b);
    assert(signals_view(signals@) =~= signals_view(a) + signals_view(b));
}

/// Runs all detectors on a file and returns a combined report.
///
/// The caller reads the file and hands over: its contents (from which its
/// type and its XMP, EXIF and MP4 signals follow), the outcome of reading its
/// C2PA manifests (see [`c2pa_detector::read_file_manifests`]), and, when
/// pixel-level analysis is asked for, the watermark detector's outcome
/// (`None` otherwise).
pub fn run_all_detectors(
    path: String,
    contents: Result<Vec<u8>, String>,
    c2pa: Result<Vec<c2pa_detector::C2paManifest>, c2pa_detector::C2paReadError>,
    watermark: Option<Result<Vec<Signal>, String>>,
) -> (r: FileReport)
    requires
        contents matches Ok(d) ==> d@.len() <= isize::MAX,
    ensures
        r.path@ == path@,
        opt_str_view(r.mime_type) == spec_mime_type(bytes_result_view(contents)),
        signals_view(r.signals@) == combined_signals(bytes_result_view(contents), c2pa, watermark),
        r.overall_confidence == overall_of(combined_signals(bytes_result_view(contents), c2pa, watermark)),
        r.ai_generated == (r.overall_confidence.rank() > 0),
        r.error is None,
{
    let ghost contents_v = bytes_result_view(contents);
    let ghost expected = combined_signals(contents_v, c2pa, watermark);
    let mut signals: Vec<Signal> = Vec::new();
    let mime_type = match &contents {
        Ok(d) => {
            let head = if d.len() > MIME_SNIFF_LIMIT {
                slice_subrange(d.as_slice(), 0, MIME_SNIFF_LIMIT)
            } else {
                d.as_slice()
            };
            assert(head@ == (if d@.len() > MIME_SNIFF_LIMIT {
                d@.take(MIME_SNIFF_LIMIT as int)
            } else {
                d@
            }));
            let mime = infer_mime_type(head);
            add_outcome(&mut signals, c2pa_detector::detect(c2pa));
            append_signals(&mut signals, xmp::detect(d.as_slice()));
            append_signals(&mut signals, exif::detect_exif_bytes(d.as_slice()));
            match mp4_metadata::detect(d.as_slice()) {
                Some(more) => append_signals(&mut signals, more),
                None => {
                    assert(signals_view(signals@) + Seq::<SignalView>::empty() =~= signals_view(signals@));
                },
            }
            mime
        },
        Err(_) => {
            assert(signals_view(signals@) =~= Seq::<SignalView>::empty());
            None
        },
    };
    match watermark {
        Some(outcome) => add_outcome(&mut signals, outcome),
        None => {
            assert(signals_view(signals@) + Seq::<SignalView>::empty() =~= signals_view(signals@));
        },
    }
    assert(signals_view(signals@) =~= expected);
    FileReport::from_signals(path, mime_type, signals)
}

/// Pixel-level watermark analysis is opt-in: without a watermark outcome no
/// signal of the combined report comes from the watermark source.
pub proof fn lemma_no_watermark_signal_without_analysis(
    contents: Result<Seq<u8>, Seq<char>>,
    c2pa: Result<Vec<c2pa_detector::C2paManifest>, c2pa_detector::C2paReadError>,
)
    ensures
        forall|i: int| 0 <= i < combined_signals(contents, c2pa, None).len() ==>
            (#[trigger] combined_signals(contents, c2pa, None)[i]).source != SignalSource::Watermark,
{
    let s = combined_signals(contents, c2pa, None);
    if let Ok(d) = contents {
        let a = contributed(c2pa_detector::spec_detect(c2pa));
        let b = xmp::spec_detect(d);
        let c = exif::spec_detect_bytes(d);
        let m = found(mp4_metadata::spec_detect(d));
        if let Ok(ms) = c2pa {
            c2pa_detector::lemma_c2pa_signals_at_least_medium(ms@);
        }
        xmp::lemma_xmp_signals_are_medium(d);
        mp4_metadata::lemma_mp4_signals_are_medium(d);
        if let Some(es) = exif::exif_entries(d) {
            exif::lemma_exif_signals_are_low(
                exif::primary_value(es, exif::ExifContext::Tiff, exif::TAG_SOFTWARE),
                exif::primary_value(es, exif::ExifContext::Tiff, exif::TAG_MAKE),
                exif::primary_value(es, exif::ExifContext::Tiff, exif::TAG_MODEL),
                exif::primary_value(es, exif::ExifContext::Tiff, exif::TAG_IMAGE_DESCRIPTION),
                exif::primary_value(es, exif::ExifContext::Exif, exif::TAG_USER_COMMENT),
                exif::primary_value(es, exif::ExifContext::Tiff, exif::TAG_ARTIST),
                Seq::new(
                    exif::CAMERA_TAG_COUNT as nat,
                    |j: int| exif::primary_value(es, exif::camera_tag(j).0, exif::camera_tag(j).1) is Some,
                ),
            );
        }
        assert(s =~= a + b + c + m);
        assert forall|i: int| 0 <= i < s.len() implies (#[trigger] s[i]).source != SignalSource::Watermark by {
            if i < a.len() {
                assert(s[i] == a[i]);
            } else if i < a.len() + b.len() {
                assert(s[i] == b[i - a.len()]);
            } else if i < a.len() + b.len() + c.len() {
                assert(s[i] == c[i - a.len() - b.len()]);
            } else {
                assert(s[i] == m[i - a.len() - b.len() - c.len()]);
            }
        }
    } else {
        assert(s =~= Seq::<SignalView>::empty());
    }
}

} // verus!
