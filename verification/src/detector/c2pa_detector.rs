//! Signals from C2PA manifests: AI tools named by the claim generator or its
//! info, and AI digital source types recorded by actions.
use vstd::prelude::*;
use vstd::string::*;

use crate::detector::{opt_str_view, pairs_view, signals_view, Confidence, Signal, SignalSource, SignalView};
use crate::known_tools::{ai_tool_of, match_ai_tool, opt_static_view};

verus! {

broadcast use vstd::string::group_string_axioms;

/// The digital source type that a C2PA action records.
#[derive(Debug, Clone, Copy, PartialEq, Eq, Structural)]
pub enum DigitalSourceType {
    TrainedAlgorithmicMedia,
    CompositeWithTrainedAlgorithmicMedia,
    CompositeSynthetic,
    AlgorithmicMedia,
    DataDrivenMedia,
    TrainedAlgorithmicData,
    /// Any other source type (camera capture, film, screen capture, …).
    Other,
}

/// One action of a manifest's actions assertion.
pub struct C2paAction {
    /// The action's label, such as `c2pa.created`.
    pub action: String,
    pub source_type: Option<DigitalSourceType>,
    /// The software agent, serialized as JSON.
    pub software_agent: Option<String>,
}

/// What the detector reads of one C2PA manifest.
pub struct C2paManifest {
    pub claim_generator: Option<String>,
    /// Each claim generator info entry, serialized as JSON.
    pub claim_generator_info: Option<Vec<String>>,
    /// The actions of the `c2pa.actions` assertion, when the manifest has one that parses.
    pub actions: Option<Vec<C2paAction>>,
    /// The actions of the `c2pa.actions.v2` assertion, when the manifest has one that parses.
    pub actions_v2: Option<Vec<C2paAction>>,
}

/// Why the manifests of a file could not be read.
pub enum C2paReadError {
    /// The file holds no C2PA manifest.
    JumbfNotFound,
    /// The file's format cannot carry a manifest.
    UnsupportedType,
    /// Any other failure, with its message.
    Other(String),
}

/// Confidence and description of the AI-related digital source types.
pub open spec fn spec_ai_source_type(dst: DigitalSourceType) -> Option<(Confidence, Seq<char>)> {
    match dst {
        DigitalSourceType::TrainedAlgorithmicMedia => Some(
            (Confidence::High, "trainedAlgorithmicMedia (fully AI-generated)"@),
        ),
        DigitalSourceType::CompositeWithTrainedAlgorithmicMedia => Some(
            (Confidence::High, "compositeWithTrainedAlgorithmicMedia (AI-edited)"@),
        ),
        DigitalSourceType::CompositeSynthetic => Some(
            (Confidence::High, "compositeSynthetic (includes AI elements)"@),
        ),
        DigitalSourceType::AlgorithmicMedia => Some(
            (Confidence::Medium, "algorithmicMedia (algorithmic, not necessarily AI-trained)"@),
        ),
        DigitalSourceType::DataDrivenMedia => Some(
            (Confidence::Medium, "dataDrivenMedia (data-driven generation)"@),
        ),
        DigitalSourceType::TrainedAlgorithmicData => Some(
            (Confidence::Medium, "trainedAlgorithmicData (AI-generated data)"@),
        ),
        DigitalSourceType::Other => None,
    }
}

/// The confidence and description of an AI-related digital source type.
pub fn is_ai_source_type(dst: &DigitalSourceType) -> (r: Option<(Confidence, &'static str)>)
    ensures
        match r {
            Some(p) => spec_ai_source_type(*dst) == Some((p.0, p.1@)),
            None => spec_ai_source_type(*dst) is None,
        },
{
    match dst {
        DigitalSourceType::TrainedAlgorithmicMedia => Some(
            (Confidence::High, "trainedAlgorithmicMedia (fully AI-generated)"),
        ),
        DigitalSourceType::CompositeWithTrainedAlgorithmicMedia => Some(
            (Confidence::High, "compositeWithTrainedAlgorithmicMedia (AI-edited)"),
        ),
        DigitalSourceType::CompositeSynthetic => Some(
            (Confidence::High, "compositeSynthetic (includes AI elements)"),
        ),
        DigitalSourceType::AlgorithmicMedia => Some(
            (Confidence::Medium, "algorithmicMedia (algorithmic, not necessarily AI-trained)"),
        ),
        DigitalSourceType::DataDrivenMedia => Some(
            (Confidence::Medium, "dataDrivenMedia (data-driven generation)"),
        ),
        DigitalSourceType::TrainedAlgorithmicData => Some(
            (Confidence::Medium, "trainedAlgorithmicData (AI-generated data)"),
        ),
        DigitalSourceType::Other => None,
    }
}

pub struct C2paActionView {
    pub action: Seq<char>,
    pub source_type: Option<DigitalSourceType>,
    pub software_agent: Option<Seq<char>>,
}

pub open spec fn action_view(a: C2paAction) -> C2paActionView {
    C2paActionView {
        action: a.action@,
        source_type: a.source_type,
        software_agent: opt_str_view(a.software_agent),
    }
}

pub open spec fn actions_view(v: Seq<C2paAction>) -> Seq<C2paActionView> {
    v.map_values(|a: C2paAction| action_view(a))
}

/// A high-confidence signal when the claim generator names a known AI tool.
pub open spec fn claim_generator_signals(cg: Option<Seq<char>>) -> Seq<SignalView> {
    match cg {
        None => Seq::empty(),
        Some(g) => match ai_tool_of(g) {
            None => Seq::empty(),
            Some(t) => seq![
                SignalView {
                    source: SignalSource::C2pa,
                    confidence: Confidence::High,
                    description: "claim_generator matches AI tool: "@ + g,
                    tool: Some(t),
                    details: seq![("claim_generator"@, g)],
                },
            ],
        },
    }
}

/// A high-confidence signal for each claim generator info entry naming a known AI tool.
pub open spec fn generator_info_signals(infos: Seq<Seq<char>>) -> Seq<SignalView>
    decreases infos.len(),
{
    if infos.len() == 0 {
        Seq::empty()
    } else {
        let r = generator_info_signals(infos.drop_last());
        match ai_tool_of(infos.last()) {
            None => r,
            Some(t) => r.push(
                SignalView {
                    source: SignalSource::C2pa,
                    confidence: Confidence::High,
                    description: "claim_generator_info references AI tool"@,
                    tool: Some(t),
                    details: seq![("claim_generator_info"@, infos.last())],
                },
            ),
        }
    }
}

/// The signal of one action whose digital source type is AI-related: its
/// confidence, the description, the tool its software agent names, and the
/// action, source type and agent as details.
pub open spec fn action_signal(a: C2paActionView) -> Option<SignalView> {
    match a.source_type {
        None => None,
        Some(st) => match spec_ai_source_type(st) {
            None => None,
            Some((conf, desc)) => Some(
                SignalView {
                    source: SignalSource::C2pa,
                    confidence: conf,
                    description: "digitalSourceType = "@ + desc,
                    tool: match a.software_agent {
                        Some(sw) => ai_tool_of(sw),
                        None => None,
                    },
                    details: match a.software_agent {
                        Some(sw) => seq![("action"@, a.action), ("digitalSourceType"@, desc), ("softwareAgent"@, sw)],
                        None => seq![("action"@, a.action), ("digitalSourceType"@, desc)],
                    },
                },
            ),
        },
    }
}

pub open spec fn action_signals(acts: Seq<C2paActionView>) -> Seq<SignalView>
    decreases acts.len(),
{
    if acts.len() == 0 {
        Seq::empty()
    } else {
        let r = action_signals(acts.drop_last());
        match action_signal(acts.last()) {
            Some(sg) => r.push(sg),
            None => r,
        }
    }
}

pub open spec fn infos_view(v: Option<Vec<String>>) -> Seq<Seq<char>> {
    match v {
        Some(l) => l@.map_values(|s: String| s@),
        None => Seq::empty(),
    }
}

/// The actions that are examined: those of `c2pa.actions` when present,
/// otherwise those of `c2pa.actions.v2`.
pub open spec fn examined_actions(m: C2paManifest) -> Seq<C2paActionView> {
    match m.actions {
        Some(a) => actions_view(a@),
        None => match m.actions_v2 {
            Some(a) => actions_view(a@),
            None => Seq::empty(),
        },
    }
}

/// All signals of one manifest: claim generator, generator infos, actions.
pub open spec fn manifest_signals(m: C2paManifest) -> Seq<SignalView> {
    claim_generator_signals(opt_str_view(m.claim_generator)) + generator_info_signals(infos_view(m.claim_generator_info))
        + action_signals(examined_actions(m))
}

fn opt_tool_string(t: Option<&'static str>) -> (r: Option<String>)
    ensures
        opt_str_view(r) == opt_static_view(t),
{
    match t {
        Some(s) => Some(String::from_str(s)),
        None => None,
    }
}

fn push_signal(signals: &mut Vec<Signal>, sg: Signal)
    ensures
        signals_view(final(signals)@) == signals_view(old(signals)@).push(sg@),
{
    let ghost old = signals@;
    signals.push(sg);
    assert(signals_view(signals@) =~= signals_view(old).push(sg@));
}

fn action_signals_exec(acts: &Vec<C2paAction>, signals: &mut Vec<Signal>)
    ensures
        signals_view(final(signals)@) == signals_view(old(signals)@) + action_signals(actions_view(acts@)),
{
    let ghost start = signals_view(signals@);
    let ghost av = actions_view(acts@);
    let mut i: usize = 0;
    assert(start + action_signals(av.take(0)) =~= start);
    while i < acts.len()
        invariant
            i <= acts@.len(),
            av == actions_view(acts@),
            signals_view(signals@) == start + action_signals(av.take(i as int)),
        decreases acts.len() - i,
    {
        let ghost t = av.take(i + 1);
        assert(t.drop_last() =~= av.take(i as int));
        assert(t.last() == action_view(acts@[i as int]));
        let a = &acts[i];
        if let Some(st) = &a.source_type {
            if let Some((confidence, desc)) = is_ai_source_type(st) {
                let mut details: Vec<(String, String)> = Vec::new();
                details.push((String::from_str("action"), a.action.clone()));
                details.push((String::from_str("digitalSourceType"), String::from_str(desc)));
                let tool = match &a.software_agent {
                    Some(sw) => {
                        details.push((String::from_str("softwareAgent"), sw.clone()));
                        opt_tool_string(match_ai_tool(sw.as_str()))
                    },
                    None => None,
                };
                let mut description = String::from_str("digitalSourceType = ");
                description.append(desc);
                let sg = Signal { source: SignalSource::C2pa, confidence, description, tool, details };
                assert(sg@.details =~= action_signal(action_view(*a))->0.details);
                push_signal(signals, sg);
            }
        }
        assert(start + action_signals(av.take(i + 1)) =~= signals_view(signals@));
        i = i + 1;
    }
    assert(av.take(acts@.len() as int) =~= av);
}

/// Extracts the AI signals of a single C2PA manifest, appending them to `signals`.
pub fn check_manifest(manifest: &C2paManifest, signals: &mut Vec<Signal>)
    ensures
        signals_view(final(signals)@) == signals_view(old(signals)@) + manifest_signals(*manifest),
{
    let ghost start = signals_view(signals@);
    if let Some(cg) = &manifest.claim_generator {
        if let Some(tool_name) = match_ai_tool(cg.as_str()) {
            let mut details: Vec<(String, String)> = Vec::new();
            details.push((String::from_str("claim_generator"), cg.clone()));
            let mut description = String::from_str("claim_generator matches AI tool: ");
            description.append(cg.as_str());
            let sg = Signal {
                source: SignalSource::C2pa,
                confidence: Confidence::High,
                description,
                tool: Some(String::from_str(tool_name)),
                details,
            };
            assert(pairs_view(sg.details@) =~= seq![("claim_generator"@, cg@)]);
            push_signal(signals, sg);
        }
    }
    assert(signals_view(signals@) =~= start + claim_generator_signals(opt_str_view(manifest.claim_generator)));
    let ghost after_cg = signals_view(signals@);
    let ghost infos = infos_view(manifest.claim_generator_info);
    if let Some(info_list) = &manifest.claim_generator_info {
        let mut i: usize = 0;
        assert(after_cg + generator_info_signals(infos.take(0)) =~= after_cg);
        while i < info_list.len()
            invariant
                i <= info_list@.len(),
                infos == info_list@.map_values(|s: String| s@),
                signals_view(signals@) == after_cg + generator_info_signals(infos.take(i as int)),
            decreases info_list.len() - i,
        {
            let ghost t = infos.take(i + 1);
            assert(t.drop_last() =~= infos.take(i as int));
            assert(t.last() == info_list@[i as int]@);
            let info_json = &info_list[i];
            if let Some(tool_name) = match_ai_tool(info_json.as_str()) {
                let mut details: Vec<(String, String)> = Vec::new();
                details.push((String::from_str("claim_generator_info"), info_json.clone()));
                let sg = Signal {
                    source: SignalSource::C2pa,
                    confidence: Confidence::High,
                    description: String::from_str("claim_generator_info references AI tool"),
                    tool: Some(String::from_str(tool_name)),
                    details,
                };
                assert(pairs_view(sg.details@) =~= seq![("claim_generator_info"@, info_json@)]);
                push_signal(signals, sg);
            }
            assert(after_cg + generator_info_signals(infos.take(i + 1)) =~= signals_view(signals@));
            i = i + 1;
        }
        assert(infos.take(info_list@.len() as int) =~= infos);
    } else {
        assert(after_cg + generator_info_signals(infos) =~= after_cg);
    }
    let ghost after_info = signals_view(signals@);
    match &manifest.actions {
        Some(acts) => action_signals_exec(acts, signals),
        None => match &manifest.actions_v2 {
            Some(acts) => action_signals_exec(acts, signals),
            None => {
                assert(after_info + action_signals(Seq::empty()) =~= after_info);
            },
        },
    }
    assert(signals_view(signals@) =~= start + manifest_signals(*manifest));
}

pub open spec fn manifests_signals(ms: Seq<C2paManifest>) -> Seq<SignalView>
    decreases ms.len(),
{
    if ms.len() == 0 {
        Seq::empty()
    } else {
        manifests_signals(ms.drop_last()) + manifest_signals(ms.last())
    }
}

/// The detector's outcome for what reading the manifests gave: all manifests'
/// signals in order; nothing when the file holds no manifest or cannot carry
/// one; the error otherwise.
pub open spec fn spec_detect(read: Result<Vec<C2paManifest>, C2paReadError>) -> Result<Seq<SignalView>, Seq<char>> {
    match read {
        Ok(ms) => Ok(manifests_signals(ms@)),
        Err(C2paReadError::JumbfNotFound) => Ok(Seq::empty()),
        Err(C2paReadError::UnsupportedType) => Ok(Seq::empty()),
        Err(C2paReadError::Other(e)) => Err(e@),
    }
}

pub open spec fn result_view(r: Result<Vec<Signal>, String>) -> Result<Seq<SignalView>, Seq<char>> {
    match r {
        Ok(v) => Ok(signals_view(v@)),
        Err(e) => Err(e@),
    }
}

/// Detects AI signals from the C2PA manifests read from a file (all of them:
/// the active manifest may not hold the AI generation action).
pub fn detect(read: Result<Vec<C2paManifest>, C2paReadError>) -> (r: Result<Vec<Signal>, String>)
    ensures
        result_view(r) == spec_detect(read),
{
    let manifests = match read {
        Ok(ms) => ms,
        Err(C2paReadError::Other(e)) => return Err(e),
        Err(_) => {
            let v: Vec<Signal> = Vec::new();
            assert(signals_view(v@) =~= Seq::<SignalView>::empty());
            return Ok(v);
        },
    };
    let mut signals: Vec<Signal> = Vec::new();
    let mut i: usize = 0;
    assert(signals_view(signals@) =~= manifests_signals(manifests@.take(0)));
    while i < manifests.len()
        invariant
            i <= manifests@.len(),
            signals_view(signals@) == manifests_signals(manifests@.take(i as int)),
        decreases manifests.len() - i,
    {
        let ghost t = manifests@.take(i + 1);
        assert(t.drop_last() =~= manifests@.take(i as int));
        check_manifest(&manifests[i], &mut signals);
        i = i + 1;
    }
    assert(manifests@.take(manifests@.len() as int) =~= manifests@);
    Ok(signals)
}


// ---------------------------------------------------------------------------
// Reading the manifests of a file
// ---------------------------------------------------------------------------

#[verifier::external_type_specification]
#[verifier::external_body]
pub struct ExReader(c2pa::Reader);

#[verifier::external_type_specification]
#[verifier::external_body]
pub struct ExManifest(c2pa::Manifest);

#[verifier::external_type_specification]
#[verifier::external_body]
pub struct ExError(c2pa::Error);

#[verifier::external_type_specification]
#[verifier::external_body]
pub struct ExAction(c2pa::assertions::Action);

/// Calls `c2pa::format_from_path`: the MIME type of a path's extension (the
/// lowercased extension itself when the crate knows no MIME type for it),
/// `None` when the path has no extension. Claimed: a path without any `.` has
/// no extension, so it gives `None`. Which format any other path gives is left
/// unsaid: it rests on the platform's reading of the path.
#[verifier::external_body]
fn format_from_path(path: &str) -> (r: Option<String>)
    ensures
        has_no_dot(path@) ==> r is None,
{
    c2pa::format_from_path(path)
}

/// Calls `c2pa::Reader::from_stream` on the contents of a file in the given
/// format, with the thread's settings. Nothing is stated of the outcome: the
/// validation it performs depends on the settings, the trust lists and the time.
#[verifier::external_body]
#[allow(deprecated)]
fn reader_from_stream(format: &str, bytes: &[u8]) -> (r: Result<c2pa::Reader, c2pa::Error>) {
    c2pa::Reader::from_stream(format, std::io::Cursor::new(bytes))
}

/// Calls `c2pa::Reader::from_manifest_data_and_stream`: the manifest store
/// `data` validated against the contents of a file in the given format.
/// Nothing is stated of the outcome, for the reasons given at
/// [`reader_from_stream`].
#[verifier::external_body]
#[allow(deprecated)]
fn reader_from_manifest_data(data: &[u8], format: &str, bytes: &[u8]) -> (r: Result<c2pa::Reader, c2pa::Error>) {
    c2pa::Reader::from_manifest_data_and_stream(data, format, std::io::Cursor::new(bytes))
}

/// Tells the variants of a `c2pa::Error` apart: `JumbfNotFound` and
/// `UnsupportedType` map to the variants of the same name, any other error to
/// `Other` with its `Display` text.
#[verifier::external_body]
fn read_error(e: c2pa::Error) -> (r: C2paReadError) {
    match e {
        c2pa::Error::JumbfNotFound => C2paReadError::JumbfNotFound,
        c2pa::Error::UnsupportedType => C2paReadError::UnsupportedType,
        other => C2paReadError::Other(other.to_string()),
    }
}

/// Calls `c2pa::Reader::manifests` and lists its manifests. The order is that
/// of a walk of a `HashMap`, and is left unsaid.
#[verifier::external_body]
fn reader_manifests(reader: &c2pa::Reader) -> (r: Vec<&c2pa::Manifest>) {
    reader.manifests().values().collect()
}

/// Calls `c2pa::Manifest::claim_generator` and copies the text.
#[verifier::external_body]
fn claim_generator_of(m: &c2pa::Manifest) -> (r: Option<String>) {
    match m.claim_generator() {
        Some(g) => Some(g.to_string()),
        None => None,
    }
}

/// Reads `c2pa::Manifest::claim_generator_info` and serializes each entry with
/// `serde_json::to_string` (an entry that fails to serialize gives the empty text).
#[verifier::external_body]
fn claim_generator_infos_of(m: &c2pa::Manifest) -> (r: Option<Vec<String>>) {
    let infos = m.claim_generator_info.as_ref()?;
    let mut out = Vec::new();
    for info in infos {
        out.push(serde_json::to_string(info).unwrap_or_default());
    }
    Some(out)
}

/// Calls `c2pa::Manifest::find_assertion` with an actions assertion type: the
/// first assertion whose label starts with `label`, read as actions; takes its
/// actions, `None` when the manifest has no such assertion or it does not parse.
#[verifier::external_body]
fn find_actions(m: &c2pa::Manifest, label: &str) -> (r: Option<Vec<c2pa::assertions::Action>>) {
    match m.find_assertion::<c2pa::assertions::Actions>(label) {
        Ok(actions) => Some(actions.actions),
        Err(_) => None,
    }
}

/// Calls `c2pa::assertions::Action::action` and copies the label.
#[verifier::external_body]
fn action_label(a: &c2pa::assertions::Action) -> (r: String) {
    a.action().to_string()
}

/// Calls `c2pa::assertions::Action::source_type` and tells the AI-related
/// digital source types apart; every other type is `Other`.
#[verifier::external_body]
fn action_source_type(a: &c2pa::assertions::Action) -> (r: Option<DigitalSourceType>) {
    Some(match a.source_type()? {
        c2pa::DigitalSourceType::TrainedAlgorithmicMedia => DigitalSourceType::TrainedAlgorithmicMedia,
        c2pa::DigitalSourceType::CompositeWithTrainedAlgorithmicMedia => DigitalSourceType::CompositeWithTrainedAlgorithmicMedia,
        c2pa::DigitalSourceType::CompositeSynthetic => DigitalSourceType::CompositeSynthetic,
        c2pa::DigitalSourceType::AlgorithmicMedia => DigitalSourceType::AlgorithmicMedia,
        c2pa::DigitalSourceType::DataDrivenMedia => DigitalSourceType::DataDrivenMedia,
        c2pa::DigitalSourceType::TrainedAlgorithmicData => DigitalSourceType::TrainedAlgorithmicData,
        _ => DigitalSourceType::Other,
    })
}

/// Calls `c2pa::assertions::Action::software_agent` and serializes the agent
/// with `serde_json::to_string` (the empty text when that fails).
#[verifier::external_body]
fn action_software_agent(a: &c2pa::assertions::Action) -> (r: Option<String>) {
    match a.software_agent() {
        Some(sw) => Some(serde_json::to_string(sw).unwrap_or_default()),
        None => None,
    }
}

/// The actions of the actions assertion found under `label`.
fn actions_model(m: &c2pa::Manifest, label: &str) -> (r: Option<Vec<C2paAction>>) {
    let list = match find_actions(m, label) {
        Some(list) => list,
        None => return None,
    };
    let mut out: Vec<C2paAction> = Vec::new();
    let mut i: usize = 0;
    while i < list.len()
        invariant
            i <= list@.len(),
        decreases list.len() - i,
    {
        let a = &list[i];
        out.push(C2paAction { action: action_label(a), source_type: action_source_type(a), software_agent: action_software_agent(a) });
        i = i + 1;
    }
    Some(out)
}

/// What the detector reads of one manifest.
fn manifest_model(m: &c2pa::Manifest) -> (r: C2paManifest) {
    C2paManifest {
        claim_generator: claim_generator_of(m),
        claim_generator_info: claim_generator_infos_of(m),
        actions: actions_model(m, "c2pa.actions"),
        actions_v2: actions_model(m, "c2pa.actions.v2"),
    }
}

/// The text holds no `.`.
pub open spec fn has_no_dot(s: Seq<char>) -> bool {
    forall|i: int| 0 <= i < s.len() ==> s[i] != '.'
}

/// The manifests of a reader, each as the detector reads it.
fn manifests_of_reader(reader: &c2pa::Reader) -> (r: Vec<C2paManifest>) {
    let ms = reader_manifests(reader);
    let mut out: Vec<C2paManifest> = Vec::new();
    let mut i: usize = 0;
    while i < ms.len()
        invariant
            i <= ms@.len(),
        decreases ms.len() - i,
    {
        out.push(manifest_model(ms[i]));
        i = i + 1;
    }
    out
}

/// Reads the manifest store embedded in a file's contents in the given format.
fn read_embedded(format: &str, bytes: &[u8]) -> (r: Result<Vec<C2paManifest>, C2paReadError>) {
    match reader_from_stream(format, bytes) {
        Ok(reader) => Ok(manifests_of_reader(&reader)),
        Err(e) => Err(read_error(e)),
    }
}

/// Reads a manifest store kept beside a file, validated against the file's
/// contents in the given format.
fn read_sidecar(data: &[u8], format: &str, bytes: &[u8]) -> (r: Result<Vec<C2paManifest>, C2paReadError>) {
    match reader_from_manifest_data(data, format, bytes) {
        Ok(reader) => Ok(manifests_of_reader(&reader)),
        Err(e) => Err(read_error(e)),
    }
}

/// The outcome of reading a file's manifests, from the outcome of reading the
/// store embedded in its contents (`embedded`), whether a store kept beside
/// the file was given, and the outcome of reading that store (`beside`): the
/// store beside the file is used exactly when the contents embed none.
pub open spec fn settled_read(
    embedded: Result<Vec<C2paManifest>, C2paReadError>,
    has_sidecar: bool,
    beside: Result<Vec<C2paManifest>, C2paReadError>,
) -> Result<Vec<C2paManifest>, C2paReadError> {
    if embedded matches Err(C2paReadError::JumbfNotFound) && has_sidecar {
        beside
    } else {
        embedded
    }
}

/// What follows a read of the embedded store: `None` when the store kept
/// beside the file is to be read next (the contents embed no store and one
/// was given), otherwise the final outcome, which is the embedded read's.
pub fn after_embedded_read(
    embedded: Result<Vec<C2paManifest>, C2paReadError>,
    has_sidecar: bool,
) -> (r: Option<Result<Vec<C2paManifest>, C2paReadError>>)
    ensures
        r is None <==> (embedded matches Err(C2paReadError::JumbfNotFound) && has_sidecar),
        r matches Some(x) ==> x == embedded,
{
    match &embedded {
        Err(C2paReadError::JumbfNotFound) => {
            if has_sidecar {
                return None;
            }
        },
        _ => {},
    }
    Some(embedded)
}

/// Reads the C2PA manifests of a file's contents in the given format (a MIME
/// type or an extension). When the contents embed no manifest store and a
/// store kept beside the file (`sidecar`) is given, the manifests are read
/// from that store, validated against the contents.
///
/// The outcome is [`settled_read`] of the two reads. What each read gives,
/// and in which order the manifests come, rests on the reader's validation
/// (settings, trust lists, time) and on a walk of a hash map, and is not
/// promised; [`detect`] takes the outcome as it is.
pub fn read_c2pa_manifests(format: &str, bytes: &[u8], sidecar: Option<&[u8]>) -> (r: Result<Vec<C2paManifest>, C2paReadError>)
    ensures
        exists|embedded: Result<Vec<C2paManifest>, C2paReadError>, beside: Result<Vec<C2paManifest>, C2paReadError>|
            #[trigger] settled_read(embedded, sidecar is Some, beside) == r,
{
    let embedded = read_embedded(format, bytes);
    let ghost e = embedded;
    match after_embedded_read(embedded, sidecar.is_some()) {
        Some(r) => {
            assert(settled_read(e, sidecar is Some, e) == r);
            r
        },
        None => match sidecar {
            Some(data) => {
                let r = read_sidecar(data, format, bytes);
                assert(settled_read(e, sidecar is Some, r) == r);
                r
            },
            None => {
                assert(false);
                Err(C2paReadError::JumbfNotFound)
            },
        },
    }
}

/// Reads the C2PA manifests of a file from its path and contents: the format
/// is taken from the path's extension, and a path without one cannot carry a
/// manifest (`UnsupportedType`); in particular a path without any `.`.
pub fn read_file_manifests(path: &str, bytes: &[u8], sidecar: Option<&[u8]>) -> (r: Result<Vec<C2paManifest>, C2paReadError>)
    ensures
        has_no_dot(path@) ==> r matches Err(C2paReadError::UnsupportedType),
{
    match format_from_path(path) {
        Some(format) => read_c2pa_manifests(format.as_str(), bytes, sidecar),
        None => Err(C2paReadError::UnsupportedType),
    }
}
/// The digital source type of an action decides its signal: the types of
/// fully or partly AI-trained media (trainedAlgorithmicMedia,
/// compositeWithTrainedAlgorithmicMedia, compositeSynthetic) give a HIGH C2PA
/// signal, the algorithmic and data-driven types (algorithmicMedia,
/// dataDrivenMedia, trainedAlgorithmicData) a MEDIUM one, each described by the
/// type's name; any other type, or none, gives no signal.
pub proof fn lemma_source_types_rated(a: C2paActionView)
    ensures
        a.source_type == Some(DigitalSourceType::TrainedAlgorithmicMedia) ==> {
            &&& action_signal(a) is Some
            &&& action_signal(a)->0.source == SignalSource::C2pa
            &&& action_signal(a)->0.confidence == Confidence::High
            &&& action_signal(a)->0.description == "digitalSourceType = trainedAlgorithmicMedia (fully AI-generated)"@
        },
        a.source_type == Some(DigitalSourceType::CompositeWithTrainedAlgorithmicMedia) ==> {
            &&& action_signal(a) is Some
            &&& action_signal(a)->0.source == SignalSource::C2pa
            &&& action_signal(a)->0.confidence == Confidence::High
            &&& action_signal(a)->0.description == "digitalSourceType = compositeWithTrainedAlgorithmicMedia (AI-edited)"@
        },
        a.source_type == Some(DigitalSourceType::CompositeSynthetic) ==> {
            &&& action_signal(a) is Some
            &&& action_signal(a)->0.source == SignalSource::C2pa
            &&& action_signal(a)->0.confidence == Confidence::High
            &&& action_signal(a)->0.description == "digitalSourceType = compositeSynthetic (includes AI elements)"@
        },
        a.source_type == Some(DigitalSourceType::AlgorithmicMedia) ==> {
            &&& action_signal(a) is Some
            &&& action_signal(a)->0.source == SignalSource::C2pa
            &&& action_signal(a)->0.confidence == Confidence::Medium
            &&& action_signal(a)->0.description == "digitalSourceType = algorithmicMedia (algorithmic, not necessarily AI-trained)"@
        },
        a.source_type == Some(DigitalSourceType::DataDrivenMedia) ==> {
            &&& action_signal(a) is Some
            &&& action_signal(a)->0.source == SignalSource::C2pa
            &&& action_signal(a)->0.confidence == Confidence::Medium
            &&& action_signal(a)->0.description == "digitalSourceType = dataDrivenMedia (data-driven generation)"@
        },
        a.source_type == Some(DigitalSourceType::TrainedAlgorithmicData) ==> {
            &&& action_signal(a) is Some
            &&& action_signal(a)->0.source == SignalSource::C2pa
            &&& action_signal(a)->0.confidence == Confidence::Medium
            &&& action_signal(a)->0.description == "digitalSourceType = trainedAlgorithmicData (AI-generated data)"@
        },
        a.source_type == Some(DigitalSourceType::Other) ==> action_signal(a) is None,
        a.source_type is None ==> action_signal(a) is None,
{
    reveal_strlit("digitalSourceType = ");
    reveal_strlit("trainedAlgorithmicMedia (fully AI-generated)");
    reveal_strlit("digitalSourceType = trainedAlgorithmicMedia (fully AI-generated)");
    assert("digitalSourceType = "@ + "trainedAlgorithmicMedia (fully AI-generated)"@ =~= "digitalSourceType = trainedAlgorithmicMedia (fully AI-generated)"@);
    reveal_strlit("compositeWithTrainedAlgorithmicMedia (AI-edited)");
    reveal_strlit("digitalSourceType = compositeWithTrainedAlgorithmicMedia (AI-edited)");
    assert("digitalSourceType = "@ + "compositeWithTrainedAlgorithmicMedia (AI-edited)"@ =~= "digitalSourceType = compositeWithTrainedAlgorithmicMedia (AI-edited)"@);
    reveal_strlit("compositeSynthetic (includes AI elements)");
    reveal_strlit("digitalSourceType = compositeSynthetic (includes AI elements)");
    assert("digitalSourceType = "@ + "compositeSynthetic (includes AI elements)"@ =~= "digitalSourceType = compositeSynthetic (includes AI elements)"@);
    reveal_strlit("algorithmicMedia (algorithmic, not necessarily AI-trained)");
    reveal_strlit("digitalSourceType = algorithmicMedia (algorithmic, not necessarily AI-trained)");
    assert("digitalSourceType = "@ + "algorithmicMedia (algorithmic, not necessarily AI-trained)"@ =~= "digitalSourceType = algorithmicMedia (algorithmic, not necessarily AI-trained)"@);
    reveal_strlit("dataDrivenMedia (data-driven generation)");
    reveal_strlit("digitalSourceType = dataDrivenMedia (data-driven generation)");
    assert("digitalSourceType = "@ + "dataDrivenMedia (data-driven generation)"@ =~= "digitalSourceType = dataDrivenMedia (data-driven generation)"@);
    reveal_strlit("trainedAlgorithmicData (AI-generated data)");
    reveal_strlit("digitalSourceType = trainedAlgorithmicData (AI-generated data)");
    assert("digitalSourceType = "@ + "trainedAlgorithmicData (AI-generated data)"@ =~= "digitalSourceType = trainedAlgorithmicData (AI-generated data)"@);
}

proof fn lemma_action_signals_contain(acts: Seq<C2paActionView>, i: int)
    requires
        0 <= i < acts.len(),
    ensures
        action_signal(acts[i]) is Some ==> exists|j: int|
            0 <= j < action_signals(acts).len() && #[trigger] action_signals(acts)[j] == action_signal(acts[i])->0,
    decreases acts.len(),
{
    let r = action_signals(acts.drop_last());
    if i < acts.len() - 1 {
        lemma_action_signals_contain(acts.drop_last(), i);
        assert(acts.drop_last()[i] == acts[i]);
        if action_signal(acts[i]) is Some {
            let j = choose|j: int| 0 <= j < r.len() && r[j] == action_signal(acts[i])->0;
            assert(action_signals(acts)[j] == r[j]);
        }
    } else if action_signal(acts[i]) is Some {
        assert(action_signals(acts) == r.push(action_signal(acts[i])->0));
        assert(action_signals(acts)[r.len() as int] == action_signal(acts[i])->0);
    }
}

proof fn lemma_manifests_signals_contain(ms: Seq<C2paManifest>, k: int, sg: SignalView)
    requires
        0 <= k < ms.len(),
        exists|j: int| 0 <= j < manifest_signals(ms[k]).len() && manifest_signals(ms[k])[j] == sg,
    ensures
        exists|j: int| 0 <= j < manifests_signals(ms).len() && #[trigger] manifests_signals(ms)[j] == sg,
    decreases ms.len(),
{
    let p = manifests_signals(ms.drop_last());
    if k < ms.len() - 1 {
        assert(ms.drop_last()[k] == ms[k]);
        lemma_manifests_signals_contain(ms.drop_last(), k, sg);
        let j = choose|j: int| 0 <= j < p.len() && p[j] == sg;
        assert(manifests_signals(ms)[j] == p[j]);
    } else {
        let m = manifest_signals(ms.last());
        let j = choose|j: int| 0 <= j < m.len() && m[j] == sg;
        assert(manifests_signals(ms)[p.len() + j] == m[j]);
    }
}

/// Every action the detector examines in any manifest gives its signal in the
/// detector's output: the actions of the manifest's `c2pa.actions` assertion,
/// or, when it has none, those of its `c2pa.actions.v2` assertion.
pub proof fn lemma_action_signal_reported(ms: Seq<C2paManifest>, k: int, i: int)
    requires
        0 <= k < ms.len(),
    ensures
        ms[k].actions is Some && 0 <= i < ms[k].actions->0@.len()
            && action_signal(action_view(ms[k].actions->0@[i])) is Some ==> exists|j: int|
            0 <= j < manifests_signals(ms).len()
                && #[trigger] manifests_signals(ms)[j] == action_signal(action_view(ms[k].actions->0@[i]))->0,
        ms[k].actions is None && ms[k].actions_v2 is Some && 0 <= i < ms[k].actions_v2->0@.len()
            && action_signal(action_view(ms[k].actions_v2->0@[i])) is Some ==> exists|j: int|
            0 <= j < manifests_signals(ms).len()
                && #[trigger] manifests_signals(ms)[j] == action_signal(action_view(ms[k].actions_v2->0@[i]))->0,
{
    let m = ms[k];
    let ex = examined_actions(m);
    if 0 <= i < ex.len() && action_signal(ex[i]) is Some {
        lemma_action_signals_contain(ex, i);
        let a = claim_generator_signals(opt_str_view(m.claim_generator));
        let b = generator_info_signals(infos_view(m.claim_generator_info));
        let c = action_signals(ex);
        let j = choose|j: int| 0 <= j < c.len() && c[j] == action_signal(ex[i])->0;
        assert(manifest_signals(m)[a.len() + b.len() + j] == c[j]);
        lemma_manifests_signals_contain(ms, k, action_signal(ex[i])->0);
    }
}

proof fn lemma_generator_info_signals_contain(infos: Seq<Seq<char>>, i: int)
    requires
        0 <= i < infos.len(),
        ai_tool_of(infos[i]) is Some,
    ensures
        exists|j: int| 0 <= j < generator_info_signals(infos).len() && #[trigger] generator_info_signals(infos)[j] == (SignalView {
            source: SignalSource::C2pa,
            confidence: Confidence::High,
            description: "claim_generator_info references AI tool"@,
            tool: ai_tool_of(infos[i]),
            details: seq![("claim_generator_info"@, infos[i])],
        }),
    decreases infos.len(),
{
    let r = generator_info_signals(infos.drop_last());
    if i < infos.len() - 1 {
        assert(infos.drop_last()[i] == infos[i]);
        lemma_generator_info_signals_contain(infos.drop_last(), i);
        let j = choose|j: int| 0 <= j < r.len() && r[j] == (SignalView {
            source: SignalSource::C2pa,
            confidence: Confidence::High,
            description: "claim_generator_info references AI tool"@,
            tool: ai_tool_of(infos[i]),
            details: seq![("claim_generator_info"@, infos[i])],
        });
        assert(generator_info_signals(infos)[j] == r[j]);
    } else {
        assert(generator_info_signals(infos)[r.len() as int].tool == ai_tool_of(infos[i]));
    }
}

/// A manifest's claim generator that names a known AI tool, and each of its
/// claim generator info entries that does, give a HIGH C2PA signal naming the
/// tool in the detector's output.
pub proof fn lemma_generators_reported(ms: Seq<C2paManifest>, k: int, i: int)
    requires
        0 <= k < ms.len(),
    ensures
        ms[k].claim_generator is Some && ai_tool_of(ms[k].claim_generator->0@) is Some ==> exists|j: int|
            0 <= j < manifests_signals(ms).len() && #[trigger] manifests_signals(ms)[j] == (SignalView {
                source: SignalSource::C2pa,
                confidence: Confidence::High,
                description: "claim_generator matches AI tool: "@ + ms[k].claim_generator->0@,
                tool: ai_tool_of(ms[k].claim_generator->0@),
                details: seq![("claim_generator"@, ms[k].claim_generator->0@)],
            }),
        ms[k].claim_generator_info is Some && 0 <= i < ms[k].claim_generator_info->0@.len()
            && ai_tool_of(ms[k].claim_generator_info->0@[i]@) is Some ==> exists|j: int|
            0 <= j < manifests_signals(ms).len() && #[trigger] manifests_signals(ms)[j] == (SignalView {
                source: SignalSource::C2pa,
                confidence: Confidence::High,
                description: "claim_generator_info references AI tool"@,
                tool: ai_tool_of(ms[k].claim_generator_info->0@[i]@),
                details: seq![("claim_generator_info"@, ms[k].claim_generator_info->0@[i]@)],
            }),
{
    let m = ms[k];
    let a = claim_generator_signals(opt_str_view(m.claim_generator));
    let b = generator_info_signals(infos_view(m.claim_generator_info));
    if m.claim_generator is Some && ai_tool_of(m.claim_generator->0@) is Some {
        assert(manifest_signals(m)[0] == a[0]);
        lemma_manifests_signals_contain(ms, k, a[0]);
    }
    if m.claim_generator_info is Some && 0 <= i < m.claim_generator_info->0@.len()
        && ai_tool_of(m.claim_generator_info->0@[i]@) is Some {
        let infos = infos_view(m.claim_generator_info);
        assert(infos[i] == m.claim_generator_info->0@[i]@);
        lemma_generator_info_signals_contain(infos, i);
        let sg = SignalView {
            source: SignalSource::C2pa,
            confidence: Confidence::High,
            description: "claim_generator_info references AI tool"@,
            tool: ai_tool_of(infos[i]),
            details: seq![("claim_generator_info"@, infos[i])],
        };
        let j = choose|j: int| 0 <= j < b.len() && b[j] == sg;
        assert(manifest_signals(m)[a.len() + j] == b[j]);
        lemma_manifests_signals_contain(ms, k, sg);
    }
}


proof fn lemma_infos_high(infos: Seq<Seq<char>>)
    ensures
        forall|i: int| 0 <= i < generator_info_signals(infos).len() ==> {
            &&& (#[trigger] generator_info_signals(infos)[i]).source == SignalSource::C2pa
            &&& generator_info_signals(infos)[i].confidence.rank() >= 2
        },
    decreases infos.len(),
{
    if infos.len() > 0 {
        lemma_infos_high(infos.drop_last());
        let p = generator_info_signals(infos.drop_last());
        assert forall|i: int| 0 <= i < generator_info_signals(infos).len() implies {
            &&& (#[trigger] generator_info_signals(infos)[i]).source == SignalSource::C2pa
            &&& generator_info_signals(infos)[i].confidence.rank() >= 2
        } by {
            if i < p.len() {
                assert(generator_info_signals(infos)[i] == p[i]);
            }
        }
    }
}

proof fn lemma_actions_high(acts: Seq<C2paActionView>)
    ensures
        forall|i: int| 0 <= i < action_signals(acts).len() ==> {
            &&& (#[trigger] action_signals(acts)[i]).source == SignalSource::C2pa
            &&& action_signals(acts)[i].confidence.rank() >= 2
        },
    decreases acts.len(),
{
    if acts.len() > 0 {
        lemma_actions_high(acts.drop_last());
        let p = action_signals(acts.drop_last());
        assert forall|i: int| 0 <= i < action_signals(acts).len() implies {
            &&& (#[trigger] action_signals(acts)[i]).source == SignalSource::C2pa
            &&& action_signals(acts)[i].confidence.rank() >= 2
        } by {
            if i < p.len() {
                assert(action_signals(acts)[i] == p[i]);
            }
        }
    }
}

/// C2PA signals come from the C2PA source with at least medium confidence
/// (high for claim generators, generator infos, and fully or partly AI-trained
/// source types).
pub proof fn lemma_c2pa_signals_at_least_medium(ms: Seq<C2paManifest>)
    ensures
        forall|i: int| 0 <= i < manifests_signals(ms).len() ==> {
            &&& (#[trigger] manifests_signals(ms)[i]).source == SignalSource::C2pa
            &&& manifests_signals(ms)[i].confidence.rank() >= 2
        },
    decreases ms.len(),
{
    if ms.len() > 0 {
        lemma_c2pa_signals_at_least_medium(ms.drop_last());
        let p = manifests_signals(ms.drop_last());
        let m = ms.last();
        let a = claim_generator_signals(opt_str_view(m.claim_generator));
        let b = generator_info_signals(infos_view(m.claim_generator_info));
        let c = action_signals(examined_actions(m));
        lemma_infos_high(infos_view(m.claim_generator_info));
        lemma_actions_high(examined_actions(m));
        let s = manifests_signals(ms);
        assert(s == p + (a + b + c));
        assert forall|i: int| 0 <= i < s.len() implies {
            &&& (#[trigger] s[i]).source == SignalSource::C2pa
            &&& s[i].confidence.rank() >= 2
        } by {
            if i < p.len() {
                assert(s[i] == p[i]);
            } else if i < p.len() + a.len() {
                assert(s[i] == a[i - p.len()]);
            } else if i < p.len() + a.len() + b.len() {
                assert(s[i] == b[i - p.len() - a.len()]);
            } else {
                assert(s[i] == c[i - p.len() - a.len() - b.len()]);
            }
        }
    }
}

} // verus!
