//! Pipeline topology plans.
//!
//! The player never touches the media engine itself; it decides *what* to
//! build and hands the unverified shell a plan: which elements to create
//! (by factory name), which properties to set on them, and how they are
//! linked. The contracts below pin every element, property and link of the
//! three topologies the player knows, so the shell has nothing left to
//! decide.

use vstd::prelude::*;

verus! {

// ----------------------------------------------------------------------
// Decimal rendering
//
// The desktop-capture source takes its stream node as a decimal string
// property, so the plan needs the decimal rendering of an integer.
// ----------------------------------------------------------------------

/// The character for one decimal digit.
pub open spec fn spec_digit_char(d: nat) -> char {
    if d == 0 {
        '0'
    } else if d == 1 {
        '1'
    } else if d == 2 {
        '2'
    } else if d == 3 {
        '3'
    } else if d == 4 {
        '4'
    } else if d == 5 {
        '5'
    } else if d == 6 {
        '6'
    } else if d == 7 {
        '7'
    } else if d == 8 {
        '8'
    } else {
        '9'
    }
}

/// The decimal rendering of `n`, most significant digit first, with no
/// leading zero except for `n == 0` itself.
pub open spec fn spec_decimal(n: nat) -> Seq<char>
    decreases n,
{
    if n < 10 {
        seq![spec_digit_char(n)]
    } else {
        spec_decimal(n / 10).push(spec_digit_char(n % 10))
    }
}

/// The one-character string for a decimal digit.
fn digit_str(d: u32) -> (r: &'static str)
    requires
        d < 10,
    ensures
        r@ == seq![spec_digit_char(d as nat)],
{
    proof {
        reveal_strlit("0");
        reveal_strlit("1");
        reveal_strlit("2");
        reveal_strlit("3");
        reveal_strlit("4");
        reveal_strlit("5");
        reveal_strlit("6");
        reveal_strlit("7");
        reveal_strlit("8");
        reveal_strlit("9");
    }
    let r = match d {
        0 => "0",
        1 => "1",
        2 => "2",
        3 => "3",
        4 => "4",
        5 => "5",
        6 => "6",
        7 => "7",
        8 => "8",
        _ => "9",
    };
    proof {
        assert(r@ =~= seq![spec_digit_char(d as nat)]);
    }
    r
}

/// Render `n` in decimal.
pub fn u32_decimal(n: u32) -> (r: String)
    ensures
        r@ == spec_decimal(n as nat),
    decreases n,
{
    if n < 10 {
        String::from_str(digit_str(n))
    } else {
        let mut s = u32_decimal(n / 10);
        s.append(digit_str(n % 10));
        proof {
            assert(s@ =~= spec_decimal((n / 10) as nat).push(spec_digit_char((n % 10) as nat)));
        }
        s
    }
}

// ----------------------------------------------------------------------
// Plan data model
// ----------------------------------------------------------------------

/// A property value the shell sets on an engine element.
#[derive(Debug, Clone)]
pub enum PropertyValue {
    /// A string-typed property.
    Text(String),
    /// A boolean-typed property.
    Flag(bool),
}

/// One named property of an engine element.
#[derive(Debug, Clone)]
pub struct Property {
    pub name: String,
    pub value: PropertyValue,
}

/// One engine element to create: by which factory, under which element
/// name (if any), with which properties set before use.
#[derive(Debug, Clone)]
pub struct ElementPlan {
    pub factory: String,
    pub name: Option<String>,
    pub properties: Vec<Property>,
}

/// The capabilities the frame sink negotiates: a raw-video pixel format
/// and a pixel aspect ratio.
#[derive(Debug, Clone)]
pub struct SinkCaps {
    pub format: String,
    pub par_num: i32,
    pub par_den: i32,
}

/// The frame-delivery chain every flavour shares. Its elements are linked
/// in order; the last one is the application sink that the shell registers
/// the frame callback on, negotiating `caps`.
#[derive(Debug, Clone)]
pub struct FrameSinkPlan {
    pub elements: Vec<ElementPlan>,
    pub caps: SinkCaps,
}

/// The topology for URL playback: the engine's prebuilt playback element
/// with the given URI, whose video output the shell routes into the frame
/// sink chain (wrapped in a bin whose input pad is ghosted from the
/// chain's first element).
#[derive(Debug, Clone)]
pub struct UrlPipelinePlan {
    pub playbin: ElementPlan,
    pub video_sink: FrameSinkPlan,
}

/// The optional local-recording branch of a capture pipeline. The source
/// feeds the tee; one tee pad feeds `video_queue` and then the frame sink
/// chain, the other feeds `file_queue` and then `chain` in order, ending
/// at the file sink.
#[derive(Debug, Clone)]
pub struct RecordBranchPlan {
    pub tee: ElementPlan,
    pub video_queue: ElementPlan,
    pub file_queue: ElementPlan,
    pub chain: Vec<ElementPlan>,
}

/// The topology for desktop capture: the capture source, the frame sink
/// chain it feeds (directly, or through the tee of the recording branch
/// when one is present).
#[derive(Debug, Clone)]
pub struct PipewirePipelinePlan {
    pub source: ElementPlan,
    pub video_sink: FrameSinkPlan,
    pub record: Option<RecordBranchPlan>,
}

// ----------------------------------------------------------------------
// What each part of a plan must hold
// ----------------------------------------------------------------------

/// An element of the given factory, unnamed, with no properties.
pub open spec fn spec_plain_element(e: ElementPlan, factory: Seq<char>) -> bool {
    &&& e.factory@ == factory
    &&& e.name is None
    &&& e.properties@.len() == 0
}

/// An element of the given factory under the given element name, with no
/// properties.
pub open spec fn spec_named_element(e: ElementPlan, factory: Seq<char>, name: Seq<char>) -> bool {
    &&& e.factory@ == factory
    &&& e.name matches Some(n) && n@ == name
    &&& e.properties@.len() == 0
}

/// The shared frame-delivery chain: a colour converter and a scaler
/// feeding the application sink, which is named and negotiates tightly
/// packed RGBA with square pixels.
pub open spec fn spec_frame_sink(p: FrameSinkPlan) -> bool {
    &&& p.elements@.len() == 3
    &&& spec_plain_element(p.elements@[0], "videoconvert"@)
    &&& spec_plain_element(p.elements@[1], "videoscale"@)
    &&& spec_named_element(p.elements@[2], "appsink"@, "app_sink"@)
    &&& p.caps.format@ == "RGBA"@
    &&& p.caps.par_num == 1
    &&& p.caps.par_den == 1
}

/// The URL-playback topology, for the given URI.
pub open spec fn spec_url_plan(p: UrlPipelinePlan, uri: Seq<char>) -> bool {
    &&& p.playbin.factory@ == "playbin"@
    &&& p.playbin.name is None
    &&& p.playbin.properties@.len() == 1
    &&& p.playbin.properties@[0].name@ == "uri"@
    &&& p.playbin.properties@[0].value matches PropertyValue::Text(u) && u@ == uri
    &&& spec_frame_sink(p.video_sink)
}

/// The desktop-capture source element for the given stream node: it takes
/// the node in decimal, timestamps its buffers, and resends the last one
/// to late subscribers.
pub open spec fn spec_pipewire_source(e: ElementPlan, path: u32) -> bool {
    &&& e.factory@ == "pipewiresrc"@
    &&& e.name is None
    &&& e.properties@.len() == 3
    &&& e.properties@[0].name@ == "path"@
    &&& e.properties@[0].value matches PropertyValue::Text(s) && s@ == spec_decimal(path as nat)
    &&& e.properties@[1].name@ == "do-timestamp"@
    &&& e.properties@[1].value == PropertyValue::Flag(true)
    &&& e.properties@[2].name@ == "resend-last"@
    &&& e.properties@[2].value == PropertyValue::Flag(true)
}

/// The local-recording branch, writing to the given file path: a named
/// tee, the two queues decoupling its branches, and the encoding chain
/// ending at the file sink.
pub open spec fn spec_record_branch(b: RecordBranchPlan, save_path: Seq<char>) -> bool {
    &&& spec_named_element(b.tee, "tee"@, "iced_tee"@)
    &&& spec_named_element(b.video_queue, "queue"@, "video_queue"@)
    &&& spec_named_element(b.file_queue, "queue"@, "file_queue"@)
    &&& b.chain@.len() == 3
    &&& spec_plain_element(b.chain@[0], "wavescope"@)
    &&& spec_named_element(b.chain@[1], "videoconvert"@, "mp4mux"@)
    &&& b.chain@[2].factory@ == "filesink"@
    &&& b.chain@[2].name is None
    &&& b.chain@[2].properties@.len() == 1
    &&& b.chain@[2].properties@[0].name@ == "location"@
    &&& b.chain@[2].properties@[0].value matches PropertyValue::Text(s) && s@ == save_path
}

/// The plain capture topology: the source feeds the frame sink chain
/// directly; nothing is recorded.
pub open spec fn spec_pipewire_plan(p: PipewirePipelinePlan, path: u32) -> bool {
    &&& spec_pipewire_source(p.source, path)
    &&& spec_frame_sink(p.video_sink)
    &&& p.record is None
}

/// The capture-and-record topology, writing to the given file path.
pub open spec fn spec_pipewire_record_plan(
    p: PipewirePipelinePlan,
    path: u32,
    save_path: Seq<char>,
) -> bool {
    &&& spec_pipewire_source(p.source, path)
    &&& spec_frame_sink(p.video_sink)
    &&& p.record matches Some(b) && spec_record_branch(b, save_path)
}

// ----------------------------------------------------------------------
// Plan construction
// ----------------------------------------------------------------------

/// An unnamed element of the given factory with no properties.
fn plain_element(factory: &str) -> (r: ElementPlan)
    ensures
        spec_plain_element(r, factory@),
{
    ElementPlan { factory: String::from_str(factory), name: None, properties: Vec::new() }
}

/// A named element of the given factory with no properties.
fn named_element(factory: &str, name: &str) -> (r: ElementPlan)
    ensures
        spec_named_element(r, factory@, name@),
{
    ElementPlan {
        factory: String::from_str(factory),
        name: Some(String::from_str(name)),
        properties: Vec::new(),
    }
}

/// The frame sink chain every topology ends in.
pub fn frame_sink_plan() -> (r: FrameSinkPlan)
    ensures
        spec_frame_sink(r),
{
    let mut elements: Vec<ElementPlan> = Vec::new();
    elements.push(plain_element("videoconvert"));
    elements.push(plain_element("videoscale"));
    elements.push(named_element("appsink", "app_sink"));
    FrameSinkPlan {
        elements,
        caps: SinkCaps { format: String::from_str("RGBA"), par_num: 1, par_den: 1 },
    }
}

/// The URL-playback topology for the given URI.
pub fn url_pipeline_plan(uri: &str) -> (r: UrlPipelinePlan)
    ensures
        spec_url_plan(r, uri@),
{
    let mut properties: Vec<Property> = Vec::new();
    properties.push(
        Property {
            name: String::from_str("uri"),
            value: PropertyValue::Text(String::from_str(uri)),
        },
    );
    let playbin = ElementPlan { factory: String::from_str("playbin"), name: None, properties };
    UrlPipelinePlan { playbin, video_sink: frame_sink_plan() }
}

/// The desktop-capture source for the given stream node.
fn pipewire_source_plan(path: u32) -> (r: ElementPlan)
    ensures
        spec_pipewire_source(r, path),
{
    let mut properties: Vec<Property> = Vec::new();
    properties.push(
        Property { name: String::from_str("path"), value: PropertyValue::Text(u32_decimal(path)) },
    );
    properties.push(
        Property { name: String::from_str("do-timestamp"), value: PropertyValue::Flag(true) },
    );
    properties.push(
        Property { name: String::from_str("resend-last"), value: PropertyValue::Flag(true) },
    );
    ElementPlan { factory: String::from_str("pipewiresrc"), name: None, properties }
}

/// The plain capture topology for the given stream node.
pub fn pipewire_pipeline_plan(path: u32) -> (r: PipewirePipelinePlan)
    ensures
        spec_pipewire_plan(r, path),
{
    PipewirePipelinePlan {
        source: pipewire_source_plan(path),
        video_sink: frame_sink_plan(),
        record: None,
    }
}

/// The capture-and-record topology for the given stream node, writing to
/// the given file path.
pub fn pipewire_record_pipeline_plan(path: u32, save_path: &str) -> (r: PipewirePipelinePlan)
    ensures
        spec_pipewire_record_plan(r, path, save_path@),
{
    let mut chain: Vec<ElementPlan> = Vec::new();
    chain.push(plain_element("wavescope"));
    chain.push(named_element("videoconvert", "mp4mux"));
    let mut sink_properties: Vec<Property> = Vec::new();
    sink_properties.push(
        Property {
            name: String::from_str("location"),
            value: PropertyValue::Text(String::from_str(save_path)),
        },
    );
    chain.push(
        ElementPlan { factory: String::from_str("filesink"), name: None, properties: sink_properties },
    );
    let record = RecordBranchPlan {
        tee: named_element("tee", "iced_tee"),
        video_queue: named_element("queue", "video_queue"),
        file_queue: named_element("queue", "file_queue"),
        chain,
    };
    PipewirePipelinePlan {
        source: pipewire_source_plan(path),
        video_sink: frame_sink_plan(),
        record: Some(record),
    }
}

} // verus!
