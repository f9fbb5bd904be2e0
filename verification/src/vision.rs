//! Screenshots, and what the vision model sees in them.
use vstd::prelude::*;

use crate::effect::{process_at, process_reply, Reply};
use crate::error::{answer, refusal, Answer, GremlinError};
use crate::json::{
    json_slice_document, member_items, member_text, writable, parse_bytes, Json, JsonView,
};
use crate::picture::{base64_text, encode_standard};
use crate::process::{succeeded, Invocation, InvocationView, Outcome};
use crate::text::same;

verus! {

/// A request to the vision model.
#[derive(Debug)]
pub struct GenerateRequest {
    pub url: String,
    pub body: Json,
}

/// The content of a `GenerateRequest`.
pub struct GenerateView {
    pub url: Seq<char>,
    pub body: JsonView,
}

impl View for GenerateRequest {
    type V = GenerateView;

    open spec fn view(&self) -> GenerateView {
        GenerateView { url: self.url@, body: self.body@ }
    }
}

/// What came of a request to the vision model.
#[derive(Debug)]
pub enum Generation {
    /// There was no way to send it, for this reason.
    NoRuntime(String),
    /// What was to send it failed.
    Panicked,
    /// It could not be sent, for this reason.
    Unsent(String),
    /// The server refused it, with this status and these words.
    Refused { status: String, text: String },
    /// The answer could not be read, for this reason.
    Unreadable(String),
    /// The model answered.
    Response(String),
}

/// How a screenshot is taken under wlroots.
pub open spec fn grim_view() -> InvocationView {
    InvocationView { program: "grim"@, args: seq!["-t"@, "png"@, "-"@] }
}

/// How a screenshot is taken with ImageMagick.
pub open spec fn import_view() -> InvocationView {
    InvocationView { program: "import"@, args: seq!["-window"@, "root"@, "png:-"@] }
}

/// What is said where no screenshot can be taken.
pub const NO_SCREENSHOT: &'static str =
    "No screenshot tool available. Install grim (wlroots) or ImageMagick.";

/// What taking a screenshot comes to.
#[derive(Debug)]
pub enum Capture {
    /// This has to be run first.
    Run(Invocation),
    /// The picture, and how many answers it took.
    Taken { image: Vec<u8>, used: usize },
    /// There is nothing to take it with.
    NoTool,
}

/// The content of a `Capture`.
pub enum CaptureView {
    Run(InvocationView),
    Taken { image: Seq<u8>, used: usize },
    NoTool,
}

impl View for Capture {
    type V = CaptureView;

    open spec fn view(&self) -> CaptureView {
        match self {
            Capture::Run(invocation) => CaptureView::Run(invocation@),
            Capture::Taken { image, used } => CaptureView::Taken { image: image@, used: *used },
            Capture::NoTool => CaptureView::NoTool,
        }
    }
}

/// What taking a screenshot comes to: `grim` is tried first, then `import`, and what the
/// first that succeeds has written is the picture.
pub open spec fn capture_view(replies: Seq<Reply>) -> CaptureView {
    match process_at(replies, 0) {
        None => CaptureView::Run(grim_view()),
        Some(first) => if succeeded(first) {
            CaptureView::Taken { image: first->Ok_0.stdout@, used: 1 }
        } else {
            match process_at(replies, 1) {
                None => CaptureView::Run(import_view()),
                Some(second) => if succeeded(second) {
                    CaptureView::Taken { image: second->Ok_0.stdout@, used: 2 }
                } else {
                    CaptureView::NoTool
                },
            }
        },
    }
}

/// What the vision model is sent.
pub open spec fn describe_view(
    ollama_url: Seq<char>,
    model: Seq<char>,
    image: Seq<u8>,
    prompt: Seq<char>,
) -> GenerateView {
    GenerateView {
        url: ollama_url + "/api/generate"@,
        body: JsonView::Object(
            Map::empty().insert("model"@, JsonView::Text(model)).insert(
                "prompt"@,
                JsonView::Text(prompt),
            ).insert("images"@, JsonView::Array(seq![JsonView::Text(base64_text(image))])).insert(
                "stream"@,
                JsonView::Bool(false),
            ),
        ),
    }
}

/// What the vision model said, or why it said nothing.
pub open spec fn description(g: Generation) -> Answer {
    match g {
        Generation::NoRuntime(e) => refusal("Failed to create runtime: "@ + e@),
        Generation::Panicked => refusal("Screenshot worker thread panicked"@),
        Generation::Unsent(e) => refusal("Vision model request failed: "@ + e@),
        Generation::Refused { status, text } => refusal(
            "Vision model returned "@ + status@ + ": "@ + text@,
        ),
        Generation::Unreadable(e) => refusal("Vision model response parse error: "@ + e@),
        Generation::Response(text) => Ok(text@),
    }
}

/// A list of models that holds one of this name.
pub open spec fn lists_model(tags: JsonView, model: Seq<char>) -> bool {
    member_items(tags, "models"@) matches Some(items) && exists|i: int|
        0 <= i < items.len() && member_text(#[trigger] items[i], "name"@) == Some(model)
}

/// The run of `grim`.
pub fn grim_command() -> (r: Invocation)
    ensures
        r@ == grim_view(),
{
    let r = Invocation::new("grim").arg("-t").arg("png").arg("-");
    assert(r@.args =~= grim_view().args);
    r
}

/// The run of `import`.
pub fn import_command() -> (r: Invocation)
    ensures
        r@ == import_view(),
{
    let r = Invocation::new("import").arg("-window").arg("root").arg("png:-");
    assert(r@.args =~= import_view().args);
    r
}

/// What the program that takes the screenshot wrote, where it succeeded.
fn written(outcome: &Outcome) -> (r: Option<Vec<u8>>)
    ensures
        match r {
            Some(image) => succeeded(*outcome) && image@ == outcome->Ok_0.stdout@,
            None => !succeeded(*outcome),
        },
{
    match outcome {
        Ok(output) => {
            if output.success {
                Some(output.stdout.clone())
            } else {
                None
            }
        },
        Err(_) => None,
    }
}

/// What taking a screenshot comes to, given the answers so far.
pub fn capture_screenshot(replies: &Vec<Reply>) -> (r: Capture)
    ensures
        r@ == capture_view(replies@),
{
    match process_reply(replies, 0) {
        None => Capture::Run(grim_command()),
        Some(first) => {
            if let Some(image) = written(first) {
                return Capture::Taken { image, used: 1 };
            }
            match process_reply(replies, 1) {
                None => Capture::Run(import_command()),
                Some(second) => match written(second) {
                    Some(image) => Capture::Taken { image, used: 2 },
                    None => Capture::NoTool,
                },
            }
        },
    }
}

/// The request for a description of a picture.
pub fn describe_request(ollama_url: &str, vision_model: &str, image: &Vec<u8>, prompt: &str) -> (r:
    GenerateRequest)
    ensures
        r@ == describe_view(ollama_url@, vision_model@, image@, prompt@),
        writable(r.body),
{
    let mut url = ollama_url.to_owned();
    url.append("/api/generate");
    let mut images: Vec<Json> = Vec::new();
    images.push(Json::Text(encode_standard(image.as_slice())));
    assert(images@.map_values(|j: Json| j@) =~= seq![JsonView::Text(base64_text(image@))]);
    let body = Json::empty().with("model", Json::text(vision_model)).with(
        "prompt",
        Json::text(prompt),
    ).with("images", Json::array(images)).with("stream", Json::Bool(false));
    GenerateRequest { url, body }
}

/// What the vision model said, given what came of the request.
pub fn describe_screenshot(generation: &Generation) -> (r: Result<String, GremlinError>)
    ensures
        answer(r) == description(*generation),
{
    match generation {
        Generation::NoRuntime(e) => Err(
            GremlinError::tool("Failed to create runtime: ", e.as_str()),
        ),
        Generation::Panicked => Err(GremlinError::says("Screenshot worker thread panicked")),
        Generation::Unsent(e) => Err(
            GremlinError::tool("Vision model request failed: ", e.as_str()),
        ),
        Generation::Refused { status, text } => {
            let mut words = "Vision model returned ".to_owned();
            words.append(status.as_str());
            words.append(": ");
            words.append(text.as_str());
            Err(GremlinError::Tool(words))
        },
        Generation::Unreadable(e) => Err(
            GremlinError::tool("Vision model response parse error: ", e.as_str()),
        ),
        Generation::Response(text) => Ok(text.clone()),
    }
}

/// Whether a list of models holds one of this name.
pub fn tags_list_model(tags: &Json, model: &str) -> (r: bool)
    ensures
        r == lists_model(tags@, model@),
{
    match tags.get("models") {
        Some(Json::Array(items)) => {
            let ghost views = member_items(tags@, "models"@)->0;
            let mut i: usize = 0;
            while i < items.len()
                invariant
                    i <= items@.len(),
                    views.len() == items@.len(),
                    forall|j: int| 0 <= j < items@.len() ==> #[trigger] views[j] == items@[j]@,
                    forall|j: int|
                        0 <= j < i ==> member_text(#[trigger] views[j], "name"@) != Some(model@),
                    member_items(tags@, "models"@) == Some(views),
                decreases items@.len() - i,
            {
                if let Some(name) = items[i].get_text("name") {
                    if same(name.as_str(), model) {
                        assert(member_text(views[i as int], "name"@) == Some(model@));
                        return true;
                    }
                }
                assert(member_text(views[i as int], "name"@) != Some(model@));
                i = i + 1;
            }
            false
        },
        _ => false,
    }
}

/// Whether the vision model is there, given the list of models that was fetched.
pub fn vision_model_available(tags: &Option<Vec<u8>>, model: &str) -> (r: bool)
    ensures
        r == (*tags matches Some(body) && json_slice_document(body@) matches Ok(json) && lists_model(
            json,
            model@,
        )),
{
    match tags {
        Some(body) => match parse_bytes(body.as_slice()) {
            Ok(json) => tags_list_model(&json, model),
            Err(_) => false,
        },
        None => false,
    }
}

} // verus!
