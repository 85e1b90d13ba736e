//! Asking the language model, as a dialogue with its service.
use vstd::prelude::*;
use vstd::string::*;

use crate::json;
use crate::json::{held, item, member, parsed, Json};
use crate::text;
use crate::translator::{outcome_of, text_of, ModelsConfig, Outcome, TranslateResult};

verus! {

/// Translates by way of a language model.
pub struct LlmTranslator;

/// Why the language model gave no translation.
pub enum LlmError {
    /// The key of the service is not set.
    MissingKey,
    /// The request could not be made, or its answer not be received.
    Transport(String),
    /// The service answered with a status other than success.
    Refused { status: String, body: String },
    /// The answer is not JSON.
    Undecodable,
    /// The answer holds no translation.
    NoContent,
}

/// The contents of an [`LlmError`].
pub enum Fault {
    MissingKey,
    Transport(Seq<char>),
    Refused { status: Seq<char>, body: Seq<char> },
    Undecodable,
    NoContent,
}

impl View for LlmError {
    type V = Fault;

    open spec fn view(&self) -> Fault {
        match *self {
            LlmError::MissingKey => Fault::MissingKey,
            LlmError::Transport(e) => Fault::Transport(e@),
            LlmError::Refused { status, body } => Fault::Refused { status: status@, body: body@ },
            LlmError::Undecodable => Fault::Undecodable,
            LlmError::NoContent => Fault::NoContent,
        }
    }
}

/// The message that the user sees. An answer that is not JSON is reported in
/// the words of the HTTP client.
pub open spec fn fault_message(fault: Fault) -> Seq<char> {
    match fault {
        Fault::MissingKey => "API key is missing. Please set environment variable."@,
        Fault::Transport(e) => e,
        Fault::Refused { status, body } => "API Request failed: "@ + status + " - "@ + body,
        Fault::Undecodable => "error decoding response body"@,
        Fault::NoContent => "Failed to parse LLM response."@,
    }
}

impl LlmError {
    /// The message that the user sees.
    pub fn message(&self) -> (r: String)
        ensures
            r@ == fault_message(self@),
    {
        match self {
            LlmError::MissingKey => {
                "API key is missing. Please set environment variable.".to_owned()
            },
            LlmError::Transport(e) => e.clone(),
            LlmError::Refused { status, body } => {
                let mut r: String = "API Request failed: ".to_owned();
                r.append(status.as_str());
                r.append(" - ");
                r.append(body.as_str());
                r
            },
            LlmError::Undecodable => "error decoding response body".to_owned(),
            LlmError::NoContent => "Failed to parse LLM response.".to_owned(),
        }
    }
}

/// A request to the service.
pub struct LlmRequest {
    pub endpoint: String,
    /// The value of the `Authorization` header.
    pub authorization: String,
    /// The body, sent as JSON.
    pub payload: serde_json::Value,
}

/// The contents of an [`LlmRequest`].
pub struct Request {
    pub endpoint: Seq<char>,
    pub authorization: Seq<char>,
    pub payload: Json,
}

impl View for LlmRequest {
    type V = Request;

    open spec fn view(&self) -> Request {
        Request {
            endpoint: self.endpoint@,
            authorization: self.authorization@,
            payload: held(self.payload),
        }
    }
}

pub open spec fn instructions() -> Seq<char> {
    "你是一个专业的翻译助手。请将用户输入的文本翻译成中文。如果是中文，则翻译成英文。请只输出翻译结果，不要输出任何额外的解释或语气词。"@
}

/// One message of a conversation.
pub open spec fn message_json(role: Seq<char>, content: Seq<char>) -> Json {
    Json::Object(map!["role"@ => Json::Text(role), "content"@ => Json::Text(content)])
}

/// The body of a request: the model, and a conversation of the instructions
/// and the text.
pub open spec fn payload_json(model: Seq<char>, source: Seq<char>) -> Json {
    Json::Object(
        map![
            "model"@ => Json::Text(model),
            "messages"@ => Json::Array(
                seq![
                    message_json("system"@, instructions()),
                    message_json("user"@, source),
                ],
            ),
        ],
    )
}

/// The text of the first choice in an answer of the service.
pub open spec fn content_in(answer: Json) -> Option<Seq<char>> {
    match member(member(item(member(answer, "choices"@), 0), "message"@), "content"@) {
        Json::Text(content) => Some(content),
        _ => None,
    }
}

/// What an answer of the service says of `source`.
pub open spec fn answer_outcome(source: Seq<char>, answer: Option<Json>) -> Result<
    Option<Outcome>,
    Fault,
> {
    match answer {
        None => Err(Fault::Undecodable),
        Some(answer) => match content_in(answer) {
            None => Err(Fault::NoContent),
            Some(content) => Ok(
                Some(
                    Outcome {
                        source,
                        phonetic: None,
                        translation: crate::text::trimmed(content),
                        is_llm: true,
                        is_error: false,
                    },
                ),
            ),
        },
    }
}

/// The contents of what an exchange came to.
pub open spec fn outcome_or_fault(r: Result<Option<TranslateResult>, LlmError>) -> Result<
    Option<Outcome>,
    Fault,
> {
    match r {
        Ok(r) => Ok(outcome_of(r)),
        Err(e) => Err(e@),
    }
}

/// How far an exchange has come.
#[derive(Clone, Copy, PartialEq, Eq, Structural, Debug)]
pub enum LlmStage {
    Sending,
    ReadingRefusal,
    ReadingAnswer,
    Finished,
}

/// What the service answered.
pub enum LlmEvent {
    /// The request could not be made, and why.
    Unsent(String),
    /// The status of the answer: its code, and how it reads.
    Status { code: u16, line: String },
    /// The text of a refusal, if it could be read.
    Refusal(Option<String>),
    /// The bytes of an answer, or why they could not be read.
    Answer(Result<Vec<u8>, String>),
}

/// What is asked of the service next.
pub enum LlmAction {
    Send(LlmRequest),
    /// Read the rest of the answer as text.
    ReadRefusal,
    /// Read the rest of the answer as bytes.
    ReadAnswer,
    Finish(Result<Option<TranslateResult>, LlmError>),
}

/// The contents of an [`LlmEvent`].
pub enum LlmReply {
    Unsent(Seq<char>),
    Status { code: u16, line: Seq<char> },
    Refusal(Option<Seq<char>>),
    Answer(Result<Seq<u8>, Seq<char>>),
}

/// The contents of an [`LlmAction`].
pub enum LlmDemand {
    Send(Request),
    ReadRefusal,
    ReadAnswer,
    Finish(Result<Option<Outcome>, Fault>),
}

impl View for LlmEvent {
    type V = LlmReply;

    open spec fn view(&self) -> LlmReply {
        match *self {
            LlmEvent::Unsent(e) => LlmReply::Unsent(e@),
            LlmEvent::Status { code, line } => LlmReply::Status { code, line: line@ },
            LlmEvent::Refusal(body) => LlmReply::Refusal(text_of(body)),
            LlmEvent::Answer(Ok(bytes)) => LlmReply::Answer(Ok(bytes@)),
            LlmEvent::Answer(Err(e)) => LlmReply::Answer(Err(e@)),
        }
    }
}

impl View for LlmAction {
    type V = LlmDemand;

    open spec fn view(&self) -> LlmDemand {
        match *self {
            LlmAction::Send(request) => LlmDemand::Send(request@),
            LlmAction::ReadRefusal => LlmDemand::ReadRefusal,
            LlmAction::ReadAnswer => LlmDemand::ReadAnswer,
            LlmAction::Finish(r) => LlmDemand::Finish(outcome_or_fault(r)),
        }
    }
}

/// The status codes that mean success.
pub open spec fn is_success(code: u16) -> bool {
    200 <= code <= 299
}

/// Whether `reply` answers what was asked at `stage`.
pub open spec fn llm_expects(stage: LlmStage, reply: LlmReply) -> bool {
    match stage {
        LlmStage::Sending => reply is Unsent || reply is Status,
        LlmStage::ReadingRefusal => reply is Refusal,
        LlmStage::ReadingAnswer => reply is Answer,
        LlmStage::Finished => false,
    }
}

/// The next stage, the status that is kept, and what is asked next.
pub open spec fn llm_step(source: Seq<char>, status: Seq<char>, reply: LlmReply) -> (
    LlmStage,
    Seq<char>,
    LlmDemand,
) {
    match reply {
        LlmReply::Unsent(e) => (
            LlmStage::Finished,
            status,
            LlmDemand::Finish(Err(Fault::Transport(e))),
        ),
        LlmReply::Status { code, line } => if is_success(code) {
            (LlmStage::ReadingAnswer, line, LlmDemand::ReadAnswer)
        } else {
            (LlmStage::ReadingRefusal, line, LlmDemand::ReadRefusal)
        },
        LlmReply::Refusal(body) => (
            LlmStage::Finished,
            status,
            LlmDemand::Finish(
                Err(
                    Fault::Refused {
                        status,
                        body: match body {
                            Some(body) => body,
                            None => Seq::empty(),
                        },
                    },
                ),
            ),
        ),
        LlmReply::Answer(Err(e)) => (
            LlmStage::Finished,
            status,
            LlmDemand::Finish(Err(Fault::Transport(e))),
        ),
        LlmReply::Answer(Ok(bytes)) => (
            LlmStage::Finished,
            status,
            LlmDemand::Finish(answer_outcome(source, parsed(bytes))),
        ),
    }
}

/// An exchange on its way.
pub struct LlmExchange {
    text: String,
    stage: LlmStage,
    status: String,
}

/// The text of the first choice in an answer of the service.
pub fn answer_content(answer: &serde_json::Value) -> (r: Option<String>)
    ensures
        text_of(r) == content_in(held(*answer)),
{
    let choice = json::item_of(json::member_of(answer, "choices"), 0);
    let content = json::member_of(json::member_of(choice, "message"), "content");
    match json::as_text(content) {
        Some(s) => Some(s.to_owned()),
        None => None,
    }
}

/// The result that an answer of the service gives for `text`.
pub fn answer_result(text: &str, answer: &serde_json::Value) -> (r: Result<
    Option<TranslateResult>,
    LlmError,
>)
    ensures
        outcome_or_fault(r) == answer_outcome(text@, Some(held(*answer))),
{
    match answer_content(answer) {
        None => Err(LlmError::NoContent),
        Some(content) => Ok(
            Some(
                TranslateResult {
                    source_text: text.to_owned(),
                    phonetic: None,
                    translation: text::trim(content.as_str()).to_owned(),
                    is_llm: true,
                    is_error: false,
                },
            ),
        ),
    }
}

/// The result that the bytes of an answer give for `text`.
pub fn read_answer(text: &str, bytes: &[u8]) -> (r: Result<Option<TranslateResult>, LlmError>)
    ensures
        outcome_or_fault(r) == answer_outcome(text@, parsed(bytes@)),
{
    match json::parse(bytes) {
        Err(_) => Err(LlmError::Undecodable),
        Ok(answer) => answer_result(text, &answer),
    }
}

fn message(role: &str, content: &str) -> (r: serde_json::Value)
    ensures
        held(r) == message_json(role@, content@),
{
    let mut r = json::empty_object();
    json::set_member(&mut r, "role", json::string(role));
    json::set_member(&mut r, "content", json::string(content));
    assert(held(r)->Object_0 =~= message_json(role@, content@)->Object_0);
    r
}

/// The body of a request to translate `text` with `model`.
pub fn payload(model: &str, text: &str) -> (r: serde_json::Value)
    ensures
        held(r) == payload_json(model@, text@),
{
    let mut messages: Vec<serde_json::Value> = Vec::new();
    messages.push(
        message(
            "system",
            "你是一个专业的翻译助手。请将用户输入的文本翻译成中文。如果是中文，则翻译成英文。请只输出翻译结果，不要输出任何额外的解释或语气词。",
        ),
    );
    messages.push(message("user", text));
    assert(messages@.map_values(|v: serde_json::Value| held(v)) =~= seq![
        message_json("system"@, instructions()),
        message_json("user"@, text@),
    ]);
    let mut r = json::empty_object();
    json::set_member(&mut r, "model", json::string(model));
    json::set_member(&mut r, "messages", json::array(messages));
    assert(held(r)->Object_0 =~= payload_json(model@, text@)->Object_0);
    r
}

impl LlmExchange {
    /// The text that is translated.
    pub closed spec fn source(&self) -> Seq<char> {
        self.text@
    }

    pub closed spec fn stage(&self) -> LlmStage {
        self.stage
    }

    /// How the status of the answer reads.
    pub closed spec fn status(&self) -> Seq<char> {
        self.status@
    }

    /// Takes the answer to the last demand and gives the next.
    pub fn step(&mut self, event: LlmEvent) -> (action: LlmAction)
        requires
            llm_expects(old(self).stage(), event@),
        ensures
            final(self).source() == old(self).source(),
            (final(self).stage(), final(self).status(), action@) == llm_step(
                old(self).source(),
                old(self).status(),
                event@,
            ),
    {
        match event {
            LlmEvent::Unsent(e) => {
                self.stage = LlmStage::Finished;
                LlmAction::Finish(Err(LlmError::Transport(e)))
            },
            LlmEvent::Status { code, line } => {
                self.status = line;
                if 200 <= code && code <= 299 {
                    self.stage = LlmStage::ReadingAnswer;
                    LlmAction::ReadAnswer
                } else {
                    self.stage = LlmStage::ReadingRefusal;
                    LlmAction::ReadRefusal
                }
            },
            LlmEvent::Refusal(body) => {
                self.stage = LlmStage::Finished;
                let body: String = match body {
                    Some(body) => body,
                    None => String::new(),
                };
                LlmAction::Finish(Err(LlmError::Refused { status: self.status.clone(), body }))
            },
            LlmEvent::Answer(Err(e)) => {
                self.stage = LlmStage::Finished;
                LlmAction::Finish(Err(LlmError::Transport(e)))
            },
            LlmEvent::Answer(Ok(bytes)) => {
                self.stage = LlmStage::Finished;
                LlmAction::Finish(read_answer(self.text.as_str(), bytes.as_slice()))
            },
        }
    }
}

/// What is asked first: the request, unless the key is missing or empty.
pub open spec fn first_demand(
    source: Seq<char>,
    model: Seq<char>,
    endpoint: Seq<char>,
    key: Option<Seq<char>>,
) -> LlmDemand {
    match key {
        Some(key) if key.len() > 0 => LlmDemand::Send(
            Request {
                endpoint,
                authorization: "Bearer "@ + key,
                payload: payload_json(model, source),
            },
        ),
        _ => LlmDemand::Finish(Err(Fault::MissingKey)),
    }
}

impl LlmTranslator {
    /// Begins to have `text` translated: the exchange, and what is asked
    /// first. `api_key` is the value of the variable that the configuration
    /// names, if it is set.
    pub fn translate(text: &str, config: &ModelsConfig, api_key: Option<String>) -> (r: (
        LlmExchange,
        LlmAction,
    ))
        ensures
            r.0.source() == text@,
            r.0.status() == Seq::<char>::empty(),
            r.0.stage() == (if r.1 is Send {
                LlmStage::Sending
            } else {
                LlmStage::Finished
            }),
            r.1@ == first_demand(
                text@,
                config@.active_model,
                config@.api_endpoint,
                text_of(api_key),
            ),
    {
        let key: String = match api_key {
            Some(key) => key,
            None => String::new(),
        };
        if key.as_str().is_empty() {
            return (
                LlmExchange {
                    text: text.to_owned(),
                    stage: LlmStage::Finished,
                    status: String::new(),
                },
                LlmAction::Finish(Err(LlmError::MissingKey)),
            );
        }
        let mut authorization: String = "Bearer ".to_owned();
        authorization.append(key.as_str());
        (
            LlmExchange { text: text.to_owned(), stage: LlmStage::Sending, status: String::new() },
            LlmAction::Send(
                LlmRequest {
                    endpoint: config.api_endpoint.clone(),
                    authorization,
                    payload: payload(config.active_model.as_str(), text),
                },
            ),
        )
    }
}

/// What a service answers to a request.
pub struct Response {
    pub code: u16,
    /// How the status reads.
    pub line: Seq<char>,
    /// The rest of the answer as text, if it can be read.
    pub refusal: Option<Seq<char>>,
    /// The rest of the answer as bytes, or why they cannot be read.
    pub answer: Result<Seq<u8>, Seq<char>>,
}

/// A service: what it answers to each request, or why the request cannot be
/// made.
pub struct LlmWorld {
    pub sent: spec_fn(Request) -> Result<Response, Seq<char>>,
}

impl LlmWorld {
    /// The answer to `demand`, where `request` was sent last.
    pub open spec fn reply(self, demand: LlmDemand, request: Option<Request>) -> LlmReply {
        match (demand, request) {
            (LlmDemand::Send(request), _) => match (self.sent)(request) {
                Ok(response) => LlmReply::Status { code: response.code, line: response.line },
                Err(e) => LlmReply::Unsent(e),
            },
            (LlmDemand::ReadRefusal, Some(request)) => LlmReply::Refusal(
                (self.sent)(request)->Ok_0.refusal,
            ),
            (LlmDemand::ReadAnswer, Some(request)) => LlmReply::Answer(
                (self.sent)(request)->Ok_0.answer,
            ),
            _ => arbitrary(),
        }
    }
}

/// How many answers an exchange at `stage` can still take.
pub open spec fn llm_answers_left(stage: LlmStage) -> nat {
    match stage {
        LlmStage::Sending => 2,
        LlmStage::ReadingRefusal => 1,
        LlmStage::ReadingAnswer => 1,
        LlmStage::Finished => 0,
    }
}

/// What an exchange about `source` ends with that stands at `stage` and
/// demands `demand`, where `request` was sent last.
pub open spec fn llm_drive(
    source: Seq<char>,
    stage: LlmStage,
    status: Seq<char>,
    demand: LlmDemand,
    request: Option<Request>,
    world: LlmWorld,
) -> Result<Option<Outcome>, Fault>
    decreases llm_answers_left(stage),
{
    match demand {
        LlmDemand::Finish(r) => r,
        _ => {
            let (next, line, next_demand) = llm_step(source, status, world.reply(demand, request));
            let next_request = match demand {
                LlmDemand::Send(request) => Some(request),
                _ => request,
            };
            if llm_answers_left(next) < llm_answers_left(stage) {
                llm_drive(source, next, line, next_demand, next_request, world)
            } else {
                arbitrary()
            }
        },
    }
}

/// What a response says of `source`: a refusal that quotes the status and the
/// body where the status is no success, else what the answer says.
pub open spec fn response_outcome(source: Seq<char>, response: Response) -> Result<
    Option<Outcome>,
    Fault,
> {
    if is_success(response.code) {
        match response.answer {
            Err(e) => Err(Fault::Transport(e)),
            Ok(bytes) => answer_outcome(source, parsed(bytes)),
        }
    } else {
        Err(
            Fault::Refused {
                status: response.line,
                body: match response.refusal {
                    Some(body) => body,
                    None => Seq::empty(),
                },
            },
        )
    }
}

/// Nothing is sent without a key, and nothing but the missing key keeps a
/// request from being sent.
pub proof fn law_no_request_without_key(
    source: Seq<char>,
    model: Seq<char>,
    endpoint: Seq<char>,
    key: Option<Seq<char>>,
)
    ensures
        first_demand(source, model, endpoint, key) is Send <==> (key matches Some(k) && k.len()
            > 0),
        !(first_demand(source, model, endpoint, key) is Send) ==> first_demand(
            source,
            model,
            endpoint,
            key,
        ) == LlmDemand::Finish(Err(Fault::MissingKey)),
{
}

/// The request carries the text and the model unchanged.
pub proof fn law_payload_carries_text(model: Seq<char>, source: Seq<char>)
    ensures
        member(payload_json(model, source), "model"@) == Json::Text(model),
        member(item(member(payload_json(model, source), "messages"@), 1), "content"@)
            == Json::Text(source),
        member(item(member(payload_json(model, source), "messages"@), 1), "role"@) == Json::Text(
            "user"@,
        ),
{
    reveal_strlit("model");
    reveal_strlit("messages");
    reveal_strlit("role");
    reveal_strlit("content");
    assert("model"@.len() != "messages"@.len());
    assert("role"@.len() != "content"@.len());
}

/// Every answer brings an exchange nearer to its end, and it ends, with a
/// demand to finish, after two answers at the latest.
pub proof fn law_exchange_ends(
    source: Seq<char>,
    stage: LlmStage,
    status: Seq<char>,
    reply: LlmReply,
)
    requires
        llm_expects(stage, reply),
    ensures
        llm_answers_left(llm_step(source, status, reply).0) < llm_answers_left(stage) <= 2,
        llm_step(source, status, reply).0 == LlmStage::Finished <==> llm_step(
            source,
            status,
            reply,
        ).2 is Finish,
{
}

/// An exchange ends with the complaint about the key where there is none;
/// else with the error of sending; else with what the service responds to the
/// request for this text, made of this model at this address with this key.
pub proof fn law_exchange_outcome(
    source: Seq<char>,
    model: Seq<char>,
    endpoint: Seq<char>,
    key: Option<Seq<char>>,
    world: LlmWorld,
)
    ensures
        llm_drive(
            source,
            LlmStage::Sending,
            Seq::empty(),
            first_demand(source, model, endpoint, key),
            None,
            world,
        ) == (match key {
            Some(key) if key.len() > 0 => {
                let request = Request {
                    endpoint,
                    authorization: "Bearer "@ + key,
                    payload: payload_json(model, source),
                };
                match (world.sent)(request) {
                    Err(e) => Err(Fault::Transport(e)),
                    Ok(response) => response_outcome(source, response),
                }
            },
            _ => Err(Fault::MissingKey),
        }),
{
    reveal_with_fuel(llm_drive, 3);
}

/// An answer gives a translation of the text that was sent, without white
/// space at its ends, or an error; never nothing.
pub proof fn law_answer_is_translation_or_error(source: Seq<char>, answer: Option<Json>)
    ensures
        match answer_outcome(source, answer) {
            Ok(Some(r)) => r.source == source && r.is_llm && !r.is_error && r.phonetic is None
                && crate::text::trimmed(r.translation) == r.translation,
            Ok(None) => false,
            Err(e) => e is Undecodable || e is NoContent,
        },
{
    if answer is Some && content_in(answer->0) is Some {
        crate::text::law_trim_idempotent(content_in(answer->0)->0);
    }
}

/// Whether `answer` is an object whose `choices` are an array that begins with
/// an object whose `message` is an object whose `content` is the text `content`.
pub open spec fn answer_holds(answer: Json, content: Seq<char>) -> bool {
    &&& answer is Object
    &&& answer->Object_0.dom().contains("choices"@)
    &&& answer->Object_0["choices"@] matches Json::Array(choices)
    &&& choices.len() > 0
    &&& choices[0] matches Json::Object(choice)
    &&& choice.dom().contains("message"@)
    &&& choice["message"@] matches Json::Object(message)
    &&& message.dom().contains("content"@)
    &&& message["content"@] == Json::Text(content)
}

/// The content of an answer is the text at its place in it, whatever else the
/// answer holds; where there is no text at that place there is no content.
pub proof fn law_content_is_at_its_place(answer: Json, content: Seq<char>)
    ensures
        content_in(answer) == Some(content) <==> answer_holds(answer, content),
        content_in(answer) is None <==> forall|c: Seq<char>| !#[trigger] answer_holds(answer, c),
{
    if content_in(answer) is Some {
        assert(answer_holds(answer, content_in(answer)->0));
    }
}

/// An answer whose content has the stretch from `i` to `j` between its
/// outermost white space is a translation by the model that reads as that
/// stretch, every character of it, for the text that was sent; one whose
/// content is blank is an empty translation.
pub proof fn law_translation_is_the_stretch(
    source: Seq<char>,
    answer: Json,
    content: Seq<char>,
    i: int,
    j: int,
)
    requires
        answer_holds(answer, content),
    ensures
        answer_outcome(source, Some(answer)) matches Ok(Some(r)) && {
            &&& r.source == source
            &&& text::bare_stretch(content, i, j) ==> r.translation == content.subrange(i, j)
            &&& (forall|k: int| 0 <= k < content.len() ==> text::is_white_space(
                #[trigger] content[k],
            )) ==> r.translation.len() == 0
            &&& r.phonetic is None
            &&& r.is_llm
            &&& !r.is_error
        },
{
    law_content_is_at_its_place(answer, content);
    if text::bare_stretch(content, i, j) {
        text::law_trim_keeps_the_stretch(content, i, j);
    }
    text::law_trim_empty(content);
}

/// A content without white space at its ends is the translation, unchanged.
pub proof fn law_bare_content_is_the_translation(
    source: Seq<char>,
    answer: Json,
    content: Seq<char>,
)
    requires
        answer_holds(answer, content),
        content.len() > 0,
        !text::is_white_space(content[0]),
        !text::is_white_space(content.last()),
    ensures
        answer_outcome(source, Some(answer)) matches Ok(Some(r)) && r.translation == content,
{
    law_translation_is_the_stretch(source, answer, content, 0, content.len() as int);
    assert(content.subrange(0, content.len() as int) =~= content);
}

/// An answer without a text at the place of the content, or none at all, is
/// an error and no translation.
pub proof fn law_answer_without_content(source: Seq<char>, answer: Option<Json>)
    requires
        answer matches Some(a) ==> forall|c: Seq<char>| !#[trigger] answer_holds(a, c),
    ensures
        answer_outcome(source, answer) == Err::<Option<Outcome>, Fault>(
            if answer is Some {
                Fault::NoContent
            } else {
                Fault::Undecodable
            },
        ),
{
    if answer is Some {
        law_content_is_at_its_place(answer->0, Seq::empty());
    }
}

/// The body of a request is an object of the model and two messages: first
/// the instructions of the system, then the text of the user, unchanged.
pub proof fn law_payload_is_a_conversation(model: Seq<char>, source: Seq<char>)
    ensures
        payload_json(model, source) matches Json::Object(members) && {
            &&& members.dom() =~= set!["model"@, "messages"@]
            &&& members["model"@] == Json::Text(model)
            &&& members["messages"@] matches Json::Array(messages) && {
                &&& messages.len() == 2
                &&& messages[0] matches Json::Object(system) && system.dom() =~= set![
                    "role"@,
                    "content"@,
                ] && system["role"@] == Json::Text("system"@) && system["content"@] == Json::Text(
                    instructions(),
                )
                &&& messages[1] matches Json::Object(user) && user.dom() =~= set![
                    "role"@,
                    "content"@,
                ] && user["role"@] == Json::Text("user"@) && user["content"@] == Json::Text(source)
            }
        },
{
    reveal_strlit("model");
    reveal_strlit("messages");
    reveal_strlit("role");
    reveal_strlit("content");
    assert("model"@.len() != "messages"@.len());
    assert("role"@.len() != "content"@.len());
}

/// What a user is told of a failure: of a refusal the status and the whole
/// body, of a failed transmission its own words.
pub proof fn law_faults_are_told_in_full(status: Seq<char>, body: Seq<char>, e: Seq<char>)
    ensures
        ({
            let m = fault_message(Fault::Refused { status, body });
            &&& m.len() == 20 + status.len() + 3 + body.len()
            &&& m.subrange(0, 20) == "API Request failed: "@
            &&& m.subrange(20, 20int + status.len()) == status
            &&& m.subrange(20int + status.len(), 23int + status.len()) == " - "@
            &&& m.skip(23int + status.len()) == body
        }),
        fault_message(Fault::Transport(e)) == e,
{
    reveal_strlit("API Request failed: ");
    reveal_strlit(" - ");
    let m = fault_message(Fault::Refused { status, body });
    assert(m.subrange(0, 20) =~= "API Request failed: "@);
    assert(m.subrange(20, 20int + status.len()) =~= status);
    assert(m.subrange(20int + status.len(), 23int + status.len()) =~= " - "@);
    assert(m.skip(23int + status.len()) =~= body);
}

/// An exchange with a key in which the service answers with a status from 200
/// to 299 and the translation of the text gives that translation.
pub proof fn law_exchange_translates(
    source: Seq<char>,
    model: Seq<char>,
    endpoint: Seq<char>,
    key: Seq<char>,
    world: LlmWorld,
    response: Response,
    content: Seq<char>,
    i: int,
    j: int,
)
    requires
        key.len() > 0,
        (world.sent)(
            Request {
                endpoint,
                authorization: "Bearer "@ + key,
                payload: payload_json(model, source),
            },
        ) == Ok::<Response, Seq<char>>(response),
        200 <= response.code <= 299,
        response.answer matches Ok(bytes) && parsed(bytes) is Some && answer_holds(
            parsed(bytes)->0,
            content,
        ),
        text::bare_stretch(content, i, j),
    ensures
        llm_drive(
            source,
            LlmStage::Sending,
            Seq::empty(),
            first_demand(source, model, endpoint, Some(key)),
            None,
            world,
        ) == Ok::<Option<Outcome>, Fault>(
            Some(
                Outcome {
                    source,
                    phonetic: None,
                    translation: content.subrange(i, j),
                    is_llm: true,
                    is_error: false,
                },
            ),
        ),
{
    law_exchange_outcome(source, model, endpoint, Some(key), world);
    law_translation_is_the_stretch(source, parsed(response.answer->Ok_0)->0, content, i, j);
}

/// An exchange with a key in which the service answers with any other status
/// fails, and the failure quotes the status and the body.
pub proof fn law_exchange_refused(
    source: Seq<char>,
    model: Seq<char>,
    endpoint: Seq<char>,
    key: Seq<char>,
    world: LlmWorld,
    response: Response,
)
    requires
        key.len() > 0,
        (world.sent)(
            Request {
                endpoint,
                authorization: "Bearer "@ + key,
                payload: payload_json(model, source),
            },
        ) == Ok::<Response, Seq<char>>(response),
        !(200 <= response.code <= 299),
    ensures
        llm_drive(
            source,
            LlmStage::Sending,
            Seq::empty(),
            first_demand(source, model, endpoint, Some(key)),
            None,
            world,
        ) == Err::<Option<Outcome>, Fault>(
            Fault::Refused {
                status: response.line,
                body: if response.refusal is Some {
                    response.refusal->0
                } else {
                    Seq::empty()
                },
            },
        ),
{
    law_exchange_outcome(source, model, endpoint, Some(key), world);
}

/// An exchange without a key fails for want of it; one whose request cannot be
/// made, or whose answer cannot be received, fails with the reason for that.
pub proof fn law_exchange_fails_in_transit(
    source: Seq<char>,
    model: Seq<char>,
    endpoint: Seq<char>,
    key: Seq<char>,
    world: LlmWorld,
    e: Seq<char>,
)
    ensures
        ({
            let request = Request {
                endpoint,
                authorization: "Bearer "@ + key,
                payload: payload_json(model, source),
            };
            let end = |key: Option<Seq<char>>|
                llm_drive(
                    source,
                    LlmStage::Sending,
                    Seq::empty(),
                    first_demand(source, model, endpoint, key),
                    None,
                    world,
                );
            &&& end(None) == Err::<Option<Outcome>, Fault>(Fault::MissingKey)
            &&& key.len() == 0 ==> end(Some(key)) == Err::<Option<Outcome>, Fault>(
                Fault::MissingKey,
            )
            &&& key.len() > 0 && (world.sent)(request) == Err::<Response, Seq<char>>(e) ==> end(
                Some(key),
            ) == Err::<Option<Outcome>, Fault>(Fault::Transport(e))
            &&& (key.len() > 0 && ((world.sent)(request) matches Ok(response) && 200
                <= response.code <= 299 && response.answer == Err::<Seq<u8>, Seq<char>>(e)))
                ==> end(Some(key)) == Err::<Option<Outcome>, Fault>(Fault::Transport(e))
        }),
{
    law_exchange_outcome(source, model, endpoint, None, world);
    law_exchange_outcome(source, model, endpoint, Some(key), world);
}

} // verus!
