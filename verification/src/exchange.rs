//! One exchange with the local inference service: the request that goes
//! out, and what each thing that can come back means for the chat.

use vstd::prelude::*;
use vstd::string::*;
use crate::message::ChatMessage;
use crate::status::{status_prefix, status_text, HttpStatus};

verus! {

/// Where the inference service listens.
pub const ENDPOINT: &'static str = "http://localhost:11434/api/chat";

/// The model that answers.
pub const MODEL_NAME: &'static str = "llama3.2";

/// How many of the latest transcript entries go into a prompt.
pub const HISTORY_WINDOW: usize = 10;

/// The persona, language and brevity rules that open every prompt.
pub const SYSTEM_PROMPT: &'static str =
    "너는 개발자의 데스크톱 펫이야. 이름은 \"코디\"(Cody)야.\n\n성격:\n- 친근하고 귀엽게 말해 (반말 사용)\n- 이모지를 적당히 사용해\n- 개발 관련 질문에 도움을 줄 수 있어\n- 짧고 간결하게 대답해 (2-3문장)\n- 가끔 귀여운 리액션을 해 (예: \"우와!\", \"헤헤\", \"음...\")\n\n규칙:\n- 한국어로 대답해\n- 너무 길게 설명하지 마\n- 모르는 건 솔직하게 말해";

/// What is sent to the inference service for one chat turn.
#[derive(Debug)]
pub struct InferenceRequest {
    pub model: String,
    pub messages: Vec<ChatMessage>,
    pub stream: bool,
}

/// The settings of the chat: where the service listens, which model
/// answers, how many transcript entries a prompt takes and what opens it.
#[derive(Debug)]
pub struct ChatConfig {
    pub endpoint: String,
    pub model: String,
    pub history_window: usize,
    pub system_prompt: String,
}

impl ChatConfig {
    /// Whether the settings are the fixed ones.
    pub open spec fn is_default(&self) -> bool {
        &&& self.endpoint@ == ENDPOINT@
        &&& self.model@ == MODEL_NAME@
        &&& self.history_window == HISTORY_WINDOW
        &&& self.system_prompt@ == SYSTEM_PROMPT@
    }
}

impl Default for ChatConfig {
    /// The fixed settings: the local endpoint, the fixed model, a window of
    /// ten entries and the fixed system prompt.
    fn default() -> (config: ChatConfig)
        ensures
            config.is_default(),
    {
        ChatConfig {
            endpoint: ENDPOINT.to_owned(),
            model: MODEL_NAME.to_owned(),
            history_window: HISTORY_WINDOW,
            system_prompt: SYSTEM_PROMPT.to_owned(),
        }
    }
}

/// The request that carries `prompt` to the model `model`: the prompt as it
/// is, and one complete answer asked for in place of a stream.
pub fn build_request(model: &str, prompt: Vec<ChatMessage>) -> (request: InferenceRequest)
    ensures
        request.model@ == model@,
        request.messages == prompt,
        !request.stream,
{
    InferenceRequest { model: model.to_owned(), messages: prompt, stream: false }
}

/// What a text that may be absent says.
pub open spec fn text_of(text: Option<String>) -> Option<Seq<char>> {
    match text {
        Some(held) => Some(held@),
        None => None,
    }
}

/// What a chat response says, apart from how its texts are stored.
pub struct ChatResponseView {
    pub success: bool,
    pub response: Option<Seq<char>>,
    pub error: Option<Seq<char>>,
}

/// The answer to one chat submission.
#[derive(Debug)]
pub struct ChatResponse {
    pub success: bool,
    pub response: Option<String>,
    pub error: Option<String>,
}

impl View for ChatResponse {
    type V = ChatResponseView;

    open spec fn view(&self) -> ChatResponseView {
        ChatResponseView {
            success: self.success,
            response: text_of(self.response),
            error: text_of(self.error),
        }
    }
}

impl Clone for ChatResponse {
    fn clone(&self) -> (copy: ChatResponse)
        ensures
            copy@ == self@,
    {
        let response = match &self.response {
            Some(text) => Some(text.clone()),
            None => None,
        };
        let error = match &self.error {
            Some(text) => Some(text.clone()),
            None => None,
        };
        ChatResponse { success: self.success, response, error }
    }
}

/// The response that reports the reply `content`.
pub open spec fn success_view(content: Seq<char>) -> ChatResponseView {
    ChatResponseView { success: true, response: Some(content), error: None }
}

/// The response that reports the failure `reason`.
pub open spec fn failure_view(reason: Seq<char>) -> ChatResponseView {
    ChatResponseView { success: false, response: None, error: Some(reason) }
}

impl ChatResponseView {
    /// A success carries a reply and no error; a failure carries an error
    /// and no reply.
    pub open spec fn wf(self) -> bool {
        if self.success {
            self.response is Some && self.error is None
        } else {
            self.response is None && self.error is Some
        }
    }
}

impl ChatResponse {
    /// The response that reports the reply `content`.
    pub fn succeeded(content: String) -> (made: ChatResponse)
        ensures
            made@ == success_view(content@),
    {
        ChatResponse { success: true, response: Some(content), error: None }
    }

    /// The response that reports the failure `reason`.
    pub fn failed(reason: String) -> (made: ChatResponse)
        ensures
            made@ == failure_view(reason@),
    {
        ChatResponse { success: false, response: None, error: Some(reason) }
    }

    /// The failure of a request that did not get through; `detail` is what
    /// the transport said of it.
    pub fn transport_failure(detail: &str) -> (made: ChatResponse)
        ensures
            made@ == failure_view("Failed to connect to Ollama: "@ + detail@),
    {
        ChatResponse::failed(String::from_str("Failed to connect to Ollama: ").concat(detail))
    }

    /// The failure of a request that was answered with a status other than
    /// success; `status_line` is the printed form of that status.
    pub fn status_failure(status_line: &str) -> (made: ChatResponse)
        ensures
            made@ == failure_view("Ollama returned status: "@ + status_line@),
            made@.error matches Some(reason) && reason.len() == 24 + status_line@.len()
                && reason.subrange(0, 24) == "Ollama returned status: "@ && reason.subrange(
                24,
                reason.len() as int,
            ) == status_line@,
    {
        let reason = String::from_str("Ollama returned status: ").concat(status_line);
        proof {
            reveal_strlit("Ollama returned status: ");
            assert(reason@.subrange(0, 24) =~= "Ollama returned status: "@);
            assert(reason@.subrange(24, reason@.len() as int) =~= status_line@);
        }
        ChatResponse::failed(reason)
    }

    /// The failure of a response whose body could not be decoded; `detail`
    /// is what the decoder said of it.
    pub fn parse_failure(detail: &str) -> (made: ChatResponse)
        ensures
            made@ == failure_view("Failed to parse response: "@ + detail@),
    {
        ChatResponse::failed(String::from_str("Failed to parse response: ").concat(detail))
    }

    /// The failure of a response whose body holds no message.
    pub fn empty_reply() -> (made: ChatResponse)
        ensures
            made@ == failure_view("Empty response from Ollama"@),
    {
        ChatResponse::failed(String::from_str("Empty response from Ollama"))
    }
}

/// One thing that the transport reports while a request is under way.
#[derive(Debug)]
pub enum ExchangeEvent {
    /// The request did not reach the service, or no response came back.
    TransportFailed { detail: String },
    /// A response arrived and carries this status.
    StatusReceived { status: HttpStatus },
    /// The body of a successful response could not be decoded.
    BodyUndecodable { detail: String },
    /// The body was decoded; `content` is the text of its message, where it
    /// has one.
    BodyDecoded { content: Option<String> },
}

/// What to do after an event.
#[derive(Debug)]
pub enum ExchangeStep {
    /// Read the body of the response and decode it.
    ReadBody,
    /// The exchange is over, with this response.
    Finished(ChatResponse),
}

/// The response that an event settles, or `None` where the exchange goes
/// on to the body of the response.
pub open spec fn verdict_of(event: ExchangeEvent) -> Option<ChatResponseView> {
    match event {
        ExchangeEvent::TransportFailed { detail } => Some(
            failure_view("Failed to connect to Ollama: "@ + detail@),
        ),
        ExchangeEvent::StatusReceived { status } => if status.succeeded() {
            None
        } else {
            Some(failure_view("Ollama returned status: "@ + status_text(status@)))
        },
        ExchangeEvent::BodyUndecodable { detail } => Some(
            failure_view("Failed to parse response: "@ + detail@),
        ),
        ExchangeEvent::BodyDecoded { content: None } => Some(
            failure_view("Empty response from Ollama"@),
        ),
        ExchangeEvent::BodyDecoded { content: Some(reply) } => Some(success_view(reply@)),
    }
}

/// Sorts an event of the exchange: a transport failure, a status that does
/// not report success, an undecodable body and a body without a message
/// each end it with their own error; a decoded message ends it with
/// success; a status that reports success sends the caller on to the body.
pub fn advance_exchange(event: ExchangeEvent) -> (step: ExchangeStep)
    ensures
        verdict_of(event) is None <==> step is ReadBody,
        verdict_of(event) matches Some(verdict) ==> (step matches ExchangeStep::Finished(
            response,
        ) && response@ == verdict && verdict.wf()),
        event matches ExchangeEvent::StatusReceived { status } ==> (!status.succeeded() ==> (
        step matches ExchangeStep::Finished(response) && response@.error matches Some(reason)
            && reason.len() > 28 && reason.subrange(0, 24) == "Ollama returned status: "@
            && reason.subrange(24, 28) == status_prefix(status@))),
{
    match event {
        ExchangeEvent::TransportFailed { detail } => {
            ExchangeStep::Finished(ChatResponse::transport_failure(detail.as_str()))
        },
        ExchangeEvent::StatusReceived { status } => {
            if status.is_success() {
                ExchangeStep::ReadBody
            } else {
                let line = status.to_text();
                let response = ChatResponse::status_failure(line.as_str());
                proof {
                    let reason = response@.error->Some_0;
                    assert(reason.subrange(24, 28) =~= line@.subrange(0, 4));
                }
                ExchangeStep::Finished(response)
            }
        },
        ExchangeEvent::BodyUndecodable { detail } => {
            ExchangeStep::Finished(ChatResponse::parse_failure(detail.as_str()))
        },
        ExchangeEvent::BodyDecoded { content: None } => {
            ExchangeStep::Finished(ChatResponse::empty_reply())
        },
        ExchangeEvent::BodyDecoded { content: Some(reply) } => {
            ExchangeStep::Finished(ChatResponse::succeeded(reply))
        },
    }
}

} // verus!
