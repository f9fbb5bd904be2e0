//! What is asked of Ollama, and what it answers.
use vstd::prelude::*;

use crate::config::{copy_text, OllamaConfig};
use crate::error::{OllamaError, OllamaErrorView};
use crate::json::{text_view, Json};
use crate::text::{occurs_at, same, starts_with};

verus! {

/// A message of a conversation.
#[derive(Debug)]
pub struct Message {
    pub role: String,
    pub content: String,
}

/// The content of a `Message`.
pub struct MessageView {
    pub role: Seq<char>,
    pub content: Seq<char>,
}

/// What Ollama answers to a chat request.
#[derive(Debug)]
pub struct ChatResponse {
    pub message: Message,
}

/// A model that Ollama has.
#[derive(Debug)]
pub struct ModelInfo {
    pub name: String,
}

/// A tool call that the model asked for.
#[derive(Debug)]
pub struct ToolCall {
    pub name: String,
    pub args: Json,
}

/// A chat request. The temperature, a fraction, is added where it is sent.
#[derive(Debug)]
pub struct ChatRequest {
    pub url: String,
    pub model: String,
    pub messages: Vec<Message>,
    pub stream: bool,
    pub num_ctx: Option<usize>,
    pub keep_alive: Option<String>,
}

/// The content of a `ChatRequest`.
pub struct ChatRequestView {
    pub url: Seq<char>,
    pub model: Seq<char>,
    pub messages: Seq<MessageView>,
    pub stream: bool,
    pub num_ctx: Option<usize>,
    pub keep_alive: Option<Seq<char>>,
}

/// Where Ollama is, and how long it keeps a model where a request does not say it.
#[derive(Debug)]
pub struct Ollama {
    pub base_url: String,
    pub default_keep_alive: Option<String>,
}

impl View for Message {
    type V = MessageView;

    open spec fn view(&self) -> MessageView {
        MessageView { role: self.role@, content: self.content@ }
    }
}

/// The contents of messages.
pub open spec fn messages_view(messages: Seq<Message>) -> Seq<MessageView> {
    messages.map_values(|m: Message| m@)
}

impl View for ChatRequest {
    type V = ChatRequestView;

    open spec fn view(&self) -> ChatRequestView {
        ChatRequestView {
            url: self.url@,
            model: self.model@,
            messages: messages_view(self.messages@),
            stream: self.stream,
            num_ctx: self.num_ctx,
            keep_alive: text_view(self.keep_alive),
        }
    }
}

/// A message of the user.
pub open spec fn user_message(content: Seq<char>) -> MessageView {
    MessageView { role: "user"@, content }
}

/// A message of the model.
pub open spec fn assistant_message(content: Seq<char>) -> MessageView {
    MessageView { role: "assistant"@, content }
}

/// A message that sets the scene.
pub open spec fn system_message(content: Seq<char>) -> MessageView {
    MessageView { role: "system"@, content }
}

/// The request for the next message of a conversation.
pub open spec fn chat_request_view(
    ollama: Ollama,
    model: Seq<char>,
    messages: Seq<MessageView>,
    context_size: Option<usize>,
    keep_alive: Option<Seq<char>>,
) -> ChatRequestView {
    ChatRequestView {
        url: ollama.base_url@ + "/api/chat"@,
        model,
        messages,
        stream: false,
        num_ctx: context_size,
        keep_alive: match keep_alive {
            Some(k) => Some(k),
            None => text_view(ollama.default_keep_alive),
        },
    }
}

/// A model of this name, with or without a tag behind it.
pub open spec fn is_model(name: Seq<char>, model: Seq<char>) -> bool {
    name == model || occurs_at(name, model + ":"@, 0)
}

impl Clone for Message {
    fn clone(&self) -> (m: Message)
        ensures
            m@ == self@,
    {
        Message { role: self.role.clone(), content: self.content.clone() }
    }
}

impl Message {
    /// A message of the user.
    pub fn user(content: &str) -> (m: Message)
        ensures
            m@ == user_message(content@),
    {
        Message { role: "user".to_owned(), content: content.to_owned() }
    }

    /// A message of the model.
    pub fn assistant(content: &str) -> (m: Message)
        ensures
            m@ == assistant_message(content@),
    {
        Message { role: "assistant".to_owned(), content: content.to_owned() }
    }

    /// A message that sets the scene.
    pub fn system(content: &str) -> (m: Message)
        ensures
            m@ == system_message(content@),
    {
        Message { role: "system".to_owned(), content: content.to_owned() }
    }
}

/// Messages with the same contents.
pub fn copy_messages(messages: &Vec<Message>) -> (r: Vec<Message>)
    ensures
        messages_view(r@) == messages_view(messages@),
{
    let mut r: Vec<Message> = Vec::new();
    let mut i: usize = 0;
    while i < messages.len()
        invariant
            i <= messages@.len(),
            r@.len() == i,
            forall|j: int| 0 <= j < i ==> (#[trigger] r@[j])@ == messages@[j]@,
        decreases messages@.len() - i,
    {
        let m = messages[i].clone();
        r.push(m);
        i = i + 1;
    }
    assert(messages_view(r@) =~= messages_view(messages@));
    r
}

impl Ollama {
    /// The client for this configuration.
    pub fn new(config: &OllamaConfig) -> (r: Ollama)
        ensures
            r.base_url@ == config.url@,
            text_view(r.default_keep_alive) == text_view(config.keep_alive),
    {
        Ollama {
            base_url: config.url.clone(),
            default_keep_alive: copy_text(&config.keep_alive),
        }
    }

    /// What it means that the connection for a health check failed, or did not.
    pub fn health_check(&self, sent: &Result<(), String>) -> (r: Result<(), OllamaError>)
        ensures
            match *sent {
                Ok(_) => r is Ok,
                Err(detail) => r matches Err(e) && e@ == (OllamaErrorView::Unreachable {
                    url: self.base_url@,
                    detail: detail@,
                }),
            },
    {
        match sent {
            Ok(_) => Ok(()),
            Err(detail) => Err(
                OllamaError::Unreachable { url: self.base_url.clone(), detail: detail.clone() },
            ),
        }
    }

    /// The address of the list of models.
    pub fn tags_url(&self) -> (r: String)
        ensures
            r@ == self.base_url@ + "/api/tags"@,
    {
        let mut r = self.base_url.clone();
        r.append("/api/tags");
        r
    }

    /// The models, given what fetching the list gave.
    pub fn list_models(&self, fetched: Result<Vec<ModelInfo>, String>) -> (r: Result<
        Vec<ModelInfo>,
        OllamaError,
    >)
        ensures
            match fetched {
                Ok(models) => r == Result::<_, OllamaError>::Ok(models),
                Err(detail) => r matches Err(e) && e@ == OllamaErrorView::Http(detail@),
            },
    {
        match fetched {
            Ok(models) => Ok(models),
            Err(detail) => Err(OllamaError::Http(detail)),
        }
    }

    /// The request for the next message of a conversation.
    pub fn chat(
        &self,
        model: &str,
        messages: &Vec<Message>,
        context_size: Option<usize>,
        keep_alive: &Option<String>,
    ) -> (r: ChatRequest)
        ensures
            r@ == chat_request_view(
                *self,
                model@,
                messages_view(messages@),
                context_size,
                text_view(*keep_alive),
            ),
    {
        let mut url = self.base_url.clone();
        url.append("/api/chat");
        let kept = match keep_alive {
            Some(k) => Some(k.clone()),
            None => copy_text(&self.default_keep_alive),
        };
        ChatRequest {
            url,
            model: model.to_owned(),
            messages: copy_messages(messages),
            stream: false,
            num_ctx: context_size,
            keep_alive: kept,
        }
    }

    /// What the model said, given what came of sending the request.
    pub fn chat_text(sent: Result<ChatResponse, String>) -> (r: Result<String, OllamaError>)
        ensures
            match sent {
                Ok(response) => r matches Ok(s) && s@ == response.message.content@,
                Err(detail) => r matches Err(e) && e@ == OllamaErrorView::Http(detail@),
            },
    {
        match sent {
            Ok(response) => Ok(response.message.content),
            Err(detail) => Err(OllamaError::Http(detail)),
        }
    }

    /// Whether there is a model of this name, with or without a tag behind it.
    pub fn model_exists(models: &Vec<ModelInfo>, model: &str) -> (r: bool)
        ensures
            r == exists|i: int| 0 <= i < models@.len() && is_model(#[trigger] models@[i].name@, model@),
    {
        let mut tagged = model.to_owned();
        tagged.append(":");
        let mut i: usize = 0;
        while i < models.len()
            invariant
                i <= models@.len(),
                tagged@ == model@ + ":"@,
                forall|j: int| 0 <= j < i ==> !is_model(#[trigger] models@[j].name@, model@),
            decreases models@.len() - i,
        {
            let name = models[i].name.as_str();
            if same(name, model) || starts_with(name, tagged.as_str()) {
                assert(is_model(models@[i as int].name@, model@));
                return true;
            }
            i = i + 1;
        }
        false
    }
}

/// A model is found under its own name.
pub proof fn law_every_model_is_found(models: Seq<ModelInfo>, i: int)
    requires
        0 <= i < models.len(),
    ensures
        exists|j: int| 0 <= j < models.len() && is_model(#[trigger] models[j].name@, models[i].name@),
{
    assert(is_model(models[i].name@, models[i].name@));
}

} // verus!
