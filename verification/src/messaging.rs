use crate::text::{is_blank, spec_is_blank};
use vstd::prelude::*;

verus! {

/// A parameter of `discord_send`, in the order in which the arguments are checked.
#[derive(Clone, Copy, Debug, PartialEq, Eq, Structural)]
pub enum Parameter {
    WebhookUrl,
    Username,
    Message,
}

impl Parameter {
    /// The parameter's name, as error messages spell it.
    pub open spec fn spec_name(self) -> Seq<char> {
        match self {
            Parameter::WebhookUrl => "webhook_url"@,
            Parameter::Username => "username"@,
            Parameter::Message => "message"@,
        }
    }

    /// Whether the argument of this parameter is checked before that of `other`.
    pub open spec fn checked_before(self, other: Parameter) -> bool {
        match (self, other) {
            (Parameter::WebhookUrl, Parameter::Username) => true,
            (Parameter::WebhookUrl, Parameter::Message) => true,
            (Parameter::Username, Parameter::Message) => true,
            _ => false,
        }
    }

    /// The argument that a call with these three passes for this parameter.
    pub open spec fn argument(
        self,
        webhook_url: Seq<char>,
        username: Seq<char>,
        message: Seq<char>,
    ) -> Seq<char> {
        match self {
            Parameter::WebhookUrl => webhook_url,
            Parameter::Username => username,
            Parameter::Message => message,
        }
    }

    /// The parameter's name, as error messages spell it.
    pub fn name(self) -> (r: &'static str)
        ensures
            r@ == self.spec_name(),
    {
        match self {
            Parameter::WebhookUrl => "webhook_url",
            Parameter::Username => "username",
            Parameter::Message => "message",
        }
    }
}

/// A step of a delivery that goes through the transport.
#[derive(Clone, Copy, Debug, PartialEq, Eq, Structural)]
pub enum Stage {
    /// Resolving the webhook that the URL names.
    Resolve,
    /// Sending the message through the resolved webhook.
    Send,
}

/// What a failed `discord_send` reports, as plain values.
pub enum SendErrorView {
    Blank(Parameter),
    Transport(Stage, Seq<char>),
}

impl SendErrorView {
    /// The text that the script sees.
    pub open spec fn message(self) -> Seq<char> {
        match self {
            SendErrorView::Blank(parameter) => parameter.spec_name() + " cannot be empty"@,
            SendErrorView::Transport(Stage::Resolve, cause) => "Failed to load webhook: "@ + cause,
            SendErrorView::Transport(Stage::Send, cause) => "Failed to execute webhook: "@ + cause,
        }
    }
}

/// Why a `discord_send` failed.
#[derive(Debug, PartialEq, Eq)]
pub enum SendError {
    /// The argument of this parameter was empty or held white space only.
    /// Nothing was sent.
    Blank(Parameter),
    /// The transport failed at this stage, for this cause.
    Transport(Stage, String),
}

impl View for SendError {
    type V = SendErrorView;

    open spec fn view(&self) -> SendErrorView {
        match self {
            SendError::Blank(parameter) => SendErrorView::Blank(*parameter),
            SendError::Transport(stage, cause) => SendErrorView::Transport(*stage, cause@),
        }
    }
}

impl Clone for SendError {
    fn clone(&self) -> (copy: SendError)
        ensures
            copy@ == self@,
    {
        match self {
            SendError::Blank(parameter) => SendError::Blank(*parameter),
            SendError::Transport(stage, cause) => SendError::Transport(*stage, cause.clone()),
        }
    }
}

impl SendError {
    /// The text that the script sees.
    pub fn message(&self) -> (text: String)
        ensures
            text@ == self@.message(),
    {
        match self {
            SendError::Blank(parameter) => parameter.name().to_owned().concat(" cannot be empty"),
            SendError::Transport(Stage::Resolve, cause) => "Failed to load webhook: ".to_owned().concat(
                cause.as_str(),
            ),
            SendError::Transport(Stage::Send, cause) => "Failed to execute webhook: ".to_owned().concat(
                cause.as_str(),
            ),
        }
    }
}

/// What a webhook message holds, as plain values.
pub struct WebhookMessageView {
    pub webhook_url: Seq<char>,
    pub username: Seq<char>,
    pub content: Seq<char>,
}

impl WebhookMessageView {
    /// A message can be sent when none of its parts is blank.
    pub open spec fn valid(self) -> bool {
        !spec_is_blank(self.webhook_url) && !spec_is_blank(self.username) && !spec_is_blank(self.content)
    }
}

/// The first parameter, in checking order, whose argument is blank.
pub open spec fn first_blank(webhook_url: Seq<char>, username: Seq<char>, message: Seq<char>) -> Option<
    Parameter,
> {
    if spec_is_blank(webhook_url) {
        Some(Parameter::WebhookUrl)
    } else if spec_is_blank(username) {
        Some(Parameter::Username)
    } else if spec_is_blank(message) {
        Some(Parameter::Message)
    } else {
        None
    }
}

/// A message for a webhook: where to send it, under which name, and what it
/// says. None of the three is blank.
#[derive(Debug, PartialEq, Eq)]
pub struct WebhookMessage {
    webhook_url: String,
    username: String,
    content: String,
}

impl View for WebhookMessage {
    type V = WebhookMessageView;

    closed spec fn view(&self) -> WebhookMessageView {
        WebhookMessageView {
            webhook_url: self.webhook_url@,
            username: self.username@,
            content: self.content@,
        }
    }
}

impl Clone for WebhookMessage {
    fn clone(&self) -> (copy: WebhookMessage)
        ensures
            copy@ == self@,
    {
        proof {
            use_type_invariant(self);
        }
        WebhookMessage {
            webhook_url: self.webhook_url.clone(),
            username: self.username.clone(),
            content: self.content.clone(),
        }
    }
}

impl WebhookMessage {
    #[verifier::type_invariant]
    spec fn well_formed(self) -> bool {
        self@.valid()
    }

    /// Checks the three arguments in order and makes the message of them. The
    /// first blank one is refused, by its parameter.
    pub fn new(webhook_url: String, username: String, message: String) -> (r: Result<
        WebhookMessage,
        SendError,
    >)
        ensures
            match first_blank(webhook_url@, username@, message@) {
                Some(parameter) => r is Err && r->Err_0@ == SendErrorView::Blank(parameter),
                None => r is Ok && r->Ok_0@ == (WebhookMessageView {
                    webhook_url: webhook_url@,
                    username: username@,
                    content: message@,
                }),
            },
            r is Ok ==> r->Ok_0@.valid(),
    {
        if is_blank(webhook_url.as_str()) {
            return Err(SendError::Blank(Parameter::WebhookUrl));
        }
        if is_blank(username.as_str()) {
            return Err(SendError::Blank(Parameter::Username));
        }
        if is_blank(message.as_str()) {
            return Err(SendError::Blank(Parameter::Message));
        }
        Ok(WebhookMessage { webhook_url, username, content: message })
    }

    /// The URL of the webhook to resolve.
    pub fn webhook_url(&self) -> (r: &str)
        ensures
            r@ == self@.webhook_url,
            !spec_is_blank(r@),
    {
        proof {
            use_type_invariant(self);
        }
        self.webhook_url.as_str()
    }

    /// The name under which the message is shown.
    pub fn username(&self) -> (r: &str)
        ensures
            r@ == self@.username,
            !spec_is_blank(r@),
    {
        proof {
            use_type_invariant(self);
        }
        self.username.as_str()
    }

    /// The text of the message.
    pub fn content(&self) -> (r: &str)
        ensures
            r@ == self@.content,
            !spec_is_blank(r@),
    {
        proof {
            use_type_invariant(self);
        }
        self.content.as_str()
    }
}

/// Where a delivery stands, as plain values.
pub enum DeliveryView {
    Resolving(WebhookMessageView),
    Sending(WebhookMessageView),
    Delivered,
    Failed(SendErrorView),
}

/// One `discord_send` on its way. The state says what the host does next:
/// resolve the webhook, send the message through it, or return to the script.
#[derive(Debug, PartialEq, Eq)]
pub enum Delivery {
    /// Next, the host resolves the webhook that the message's URL names.
    Resolving(WebhookMessage),
    /// Next, the host sends the message through the resolved webhook.
    Sending(WebhookMessage),
    /// The message was sent: the call returns without an error.
    Delivered,
    /// The call raises this error in the script.
    Failed(SendError),
}

impl View for Delivery {
    type V = DeliveryView;

    open spec fn view(&self) -> DeliveryView {
        match self {
            Delivery::Resolving(message) => DeliveryView::Resolving(message@),
            Delivery::Sending(message) => DeliveryView::Sending(message@),
            Delivery::Delivered => DeliveryView::Delivered,
            Delivery::Failed(error) => DeliveryView::Failed(error@),
        }
    }
}

impl Clone for Delivery {
    fn clone(&self) -> (copy: Delivery)
        ensures
            copy@ == self@,
    {
        match self {
            Delivery::Resolving(message) => Delivery::Resolving(message.clone()),
            Delivery::Sending(message) => Delivery::Sending(message.clone()),
            Delivery::Delivered => Delivery::Delivered,
            Delivery::Failed(error) => Delivery::Failed(error.clone()),
        }
    }
}

impl DeliveryView {
    /// Whether the call is over, with nothing left for the host to do.
    pub open spec fn finished(self) -> bool {
        self is Delivered || self is Failed
    }

    /// The state after the host has done the pending step, with `outcome`:
    /// `Ok` where the step succeeded, the cause where it failed. Resolving
    /// leads to sending, sending to the end, and a failure ends the delivery
    /// at once. A finished delivery stays as it is.
    pub open spec fn step(self, outcome: Result<(), Seq<char>>) -> DeliveryView {
        match self {
            DeliveryView::Resolving(message) => match outcome {
                Ok(_) => DeliveryView::Sending(message),
                Err(cause) => DeliveryView::Failed(SendErrorView::Transport(Stage::Resolve, cause)),
            },
            DeliveryView::Sending(message) => match outcome {
                Ok(_) => DeliveryView::Delivered,
                Err(cause) => DeliveryView::Failed(SendErrorView::Transport(Stage::Send, cause)),
            },
            DeliveryView::Delivered => DeliveryView::Delivered,
            DeliveryView::Failed(error) => DeliveryView::Failed(error),
        }
    }
}

/// The state in which a `discord_send` with these arguments starts: failed, by
/// the first blank parameter, or about to resolve the webhook.
pub open spec fn begin(webhook_url: Seq<char>, username: Seq<char>, message: Seq<char>) -> DeliveryView {
    match first_blank(webhook_url, username, message) {
        Some(parameter) => DeliveryView::Failed(SendErrorView::Blank(parameter)),
        None => DeliveryView::Resolving(
            WebhookMessageView { webhook_url, username, content: message },
        ),
    }
}

/// What the host reports of a step, as plain values.
pub open spec fn outcome_view(outcome: Result<(), String>) -> Result<(), Seq<char>> {
    match outcome {
        Ok(_) => Ok(()),
        Err(cause) => Err(cause@),
    }
}

/// Starts a `discord_send`: checks the arguments, in order, before anything
/// is sent.
pub fn discord_send(webhook_url: String, username: String, message: String) -> (delivery: Delivery)
    ensures
        delivery@ == begin(webhook_url@, username@, message@),
{
    match WebhookMessage::new(webhook_url, username, message) {
        Ok(message) => Delivery::Resolving(message),
        Err(error) => Delivery::Failed(error),
    }
}

impl Delivery {
    /// Whether the call is over, with nothing left for the host to do.
    pub fn is_finished(&self) -> (r: bool)
        ensures
            r == self@.finished(),
    {
        match self {
            Delivery::Resolving(_) => false,
            Delivery::Sending(_) => false,
            Delivery::Delivered => true,
            Delivery::Failed(_) => true,
        }
    }

    /// Takes in what became of the pending step and moves on.
    pub fn advance(self, outcome: Result<(), String>) -> (next: Delivery)
        ensures
            next@ == self@.step(outcome_view(outcome)),
    {
        match self {
            Delivery::Resolving(message) => match outcome {
                Ok(_) => Delivery::Sending(message),
                Err(cause) => Delivery::Failed(SendError::Transport(Stage::Resolve, cause)),
            },
            Delivery::Sending(message) => match outcome {
                Ok(_) => Delivery::Delivered,
                Err(cause) => Delivery::Failed(SendError::Transport(Stage::Send, cause)),
            },
            Delivery::Delivered => Delivery::Delivered,
            Delivery::Failed(error) => Delivery::Failed(error),
        }
    }
}

/// A blank argument is refused with the error that names its parameter,
/// provided that no argument checked before it is blank as well. The call is
/// then over before its first step: nothing is resolved and nothing is sent.
pub proof fn lemma_blank_argument_is_refused(
    webhook_url: Seq<char>,
    username: Seq<char>,
    message: Seq<char>,
    parameter: Parameter,
)
    requires
        spec_is_blank(parameter.argument(webhook_url, username, message)),
        forall|earlier: Parameter| #[trigger]
            earlier.checked_before(parameter) ==> !spec_is_blank(
                earlier.argument(webhook_url, username, message),
            ),
    ensures
        begin(webhook_url, username, message) == DeliveryView::Failed(
            SendErrorView::Blank(parameter),
        ),
        begin(webhook_url, username, message).finished(),
        SendErrorView::Blank(parameter).message() == parameter.spec_name() + " cannot be empty"@,
{
    assert(Parameter::WebhookUrl.checked_before(Parameter::Username));
    assert(Parameter::WebhookUrl.checked_before(Parameter::Message));
    assert(Parameter::Username.checked_before(Parameter::Message));
}

/// Whichever argument is blank, the call fails with a validation error that
/// names a parameter whose argument is blank, the first of them, and it is
/// over before its first step, whatever the host reports afterwards.
pub proof fn lemma_blank_arguments_send_nothing(
    webhook_url: Seq<char>,
    username: Seq<char>,
    message: Seq<char>,
)
    requires
        spec_is_blank(webhook_url) || spec_is_blank(username) || spec_is_blank(message),
    ensures
        first_blank(webhook_url, username, message) is Some,
        spec_is_blank(first_blank(webhook_url, username, message)->0.argument(webhook_url, username, message)),
        forall|earlier: Parameter| #[trigger]
            earlier.checked_before(first_blank(webhook_url, username, message)->0) ==> !spec_is_blank(
                earlier.argument(webhook_url, username, message),
            ),
        begin(webhook_url, username, message) == DeliveryView::Failed(
            SendErrorView::Blank(first_blank(webhook_url, username, message)->0),
        ),
        forall|outcome: Result<(), Seq<char>>| #[trigger]
            begin(webhook_url, username, message).step(outcome) == begin(
                webhook_url,
                username,
                message,
            ),
{
}

/// A finished delivery stays as it is, whatever the host reports.
pub proof fn lemma_finished_is_final(state: DeliveryView, outcome: Result<(), Seq<char>>)
    requires
        state.finished(),
    ensures
        state.step(outcome) == state,
{
}

/// With three arguments of which none is blank, the call resolves, then
/// sends, and stops at the first step that fails: it is delivered exactly if
/// both steps succeed, and else fails by the stage that failed, with the
/// cause that the transport gave.
pub proof fn lemma_delivery_follows_the_transport(
    webhook_url: Seq<char>,
    username: Seq<char>,
    message: Seq<char>,
    resolved: Result<(), Seq<char>>,
    sent: Result<(), Seq<char>>,
)
    requires
        !spec_is_blank(webhook_url),
        !spec_is_blank(username),
        !spec_is_blank(message),
    ensures
        begin(webhook_url, username, message) == DeliveryView::Resolving(
            WebhookMessageView { webhook_url, username, content: message },
        ),
        resolved is Err ==> begin(webhook_url, username, message).step(resolved)
            == DeliveryView::Failed(SendErrorView::Transport(Stage::Resolve, resolved->Err_0)),
        resolved is Ok ==> begin(webhook_url, username, message).step(resolved)
            == DeliveryView::Sending(WebhookMessageView { webhook_url, username, content: message }),
        resolved is Ok && sent is Err ==> begin(webhook_url, username, message).step(resolved).step(
            sent,
        ) == DeliveryView::Failed(SendErrorView::Transport(Stage::Send, sent->Err_0)),
        resolved is Ok && sent is Ok ==> begin(webhook_url, username, message).step(resolved).step(
            sent,
        ) == DeliveryView::Delivered,
{
}

/// The message of a transport error ends in the cause that the transport gave.
pub proof fn lemma_transport_message_ends_in_cause(stage: Stage, cause: Seq<char>)
    ensures
        ({
            let text = SendErrorView::Transport(stage, cause).message();
            &&& text.len() >= cause.len()
            &&& text.subrange(text.len() - cause.len(), text.len() as int) == cause
        }),
{
    let text = SendErrorView::Transport(stage, cause).message();
    assert(text.subrange(text.len() - cause.len(), text.len() as int) =~= cause);
}

} // verus!
