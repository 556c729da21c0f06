//! The calls that the daemon is asked to serve, and how each goes over the
//! wire: under which name, with which named parameters.

use vstd::prelude::*;

verus! {

/// One call to the daemon, with everything it carries.
///
/// A call that can go to a person or to a group is meant to name exactly one
/// of the two: see [`RpcCallView::names_one_target`].
#[derive(Debug, PartialEq, Eq)]
#[allow(inconsistent_fields)]
pub enum RpcCall {
    /// `sendReaction`: react with an emoji to a message.
    SendReaction {
        recipient: Option<String>,
        group_id: Option<String>,
        emoji: String,
        target_author: String,
        target_timestamp: u64,
    },
    /// `sendReceipt`: tell a person that a message was read.
    SendReceipt { recipient: String, target_timestamp: u64 },
    /// `send`: send a message.
    Send {
        recipient: Option<String>,
        group_id: Option<String>,
        message: String,
        attachments: Vec<String>,
    },
    /// `sendTyping`: show or hide the typing indicator.
    SendTyping { recipient: Option<String>, group_id: Option<String>, stop: bool },
}

/// A call as plain text and numbers.
#[allow(inconsistent_fields)]
pub enum RpcCallView {
    SendReaction {
        recipient: Option<Seq<char>>,
        group_id: Option<Seq<char>>,
        emoji: Seq<char>,
        target_author: Seq<char>,
        target_timestamp: u64,
    },
    SendReceipt { recipient: Seq<char>, target_timestamp: u64 },
    Send {
        recipient: Option<Seq<char>>,
        group_id: Option<Seq<char>>,
        message: Seq<char>,
        attachments: Seq<Seq<char>>,
    },
    SendTyping { recipient: Option<Seq<char>>, group_id: Option<Seq<char>>, stop: bool },
}

/// The text of an optional string.
pub open spec fn text_of(value: Option<String>) -> Option<Seq<char>> {
    match value {
        Some(text) => Some(text@),
        None => None,
    }
}

/// The texts of a list of strings.
pub open spec fn texts_of(values: Seq<String>) -> Seq<Seq<char>> {
    Seq::new(values.len(), |i: int| values[i]@)
}

impl View for RpcCall {
    type V = RpcCallView;

    open spec fn view(&self) -> RpcCallView {
        match *self {
            RpcCall::SendReaction {
                recipient,
                group_id,
                emoji,
                target_author,
                target_timestamp,
            } => RpcCallView::SendReaction {
                recipient: text_of(recipient),
                group_id: text_of(group_id),
                emoji: emoji@,
                target_author: target_author@,
                target_timestamp,
            },
            RpcCall::SendReceipt { recipient, target_timestamp } => RpcCallView::SendReceipt {
                recipient: recipient@,
                target_timestamp,
            },
            RpcCall::Send { recipient, group_id, message, attachments } => RpcCallView::Send {
                recipient: text_of(recipient),
                group_id: text_of(group_id),
                message: message@,
                attachments: texts_of(attachments@),
            },
            RpcCall::SendTyping { recipient, group_id, stop } => RpcCallView::SendTyping {
                recipient: text_of(recipient),
                group_id: text_of(group_id),
                stop,
            },
        }
    }
}

impl RpcCallView {
    /// The name under which the daemon serves the call.
    pub open spec fn method(self) -> Seq<char> {
        match self {
            RpcCallView::SendReaction { .. } => "sendReaction"@,
            RpcCallView::SendReceipt { .. } => "sendReceipt"@,
            RpcCallView::Send { .. } => "send"@,
            RpcCallView::SendTyping { .. } => "sendTyping"@,
        }
    }

    /// The call goes to one target: a person or a group, not both and not
    /// neither. A receipt always goes to a person.
    pub open spec fn names_one_target(self) -> bool {
        match self {
            RpcCallView::SendReaction { recipient, group_id, .. } => (recipient is Some) != (
            group_id is Some),
            RpcCallView::SendReceipt { .. } => true,
            RpcCallView::Send { recipient, group_id, .. } => (recipient is Some) != (
            group_id is Some),
            RpcCallView::SendTyping { recipient, group_id, .. } => (recipient is Some) != (
            group_id is Some),
        }
    }
}

impl RpcCall {
    /// The name under which the daemon serves the call.
    pub fn method(&self) -> (name: &'static str)
        ensures
            name@ == self@.method(),
    {
        match self {
            RpcCall::SendReaction { .. } => "sendReaction",
            RpcCall::SendReceipt { .. } => "sendReceipt",
            RpcCall::Send { .. } => "send",
            RpcCall::SendTyping { .. } => "sendTyping",
        }
    }
}

/// The name of the call that opens the subscription to inbound events.
pub const SUBSCRIBE_METHOD: &'static str = "subscribeReceive";

/// The name of the call that closes that subscription.
pub const UNSUBSCRIBE_METHOD: &'static str = "unsubscribeReceive";

/// The value of one parameter of a call.
#[derive(Debug, PartialEq, Eq)]
pub enum ParamValue {
    /// A text.
    Text(String),
    /// A text that may be absent; an absent one goes over the wire as null.
    OptionalText(Option<String>),
    /// A number.
    Number(u64),
    /// A flag.
    Flag(bool),
    /// A list of texts.
    Texts(Vec<String>),
}

/// The value of a parameter as plain text and numbers.
pub enum ParamValueView {
    Text(Seq<char>),
    OptionalText(Option<Seq<char>>),
    Number(u64),
    Flag(bool),
    Texts(Seq<Seq<char>>),
}

impl View for ParamValue {
    type V = ParamValueView;

    open spec fn view(&self) -> ParamValueView {
        match *self {
            ParamValue::Text(text) => ParamValueView::Text(text@),
            ParamValue::OptionalText(text) => ParamValueView::OptionalText(text_of(text)),
            ParamValue::Number(number) => ParamValueView::Number(number),
            ParamValue::Flag(flag) => ParamValueView::Flag(flag),
            ParamValue::Texts(texts) => ParamValueView::Texts(texts_of(texts@)),
        }
    }
}

/// One named parameter of a call.
#[derive(Debug, PartialEq, Eq)]
pub struct Param {
    pub name: &'static str,
    pub value: ParamValue,
}

/// A named parameter as plain text and numbers.
pub struct ParamView {
    pub name: Seq<char>,
    pub value: ParamValueView,
}

impl View for Param {
    type V = ParamView;

    open spec fn view(&self) -> ParamView {
        ParamView { name: self.name@, value: self.value@ }
    }
}

/// A list of parameters as plain text and numbers.
pub open spec fn params_of(params: Seq<Param>) -> Seq<ParamView> {
    Seq::new(params.len(), |i: int| params[i]@)
}

impl RpcCallView {
    /// The parameters of the call, by name, in the order in which the call
    /// lists them.
    pub open spec fn params(self) -> Seq<ParamView> {
        match self {
            RpcCallView::SendReaction {
                recipient,
                group_id,
                emoji,
                target_author,
                target_timestamp,
            } => seq![
                ParamView { name: "recipient"@, value: ParamValueView::OptionalText(recipient) },
                ParamView { name: "groupId"@, value: ParamValueView::OptionalText(group_id) },
                ParamView { name: "emoji"@, value: ParamValueView::Text(emoji) },
                ParamView { name: "targetAuthor"@, value: ParamValueView::Text(target_author) },
                ParamView {
                    name: "targetTimestamp"@,
                    value: ParamValueView::Number(target_timestamp),
                },
            ],
            RpcCallView::SendReceipt { recipient, target_timestamp } => seq![
                ParamView { name: "recipient"@, value: ParamValueView::Text(recipient) },
                ParamView {
                    name: "targetTimestamp"@,
                    value: ParamValueView::Number(target_timestamp),
                },
            ],
            RpcCallView::Send { recipient, group_id, message, attachments } => seq![
                ParamView { name: "recipient"@, value: ParamValueView::OptionalText(recipient) },
                ParamView { name: "groupId"@, value: ParamValueView::OptionalText(group_id) },
                ParamView { name: "message"@, value: ParamValueView::Text(message) },
                ParamView { name: "attachments"@, value: ParamValueView::Texts(attachments) },
            ],
            RpcCallView::SendTyping { recipient, group_id, stop } => seq![
                ParamView { name: "recipient"@, value: ParamValueView::OptionalText(recipient) },
                ParamView { name: "groupId"@, value: ParamValueView::OptionalText(group_id) },
                ParamView { name: "stop"@, value: ParamValueView::Flag(stop) },
            ],
        }
    }
}

impl RpcCall {
    /// The parameters of the call, by name, in the order in which the call
    /// lists them.
    pub fn into_params(self) -> (params: Vec<Param>)
        ensures
            params_of(params@) == self@.params(),
    {
        let mut params: Vec<Param> = Vec::new();
        match self {
            RpcCall::SendReaction {
                recipient,
                group_id,
                emoji,
                target_author,
                target_timestamp,
            } => {
                params.push(Param { name: "recipient", value: ParamValue::OptionalText(recipient) });
                params.push(Param { name: "groupId", value: ParamValue::OptionalText(group_id) });
                params.push(Param { name: "emoji", value: ParamValue::Text(emoji) });
                params.push(Param { name: "targetAuthor", value: ParamValue::Text(target_author) });
                params.push(
                    Param { name: "targetTimestamp", value: ParamValue::Number(target_timestamp) },
                );
            },
            RpcCall::SendReceipt { recipient, target_timestamp } => {
                params.push(Param { name: "recipient", value: ParamValue::Text(recipient) });
                params.push(
                    Param { name: "targetTimestamp", value: ParamValue::Number(target_timestamp) },
                );
            },
            RpcCall::Send { recipient, group_id, message, attachments } => {
                params.push(Param { name: "recipient", value: ParamValue::OptionalText(recipient) });
                params.push(Param { name: "groupId", value: ParamValue::OptionalText(group_id) });
                params.push(Param { name: "message", value: ParamValue::Text(message) });
                params.push(Param { name: "attachments", value: ParamValue::Texts(attachments) });
            },
            RpcCall::SendTyping { recipient, group_id, stop } => {
                params.push(Param { name: "recipient", value: ParamValue::OptionalText(recipient) });
                params.push(Param { name: "groupId", value: ParamValue::OptionalText(group_id) });
                params.push(Param { name: "stop", value: ParamValue::Flag(stop) });
            },
        }
        assert(params_of(params@) =~= self@.params());
        params
    }
}

} // verus!
