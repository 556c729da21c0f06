//! The REST gateway: which requests are let through to the daemon, as which
//! call, and what the caller is told afterwards.
//!
//! A handler here does the two halves of a request that need no network:
//! before the call it checks the request and names the call to make; after
//! the call it turns the daemon's answer into the response.

use crate::client::{text_of, texts_of, RpcCall, RpcCallView};
use base64::engine::general_purpose::STANDARD;
use base64::DecodeError;
use base64::Engine;
use vstd::prelude::*;
use vstd::string::*;

verus! {

/// The number of bytes in a group identifier.
pub const GROUP_ID_LEN: usize = 32;

/// What stands in front of every attachment that is handed to the daemon.
pub const ATTACHMENT_PREFIX: &'static str = "data:image/jpeg;base64,";

/// `DecodeError` of the `base64` crate, of which nothing is looked into.
#[verifier::external_type_specification]
#[verifier::external_body]
pub struct ExDecodeError(DecodeError);

/// The bytes that a text stands for in standard base64 (the alphabet with
/// `+` and `/`, padded with `=`), or `None` for a text that is not base64.
pub uninterp spec fn standard_base64(text: Seq<char>) -> Option<Seq<u8>>;

/// `Engine::decode` of the `base64` crate, on its `STANDARD` engine: the
/// decoded bytes, or the crate's error for a text that is not base64.
#[verifier::external_body]
fn decode_standard(text: &str) -> (decoded: Result<Vec<u8>, DecodeError>)
    ensures
        match decoded {
            Ok(bytes) => standard_base64(text@) == Some(bytes@),
            Err(_) => standard_base64(text@) is None,
        },
{
    STANDARD.decode(text)
}

/// Whether a recipient is a person or a group.
#[derive(Debug, Clone, Copy, PartialEq, Eq, Structural)]
pub enum RecipientKind {
    Person,
    Group,
}

/// Whom a request is for: a person, by an identifier that is passed on as it
/// is, or a group, by its identifier in base64.
#[derive(Debug, PartialEq, Eq)]
pub struct Recipient {
    pub kind: RecipientKind,
    pub value: String,
}

/// A request to react to a message.
#[derive(Debug, PartialEq, Eq)]
pub struct React {
    pub recipient: Recipient,
    pub emoji: String,
    pub author: String,
    pub timestamp: u64,
}

/// A request to send a read receipt.
#[derive(Debug, PartialEq, Eq)]
pub struct Receive {
    pub recipient: String,
    pub timestamp: u64,
}

/// A request to send a message.
#[derive(Debug, PartialEq, Eq)]
pub struct Send {
    pub recipient: Recipient,
    pub message: String,
    pub attachments: Option<Vec<String>>,
}

/// The answer to a message that was sent.
#[derive(Debug, Clone, Copy, PartialEq, Eq, Structural)]
pub struct SendResp {
    pub timestamp: u64,
}

/// A request to send a message, in the shape that names a list of
/// recipients.
#[derive(Debug, PartialEq, Eq)]
pub struct SendCompat {
    pub recipients: Vec<String>,
    pub message: String,
}

/// A request to show or hide the typing indicator.
#[derive(Debug, PartialEq, Eq)]
pub struct Typing {
    pub recipient: Recipient,
    pub stop: bool,
}

/// Why a request is turned away before any call is made.
#[derive(Debug, Clone, Copy, PartialEq, Eq, Structural)]
pub enum Rejection {
    /// The request names nobody.
    MissingRecipient,
    /// The request names more than one recipient.
    MultipleRecipients,
    /// The group identifier is not base64.
    GroupIdNotBase64,
    /// The group identifier does not stand for 32 bytes.
    InvalidGroupId,
}

impl Rejection {
    /// The sentence that the caller gets to read.
    pub open spec fn text(self) -> Seq<char> {
        match self {
            Rejection::MissingRecipient => "Missing message recipient"@,
            Rejection::MultipleRecipients => "Multi-recipient messages are not supported"@,
            Rejection::GroupIdNotBase64 => "Group id is not valid base64"@,
            Rejection::InvalidGroupId => "Invalid group id"@,
        }
    }

    /// The sentence that the caller gets to read.
    pub fn message(&self) -> (message: &'static str)
        ensures
            message@ == self.text(),
    {
        match self {
            Rejection::MissingRecipient => "Missing message recipient",
            Rejection::MultipleRecipients => "Multi-recipient messages are not supported",
            Rejection::GroupIdNotBase64 => "Group id is not valid base64",
            Rejection::InvalidGroupId => "Invalid group id",
        }
    }
}

/// A request that did not succeed.
#[derive(Debug, PartialEq, Eq)]
pub enum GatewayError {
    /// The request itself is at fault. No call was made.
    Unprocessable(Rejection),
    /// The call to the daemon failed; the text says how, for the operator.
    Internal(String),
}

/// The status of a response to a request that is at fault.
pub const UNPROCESSABLE_ENTITY: u16 = 422;

/// The status of a response to a request whose call failed.
pub const INTERNAL_SERVER_ERROR: u16 = 500;

impl GatewayError {
    /// What the caller is told: why the request was turned away, or, for a
    /// call that failed, no more than that it did.
    pub open spec fn text(self) -> Seq<char> {
        match self {
            GatewayError::Unprocessable(why) => why.text(),
            GatewayError::Internal(_) => "Internal Server Error"@,
        }
    }

    /// What the caller is told. How a call failed is for the operator alone.
    pub fn message(&self) -> (message: &'static str)
        ensures
            message@ == self.text(),
    {
        match self {
            GatewayError::Unprocessable(why) => why.message(),
            GatewayError::Internal(_) => "Internal Server Error",
        }
    }

    /// The HTTP status that tells the caller whose fault it was.
    pub fn status(&self) -> (status: u16)
        ensures
            status == match *self {
                GatewayError::Unprocessable(_) => UNPROCESSABLE_ENTITY,
                GatewayError::Internal(_) => INTERNAL_SERVER_ERROR,
            },
    {
        match self {
            GatewayError::Unprocessable(_) => UNPROCESSABLE_ENTITY,
            GatewayError::Internal(_) => INTERNAL_SERVER_ERROR,
        }
    }
}

/// The failure of a request that names the wrong thing.
pub fn unprocessable<T>(why: Rejection) -> (failure: Result<T, GatewayError>)
    ensures
        failure == Err::<T, GatewayError>(GatewayError::Unprocessable(why)),
{
    Err(GatewayError::Unprocessable(why))
}

/// What the daemon's answer means for the caller: a success as it is, and any
/// failure as an internal error that keeps the failure's text.
pub fn or_internal_server_error<T>(outcome: Result<T, String>) -> (mapped: Result<T, GatewayError>)
    ensures
        mapped == match outcome {
            Ok(value) => Ok::<T, GatewayError>(value),
            Err(detail) => Err(GatewayError::Internal(detail)),
        },
{
    match outcome {
        Ok(value) => Ok(value),
        Err(detail) => Err(GatewayError::Internal(detail)),
    }
}

/// What is wrong with a group identifier, given what its text stands for in
/// base64: nothing, if that is exactly 32 bytes.
pub open spec fn group_id_fault(decoded: Option<Seq<u8>>) -> Option<Rejection> {
    match decoded {
        None => Some(Rejection::GroupIdNotBase64),
        Some(bytes) => if bytes.len() == GROUP_ID_LEN {
            None
        } else {
            Some(Rejection::InvalidGroupId)
        },
    }
}

/// What is wrong with a recipient, if anything. A person's identifier is
/// never looked into.
pub open spec fn recipient_fault(recipient: Recipient) -> Option<Rejection> {
    match recipient.kind {
        RecipientKind::Person => None,
        RecipientKind::Group => group_id_fault(standard_base64(recipient.value@)),
    }
}

/// The person that a recipient names, if it names one.
pub open spec fn person_of(recipient: Recipient) -> Option<Seq<char>> {
    match recipient.kind {
        RecipientKind::Person => Some(recipient.value@),
        RecipientKind::Group => None,
    }
}

/// The group that a recipient names, if it names one.
pub open spec fn group_of(recipient: Recipient) -> Option<Seq<char>> {
    match recipient.kind {
        RecipientKind::Person => None,
        RecipientKind::Group => Some(recipient.value@),
    }
}

/// The text of an optional string slice.
pub open spec fn slice_text(value: Option<&str>) -> Option<Seq<char>> {
    match value {
        Some(text) => Some(text@),
        None => None,
    }
}

/// Judges a group identifier by the outcome of decoding it.
pub fn check_group_id(decoded: &Result<Vec<u8>, DecodeError>) -> (verdict: Result<(), Rejection>)
    ensures
        verdict == match *decoded {
            Ok(bytes) => if bytes@.len() == GROUP_ID_LEN {
                Ok::<(), Rejection>(())
            } else {
                Err(Rejection::InvalidGroupId)
            },
            Err(_) => Err(Rejection::GroupIdNotBase64),
        },
{
    match decoded {
        Ok(bytes) => if bytes.len() == GROUP_ID_LEN {
            Ok(())
        } else {
            Err(Rejection::InvalidGroupId)
        },
        Err(_) => Err(Rejection::GroupIdNotBase64),
    }
}

/// Checks a recipient and splits it into the two places of a call: the
/// person and the group, of which exactly one is filled.
///
/// A person is accepted as it is. A group is accepted when its identifier is
/// base64 for exactly 32 bytes.
pub fn parse_recipient(recipient: &Recipient) -> (parsed: Result<
    (Option<&str>, Option<&str>),
    GatewayError,
>)
    ensures
        match recipient_fault(*recipient) {
            Some(why) => parsed == Err::<(Option<&str>, Option<&str>), GatewayError>(
                GatewayError::Unprocessable(why),
            ),
            None => parsed matches Ok((person, group)) && slice_text(person) == person_of(
                *recipient,
            ) && slice_text(group) == group_of(*recipient),
        },
        parsed matches Ok((person, group)) ==> (person is Some) != (group is Some),
{
    match recipient.kind {
        RecipientKind::Person => Ok((Some(recipient.value.as_str()), None)),
        RecipientKind::Group => {
            let decoded = decode_standard(recipient.value.as_str());
            match check_group_id(&decoded) {
                Ok(()) => Ok((None, Some(recipient.value.as_str()))),
                Err(why) => unprocessable(why),
            }
        },
    }
}

/// The attachments of a request as they are handed to the daemon: each with
/// the prefix in front, in the order given; none where the request has none.
pub open spec fn prefixed(attachments: Option<Vec<String>>) -> Seq<Seq<char>> {
    match attachments {
        Some(list) => Seq::new(list@.len(), |i: int| ATTACHMENT_PREFIX@ + list@[i]@),
        None => Seq::empty(),
    }
}

/// What is wrong with a list of recipients, if anything: it must name
/// exactly one.
pub open spec fn recipients_fault(recipients: Seq<String>) -> Option<Rejection> {
    if recipients.len() == 0 {
        Some(Rejection::MissingRecipient)
    } else if recipients.len() > 1 {
        Some(Rejection::MultipleRecipients)
    } else {
        None
    }
}

/// The call that a reaction leads to, or why there is none.
pub open spec fn react_plan(body: React) -> Result<RpcCallView, GatewayError> {
    match recipient_fault(body.recipient) {
        Some(why) => Err(GatewayError::Unprocessable(why)),
        None => Ok(
            RpcCallView::SendReaction {
                recipient: person_of(body.recipient),
                group_id: group_of(body.recipient),
                emoji: body.emoji@,
                target_author: body.author@,
                target_timestamp: body.timestamp,
            },
        ),
    }
}

/// The call that a read receipt leads to.
pub open spec fn receive_plan(body: Receive) -> RpcCallView {
    RpcCallView::SendReceipt { recipient: body.recipient@, target_timestamp: body.timestamp }
}

/// The call that a message leads to, or why there is none.
pub open spec fn send_plan(body: Send) -> Result<RpcCallView, GatewayError> {
    match recipient_fault(body.recipient) {
        Some(why) => Err(GatewayError::Unprocessable(why)),
        None => Ok(
            RpcCallView::Send {
                recipient: person_of(body.recipient),
                group_id: group_of(body.recipient),
                message: body.message@,
                attachments: prefixed(body.attachments),
            },
        ),
    }
}

/// The call that a message in the list shape leads to, or why there is none:
/// with exactly one recipient, a message to that person, without
/// attachments.
pub open spec fn send_compat_plan(body: SendCompat) -> Result<RpcCallView, GatewayError> {
    match recipients_fault(body.recipients@) {
        Some(why) => Err(GatewayError::Unprocessable(why)),
        None => Ok(
            RpcCallView::Send {
                recipient: Some(body.recipients@[0]@),
                group_id: None,
                message: body.message@,
                attachments: Seq::empty(),
            },
        ),
    }
}

/// The call that a typing request leads to, or why there is none.
pub open spec fn typing_plan(body: Typing) -> Result<RpcCallView, GatewayError> {
    match recipient_fault(body.recipient) {
        Some(why) => Err(GatewayError::Unprocessable(why)),
        None => Ok(
            RpcCallView::SendTyping {
                recipient: person_of(body.recipient),
                group_id: group_of(body.recipient),
                stop: body.stop,
            },
        ),
    }
}

/// A handler's decision, with the call as plain text and numbers.
pub open spec fn plan_view(plan: Result<RpcCall, GatewayError>) -> Result<
    RpcCallView,
    GatewayError,
> {
    match plan {
        Ok(call) => Ok(call@),
        Err(failure) => Err(failure),
    }
}

/// What the caller is told about a message, given the daemon's answer and
/// the timestamp read from it.
pub open spec fn send_response(outcome: Result<Result<u64, String>, String>) -> Result<
    SendResp,
    GatewayError,
> {
    match outcome {
        Ok(Ok(timestamp)) => Ok(SendResp { timestamp }),
        Ok(Err(detail)) => Err(GatewayError::Internal(detail)),
        Err(detail) => Err(GatewayError::Internal(detail)),
    }
}

/// An owned copy of an optional string slice.
fn owned(value: Option<&str>) -> (copy: Option<String>)
    ensures
        text_of(copy) == slice_text(value),
{
    match value {
        Some(text) => Some(text.to_owned()),
        None => None,
    }
}

/// Every attachment of a request with the prefix in front.
fn with_prefix(attachments: &Option<Vec<String>>) -> (out: Vec<String>)
    ensures
        texts_of(out@) == prefixed(*attachments),
{
    let mut out: Vec<String> = Vec::new();
    if let Some(list) = attachments {
        let mut i: usize = 0;
        while i < list.len()
            invariant
                i <= list@.len(),
                out@.len() == i,
                forall|k: int| 0 <= k < i ==> (#[trigger] out@[k])@ == ATTACHMENT_PREFIX@ + list@[k]@,
            decreases list@.len() - i,
        {
            out.push(ATTACHMENT_PREFIX.to_owned().concat(list[i].as_str()));
            i += 1;
        }
    }
    assert(texts_of(out@) =~= prefixed(*attachments));
    out
}

/// The handlers of the gateway, one per action.
pub struct Api;

impl Api {
    /// A reaction: the recipient is checked, then the call is named.
    pub fn react(&self, body: &React) -> (plan: Result<RpcCall, GatewayError>)
        ensures
            plan_view(plan) == react_plan(*body),
    {
        let (person, group) = match parse_recipient(&body.recipient) {
            Ok(parsed) => parsed,
            Err(failure) => {
                return Err(failure);
            },
        };
        Ok(
            RpcCall::SendReaction {
                recipient: owned(person),
                group_id: owned(group),
                emoji: body.emoji.clone(),
                target_author: body.author.clone(),
                target_timestamp: body.timestamp,
            },
        )
    }

    /// A read receipt: it goes to the person named, unchecked.
    pub fn receive(&self, body: &Receive) -> (call: RpcCall)
        ensures
            call@ == receive_plan(*body),
    {
        RpcCall::SendReceipt { recipient: body.recipient.clone(), target_timestamp: body.timestamp }
    }

    /// A message: the recipient is checked, every attachment gets the prefix
    /// in front, then the call is named.
    pub fn send(&self, body: &Send) -> (plan: Result<RpcCall, GatewayError>)
        ensures
            plan_view(plan) == send_plan(*body),
    {
        let (person, group) = match parse_recipient(&body.recipient) {
            Ok(parsed) => parsed,
            Err(failure) => {
                return Err(failure);
            },
        };
        Ok(
            RpcCall::Send {
                recipient: owned(person),
                group_id: owned(group),
                message: body.message.clone(),
                attachments: with_prefix(&body.attachments),
            },
        )
    }

    /// What the caller is told once the daemon has answered a message: the
    /// timestamp of the send, or an internal error when the call failed or
    /// its answer holds no timestamp.
    pub fn sent(&self, outcome: Result<Result<u64, String>, String>) -> (response: Result<
        SendResp,
        GatewayError,
    >)
        ensures
            response == send_response(outcome),
    {
        match or_internal_server_error(outcome) {
            Ok(read) => match or_internal_server_error(read) {
                Ok(timestamp) => Ok(SendResp { timestamp }),
                Err(failure) => Err(failure),
            },
            Err(failure) => Err(failure),
        }
    }

    /// A message in the shape that names a list of recipients. The list must
    /// hold exactly one; the message then goes to that person as any other
    /// message does, without attachments.
    pub fn send_compat(&self, body: SendCompat) -> (plan: Result<RpcCall, GatewayError>)
        ensures
            plan_view(plan) == send_compat_plan(body),
    {
        let mut b = body;
        let recipient = match b.recipients.pop() {
            Some(recipient) => recipient,
            None => {
                return unprocessable(Rejection::MissingRecipient);
            },
        };
        if b.recipients.len() > 0 {
            return unprocessable(Rejection::MultipleRecipients);
        }
        let adapted = Send {
            recipient: Recipient { kind: RecipientKind::Person, value: recipient },
            message: b.message,
            attachments: None,
        };
        self.send(&adapted)
    }

    /// A typing indicator: the recipient is checked, then the call is named.
    pub fn typing(&self, body: &Typing) -> (plan: Result<RpcCall, GatewayError>)
        ensures
            plan_view(plan) == typing_plan(*body),
    {
        let (person, group) = match parse_recipient(&body.recipient) {
            Ok(parsed) => parsed,
            Err(failure) => {
                return Err(failure);
            },
        };
        Ok(
            RpcCall::SendTyping {
                recipient: owned(person),
                group_id: owned(group),
                stop: body.stop,
            },
        )
    }
}

/// A group identifier that does not stand for exactly 32 bytes never reaches
/// the daemon.
///
/// For every recipient that names a group whose identifier is base64 for
/// some other number of bytes: the recipient is at fault, and a reaction, a
/// message or a typing request for it ends as unprocessable, with no call
/// named.
pub proof fn law_wrong_length_group_id_is_rejected(
    recipient: Recipient,
    react: React,
    send: Send,
    typing: Typing,
)
    requires
        recipient.kind == RecipientKind::Group,
        standard_base64(recipient.value@) matches Some(bytes) && bytes.len() != GROUP_ID_LEN,
        react.recipient == recipient,
        send.recipient == recipient,
        typing.recipient == recipient,
    ensures
        recipient_fault(recipient) == Some(Rejection::InvalidGroupId),
        react_plan(react) == Err::<RpcCallView, GatewayError>(
            GatewayError::Unprocessable(Rejection::InvalidGroupId),
        ),
        send_plan(send) == Err::<RpcCallView, GatewayError>(
            GatewayError::Unprocessable(Rejection::InvalidGroupId),
        ),
        typing_plan(typing) == Err::<RpcCallView, GatewayError>(
            GatewayError::Unprocessable(Rejection::InvalidGroupId),
        ),
{
}

/// A call is addressed as the daemon expects: to exactly one target, and, if
/// that is a group, by an identifier that is base64 for exactly 32 bytes.
pub open spec fn well_addressed(call: RpcCallView) -> bool {
    &&& call.names_one_target()
    &&& match call {
        RpcCallView::SendReaction { group_id: Some(id), .. } => group_id_fault(
            standard_base64(id),
        ) is None,
        RpcCallView::Send { group_id: Some(id), .. } => group_id_fault(standard_base64(id))
            is None,
        RpcCallView::SendTyping { group_id: Some(id), .. } => group_id_fault(standard_base64(id))
            is None,
        _ => true,
    }
}

/// No call goes out for both a person and a group, or for neither, or for a
/// group whose identifier is not in order.
///
/// For every request of every kind: if a call is named for it, that call is
/// well addressed. A list of recipients that is empty, or holds more than
/// one, names no call at all.
pub proof fn law_calls_are_well_addressed(
    react: React,
    receive: Receive,
    send: Send,
    compat: SendCompat,
    typing: Typing,
)
    ensures
        react_plan(react) matches Ok(call) ==> well_addressed(call),
        well_addressed(receive_plan(receive)),
        send_plan(send) matches Ok(call) ==> well_addressed(call),
        send_compat_plan(compat) matches Ok(call) ==> well_addressed(call),
        typing_plan(typing) matches Ok(call) ==> well_addressed(call),
        compat.recipients@.len() != 1 ==> send_compat_plan(compat) is Err,
{
}

} // verus!
