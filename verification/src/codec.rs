//! The wire codec: a message as a JSON document, and a document as a frame.

use vstd::prelude::*;
use vstd::string::StringExecFns;
use crate::json::{
    Json, JsonView, items_view, lemma_list_view, lemma_object_view, members_view, parsed_text,
    printed_document, prints_back, read_json, reads_back, write_json,
};
use crate::message::{
    lemma_empty_text, names_view, ChatError, ChatMessage, ContentView, MessageContent, MessageView,
};

verus! {

/// Why a frame or a document is not a message.
#[derive(Debug, Clone, Copy, PartialEq, Eq, Structural)]
pub enum ProtocolError {
    /// The frame is neither a text frame nor a close frame.
    UnsupportedFrame,
    /// The text is not JSON.
    NotJson,
    /// The document is no object with `from` and `to` as strings and a `content`.
    NotAMessage,
    /// The `content` names no kind of message, or its payload has the wrong shape.
    UnknownContent,
    /// The printer gave no text for the message.
    NotPrinted,
    /// The text that the printer gave does not read back as the message.
    NotReadBack,
}

/// One unit of the transport: a text frame with its payload, or a control or
/// binary frame by its kind.
#[derive(Debug, PartialEq, Eq)]
pub enum Frame {
    Text(String),
    Binary,
    Ping,
    Pong,
    Close,
}

/// The mathematical value of a [`Frame`].
pub enum FrameView {
    Text(Seq<char>),
    Binary,
    Ping,
    Pong,
    Close,
}

impl View for Frame {
    type V = FrameView;

    open spec fn view(&self) -> FrameView {
        match self {
            Frame::Text(text) => FrameView::Text(text@),
            Frame::Binary => FrameView::Binary,
            Frame::Ping => FrameView::Ping,
            Frame::Pong => FrameView::Pong,
            Frame::Close => FrameView::Close,
        }
    }
}

impl Clone for Frame {
    fn clone(&self) -> (copy: Self)
        ensures
            copy@ == self@,
    {
        match self {
            Frame::Text(text) => Frame::Text(text.clone()),
            Frame::Binary => Frame::Binary,
            Frame::Ping => Frame::Ping,
            Frame::Pong => Frame::Pong,
            Frame::Close => Frame::Close,
        }
    }
}

/// The first member of an object that has the given key.
pub open spec fn member(members: Seq<(Seq<char>, JsonView)>, key: Seq<char>) -> Option<JsonView>
    decreases members.len(),
{
    if members.len() == 0 {
        None
    } else if members[0].0 == key {
        Some(members[0].1)
    } else {
        member(members.drop_first(), key)
    }
}

/// The strings of a list, where every item is a string.
pub open spec fn texts_of(items: Seq<JsonView>) -> Option<Seq<Seq<char>>> {
    if forall|i: int| 0 <= i < items.len() ==> items[i] is Text {
        Some(Seq::new(items.len(), |i: int| items[i]->Text_0))
    } else {
        None
    }
}

/// The content that a document stands for: the bare string `GetUsersList`, or
/// an object of one member whose key names the kind and whose value is the
/// payload.
pub open spec fn content_of(document: JsonView) -> Option<ContentView> {
    match document {
        JsonView::Text(tag) => if tag == "GetUsersList"@ {
            Some(ContentView::GetUsersList)
        } else {
            None
        },
        JsonView::Object(members) => if members.len() != 1 {
            None
        } else if members[0].0 == "Close"@ {
            match members[0].1 {
                JsonView::List(items) => if items.len() == 0 {
                    Some(ContentView::Close)
                } else {
                    None
                },
                _ => None,
            }
        } else if members[0].0 == "Prompt"@ {
            match members[0].1 {
                JsonView::Text(text) => Some(ContentView::Prompt(text)),
                _ => None,
            }
        } else if members[0].0 == "ListUsers"@ {
            match members[0].1 {
                JsonView::List(items) => match texts_of(items) {
                    Some(names) => Some(ContentView::ListUsers(names)),
                    None => None,
                },
                _ => None,
            }
        } else if members[0].0 == "Error"@ {
            match members[0].1 {
                JsonView::Text(kind) => if kind == "UserNotOnline"@ {
                    Some(ContentView::Error(ChatError::UserNotOnline))
                } else {
                    None
                },
                _ => None,
            }
        } else {
            None
        },
        _ => None,
    }
}

/// The message that a document stands for: an object whose members `from` and
/// `to` are strings and whose member `content` stands for a content. Other
/// members are passed over.
pub open spec fn message_of(document: JsonView) -> Result<MessageView, ProtocolError> {
    match document {
        JsonView::Object(members) => match (
            member(members, "from"@),
            member(members, "to"@),
            member(members, "content"@),
        ) {
            (Some(JsonView::Text(from)), Some(JsonView::Text(to)), Some(content)) => {
                match content_of(content) {
                    Some(content) => Ok(MessageView { from, to, content }),
                    None => Err(ProtocolError::UnknownContent),
                }
            },
            _ => Err(ProtocolError::NotAMessage),
        },
        _ => Err(ProtocolError::NotAMessage),
    }
}

/// The document that stands for a content.
pub open spec fn document_of_content(content: ContentView) -> JsonView {
    match content {
        ContentView::Close => JsonView::Object(seq![("Close"@, JsonView::List(Seq::empty()))]),
        ContentView::Prompt(text) => JsonView::Object(seq![("Prompt"@, JsonView::Text(text))]),
        ContentView::GetUsersList => JsonView::Text("GetUsersList"@),
        ContentView::ListUsers(names) => JsonView::Object(
            seq![
                (
                    "ListUsers"@,
                    JsonView::List(Seq::new(names.len(), |i: int| JsonView::Text(names[i]))),
                ),
            ],
        ),
        ContentView::Error(_) => JsonView::Object(
            seq![("Error"@, JsonView::Text("UserNotOnline"@))],
        ),
    }
}

/// The document that stands for a message: `from`, `to` and `content`, in
/// that order.
pub open spec fn document_of(message: MessageView) -> JsonView {
    JsonView::Object(
        seq![
            ("from"@, JsonView::Text(message.from)),
            ("to"@, JsonView::Text(message.to)),
            ("content"@, document_of_content(message.content)),
        ],
    )
}

/// The keys and tags of the wire format are distinct strings.
pub proof fn lemma_names_distinct()
    ensures
        "from"@ != "to"@,
        "from"@ != "content"@,
        "to"@ != "content"@,
        "Close"@ != "Prompt"@,
        "Close"@ != "ListUsers"@,
        "Close"@ != "Error"@,
        "Prompt"@ != "ListUsers"@,
        "Prompt"@ != "Error"@,
        "ListUsers"@ != "Error"@,
{
    reveal_strlit("from");
    reveal_strlit("to");
    reveal_strlit("content");
    reveal_strlit("Close");
    reveal_strlit("Prompt");
    reveal_strlit("ListUsers");
    reveal_strlit("Error");
    assert("from"@.len() == 4 && "to"@.len() == 2 && "content"@.len() == 7);
    assert("Close"@.len() == 5 && "Prompt"@.len() == 6 && "ListUsers"@.len() == 9 && "Error"@.len()
        == 5);
    assert("Close"@[0] == 'C' && "Error"@[0] == 'E');
}

/// Reading the document of a content gives the content back.
pub proof fn lemma_content_round_trip(content: ContentView)
    ensures
        content_of(document_of_content(content)) == Some(content),
{
    lemma_names_distinct();
    match content {
        ContentView::ListUsers(names) => {
            let items = Seq::new(names.len(), |i: int| JsonView::Text(names[i]));
            assert(texts_of(items)->Some_0 =~= names);
        },
        _ => {},
    }
}

/// Reading the document of a message gives the message back: sender,
/// recipient and content are kept as they were.
pub proof fn lemma_document_round_trip(message: MessageView)
    ensures
        message_of(document_of(message)) == Ok::<MessageView, ProtocolError>(message),
{
    lemma_names_distinct();
    lemma_content_round_trip(message.content);
    reveal_with_fuel(member, 3);
}

/// The document of a message can be printed: it holds no number, and no
/// object in it holds a key twice.
pub proof fn lemma_document_printable(message: MessageView)
    ensures
        document_of(message).printable(),
{
    lemma_names_distinct();
    reveal_with_fuel(JsonView::printable, 3);
    assert(document_of_content(message.content).printable());
}

/// A document in the form that the encoder writes: `from`, `to` and
/// `content`, in that order and nothing else.
pub open spec fn canonical(document: JsonView) -> bool {
    &&& document matches JsonView::Object(members)
    &&& members.len() == 3
    &&& members[0].0 == "from"@
    &&& members[1].0 == "to"@
    &&& members[2].0 == "content"@
}

/// Where a document stands for a content, it is the document of that content.
pub proof fn lemma_content_document_unique(document: JsonView, content: ContentView)
    requires
        content_of(document) == Some(content),
    ensures
        document_of_content(content) == document,
{
    match document {
        JsonView::Object(members) => {
            let payload = members[0].1;
            if members[0].0 == "Close"@ {
                assert(payload->List_0 =~= Seq::empty());
                assert(members =~= seq![("Close"@, JsonView::List(Seq::empty()))]);
            } else if members[0].0 == "Prompt"@ {
                assert(members =~= seq![("Prompt"@, payload)]);
            } else if members[0].0 == "ListUsers"@ {
                let items = payload->List_0;
                let names = texts_of(items)->Some_0;
                assert(items =~= Seq::new(names.len(), |i: int| JsonView::Text(names[i])));
                assert(members =~= seq![("ListUsers"@, payload)]);
            } else {
                assert(members =~= seq![("Error"@, payload)]);
            }
        },
        _ => {},
    }
}

/// Decoding a canonical document and encoding the message again gives the
/// same document.
pub proof fn lemma_canonical_round_trip(document: JsonView, message: MessageView)
    requires
        canonical(document),
        message_of(document) == Ok::<MessageView, ProtocolError>(message),
    ensures
        document_of(message) == document,
{
    lemma_names_distinct();
    let members = document->Object_0;
    reveal_with_fuel(member, 3);
    lemma_content_document_unique(members[2].1, message.content);
    assert(members =~= document_of(message)->Object_0);
}

/// A result of decoding, by the value of its message.
pub open spec fn decoded_view(decoded: Result<ChatMessage, ProtocolError>) -> Result<
    MessageView,
    ProtocolError,
> {
    match decoded {
        Ok(message) => Ok(message@),
        Err(error) => Err(error),
    }
}

/// A content, if there is one, by its value.
pub open spec fn content_view(content: Option<MessageContent>) -> Option<ContentView> {
    match content {
        Some(content) => Some(content@),
        None => None,
    }
}

/// Whether a string reads as the given literal.
fn same_text(text: &String, literal: &str) -> (same: bool)
    ensures
        same == (text@ == literal@),
{
    let other = String::from_str(literal);
    *text == other
}

/// The first member of `members` under `key`.
fn find_member<'a>(members: &'a Vec<(String, Json)>, key: &str) -> (found: Option<&'a Json>)
    ensures
        match found {
            Some(document) => member(members_view(members@), key@) == Some(document@),
            None => member(members_view(members@), key@) is None,
        },
{
    let ghost all = members_view(members@);
    let mut i: usize = 0;
    assert(all.skip(0) =~= all);
    while i < members.len()
        invariant
            i <= members.len(),
            all == members_view(members@),
            member(all, key@) == member(all.skip(i as int), key@),
        decreases members.len() - i,
    {
        if same_text(&members[i].0, key) {
            return Some(&members[i].1);
        }
        proof {
            assert(all.skip(i as int).drop_first() =~= all.skip(i as int + 1));
        }
        i += 1;
    }
    None
}

/// The strings of a list of documents, where each of them is a string.
fn names_of_items(items: &Vec<Json>) -> (names: Option<Vec<String>>)
    ensures
        match names {
            Some(names) => texts_of(items_view(items@)) == Some(names_view(names@)),
            None => texts_of(items_view(items@)) is None,
        },
{
    let mut names: Vec<String> = Vec::new();
    let mut i: usize = 0;
    while i < items.len()
        invariant
            i <= items.len(),
            names.len() == i,
            forall|k: int|
                0 <= k < i ==> items_view(items@)[k] == JsonView::Text(#[trigger] names[k]@),
        decreases items.len() - i,
    {
        match &items[i] {
            Json::Text(text) => {
                names.push(text.clone());
            },
            _ => {
                assert(!(items_view(items@)[i as int] is Text));
                return None;
            },
        }
        i += 1;
    }
    proof {
        let held = items_view(items@);
        assert forall|k: int| 0 <= k < held.len() implies held[k] is Text by {
            assert(held[k] == JsonView::Text(names[k]@));
        }
    }
    Some(names)
}

/// The content that a document stands for, or `None` where it stands for none.
pub fn content_of_json(document: &Json) -> (content: Option<MessageContent>)
    ensures
        content_view(content) == content_of(document@),
{
    match document {
        Json::Text(tag) => {
            if same_text(tag, "GetUsersList") {
                Some(MessageContent::GetUsersList)
            } else {
                None
            }
        },
        Json::Object(members) => {
            if members.len() != 1 {
                return None;
            }
            let tag = &members[0].0;
            let payload = &members[0].1;
            if same_text(tag, "Close") {
                match payload {
                    Json::List(items) => {
                        proof {
                            lemma_list_view(*items);
                        }
                        if items.len() == 0 {
                            Some(MessageContent::Close())
                        } else {
                            None
                        }
                    },
                    _ => None,
                }
            } else if same_text(tag, "Prompt") {
                match payload {
                    Json::Text(text) => Some(MessageContent::Prompt(text.clone())),
                    _ => None,
                }
            } else if same_text(tag, "ListUsers") {
                match payload {
                    Json::List(items) => {
                        proof {
                            lemma_list_view(*items);
                        }
                        match names_of_items(items) {
                            Some(names) => Some(MessageContent::ListUsers(names)),
                            None => None,
                        }
                    },
                    _ => None,
                }
            } else if same_text(tag, "Error") {
                match payload {
                    Json::Text(kind) => {
                        if same_text(kind, "UserNotOnline") {
                            Some(MessageContent::Error(ChatError::UserNotOnline))
                        } else {
                            None
                        }
                    },
                    _ => None,
                }
            } else {
                None
            }
        },
        _ => None,
    }
}

/// The message that a document stands for, or why it stands for none.
pub fn message_of_json(document: &Json) -> (decoded: Result<ChatMessage, ProtocolError>)
    ensures
        decoded_view(decoded) == message_of(document@),
{
    match document {
        Json::Object(members) => {
            proof {
                lemma_object_view(*members);
            }
            let from = match find_member(members, "from") {
                Some(Json::Text(from)) => from,
                _ => { return Err(ProtocolError::NotAMessage); },
            };
            let to = match find_member(members, "to") {
                Some(Json::Text(to)) => to,
                _ => { return Err(ProtocolError::NotAMessage); },
            };
            let content = match find_member(members, "content") {
                Some(content) => content,
                None => { return Err(ProtocolError::NotAMessage); },
            };
            match content_of_json(content) {
                Some(content) => Ok(ChatMessage { from: from.clone(), to: to.clone(), content }),
                None => Err(ProtocolError::UnknownContent),
            }
        },
        _ => Err(ProtocolError::NotAMessage),
    }
}

/// The list of strings that stands for a list of names.
fn items_of_names(names: &Vec<String>) -> (items: Vec<Json>)
    ensures
        items_view(items@) == Seq::new(
            names.len() as nat,
            |i: int| JsonView::Text(names_view(names@)[i]),
        ),
{
    let mut items: Vec<Json> = Vec::new();
    let mut i: usize = 0;
    while i < names.len()
        invariant
            i <= names.len(),
            items.len() == i,
            forall|k: int| 0 <= k < i ==> (#[trigger] items[k])@ == JsonView::Text(names[k]@),
        decreases names.len() - i,
    {
        items.push(Json::Text(names[i].clone()));
        i += 1;
    }
    items
}

/// An object of one member.
fn object_of_one(key: &str, value: Json) -> (document: Json)
    ensures
        document@ == JsonView::Object(seq![(key@, value@)]),
{
    let members = vec![(String::from_str(key), value)];
    proof {
        lemma_object_view(members);
        assert(members_view(members@) =~= seq![(key@, value@)]);
    }
    Json::Object(members)
}

/// The document that stands for a content.
pub fn json_of_content(content: &MessageContent) -> (document: Json)
    ensures
        document@ == document_of_content(content@),
{
    match content {
        MessageContent::Close() => {
            let items: Vec<Json> = Vec::new();
            proof {
                lemma_list_view(items);
                assert(items_view(items@) =~= Seq::empty());
            }
            object_of_one("Close", Json::List(items))
        },
        MessageContent::Prompt(text) => object_of_one("Prompt", Json::Text(text.clone())),
        MessageContent::GetUsersList => Json::Text(String::from_str("GetUsersList")),
        MessageContent::ListUsers(names) => {
            let items = items_of_names(names);
            proof {
                lemma_list_view(items);
            }
            object_of_one("ListUsers", Json::List(items))
        },
        MessageContent::Error(_) => object_of_one(
            "Error",
            Json::Text(String::from_str("UserNotOnline")),
        ),
    }
}

/// The document that stands for a message.
pub fn json_of_message(message: &ChatMessage) -> (document: Json)
    ensures
        document@ == document_of(message@),
{
    let members = vec![
        (String::from_str("from"), Json::Text(message.from.clone())),
        (String::from_str("to"), Json::Text(message.to.clone())),
        (String::from_str("content"), json_of_content(&message.content)),
    ];
    proof {
        lemma_object_view(members);
        assert(members_view(members@) =~= seq![
            ("from"@, JsonView::Text(message@.from)),
            ("to"@, JsonView::Text(message@.to)),
            ("content"@, document_of_content(message@.content)),
        ]);
    }
    Json::Object(members)
}

/// The message that a close frame stands for: no sender, no recipient, and
/// `Close` as its content.
pub open spec fn close_message() -> MessageView {
    MessageView { from: Seq::empty(), to: Seq::empty(), content: ContentView::Close }
}

/// The message that a JSON text stands for.
pub open spec fn decoded_text(text: Seq<char>) -> Result<MessageView, ProtocolError> {
    match parsed_text(text) {
        Some(document) => message_of(document),
        None => Err(ProtocolError::NotJson),
    }
}

/// The message that a frame stands for: a text frame by the document it
/// holds, a close frame as [`close_message`], and no other frame.
pub open spec fn decoded(frame: FrameView) -> Result<MessageView, ProtocolError> {
    match frame {
        FrameView::Text(text) => decoded_text(text),
        FrameView::Close => Ok(close_message()),
        _ => Err(ProtocolError::UnsupportedFrame),
    }
}

/// The text that carries a message: the text that the printer gives for the
/// message's document, where it gives one and the text reads back as the
/// message.
pub open spec fn encoded_text(message: MessageView) -> Result<Seq<char>, ProtocolError> {
    match printed_document(document_of(message)) {
        Some(text) => if decoded_text(text) == Ok::<MessageView, ProtocolError>(message) {
            Ok(text)
        } else {
            Err(ProtocolError::NotReadBack)
        },
        None => Err(ProtocolError::NotPrinted),
    }
}

/// The frame that carries a message: the close frame for `Close`, and for
/// every other content the text frame of the text that carries it.
pub open spec fn encoded(message: MessageView) -> Result<FrameView, ProtocolError> {
    if message.content is Close {
        Ok(FrameView::Close)
    } else {
        match encoded_text(message) {
            Ok(text) => Ok(FrameView::Text(text)),
            Err(error) => Err(error),
        }
    }
}

/// A result of encoding to a text, by the characters of the text.
pub open spec fn text_result_view(text: Result<String, ProtocolError>) -> Result<
    Seq<char>,
    ProtocolError,
> {
    match text {
        Ok(text) => Ok(text@),
        Err(error) => Err(error),
    }
}

/// A result of encoding, by the value of its frame.
pub open spec fn encoded_view(frame: Result<Frame, ProtocolError>) -> Result<
    FrameView,
    ProtocolError,
> {
    match frame {
        Ok(frame) => Ok(frame@),
        Err(error) => Err(error),
    }
}

/// The message that the frame of a message carries: the close message for
/// `Close`, which travels as a close frame without sender and recipient, and
/// the message itself for every other content.
pub open spec fn carried(message: MessageView) -> MessageView {
    if message.content is Close {
        close_message()
    } else {
        message
    }
}

/// Decodes a JSON text into the message that it stands for.
pub fn decode_text(text: &str) -> (decoded: Result<ChatMessage, ProtocolError>)
    ensures
        decoded_view(decoded) == decoded_text(text@),
{
    match read_json(text) {
        Some(document) => message_of_json(&document),
        None => Err(ProtocolError::NotJson),
    }
}

/// Decodes a frame into the message that it stands for.
pub fn decode(frame: &Frame) -> (decoded: Result<ChatMessage, ProtocolError>)
    ensures
        decoded_view(decoded) == self::decoded(frame@),
{
    match frame {
        Frame::Text(text) => decode_text(text.as_str()),
        Frame::Close => {
            let message = ChatMessage::new("", "", MessageContent::Close());
            proof {
                lemma_empty_text();
            }
            Ok(message)
        },
        _ => Err(ProtocolError::UnsupportedFrame),
    }
}

/// What becomes of a text that was printed for a message, once it was read
/// back: it is kept where it reads back as the message, and given up where
/// it does not.
pub fn checked_text(
    message: &ChatMessage,
    text: String,
    read: Result<ChatMessage, ProtocolError>,
) -> (checked: Result<String, ProtocolError>)
    ensures
        checked == if decoded_view(read) == Ok::<MessageView, ProtocolError>(message@) {
            Ok::<String, ProtocolError>(text)
        } else {
            Err::<String, ProtocolError>(ProtocolError::NotReadBack)
        },
{
    match read {
        Ok(read) => if read.same_as(message) {
            Ok(text)
        } else {
            Err(ProtocolError::NotReadBack)
        },
        Err(_) => Err(ProtocolError::NotReadBack),
    }
}

/// Prints the document of a message as JSON text, and reads the text back
/// before it is given out: see [`encoded_text`].
pub fn encode_text(message: &ChatMessage) -> (text: Result<String, ProtocolError>)
    ensures
        text_result_view(text) == encoded_text(message@),
{
    let document = json_of_message(message);
    proof {
        lemma_document_printable(message@);
    }
    match write_json(&document) {
        Some(text) => {
            let read = decode_text(text.as_str());
            checked_text(message, text, read)
        },
        None => Err(ProtocolError::NotPrinted),
    }
}

/// Encodes a message as the frame that carries it. `Close` always gives the
/// close frame; for another content the printer is asked for the text: see
/// [`encoded`]. A frame that is given out decodes to what the message
/// carries.
pub fn encode(message: &ChatMessage) -> (frame: Result<Frame, ProtocolError>)
    ensures
        encoded_view(frame) == encoded(message@),
        frame matches Ok(frame) ==> decoded(frame@) == Ok::<MessageView, ProtocolError>(
            carried(message@),
        ),
{
    match message.content {
        MessageContent::Close() => Ok(Frame::Close),
        _ => match encode_text(message) {
            Ok(text) => Ok(Frame::Text(text)),
            Err(error) => Err(error),
        },
    }
}

/// A close frame decodes to the close message, and the close message encodes
/// to the close frame again.
pub proof fn lemma_close_frame_round_trip()
    ensures
        decoded(FrameView::Close) == Ok::<MessageView, ProtocolError>(close_message()),
        encoded(close_message()) == Ok::<FrameView, ProtocolError>(FrameView::Close),
{
}

/// Encoding then decoding keeps what a message carries: every frame that
/// carries a message decodes to the close message for `Close`, and to the
/// message itself for every other content.
pub proof fn lemma_frame_round_trip(message: MessageView, frame: FrameView)
    requires
        encoded(message) == Ok::<FrameView, ProtocolError>(frame),
    ensures
        decoded(frame) == Ok::<MessageView, ProtocolError>(carried(message)),
{
}

/// A message has a frame wherever the printer gives a text for its document
/// and the reader gives the document back; `Close` has one always.
pub proof fn lemma_encoded_where_read_back(message: MessageView)
    ensures
        message.content is Close || reads_back(document_of(message)) ==> encoded(message) is Ok,
{
    lemma_document_round_trip(message);
}

/// Decoding then encoding keeps every frame that carries a message, the close
/// frame among them.
pub proof fn lemma_encoded_frame_round_trip(message: MessageView, frame: FrameView)
    requires
        encoded(message) == Ok::<FrameView, ProtocolError>(frame),
    ensures
        decoded(frame) matches Ok(read) && encoded(read) == Ok::<FrameView, ProtocolError>(frame),
{
}

/// Decoding then encoding keeps a frame: the close frame always, and a text
/// frame where its text is the printer's own, its document is canonical, and
/// its content is not `Close` (which is encoded as the close frame).
pub proof fn lemma_decode_encode(frame: FrameView, message: MessageView)
    requires
        decoded(frame) == Ok::<MessageView, ProtocolError>(message),
    ensures
        frame is Close ==> encoded(message) == Ok::<FrameView, ProtocolError>(frame),
        frame matches FrameView::Text(text) && prints_back(text) && canonical(
            parsed_text(text)->Some_0,
        ) && !(message.content is Close) ==> encoded(message) == Ok::<FrameView, ProtocolError>(
            frame,
        ),
{
    match frame {
        FrameView::Text(text) => {
            if canonical(parsed_text(text)->Some_0) {
                lemma_canonical_round_trip(parsed_text(text)->Some_0, message);
            }
        },
        _ => {},
    }
}

} // verus!
