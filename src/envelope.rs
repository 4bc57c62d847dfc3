use vstd::prelude::*;

use crate::json::{get, lemma_member_of_three, lookup, str_equal, Json, JsonView};

verus! {

/// Optional decoration of a chat message, passed through unchanged.
#[derive(Debug, Clone, PartialEq, Eq)]
pub struct ProConfig {
    pub frame_style: String,
    pub badge: String,
}

/// A message written by a user.
#[derive(Debug, Clone, PartialEq, Eq)]
pub struct ChatPayload {
    pub username: String,
    pub content: String,
    pub pro_config: Option<ProConfig>,
}

/// The unit exchanged between clients and the relay.
#[derive(Debug, Clone, PartialEq, Eq)]
pub enum Message {
    Chat(ChatPayload),
    System(String),
}

/// Why a frame could not be read as an envelope.
#[derive(Debug, Clone, Copy, PartialEq, Eq, Structural)]
pub enum DecodeError {
    /// The text is not a JSON document.
    Syntax,
    /// The document is JSON but not an envelope.
    Shape,
}

pub struct ProConfigView {
    pub frame_style: Seq<char>,
    pub badge: Seq<char>,
}

pub struct ChatView {
    pub username: Seq<char>,
    pub content: Seq<char>,
    pub pro_config: Option<ProConfigView>,
}

pub enum MessageView {
    Chat(ChatView),
    System(Seq<char>),
}

impl View for ProConfig {
    type V = ProConfigView;

    open spec fn view(&self) -> ProConfigView {
        ProConfigView { frame_style: self.frame_style@, badge: self.badge@ }
    }
}

impl View for ChatPayload {
    type V = ChatView;

    open spec fn view(&self) -> ChatView {
        ChatView {
            username: self.username@,
            content: self.content@,
            pro_config: match self.pro_config {
                Some(p) => Some(p@),
                None => None,
            },
        }
    }
}

impl View for Message {
    type V = MessageView;

    open spec fn view(&self) -> MessageView {
        match self {
            Message::Chat(c) => MessageView::Chat(c@),
            Message::System(s) => MessageView::System(s@),
        }
    }
}

/// The decoration a `pro_config` member stands for: `Some(None)` where the
/// member is absent or null, `None` where it is malformed.
pub open spec fn pro_config_of(member: Option<JsonView>) -> Option<Option<ProConfigView>> {
    match member {
        None => Some(None),
        Some(JsonView::Null) => Some(None),
        Some(p) => match (get(p, "frame_style"@), get(p, "badge"@)) {
            (Some(JsonView::Str(f)), Some(JsonView::Str(b))) => Some(
                Some(ProConfigView { frame_style: f, badge: b }),
            ),
            _ => None,
        },
    }
}

/// The chat message a payload object stands for, if it is one.
pub open spec fn chat_of(p: JsonView) -> Option<ChatView> {
    match (get(p, "username"@), get(p, "content"@), pro_config_of(get(p, "pro_config"@))) {
        (Some(JsonView::Str(u)), Some(JsonView::Str(c)), Some(pc)) => Some(
            ChatView { username: u, content: c, pro_config: pc },
        ),
        _ => None,
    }
}

/// The envelope a JSON document stands for: an object whose `type` member
/// is `"chat"` or `"system"` and whose `payload` member fits that tag.
/// Other members are ignored.
pub open spec fn decoded(j: JsonView) -> Option<MessageView> {
    match (get(j, "type"@), get(j, "payload"@)) {
        (Some(JsonView::Str(t)), Some(p)) => if t == "chat"@ {
            match chat_of(p) {
                Some(c) => Some(MessageView::Chat(c)),
                None => None,
            }
        } else if t == "system"@ {
            match p {
                JsonView::Str(s) => Some(MessageView::System(s)),
                _ => None,
            }
        } else {
            None
        },
        _ => None,
    }
}

/// The JSON document of an envelope, as it is written on the wire.
pub open spec fn envelope_json(m: MessageView) -> JsonView {
    match m {
        MessageView::Chat(c) => JsonView::Object(
            seq![
                ("type"@, JsonView::Str("chat"@)),
                ("payload"@, JsonView::Object(
                    seq![
                        ("username"@, JsonView::Str(c.username)),
                        ("content"@, JsonView::Str(c.content)),
                        ("pro_config"@, match c.pro_config {
                            None => JsonView::Null,
                            Some(p) => JsonView::Object(
                                seq![
                                    ("frame_style"@, JsonView::Str(p.frame_style)),
                                    ("badge"@, JsonView::Str(p.badge)),
                                ],
                            ),
                        }),
                    ],
                )),
            ],
        ),
        MessageView::System(s) => JsonView::Object(
            seq![("type"@, JsonView::Str("system"@)), ("payload"@, JsonView::Str(s))],
        ),
    }
}

/// Decoding the document of an envelope gives the envelope back.
pub proof fn lemma_decode_of_encode(m: MessageView)
    ensures
        decoded(envelope_json(m)) == Some(m),
{
    let e = envelope_json(m);
    let top = match e {
        JsonView::Object(t) => t,
        _ => Seq::empty(),
    };
    reveal_strlit("type");
    reveal_strlit("payload");
    reveal_strlit("chat");
    reveal_strlit("system");
    reveal_strlit("username");
    reveal_strlit("content");
    reveal_strlit("pro_config");
    reveal_strlit("frame_style");
    reveal_strlit("badge");
    assert("type"@.len() != "payload"@.len());
    assert("chat"@.len() != "system"@.len());
    assert("username"@.len() != "content"@.len());
    assert("username"@.len() != "pro_config"@.len());
    assert("content"@.len() != "pro_config"@.len());
    assert("frame_style"@.len() != "badge"@.len());
    lemma_member_of_three(top, "type"@);
    lemma_member_of_three(top, "payload"@);
    if let MessageView::Chat(c) = m {
        let inner = match top[1].1 {
            JsonView::Object(t) => t,
            _ => Seq::empty(),
        };
        lemma_member_of_three(inner, "username"@);
        lemma_member_of_three(inner, "content"@);
        lemma_member_of_three(inner, "pro_config"@);
        if let Some(p) = c.pro_config {
            let pc = match inner[2].1 {
                JsonView::Object(t) => t,
                _ => Seq::empty(),
            };
            lemma_member_of_three(pc, "frame_style"@);
            lemma_member_of_three(pc, "badge"@);
        }
    }
}

/// The payload member of a document, or null.
pub open spec fn payload_of(j: JsonView) -> JsonView {
    match get(j, "payload"@) {
        Some(p) => p,
        None => JsonView::Null,
    }
}

/// Writing out again what a document decodes to keeps the value of every
/// field the envelope was read from, and decodes to the same envelope.
pub proof fn lemma_encode_of_decode(j: JsonView)
    requires
        decoded(j) is Some,
    ensures
        ({
            let m = decoded(j)->Some_0;
            let e = envelope_json(m);
            &&& decoded(e) == decoded(j)
            &&& get(e, "type"@) == get(j, "type"@)
            &&& m is System ==> get(e, "payload"@) == get(j, "payload"@)
            &&& m is Chat ==> {
                &&& get(payload_of(e), "username"@) == get(payload_of(j), "username"@)
                &&& get(payload_of(e), "content"@) == get(payload_of(j), "content"@)
                &&& pro_config_of(get(payload_of(e), "pro_config"@)) == pro_config_of(
                    get(payload_of(j), "pro_config"@),
                )
            }
        }),
{
    lemma_decode_of_encode(decoded(j)->Some_0);
}

fn text(s: &str) -> (r: String)
    ensures
        r@ == s@,
{
    String::from_str(s)
}

fn pair(k1: &str, v1: Json, k2: &str, v2: Json) -> (r: Json)
    ensures
        r@ == JsonView::Object(seq![(k1@, v1@), (k2@, v2@)]),
{
    let ghost (w1, w2) = (v1@, v2@);
    let fields = vec![(text(k1), v1), (text(k2), v2)];
    let ghost ms = match Json::Object(fields)@ {
        JsonView::Object(ms) => ms,
        _ => Seq::empty(),
    };
    assert(ms =~= seq![(k1@, w1), (k2@, w2)]);
    Json::Object(fields)
}

impl ProConfig {
    /// The JSON object of the decoration.
    pub fn to_json(&self) -> (r: Json)
        ensures
            r@ == JsonView::Object(
                seq![
                    ("frame_style"@, JsonView::Str(self.frame_style@)),
                    ("badge"@, JsonView::Str(self.badge@)),
                ],
            ),
    {
        pair(
            "frame_style",
            Json::Str(self.frame_style.clone()),
            "badge",
            Json::Str(self.badge.clone()),
        )
    }
}

impl Message {
    /// The JSON document of the envelope.
    pub fn to_json(&self) -> (r: Json)
        ensures
            r@ == envelope_json(self@),
    {
        match self {
            Message::Chat(c) => {
                let pc = match &c.pro_config {
                    None => Json::Null,
                    Some(p) => p.to_json(),
                };
                let ghost pcv = pc@;
                assert(pcv == match c@.pro_config {
                    None => JsonView::Null,
                    Some(p) => JsonView::Object(
                        seq![
                            ("frame_style"@, JsonView::Str(p.frame_style)),
                            ("badge"@, JsonView::Str(p.badge)),
                        ],
                    ),
                });
                let user = Json::Str(c.username.clone());
                let content = Json::Str(c.content.clone());
                assert(user@ == JsonView::Str(c.username@));
                assert(content@ == JsonView::Str(c.content@));
                let fields = vec![
                    (text("username"), user),
                    (text("content"), content),
                    (text("pro_config"), pc),
                ];
                let ghost ms = match Json::Object(fields)@ {
                    JsonView::Object(ms) => ms,
                    _ => Seq::empty(),
                };
                assert(ms =~= seq![
                    ("username"@, JsonView::Str(c.username@)),
                    ("content"@, JsonView::Str(c.content@)),
                    ("pro_config"@, pcv),
                ]);
                let payload = Json::Object(fields);
                let tag = Json::Str(text("chat"));
                assert(tag@ == JsonView::Str("chat"@));
                assert(payload@ == JsonView::Object(ms));
                let r = pair("type", tag, "payload", payload);
                let ghost e = envelope_json(self@);
                let ghost top = match e { JsonView::Object(t) => t, _ => Seq::empty() };
                let ghost inner = match top[1].1 {
                    JsonView::Object(t) => t,
                    _ => Seq::empty(),
                };
                assert(inner =~= ms);
                assert(top =~= seq![
                    ("type"@, JsonView::Str("chat"@)),
                    ("payload"@, JsonView::Object(ms)),
                ]);
                r
            },
            Message::System(s) => {
                let r = pair("type", Json::Str(text("system")), "payload", Json::Str(s.clone()));
                assert(r@ =~= envelope_json(self@));
                r
            },
        }
    }

    /// Reads an envelope out of a JSON document; fails, as a whole, where the
    /// document is not one.
    pub fn from_json(j: &Json) -> (r: Result<Message, DecodeError>)
        ensures
            match r {
                Ok(m) => decoded(j@) == Some(m@),
                Err(e) => decoded(j@) is None && e == DecodeError::Shape,
            },
    {
        match (lookup(j, "type"), lookup(j, "payload")) {
            (Some(Json::Str(t)), Some(p)) => {
                if str_equal(t.as_str(), "chat") {
                    match chat_from_json(p) {
                        Some(c) => Ok(Message::Chat(c)),
                        None => Err(DecodeError::Shape),
                    }
                } else if str_equal(t.as_str(), "system") {
                    match p {
                        Json::Str(s) => Ok(Message::System(s.clone())),
                        _ => Err(DecodeError::Shape),
                    }
                } else {
                    Err(DecodeError::Shape)
                }
            },
            _ => Err(DecodeError::Shape),
        }
    }
}

fn pro_config_from_json(member: Option<&Json>) -> (r: Option<Option<ProConfig>>)
    ensures
        pro_config_of(
            match member {
                Some(v) => Some(v@),
                None => None,
            },
        ) == match r {
            Some(Some(p)) => Some(Some(p@)),
            Some(None) => Some(None),
            None => None,
        },
{
    match member {
        None => Some(None),
        Some(Json::Null) => Some(None),
        Some(p) => match (lookup(p, "frame_style"), lookup(p, "badge")) {
            (Some(Json::Str(f)), Some(Json::Str(b))) => Some(
                Some(ProConfig { frame_style: f.clone(), badge: b.clone() }),
            ),
            _ => None,
        },
    }
}

fn chat_from_json(p: &Json) -> (r: Option<ChatPayload>)
    ensures
        chat_of(p@) == match r {
            Some(c) => Some(c@),
            None => None,
        },
{
    match (lookup(p, "username"), lookup(p, "content")) {
        (Some(Json::Str(u)), Some(Json::Str(c))) => match pro_config_from_json(
            lookup(p, "pro_config"),
        ) {
            Some(pc) => Some(
                ChatPayload { username: u.clone(), content: c.clone(), pro_config: pc },
            ),
            None => None,
        },
        _ => None,
    }
}

} // verus!
