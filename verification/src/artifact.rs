//! The artifact model: what a producer publishes and a viewer receives, with
//! the tag and payload that stand for its content on the wire.

use vstd::prelude::*;
use vstd::string::*;
use crate::outside::{
    base64_encode, base64_standard, json_quote, json_string_literal, random_uuid_hyphenated,
    unix_nanos_now,
};
use crate::text::{append_decimal, decimal_text, same_text};

verus! {

/// The closed set of content variants.
#[derive(Clone, Copy, Debug, PartialEq, Eq, Structural)]
pub enum ContentKind {
    Png,
    Svg,
    Plotly,
    Vega,
    Html,
}

/// One visual payload. `Png` holds base64 text, `Svg` and `Html` raw markup,
/// `Plotly` and `Vega` raw JSON text.
#[derive(Debug, PartialEq, Eq)]
pub enum PlotContent {
    Png(String),
    Svg(String),
    Plotly(String),
    Vega(String),
    Html(String),
}

/// A content value as mathematics: its variant and the characters it carries.
pub struct ContentView {
    pub kind: ContentKind,
    pub data: Seq<char>,
}

impl View for PlotContent {
    type V = ContentView;

    open spec fn view(&self) -> ContentView {
        match *self {
            PlotContent::Png(s) => ContentView { kind: ContentKind::Png, data: s@ },
            PlotContent::Svg(s) => ContentView { kind: ContentKind::Svg, data: s@ },
            PlotContent::Plotly(s) => ContentView { kind: ContentKind::Plotly, data: s@ },
            PlotContent::Vega(s) => ContentView { kind: ContentKind::Vega, data: s@ },
            PlotContent::Html(s) => ContentView { kind: ContentKind::Html, data: s@ },
        }
    }
}

/// The discriminant text that names a variant on the wire.
pub open spec fn tag_text(kind: ContentKind) -> Seq<char> {
    match kind {
        ContentKind::Png => "Png"@,
        ContentKind::Svg => "Svg"@,
        ContentKind::Plotly => "Plotly"@,
        ContentKind::Vega => "Vega"@,
        ContentKind::Html => "Html"@,
    }
}

/// The variant that a discriminant text names, if any.
pub open spec fn kind_of_tag(tag: Seq<char>) -> Option<ContentKind> {
    if tag == "Png"@ {
        Some(ContentKind::Png)
    } else if tag == "Svg"@ {
        Some(ContentKind::Svg)
    } else if tag == "Plotly"@ {
        Some(ContentKind::Plotly)
    } else if tag == "Vega"@ {
        Some(ContentKind::Vega)
    } else if tag == "Html"@ {
        Some(ContentKind::Html)
    } else {
        None
    }
}

/// The content that a wire pair of discriminant and payload stands for.
pub open spec fn decode_content(tag: Seq<char>, data: Seq<char>) -> Option<ContentView> {
    match kind_of_tag(tag) {
        Some(kind) => Some(ContentView { kind, data }),
        None => None,
    }
}

impl ContentKind {
    /// The discriminant text of this variant.
    pub fn tag(self) -> (text: &'static str)
        ensures
            text@ == tag_text(self),
    {
        match self {
            ContentKind::Png => "Png",
            ContentKind::Svg => "Svg",
            ContentKind::Plotly => "Plotly",
            ContentKind::Vega => "Vega",
            ContentKind::Html => "Html",
        }
    }

    /// Reads a discriminant text; `None` for a text that names no variant.
    pub fn from_tag(tag: &str) -> (kind: Option<ContentKind>)
        ensures
            kind == kind_of_tag(tag@),
    {
        if same_text(tag, "Png") {
            Some(ContentKind::Png)
        } else if same_text(tag, "Svg") {
            Some(ContentKind::Svg)
        } else if same_text(tag, "Plotly") {
            Some(ContentKind::Plotly)
        } else if same_text(tag, "Vega") {
            Some(ContentKind::Vega)
        } else if same_text(tag, "Html") {
            Some(ContentKind::Html)
        } else {
            None
        }
    }
}

impl Clone for PlotContent {
    fn clone(&self) -> (copy: Self)
        ensures
            copy == *self,
    {
        match self {
            PlotContent::Png(s) => PlotContent::Png(s.clone()),
            PlotContent::Svg(s) => PlotContent::Svg(s.clone()),
            PlotContent::Plotly(s) => PlotContent::Plotly(s.clone()),
            PlotContent::Vega(s) => PlotContent::Vega(s.clone()),
            PlotContent::Html(s) => PlotContent::Html(s.clone()),
        }
    }
}

impl PlotContent {
    /// Builds the content of the given variant around `data`.
    pub fn from_parts(kind: ContentKind, data: String) -> (content: PlotContent)
        ensures
            content@ == (ContentView { kind, data: data@ }),
    {
        match kind {
            ContentKind::Png => PlotContent::Png(data),
            ContentKind::Svg => PlotContent::Svg(data),
            ContentKind::Plotly => PlotContent::Plotly(data),
            ContentKind::Vega => PlotContent::Vega(data),
            ContentKind::Html => PlotContent::Html(data),
        }
    }

    /// A raster image: the bytes of a PNG file, held as base64 text.
    pub fn png(data: &[u8]) -> (content: PlotContent)
        requires
            data@.len() / 3 * 4 + 4 <= usize::MAX,
        ensures
            content@ == (ContentView { kind: ContentKind::Png, data: base64_standard(data@) }),
    {
        PlotContent::Png(base64_encode(data))
    }

    /// The variant of this content.
    pub fn kind(&self) -> (kind: ContentKind)
        ensures
            kind == self@.kind,
    {
        match self {
            PlotContent::Png(_) => ContentKind::Png,
            PlotContent::Svg(_) => ContentKind::Svg,
            PlotContent::Plotly(_) => ContentKind::Plotly,
            PlotContent::Vega(_) => ContentKind::Vega,
            PlotContent::Html(_) => ContentKind::Html,
        }
    }

    /// The payload text of this content.
    pub fn data(&self) -> (text: &str)
        ensures
            text@ == self@.data,
    {
        match self {
            PlotContent::Png(s) => s.as_str(),
            PlotContent::Svg(s) => s.as_str(),
            PlotContent::Plotly(s) => s.as_str(),
            PlotContent::Vega(s) => s.as_str(),
            PlotContent::Html(s) => s.as_str(),
        }
    }

    /// Decodes a wire pair; `None` exactly when the discriminant names no
    /// variant.
    pub fn from_wire(tag: &str, data: String) -> (content: Option<PlotContent>)
        ensures
            match content {
                Some(c) => decode_content(tag@, data@) == Some(c@),
                None => decode_content(tag@, data@) is None,
            },
    {
        match ContentKind::from_tag(tag) {
            Some(kind) => Some(PlotContent::from_parts(kind, data)),
            None => None,
        }
    }
}

/// Decoding the discriminant and payload of a content gives that content
/// back: the same variant and the same payload text.
pub proof fn lemma_wire_round_trip(content: ContentView)
    ensures
        decode_content(tag_text(content.kind), content.data) == Some(content),
{
    lemma_tags_distinct();
}

/// The five discriminant texts differ from one another.
pub proof fn lemma_tags_distinct()
    ensures
        forall|a: ContentKind, b: ContentKind| tag_text(a) == tag_text(b) ==> a == b,
        forall|k: ContentKind| #[trigger] kind_of_tag(tag_text(k)) == Some(k),
{
    reveal_strlit("Png");
    reveal_strlit("Svg");
    reveal_strlit("Plotly");
    reveal_strlit("Vega");
    reveal_strlit("Html");
    assert("Png"@.len() == 3 && "Svg"@.len() == 3 && "Plotly"@.len() == 6 && "Vega"@.len() == 4
        && "Html"@.len() == 4);
    assert("Png"@[0] == 'P' && "Svg"@[0] == 'S' && "Vega"@[0] == 'V' && "Html"@[0] == 'H');
}

/// Milliseconds since the epoch for a count of nanoseconds, as a 64-bit
/// unsigned value: the quotient rounds toward zero and keeps its low 64 bits.
pub open spec fn millis_of_nanos(nanos: int) -> int {
    let whole = if nanos >= 0 {
        nanos / 1_000_000
    } else {
        -((-nanos) / 1_000_000)
    };
    whole % 0x1_0000_0000_0000_0000
}

/// Converts a clock reading in nanoseconds to the millisecond timestamp that
/// an artifact carries.
pub fn millis_from_nanos(nanos: i128) -> (millis: u64)
    ensures
        millis == millis_of_nanos(nanos as int),
{
    let whole: i128 = nanos / 1_000_000;
    let low: u64 = #[verifier::truncate] (whole as u64);
    assert(low == (whole as int) % 0x1_0000_0000_0000_0000) by {
        if whole >= 0 {
            let pos: u128 = whole as u128;
            assert((pos as u64) == pos % 0x1_0000_0000_0000_0000u128) by (bit_vector);
        } else {
            let neg: u128 = (-whole) as u128;
            let rest: u128 = neg % 0x1_0000_0000_0000_0000u128;
            let back: u64 = if rest == 0 {
                0u64
            } else {
                (0x1_0000_0000_0000_0000u128 - rest) as u64
            };
            assert(low == back) by (bit_vector)
                requires
                    whole < 0,
                    neg == (-whole) as u128,
                    rest == neg % 0x1_0000_0000_0000_0000u128,
                    low == whole as u64,
                    back == if rest == 0 {
                        0u64
                    } else {
                        (0x1_0000_0000_0000_0000u128 - rest) as u64
                    },
            ;
        }
    }
    low
}

/// One published artifact: identity, creation time and content.
#[derive(Debug, PartialEq, Eq)]
pub struct PlotMessage {
    pub id: String,
    /// Milliseconds since the epoch.
    pub timestamp: u64,
    pub content: PlotContent,
}

/// An artifact as mathematics.
pub struct MessageView {
    pub id: Seq<char>,
    pub timestamp: u64,
    pub content: ContentView,
}

impl View for PlotMessage {
    type V = MessageView;

    open spec fn view(&self) -> MessageView {
        MessageView { id: self.id@, timestamp: self.timestamp, content: self.content@ }
    }
}

impl Clone for PlotMessage {
    fn clone(&self) -> (copy: Self)
        ensures
            copy == *self,
    {
        PlotMessage {
            id: self.id.clone(),
            timestamp: self.timestamp,
            content: self.content.clone(),
        }
    }
}

/// The wire text of an artifact whose identifier and payload have already
/// been turned into JSON string literals.
pub open spec fn wire_frame(
    id_literal: Seq<char>,
    timestamp: u64,
    tag: Seq<char>,
    data_literal: Seq<char>,
) -> Seq<char> {
    "{\"id\":"@ + id_literal + ",\"timestamp\":"@ + decimal_text(timestamp as nat)
        + ",\"content\":{\"type\":\""@ + tag + "\",\"data\":"@ + data_literal + "}}"@
}

/// The wire text of an artifact: a JSON object that holds the identifier, the
/// timestamp and, under `content`, the discriminant and the payload.
pub open spec fn wire_text(message: MessageView) -> Seq<char> {
    wire_frame(
        json_string_literal(message.id),
        message.timestamp,
        tag_text(message.content.kind),
        json_string_literal(message.content.data),
    )
}

/// An artifact could not be put into wire form.
#[derive(Clone, Copy, Debug, PartialEq, Eq, Structural)]
pub enum EncodeError {
    /// The identifier or the payload has no JSON string literal.
    Text,
}

/// Assembles the wire text around literals that are already quoted.
pub fn frame_wire(id_literal: &str, timestamp: u64, kind: ContentKind, data_literal: &str) -> (text:
    String)
    ensures
        text@ == wire_frame(id_literal@, timestamp, tag_text(kind), data_literal@),
{
    let mut text = String::from_str("{\"id\":");
    text.append(id_literal);
    text.append(",\"timestamp\":");
    append_decimal(&mut text, timestamp);
    text.append(",\"content\":{\"type\":\"");
    text.append(kind.tag());
    text.append("\",\"data\":");
    text.append(data_literal);
    text.append("}}");
    text
}

/// What encoding returns for each outcome of quoting the identifier and the
/// payload: the framed text when both succeeded, an error otherwise.
pub fn encode_quoted<E>(
    id_literal: Result<String, E>,
    timestamp: u64,
    kind: ContentKind,
    data_literal: Result<String, E>,
) -> (text: Result<String, EncodeError>)
    ensures
        match (id_literal, data_literal) {
            (Ok(i), Ok(d)) => text matches Ok(t) && t@ == wire_frame(
                i@,
                timestamp,
                tag_text(kind),
                d@,
            ),
            _ => text == Err::<String, EncodeError>(EncodeError::Text),
        },
{
    match (id_literal, data_literal) {
        (Ok(i), Ok(d)) => Ok(frame_wire(i.as_str(), timestamp, kind, d.as_str())),
        _ => Err(EncodeError::Text),
    }
}

impl PlotMessage {
    /// Builds the artifact with the given identifier and content, created at
    /// the given clock reading.
    pub fn assemble(id: String, nanos: i128, content: PlotContent) -> (message: PlotMessage)
        ensures
            message.id == id,
            message.timestamp == millis_of_nanos(nanos as int),
            message.content == content,
    {
        PlotMessage { id, timestamp: millis_from_nanos(nanos), content }
    }

    /// Creates an artifact around `content`, with a fresh random identifier
    /// and the current time.
    pub fn new(content: PlotContent) -> (message: PlotMessage)
        ensures
            message.content == content,
            message.id@.len() == 36,
    {
        let id = random_uuid_hyphenated();
        let nanos = unix_nanos_now();
        PlotMessage::assemble(id, nanos, content)
    }

    /// Encodes the artifact as its wire text. Every artifact has one.
    pub fn encode(&self) -> (text: Result<String, EncodeError>)
        ensures
            text is Ok && text->Ok_0@ == wire_text(self@),
    {
        let id_literal = json_quote(self.id.as_str());
        let data_literal = json_quote(self.content.data());
        encode_quoted(id_literal, self.timestamp, self.content.kind(), data_literal)
    }
}

} // verus!
