//! Content sent around agents, extensions and models. It can be shown to
//! humans and understood by models, and carries optional annotations.
use vstd::prelude::*;
use vstd::std_specs::convert::IntoSpec;
use vstd::string::StringExecFns;

use super::resource::ResourceContents;
use super::Annotated;

verus! {

#[derive(Debug, Clone, PartialEq)]
pub struct RawTextContent {
    pub text: String,
}

pub type TextContent = Annotated<RawTextContent>;

#[derive(Debug, Clone, PartialEq)]
pub struct RawImageContent {
    /// The base64-encoded image
    pub data: String,
    pub mime_type: String,
}

pub type ImageContent = Annotated<RawImageContent>;

#[derive(Debug, Clone, PartialEq)]
pub struct RawEmbeddedResource {
    pub resource: ResourceContents,
}

pub type EmbeddedResource = Annotated<RawEmbeddedResource>;

/// The text an embedded resource holds: its text for a text resource,
/// nothing for a binary one.
pub open spec fn embedded_text_of(r: RawEmbeddedResource) -> Seq<char> {
    match r.resource {
        ResourceContents::TextResourceContents { text, .. } => text@,
        ResourceContents::BlobResourceContents { .. } => Seq::empty(),
    }
}

impl EmbeddedResource {
    pub fn get_text(&self) -> (r: String)
        ensures
            r@ == embedded_text_of(self.raw),
    {
        match &self.raw.resource {
            ResourceContents::TextResourceContents { text, .. } => text.clone(),
            _ => String::new(),
        }
    }
}

#[derive(Debug, Clone, PartialEq)]
pub enum RawContent {
    Text(RawTextContent),
    Image(RawImageContent),
    Resource(RawEmbeddedResource),
}

pub type Content = Annotated<RawContent>;

impl RawContent {
    pub fn text<S: Into<String>>(text: S) -> (r: Self)
        ensures
            r is Text,
            <S as IntoSpec<String>>::obeys_into_spec() ==> r->Text_0.text == text.into_spec(),
    {
        RawContent::Text(RawTextContent { text: text.into() })
    }

    pub fn image<S: Into<String>, T: Into<String>>(data: S, mime_type: T) -> (r: Self)
        ensures
            r is Image,
            <S as IntoSpec<String>>::obeys_into_spec() ==> r->Image_0.data == data.into_spec(),
            <T as IntoSpec<String>>::obeys_into_spec() ==> r->Image_0.mime_type
                == mime_type.into_spec(),
    {
        RawContent::Image(RawImageContent { data: data.into(), mime_type: mime_type.into() })
    }

    pub fn resource(resource: ResourceContents) -> (r: Self)
        ensures
            r == RawContent::Resource(RawEmbeddedResource { resource }),
    {
        RawContent::Resource(RawEmbeddedResource { resource })
    }

    /// A text resource at `uri` holding `content`, of MIME type `text`.
    pub fn embedded_text<S: Into<String>, T: Into<String>>(uri: S, content: T) -> (r: Self)
        ensures
            r is Resource,
            r->Resource_0.resource is TextResourceContents,
            r->Resource_0.resource->TextResourceContents_mime_type matches Some(m) && m@ == "text"@,
            <S as IntoSpec<String>>::obeys_into_spec()
                ==> r->Resource_0.resource->TextResourceContents_uri == uri.into_spec(),
            <T as IntoSpec<String>>::obeys_into_spec()
                ==> r->Resource_0.resource->TextResourceContents_text == content.into_spec(),
    {
        RawContent::Resource(
            RawEmbeddedResource {
                resource: ResourceContents::TextResourceContents {
                    uri: uri.into(),
                    mime_type: Some(String::from_str("text")),
                    text: content.into(),
                },
            },
        )
    }

    /// The text content if this is a text.
    pub fn as_text(&self) -> (r: Option<&RawTextContent>)
        ensures
            r is Some <==> self is Text,
            r matches Some(t) ==> *t == self->Text_0,
    {
        match self {
            RawContent::Text(text) => Some(text),
            _ => None,
        }
    }

    /// The image content if this is an image.
    pub fn as_image(&self) -> (r: Option<&RawImageContent>)
        ensures
            r is Some <==> self is Image,
            r matches Some(i) ==> *i == self->Image_0,
    {
        match self {
            RawContent::Image(image) => Some(image),
            _ => None,
        }
    }

    /// The embedded resource if this is one.
    pub fn as_resource(&self) -> (r: Option<&RawEmbeddedResource>)
        ensures
            r is Some <==> self is Resource,
            r matches Some(e) ==> *e == self->Resource_0,
    {
        match self {
            RawContent::Resource(resource) => Some(resource),
            _ => None,
        }
    }
}

impl Content {
    /// Text content, with no annotation.
    pub fn text<S: Into<String>>(text: S) -> (r: Self)
        ensures
            r.raw is Text,
            r.annotations is None,
            <S as IntoSpec<String>>::obeys_into_spec() ==> r.raw->Text_0.text == text.into_spec(),
    {
        Annotated::new(RawContent::text(text))
    }
}

/// The content that a string stands for: a text, with no annotation.
pub open spec fn text_content(s: String) -> Content {
    Annotated { raw: RawContent::Text(RawTextContent { text: s }), annotations: None }
}

/// Values that can be turned into content.
pub trait IntoContents: Sized {
    /// The content that this value turns into.
    spec fn contents_of(self) -> Seq<Content>;

    fn into_contents(self) -> (r: Vec<Content>)
        ensures
            r@ == self.contents_of(),
    ;
}

impl IntoContents for Content {
    open spec fn contents_of(self) -> Seq<Content> {
        seq![self]
    }

    fn into_contents(self) -> (r: Vec<Content>) {
        let mut v: Vec<Content> = Vec::new();
        v.push(self);
        v
    }
}

impl IntoContents for String {
    open spec fn contents_of(self) -> Seq<Content> {
        seq![text_content(self)]
    }

    fn into_contents(self) -> (r: Vec<Content>) {
        let mut v: Vec<Content> = Vec::new();
        v.push(Annotated::new(RawContent::Text(RawTextContent { text: self })));
        v
    }
}

/// The text of an embedded text resource is the text it was made with;
/// a binary resource has none.
pub proof fn law_embedded_text_round_trip(
    uri: String,
    mime_type: Option<String>,
    text: String,
    blob: String,
)
    ensures
        embedded_text_of(
            RawEmbeddedResource {
                resource: ResourceContents::TextResourceContents { uri, mime_type, text },
            },
        ) == text@,
        embedded_text_of(
            RawEmbeddedResource {
                resource: ResourceContents::BlobResourceContents { uri, mime_type, blob },
            },
        ) == Seq::<char>::empty(),
{
}

} // verus!
