//! The two closed sets of media-type tags of the protocol.

use vstd::prelude::*;
use super::texts::same_text;

verus! {

/// Discriminator of the outer envelope.
#[derive(Clone, Copy, Debug, PartialEq, Eq, Structural)]
pub enum MessageType {
    /// An encrypted envelope.
    DidcommJwe,
    /// A signed envelope.
    DidcommJws,
    /// A plain envelope.
    DidcommRaw,
}

/// Discriminator of the inner payload.
#[derive(Clone, Copy, Debug, PartialEq, Eq, Structural)]
pub enum ContentType {
    /// A forwarding instruction for a mediator.
    Forward,
    /// PDF media.
    MediaPdf,
    /// Office-document media.
    MediaOpenXml,
    /// JSON media.
    MediaJson,
    /// JSON-LD media.
    MediaJsonLd,
    /// A zip archive.
    ZipArchive,
    /// Generic binary data.
    BinaryData,
}

impl MessageType {
    /// The tag under which this envelope type goes on the wire.
    pub open spec fn tag(self) -> Seq<char> {
        match self {
            MessageType::DidcommJwe => "application/didcomm-encrypted+json"@,
            MessageType::DidcommJws => "application/didcomm-signed+json"@,
            MessageType::DidcommRaw => "application/didcomm-plain+json"@,
        }
    }

    /// The envelope type that goes under `tag`, if there is one. Tags
    /// are compared character for character.
    pub open spec fn with_tag(tag: Seq<char>) -> Option<MessageType> {
        if tag == MessageType::DidcommJwe.tag() {
            Some(MessageType::DidcommJwe)
        } else if tag == MessageType::DidcommJws.tag() {
            Some(MessageType::DidcommJws)
        } else if tag == MessageType::DidcommRaw.tag() {
            Some(MessageType::DidcommRaw)
        } else {
            None
        }
    }

    /// Reads an envelope type from its wire tag.
    pub fn from_tag(tag: &str) -> (r: Option<MessageType>)
        ensures
            r == MessageType::with_tag(tag@),
            forall|t: MessageType| tag@ == t.tag() ==> r == Some(t),
    {
        proof {
            assert forall|t: MessageType| tag@ == t.tag() implies MessageType::with_tag(tag@)
                == Some(t) by {
                if t.tag() == MessageType::DidcommJwe.tag() {
                    lemma_message_tags_differ(t, MessageType::DidcommJwe);
                } else if t.tag() == MessageType::DidcommJws.tag() {
                    lemma_message_tags_differ(t, MessageType::DidcommJws);
                }
            }
        }
        if same_text(tag, MessageType::DidcommJwe.as_str()) {
            Some(MessageType::DidcommJwe)
        } else if same_text(tag, MessageType::DidcommJws.as_str()) {
            Some(MessageType::DidcommJws)
        } else if same_text(tag, MessageType::DidcommRaw.as_str()) {
            Some(MessageType::DidcommRaw)
        } else {
            None
        }
    }

    /// The wire tag, character for character.
    pub fn as_str(&self) -> (r: &'static str)
        ensures
            r@ == self.tag(),
    {
        match self {
            MessageType::DidcommJwe => "application/didcomm-encrypted+json",
            MessageType::DidcommJws => "application/didcomm-signed+json",
            MessageType::DidcommRaw => "application/didcomm-plain+json",
        }
    }
}

/// No two envelope types share a tag: the tag tells the type.
pub proof fn lemma_message_tags_differ(a: MessageType, b: MessageType)
    requires
        a.tag() == b.tag(),
    ensures
        a == b,
{
    reveal_strlit("application/didcomm-encrypted+json");
    reveal_strlit("application/didcomm-signed+json");
    reveal_strlit("application/didcomm-plain+json");
    assert(MessageType::DidcommJwe.tag().len() == 34);
    assert(MessageType::DidcommJws.tag().len() == 31);
    assert(MessageType::DidcommRaw.tag().len() == 30);
}

/// No two payload types share a tag: the tag tells the type.
pub proof fn lemma_content_tags_differ(a: ContentType, b: ContentType)
    requires
        a.tag() == b.tag(),
    ensures
        a == b,
{
    reveal_strlit("https://didcomm.org/routing/2.0/forward");
    reveal_strlit("application/pdf");
    reveal_strlit("application/vnd.openxmlformats-");
    reveal_strlit("application/json");
    reveal_strlit("application/ld+json");
    reveal_strlit("application/zip");
    reveal_strlit("application/octet-stream");
    assert(ContentType::Forward.tag().len() == 39);
    assert(ContentType::MediaPdf.tag().len() == 15);
    assert(ContentType::MediaOpenXml.tag().len() == 31);
    assert(ContentType::MediaJson.tag().len() == 16);
    assert(ContentType::MediaJsonLd.tag().len() == 19);
    assert(ContentType::ZipArchive.tag().len() == 15);
    assert(ContentType::BinaryData.tag().len() == 24);
    // the two tags of one length differ in their last character
    assert(ContentType::MediaPdf.tag()[14] == 'f');
    assert(ContentType::ZipArchive.tag()[14] == 'p');
}

impl ContentType {
    /// The tag under which this payload type goes on the wire.
    pub open spec fn tag(self) -> Seq<char> {
        match self {
            ContentType::Forward => "https://didcomm.org/routing/2.0/forward"@,
            ContentType::MediaPdf => "application/pdf"@,
            ContentType::MediaOpenXml => "application/vnd.openxmlformats-"@,
            ContentType::MediaJson => "application/json"@,
            ContentType::MediaJsonLd => "application/ld+json"@,
            ContentType::ZipArchive => "application/zip"@,
            ContentType::BinaryData => "application/octet-stream"@,
        }
    }

    /// The payload type that goes under `tag`, if there is one. Tags are
    /// compared character for character.
    pub open spec fn with_tag(tag: Seq<char>) -> Option<ContentType> {
        if tag == ContentType::Forward.tag() {
            Some(ContentType::Forward)
        } else if tag == ContentType::MediaPdf.tag() {
            Some(ContentType::MediaPdf)
        } else if tag == ContentType::MediaOpenXml.tag() {
            Some(ContentType::MediaOpenXml)
        } else if tag == ContentType::MediaJson.tag() {
            Some(ContentType::MediaJson)
        } else if tag == ContentType::MediaJsonLd.tag() {
            Some(ContentType::MediaJsonLd)
        } else if tag == ContentType::ZipArchive.tag() {
            Some(ContentType::ZipArchive)
        } else if tag == ContentType::BinaryData.tag() {
            Some(ContentType::BinaryData)
        } else {
            None
        }
    }

    /// Reads a payload type from its wire tag.
    pub fn from_tag(tag: &str) -> (r: Option<ContentType>)
        ensures
            r == ContentType::with_tag(tag@),
            forall|t: ContentType| tag@ == t.tag() ==> r == Some(t),
    {
        proof {
            assert forall|t: ContentType| tag@ == t.tag() implies ContentType::with_tag(tag@)
                == Some(t) by {
                if t.tag() == ContentType::Forward.tag() {
                    lemma_content_tags_differ(t, ContentType::Forward);
                } else if t.tag() == ContentType::MediaPdf.tag() {
                    lemma_content_tags_differ(t, ContentType::MediaPdf);
                } else if t.tag() == ContentType::MediaOpenXml.tag() {
                    lemma_content_tags_differ(t, ContentType::MediaOpenXml);
                } else if t.tag() == ContentType::MediaJson.tag() {
                    lemma_content_tags_differ(t, ContentType::MediaJson);
                } else if t.tag() == ContentType::MediaJsonLd.tag() {
                    lemma_content_tags_differ(t, ContentType::MediaJsonLd);
                } else if t.tag() == ContentType::ZipArchive.tag() {
                    lemma_content_tags_differ(t, ContentType::ZipArchive);
                }
            }
        }
        if same_text(tag, ContentType::Forward.as_str()) {
            Some(ContentType::Forward)
        } else if same_text(tag, ContentType::MediaPdf.as_str()) {
            Some(ContentType::MediaPdf)
        } else if same_text(tag, ContentType::MediaOpenXml.as_str()) {
            Some(ContentType::MediaOpenXml)
        } else if same_text(tag, ContentType::MediaJson.as_str()) {
            Some(ContentType::MediaJson)
        } else if same_text(tag, ContentType::MediaJsonLd.as_str()) {
            Some(ContentType::MediaJsonLd)
        } else if same_text(tag, ContentType::ZipArchive.as_str()) {
            Some(ContentType::ZipArchive)
        } else if same_text(tag, ContentType::BinaryData.as_str()) {
            Some(ContentType::BinaryData)
        } else {
            None
        }
    }

    /// The wire tag, character for character.
    pub fn as_str(&self) -> (r: &'static str)
        ensures
            r@ == self.tag(),
    {
        match self {
            ContentType::Forward => "https://didcomm.org/routing/2.0/forward",
            ContentType::MediaPdf => "application/pdf",
            ContentType::MediaOpenXml => "application/vnd.openxmlformats-",
            ContentType::MediaJson => "application/json",
            ContentType::MediaJsonLd => "application/ld+json",
            ContentType::ZipArchive => "application/zip",
            ContentType::BinaryData => "application/octet-stream",
        }
    }
}

} // verus!
