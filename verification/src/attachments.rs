//! Attachment resolution: how fetched attachment data becomes model-ready
//! content parts. The download itself is the runtime's business; given each
//! attachment and what its fetch yielded, everything else — classification
//! by MIME type, image encoding, inlining, truncation, and the per-item
//! degradation that never aborts a turn — is decided here.

use vstd::prelude::*;

use crate::channel::Channel;
use crate::events::Attachment;
use crate::history::Message;
use crate::history::Role;
use crate::outside::base64_of;
use crate::outside::base64_standard;
use crate::text::dec_rep;
use crate::text::starts_with_spec;
use crate::text::str_starts_with;
use crate::text::u64_to_string;

verus! {

/// How an attachment is handled, by its MIME type.
#[derive(Clone, Copy, Debug, PartialEq, Eq, Structural)]
pub enum AttachmentClass {
    /// A supported image type, sent to the model as an image.
    Image,
    /// A text-based type, inlined into the conversation.
    TextLike,
    /// Anything else, described by its metadata only.
    Opaque,
}

/// Whether a MIME type is one of the supported image types.
pub open spec fn is_image_mime(mime: Seq<char>) -> bool {
    ||| starts_with_spec(mime, "image/jpeg"@)
    ||| starts_with_spec(mime, "image/png"@)
    ||| starts_with_spec(mime, "image/gif"@)
    ||| starts_with_spec(mime, "image/webp"@)
}

/// Whether a MIME type is text-based enough to inline.
pub open spec fn is_text_mime(mime: Seq<char>) -> bool {
    ||| starts_with_spec(mime, "text/"@)
    ||| starts_with_spec(mime, "application/json"@)
    ||| starts_with_spec(mime, "application/xml"@)
    ||| starts_with_spec(mime, "application/javascript"@)
    ||| starts_with_spec(mime, "application/typescript"@)
    ||| starts_with_spec(mime, "application/toml"@)
    ||| starts_with_spec(mime, "application/yaml"@)
}

/// The class of a MIME type: images first, then text-based types, then
/// opaque.
pub open spec fn spec_classify(mime: Seq<char>) -> AttachmentClass {
    if is_image_mime(mime) {
        AttachmentClass::Image
    } else if is_text_mime(mime) {
        AttachmentClass::TextLike
    } else {
        AttachmentClass::Opaque
    }
}

/// Classify an attachment's MIME type.
pub fn classify_attachment(mime: &str) -> (r: AttachmentClass)
    ensures
        r == spec_classify(mime@),
{
    if str_starts_with(mime, "image/jpeg") || str_starts_with(mime, "image/png")
        || str_starts_with(mime, "image/gif") || str_starts_with(mime, "image/webp") {
        AttachmentClass::Image
    } else if str_starts_with(mime, "text/") || str_starts_with(mime, "application/json")
        || str_starts_with(mime, "application/xml") || str_starts_with(
        mime,
        "application/javascript",
    ) || str_starts_with(mime, "application/typescript") || str_starts_with(
        mime,
        "application/toml",
    ) || str_starts_with(mime, "application/yaml") {
        AttachmentClass::TextLike
    } else {
        AttachmentClass::Opaque
    }
}

/// What the runtime's fetch of one attachment yielded.
#[derive(Debug)]
pub enum FetchOutcome {
    /// The raw bytes of an image.
    ImageBytes(Vec<u8>),
    /// The decoded text of a text-based file.
    TextContent(String),
    /// The request itself failed.
    FetchFailed,
    /// The response arrived but its body could not be read.
    ReadFailed,
}

/// One model-ready content part.
#[derive(Debug)]
pub enum UserContentPart {
    /// An image, base64-encoded, with its media type.
    ImageBase64 { data: String, media_type: String },
    /// Plain text.
    Text(String),
}

/// How many characters of an inlined text file are kept before truncation.
pub const INLINE_TEXT_LIMIT: usize = 50000;

/// An inlined text file: truncated past the limit, with a note giving the
/// full length.
pub open spec fn inlined_text(content: Seq<char>) -> Seq<char> {
    if content.len() > 50000 {
        content.subrange(0, 50000) + "...\n[truncated — "@ + dec_rep(content.len()) + " bytes total]"@
    } else {
        content
    }
}

/// The inlined file block for a text attachment.
pub open spec fn file_block(filename: Seq<char>, mime: Seq<char>, content: Seq<char>) -> Seq<
    char,
> {
    "<file name=\""@ + filename + "\" mime=\""@ + mime + "\">\n"@ + inlined_text(content)
        + "\n</file>"@
}

/// The metadata-only description of an opaque attachment: its size in
/// kilobytes to one decimal place, or "unknown size".
pub open spec fn size_text(size_bytes: Option<u64>) -> Seq<char> {
    match size_bytes {
        Some(s) => dec_rep((s as nat * 10 / 1024) / 10) + "."@ + dec_rep((s as nat * 10 / 1024) % 10)
            + " KB"@,
        None => "unknown size"@,
    }
}

/// What one attachment becomes, given what its fetch yielded.
pub open spec fn attachment_part_is(att: Attachment, outcome: FetchOutcome, p: UserContentPart) -> bool {
    match spec_classify(att.mime_type@) {
        AttachmentClass::Image => match outcome {
            FetchOutcome::ImageBytes(bytes) => p matches UserContentPart::ImageBase64 {
                data,
                media_type,
            } && data@ == base64_of(bytes@) && media_type@ == att.mime_type@,
            _ => p matches UserContentPart::Text(t) && t@ == "[Failed to download image: "@
                + att.filename@ + "]"@,
        },
        AttachmentClass::TextLike => match outcome {
            FetchOutcome::TextContent(content) => p matches UserContentPart::Text(t) && t@
                == file_block(att.filename@, att.mime_type@, content@),
            FetchOutcome::ReadFailed => p matches UserContentPart::Text(t) && t@
                == "[Failed to read file: "@ + att.filename@ + "]"@,
            _ => p matches UserContentPart::Text(t) && t@ == "[Failed to download file: "@
                + att.filename@ + "]"@,
        },
        AttachmentClass::Opaque => p matches UserContentPart::Text(t) && t@ == "[Attachment: "@
            + att.filename@ + " ("@ + att.mime_type@ + ", "@ + size_text(att.size_bytes) + ")]"@,
    }
}

/// Turn one attachment and its fetch outcome into a content part.
///
/// Images become base64 image parts; text files are inlined (truncated past
/// the inline limit); anything else is described by its metadata. Every
/// failure degrades to a placeholder text part for that attachment alone —
/// resolution never aborts the batch.
pub fn attachment_part(att: &Attachment, outcome: &FetchOutcome) -> (p: UserContentPart)
    requires
        (outcome matches FetchOutcome::ImageBytes(bytes) ==> bytes@.len()
            <= 0x1000_0000_0000_0000),
    ensures
        attachment_part_is(*att, *outcome, p),
{
    let class = classify_attachment(att.mime_type.as_str());
    match class {
        AttachmentClass::Image => match outcome {
            FetchOutcome::ImageBytes(bytes) => {
                let data = base64_standard(bytes);
                UserContentPart::ImageBase64 { data, media_type: att.mime_type.clone() }
            },
            _ => {
                let mut t = String::from_str("[Failed to download image: ");
                t.append(att.filename.as_str());
                t.append("]");
                UserContentPart::Text(t)
            },
        },
        AttachmentClass::TextLike => match outcome {
            FetchOutcome::TextContent(content) => {
                let mut t = String::from_str("<file name=\"");
                t.append(att.filename.as_str());
                t.append("\" mime=\"");
                t.append(att.mime_type.as_str());
                t.append("\">\n");
                let len = content.as_str().unicode_len();
                if len > INLINE_TEXT_LIMIT {
                    let head = content.as_str().substring_char(0, INLINE_TEXT_LIMIT);
                    t.append(head);
                    t.append("...\n[truncated — ");
                    let len_text = u64_to_string(len as u64);
                    t.append(len_text.as_str());
                    t.append(" bytes total]");
                } else {
                    t.append(content.as_str());
                }
                t.append("\n</file>");
                proof {
                    assert(t@ =~= file_block(att.filename@, att.mime_type@, content@));
                }
                UserContentPart::Text(t)
            },
            FetchOutcome::ReadFailed => {
                let mut t = String::from_str("[Failed to read file: ");
                t.append(att.filename.as_str());
                t.append("]");
                UserContentPart::Text(t)
            },
            _ => {
                let mut t = String::from_str("[Failed to download file: ");
                t.append(att.filename.as_str());
                t.append("]");
                UserContentPart::Text(t)
            },
        },
        AttachmentClass::Opaque => {
            let mut t = String::from_str("[Attachment: ");
            t.append(att.filename.as_str());
            t.append(" (");
            t.append(att.mime_type.as_str());
            t.append(", ");
            match att.size_bytes {
                Some(s) => {
                    let tenths = (s as u128) * 10 / 1024;
                    proof {
                        vstd::arithmetic::div_mod::lemma_div_is_ordered(
                            (s as int) * 10,
                            (0xffff_ffff_ffff_ffff as int) * 10,
                            1024,
                        );
                        assert(tenths / 10 <= tenths);
                        assert(tenths % 10 < 10);
                    }
                    let whole = u64_to_string((tenths / 10) as u64);
                    let frac = u64_to_string((tenths % 10) as u64);
                    t.append(whole.as_str());
                    t.append(".");
                    t.append(frac.as_str());
                    t.append(" KB");
                },
                None => {
                    t.append("unknown size");
                },
            }
            t.append(")]");
            proof {
                assert(t@ =~= "[Attachment: "@ + att.filename@ + " ("@ + att.mime_type@ + ", "@
                    + size_text(att.size_bytes) + ")]"@);
            }
            UserContentPart::Text(t)
        },
    }
}

/// Resolve a whole attachment batch: one part per attachment, in order.
pub fn attachment_parts(atts: &Vec<Attachment>, outcomes: &Vec<FetchOutcome>) -> (r: Vec<
    UserContentPart,
>)
    requires
        atts@.len() == outcomes@.len(),
        forall|i: int|
            0 <= i < outcomes@.len() ==> ((#[trigger] outcomes@[i]) matches
                FetchOutcome::ImageBytes(bytes) ==> bytes@.len() <= 0x1000_0000_0000_0000),
    ensures
        r@.len() == atts@.len(),
        forall|i: int|
            0 <= i < r@.len() ==> attachment_part_is(atts@[i], outcomes@[i], #[trigger] r@[i]),
{
    let n = atts.len();
    let mut out: Vec<UserContentPart> = Vec::new();
    let mut i: usize = 0;
    while i < n
        invariant
            0 <= i <= n,
            n == atts@.len(),
            n == outcomes@.len(),
            out@.len() == i,
            forall|j: int|
                0 <= j < outcomes@.len() ==> ((#[trigger] outcomes@[j]) matches
                    FetchOutcome::ImageBytes(bytes) ==> bytes@.len() <= 0x1000_0000_0000_0000),
            forall|k: int|
                0 <= k < i ==> attachment_part_is(atts@[k], outcomes@[k], #[trigger] out@[k]),
        decreases n - i,
    {
        let part = attachment_part(&atts[i], &outcomes[i]);
        out.push(part);
        i = i + 1;
    }
    out
}

/// The text under which a part appears in the modelled history: inline text
/// itself; an image as a marker naming its media type (the runtime hands
/// the image payload itself to the engine).
pub open spec fn part_history_text(p: UserContentPart) -> Seq<char> {
    match p {
        UserContentPart::Text(t) => t@,
        UserContentPart::ImageBase64 { media_type, .. } => "[image: "@ + media_type@ + "]"@,
    }
}

/// The history text of a whole part list, concatenated in order.
pub open spec fn parts_history_text(parts: Seq<UserContentPart>) -> Seq<char>
    decreases parts.len(),
{
    if parts.len() == 0 {
        Seq::empty()
    } else {
        parts_history_text(parts.drop_last()) + part_history_text(parts.last())
    }
}

impl Channel {
    /// Record resolved attachment content as a user history entry, injected
    /// before the turn's prompt so the model sees the files alongside the
    /// user's text.
    pub fn push_attachment_message(&mut self, parts: &Vec<UserContentPart>)
        requires
            old(self).wf(),
        ensures
            final(self).wf(),
            final(self).state.history@.len() == old(self).state.history@.len() + 1,
            final(self).state.history@.drop_last() == old(self).state.history@,
            final(self).state.history@.last().role == Role::User,
            final(self).state.history@.last().text@ == parts_history_text(parts@),
            final(self).state == (crate::channel::ChannelState {
                history: final(self).state.history,
                ..old(self).state
            }),
            final(self).id == old(self).id,
            final(self).title == old(self).title,
            final(self).config == old(self).config,
            final(self).agent_id == old(self).agent_id,
            final(self).system_prompt == old(self).system_prompt,
            final(self).conversation_id == old(self).conversation_id,
            final(self).conversation_context == old(self).conversation_context,
    {
        let n = parts.len();
        let mut text = String::new();
        let mut i: usize = 0;
        proof {
            assert(parts_history_text(parts@.subrange(0, 0)) =~= Seq::<char>::empty());
            assert(text@ =~= parts_history_text(parts@.subrange(0, 0)));
        }
        while i < n
            invariant
                0 <= i <= n,
                n == parts@.len(),
                text@ == parts_history_text(parts@.subrange(0, i as int)),
            decreases n - i,
        {
            match &parts[i] {
                UserContentPart::Text(t) => {
                    text.append(t.as_str());
                },
                UserContentPart::ImageBase64 { media_type, .. } => {
                    text.append("[image: ");
                    text.append(media_type.as_str());
                    text.append("]");
                },
            }
            proof {
                let upto = parts@.subrange(0, i as int + 1);
                assert(upto.drop_last() =~= parts@.subrange(0, i as int));
                assert(upto.last() == parts@[i as int]);
                assert(text@ =~= parts_history_text(upto));
            }
            i = i + 1;
        }
        proof {
            assert(parts@.subrange(0, n as int) =~= parts@);
        }
        let ghost history0 = self.state.history@;
        self.state.history.push(Message { role: Role::User, text });
        proof {
            assert(self.state.history@.drop_last() =~= history0);
        }
    }
}

} // verus!
