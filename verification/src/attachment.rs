//! A stored attachment as it is handed out: its bytes as base64 text.

use vstd::prelude::*;
use crate::text::opt_text;

verus! {

/// A stored attachment with its content.
#[derive(Debug, Clone, PartialEq, Eq)]
pub struct AttachmentContent {
    pub id: i64,
    pub filename: Option<String>,
    pub content_type: Option<String>,
    /// The bytes, in standard base64 with padding.
    pub content_base64: String,
}

/// What an [`AttachmentContent`] holds.
pub struct AttachmentContentView {
    pub id: int,
    pub filename: Option<Seq<char>>,
    pub content_type: Option<Seq<char>>,
    pub content_base64: Seq<char>,
}

impl View for AttachmentContent {
    type V = AttachmentContentView;

    open spec fn view(&self) -> AttachmentContentView {
        AttachmentContentView {
            id: self.id as int,
            filename: opt_text(self.filename),
            content_type: opt_text(self.content_type),
            content_base64: self.content_base64@,
        }
    }
}

/// The text that the base64 crate's `STANDARD` engine encodes bytes as.
pub uninterp spec fn base64_standard(bytes: Seq<u8>) -> Seq<char>;

/// The number of bytes must leave room for the length of the encoded text,
/// four characters for every three bytes begun.
pub open spec fn encodable(len: nat) -> bool {
    len / 3 * 4 + 4 <= usize::MAX
}

/// Calls `Engine::encode` on `base64::engine::general_purpose::STANDARD`.
/// That function panics where the length of its output does not fit in
/// `usize`, which `requires` leaves out. The contract only names the result.
#[verifier::external_body]
fn encode_standard(bytes: &[u8]) -> (r: String)
    requires
        encodable(bytes@.len()),
    ensures
        r@ == base64_standard(bytes@),
{
    base64::Engine::encode(&base64::engine::general_purpose::STANDARD, bytes)
}

/// The attachment `id` of a stored message, with its bytes encoded.
pub fn attachment_content(
    id: i64,
    filename: Option<String>,
    content_type: Option<String>,
    content: &[u8],
) -> (r: AttachmentContent)
    requires
        encodable(content@.len()),
    ensures
        r@ == (AttachmentContentView {
            id: id as int,
            filename: opt_text(filename),
            content_type: opt_text(content_type),
            content_base64: base64_standard(content@),
        }),
{
    AttachmentContent { id, filename, content_type, content_base64: encode_standard(content) }
}

} // verus!
