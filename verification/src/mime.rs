//! The MIME tree of a message, and what retrieval takes from it: the body
//! text and the attachments.

use vstd::prelude::*;
use crate::dates::{parse_received_time, received_time_of};
use crate::records::{AttachmentInput, AttachmentInputView, MailFetchRecord, MailFetchRecordView};
use crate::text::{lowercase, lowercased, opt_text, opt_text_copy, text_eq};

verus! {

/// One `name=value` parameter of a header.
#[derive(Debug, Clone, PartialEq, Eq)]
pub struct Param {
    pub name: String,
    pub value: String,
}

/// What a [`Param`] holds.
pub struct ParamView {
    pub name: Seq<char>,
    pub value: Seq<char>,
}

impl View for Param {
    type V = ParamView;

    open spec fn view(&self) -> ParamView {
        ParamView { name: self.name@, value: self.value@ }
    }
}

impl DeepView for Param {
    type V = ParamView;

    open spec fn deep_view(&self) -> ParamView {
        self@
    }
}

impl Param {
    /// The parameter `name=value`.
    pub fn of(name: &str, value: &str) -> (r: Param)
        ensures
            r@ == (ParamView { name: name@, value: value@ }),
    {
        Param { name: name.to_owned(), value: value.to_owned() }
    }
}

/// How a part asks to be shown.
#[derive(Debug, Clone, PartialEq, Eq)]
pub enum Disposition {
    Inline,
    Attachment,
    FormData,
    Extension(String),
}

/// What a [`Disposition`] holds.
pub enum DispositionView {
    Inline,
    Attachment,
    FormData,
    Extension(Seq<char>),
}

impl View for Disposition {
    type V = DispositionView;

    open spec fn view(&self) -> DispositionView {
        match self {
            Disposition::Inline => DispositionView::Inline,
            Disposition::Attachment => DispositionView::Attachment,
            Disposition::FormData => DispositionView::FormData,
            Disposition::Extension(other) => DispositionView::Extension(other@),
        }
    }
}

/// One node of a message's MIME tree. A node with subparts is a container;
/// a node without is a leaf and carries a body.
#[derive(Debug, PartialEq, Eq)]
pub struct MimePart {
    /// The declared content type, such as `text/plain`.
    pub mimetype: String,
    /// The parameters of the content type.
    pub type_params: Vec<Param>,
    pub disposition: Disposition,
    /// The parameters of the content disposition.
    pub disposition_params: Vec<Param>,
    /// The body with its transfer encoding undone; absent where that failed.
    pub raw_body: Option<Vec<u8>>,
    /// The body as text in its declared charset; absent where that failed.
    pub text_body: Option<String>,
    pub subparts: Vec<MimePart>,
}

/// What a [`MimePart`] holds.
pub struct MimePartView {
    pub mimetype: Seq<char>,
    pub type_params: Seq<ParamView>,
    pub disposition: DispositionView,
    pub disposition_params: Seq<ParamView>,
    pub raw_body: Option<Seq<u8>>,
    pub text_body: Option<Seq<char>>,
    pub subparts: Seq<MimePartView>,
}

/// The value of a part: its fields' values, and its subparts' values in
/// order.
pub open spec fn part_view(part: MimePart) -> MimePartView
    decreases part,
{
    MimePartView {
        mimetype: part.mimetype@,
        type_params: part.type_params.deep_view(),
        disposition: part.disposition@,
        disposition_params: part.disposition_params.deep_view(),
        raw_body: match part.raw_body {
            Some(bytes) => Some(bytes@),
            None => None,
        },
        text_body: opt_text(part.text_body),
        subparts: Seq::new(
            part.subparts.len() as nat,
            |i: int|
                if 0 <= i < part.subparts.len() {
                    part_view(part.subparts[i])
                } else {
                    arbitrary()
                },
        ),
    }
}

impl View for MimePart {
    type V = MimePartView;

    open spec fn view(&self) -> MimePartView {
        part_view(*self)
    }
}

impl DeepView for MimePart {
    type V = MimePartView;

    open spec fn deep_view(&self) -> MimePartView {
        self@
    }
}

/// The view of a part's subparts is the subparts' views, in order.
pub proof fn lemma_view_subparts(part: MimePart)
    ensures
        part@.subparts.len() == part.subparts.len(),
        forall|i: int| 0 <= i < part.subparts.len() ==> part@.subparts[i] == part.subparts[i]@,
{
}

/// The leaves below the first `n` subparts of `part`, depth first.
pub open spec fn leaves_of_first(part: MimePartView, n: nat) -> Seq<MimePartView>
    decreases part, n,
{
    if n == 0 || n > part.subparts.len() {
        Seq::empty()
    } else {
        leaves_of_first(part, (n - 1) as nat) + leaves(part.subparts[n - 1])
    }
}

/// The leaves of the tree under `part`, depth first: `part` itself where it
/// has no subparts, else the leaves of its subparts in their order.
pub open spec fn leaves(part: MimePartView) -> Seq<MimePartView>
    decreases part, part.subparts.len() + 1,
{
    if part.subparts.len() == 0 {
        seq![part]
    } else {
        leaves_of_first(part, part.subparts.len())
    }
}

/// The value of the first parameter called `name`, where there is one.
pub open spec fn param_value(params: Seq<ParamView>, name: Seq<char>) -> Option<Seq<char>>
    decreases params.len(),
{
    if params.len() == 0 {
        None
    } else if params[0].name == name {
        Some(params[0].value)
    } else {
        param_value(params.drop_first(), name)
    }
}

/// The file name that a part carries: the `filename` parameter of its
/// disposition or else the `name` parameter of its content type.
pub open spec fn part_filename(part: MimePartView) -> Option<Seq<char>> {
    match param_value(part.disposition_params, "filename"@) {
        Some(name) => Some(name),
        None => param_value(part.type_params, "name"@),
    }
}

/// A leaf is an attachment where its disposition says so or it carries a
/// file name.
pub open spec fn is_attachment(part: MimePartView) -> bool {
    part.disposition is Attachment || part_filename(part) is Some
}

/// The attachment that an attachment leaf becomes.
pub open spec fn attachment_of(part: MimePartView) -> AttachmentInputView {
    AttachmentInputView {
        filename: match part_filename(part) {
            Some(name) => name,
            None => "attachment"@,
        },
        content_type: part.mimetype,
        content: match part.raw_body {
            Some(bytes) => bytes,
            None => Seq::empty(),
        },
    }
}

/// A leaf offers body text of type `kind` where it is no attachment, its
/// content type in lower case is `kind`, and its text could be read.
pub open spec fn offers_text(part: MimePartView, kind: Seq<char>) -> bool {
    &&& !is_attachment(part)
    &&& lowercased(part.mimetype) == kind
    &&& part.text_body is Some
}

/// The text of the first of `parts` that offers text of type `kind`.
pub open spec fn first_text(parts: Seq<MimePartView>, kind: Seq<char>) -> Option<Seq<char>>
    decreases parts.len(),
{
    if parts.len() == 0 {
        None
    } else if offers_text(parts[0], kind) {
        parts[0].text_body
    } else {
        first_text(parts.drop_first(), kind)
    }
}

/// The attachments among `parts`, in their order.
pub open spec fn attachments_among(parts: Seq<MimePartView>) -> Seq<AttachmentInputView> {
    parts.filter(|p: MimePartView| is_attachment(p)).map_values(
        |p: MimePartView| attachment_of(p),
    )
}

/// What a walk over a MIME tree finds.
#[derive(Debug, Clone, PartialEq, Eq)]
pub struct Extracted {
    /// The text of the first `text/plain` leaf.
    pub plain: Option<String>,
    /// The text of the first `text/html` leaf.
    pub html: Option<String>,
    pub attachments: Vec<AttachmentInput>,
}

/// What an [`Extracted`] holds.
pub struct ExtractedView {
    pub plain: Option<Seq<char>>,
    pub html: Option<Seq<char>>,
    pub attachments: Seq<AttachmentInputView>,
}

impl View for Extracted {
    type V = ExtractedView;

    open spec fn view(&self) -> ExtractedView {
        ExtractedView {
            plain: opt_text(self.plain),
            html: opt_text(self.html),
            attachments: self.attachments.deep_view(),
        }
    }
}

/// What a walk finds among the leaves `parts`.
pub open spec fn extraction(parts: Seq<MimePartView>) -> ExtractedView {
    ExtractedView {
        plain: first_text(parts, "text/plain"@),
        html: first_text(parts, "text/html"@),
        attachments: attachments_among(parts),
    }
}

/// The first text over two runs of leaves is that of the first run, or else
/// that of the second.
pub proof fn lemma_first_text_concat(a: Seq<MimePartView>, b: Seq<MimePartView>, kind: Seq<char>)
    ensures
        first_text(a + b, kind) == match first_text(a, kind) {
            Some(text) => Some(text),
            None => first_text(b, kind),
        },
    decreases a.len(),
{
    if a.len() == 0 {
        assert(a + b =~= b);
    } else {
        assert((a + b)[0] == a[0]);
        assert((a + b).drop_first() =~= a.drop_first() + b);
        lemma_first_text_concat(a.drop_first(), b, kind);
    }
}

/// The attachments over two runs of leaves are those of the first run
/// followed by those of the second.
pub proof fn lemma_attachments_concat(a: Seq<MimePartView>, b: Seq<MimePartView>)
    ensures
        attachments_among(a + b) == attachments_among(a) + attachments_among(b),
{
    let pred = |p: MimePartView| is_attachment(p);
    Seq::filter_distributes_over_add(a, b, pred);
    assert(attachments_among(a + b) =~= attachments_among(a) + attachments_among(b));
}

fn find_param(params: &Vec<Param>, name: &str) -> (r: Option<String>)
    ensures
        opt_text(r) == param_value(params.deep_view(), name@),
{
    let mut i: usize = 0;
    assert(params.deep_view().subrange(0, params.len() as int) =~= params.deep_view());
    while i < params.len()
        invariant
            i <= params.len(),
            param_value(params.deep_view(), name@) == param_value(
                params.deep_view().subrange(i as int, params.len() as int),
                name@,
            ),
        decreases params.len() - i,
    {
        let ghost rest = params.deep_view().subrange(i as int, params.len() as int);
        assert(rest[0] == params@[i as int]@);
        assert(rest.drop_first() =~= params.deep_view().subrange(i + 1, params.len() as int));
        if text_eq(params[i].name.as_str(), name) {
            return Some(params[i].value.clone());
        }
        i += 1;
    }
    assert(params.deep_view().subrange(i as int, params.len() as int).len() == 0);
    None
}

/// The file name that a part carries, where it carries one.
pub fn extract_filename(part: &MimePart) -> (r: Option<String>)
    ensures
        opt_text(r) == part_filename(part@),
{
    match find_param(&part.disposition_params, "filename") {
        Some(name) => Some(name),
        None => find_param(&part.type_params, "name"),
    }
}

/// What two walks found, the first walk's leaves standing before the
/// second's.
pub open spec fn merged(first: ExtractedView, second: ExtractedView) -> ExtractedView {
    ExtractedView {
        plain: match first.plain {
            Some(text) => Some(text),
            None => second.plain,
        },
        html: match first.html {
            Some(text) => Some(text),
            None => second.html,
        },
        attachments: first.attachments + second.attachments,
    }
}

/// A walk over two runs of leaves finds what the walks over each find,
/// merged.
pub proof fn lemma_extraction_concat(a: Seq<MimePartView>, b: Seq<MimePartView>)
    ensures
        extraction(a + b) == merged(extraction(a), extraction(b)),
{
    lemma_first_text_concat(a, b, "text/plain"@);
    lemma_first_text_concat(a, b, "text/html"@);
    lemma_attachments_concat(a, b);
}

fn merge(first: Extracted, second: Extracted) -> (r: Extracted)
    ensures
        r@ == merged(first@, second@),
{
    let Extracted { plain, html, attachments } = first;
    let Extracted { plain: later_plain, html: later_html, attachments: later } = second;
    let mut all = attachments;
    let mut rest = later;
    all.append(&mut rest);
    assert(all.deep_view() =~= attachments.deep_view() + later.deep_view());
    Extracted {
        plain: match plain {
            Some(text) => Some(text),
            None => later_plain,
        },
        html: match html {
            Some(text) => Some(text),
            None => later_html,
        },
        attachments: all,
    }
}

/// Walks the MIME tree under `part`, depth first, however deep it nests. A
/// part with subparts is never itself a body or an attachment. Of the leaves,
/// each attachment is collected in order, unnamed ones as `attachment`; of
/// the others the first `text/plain` and the first `text/html` whose text can
/// be read are kept.
pub fn walk_parts(part: &MimePart) -> (r: Extracted)
    ensures
        r@ == extraction(leaves(part@)),
    decreases part,
{
    if part.subparts.len() == 0 {
        proof {
            reveal_strlit("text/plain");
            reveal_strlit("text/html");
            assert("text/plain"@.len() != "text/html"@.len());
            reveal_with_fuel(Seq::filter, 2);
            let only = seq![part@];
            lemma_view_subparts(*part);
            assert(leaves(part@) == only);
            assert(only.drop_first() =~= Seq::<MimePartView>::empty());
            assert(only.drop_last() =~= Seq::<MimePartView>::empty());
            assert(only.last() == part@);
            let pred = |p: MimePartView| is_attachment(p);
            let kept = only.filter(pred);
            if is_attachment(part@) {
                assert(kept =~= only);
                assert(attachments_among(only) =~= seq![attachment_of(part@)]);
            } else {
                assert(kept =~= Seq::<MimePartView>::empty());
                assert(attachments_among(only) =~= Seq::<AttachmentInputView>::empty());
            }
        }
        let filename = extract_filename(part);
        let attached = match part.disposition {
            Disposition::Attachment => true,
            _ => false,
        };
        if attached || filename.is_some() {
            let content = match &part.raw_body {
                Some(bytes) => bytes.clone(),
                None => Vec::new(),
            };
            let name = match filename {
                Some(name) => name,
                None => "attachment".to_owned(),
            };
            let mut attachments: Vec<AttachmentInput> = Vec::new();
            attachments.push(
                AttachmentInput { filename: name, content_type: part.mimetype.clone(), content },
            );
            assert(attachments.deep_view() =~= seq![attachment_of(part@)]);
            return Extracted { plain: None, html: None, attachments };
        }
        let kind = lowercase(part.mimetype.as_str());
        let none: Vec<AttachmentInput> = Vec::new();
        assert(none.deep_view() =~= Seq::<AttachmentInputView>::empty());
        let r = if text_eq(kind.as_str(), "text/plain") {
            Extracted { plain: opt_text_copy(&part.text_body), html: None, attachments: none }
        } else if text_eq(kind.as_str(), "text/html") {
            Extracted { plain: None, html: opt_text_copy(&part.text_body), attachments: none }
        } else {
            Extracted { plain: None, html: None, attachments: none }
        };
        r
    } else {
        let mut found = Extracted { plain: None, html: None, attachments: Vec::new() };
        proof {
            lemma_view_subparts(*part);
            reveal_with_fuel(Seq::filter, 1);
            assert(found.attachments.deep_view() =~= Seq::<AttachmentInputView>::empty());
            assert(attachments_among(Seq::<MimePartView>::empty())
                =~= Seq::<AttachmentInputView>::empty());
        }
        let mut i: usize = 0;
        while i < part.subparts.len()
            invariant
                i <= part.subparts.len(),
                found@ == extraction(leaves_of_first(part@, i as nat)),
            decreases part.subparts.len() - i,
        {
            let below = walk_parts(&part.subparts[i]);
            proof {
                lemma_view_subparts(*part);
                assert(part@.subparts[i as int] == part.subparts[i as int]@);
                lemma_extraction_concat(
                    leaves_of_first(part@, i as nat),
                    leaves(part@.subparts[i as int]),
                );
            }
            found = merge(found, below);
            i += 1;
        }
        found
    }
}

/// The plain text, the HTML text and the attachments of a message.
pub fn extract_content_and_attachments(part: &MimePart) -> (r: (
    Option<String>,
    Option<String>,
    Vec<AttachmentInput>,
))
    ensures
        opt_text(r.0) == extraction(leaves(part@)).plain,
        opt_text(r.1) == extraction(leaves(part@)).html,
        r.2.deep_view() == extraction(leaves(part@)).attachments,
{
    let Extracted { plain, html, attachments } = walk_parts(part);
    (plain, html, attachments)
}

/// A message as retrieval reads it: three of its headers and its MIME tree.
#[derive(Debug, PartialEq, Eq)]
pub struct ParsedMessage {
    /// The first `Subject` header.
    pub subject: Option<String>,
    /// The first `From` header.
    pub sender: Option<String>,
    /// The first `Date` header.
    pub date: Option<String>,
    pub body: MimePart,
}

/// What a [`ParsedMessage`] holds.
pub struct ParsedMessageView {
    pub subject: Option<Seq<char>>,
    pub sender: Option<Seq<char>>,
    pub date: Option<Seq<char>>,
    pub body: MimePartView,
}

impl View for ParsedMessage {
    type V = ParsedMessageView;

    open spec fn view(&self) -> ParsedMessageView {
        ParsedMessageView {
            subject: opt_text(self.subject),
            sender: opt_text(self.sender),
            date: opt_text(self.date),
            body: self.body@,
        }
    }
}

/// The text that stands for a message's body: the plain text where there is
/// one, else the HTML text, else nothing.
pub open spec fn body_text(found: ExtractedView) -> Seq<char> {
    match found.plain {
        Some(text) => text,
        None => match found.html {
            Some(text) => text,
            None => Seq::empty(),
        },
    }
}

/// The record that a message fetched from `folder` becomes.
pub open spec fn mail_record_of(
    parsed: ParsedMessageView,
    folder: Seq<char>,
) -> MailFetchRecordView {
    MailFetchRecordView {
        subject: parsed.subject,
        sender: parsed.sender,
        received_time: received_time_of(parsed.date),
        content: body_text(extraction(leaves(parsed.body))),
        folder,
        attachments: extraction(leaves(parsed.body)).attachments,
    }
}

/// The value of a header as the record keeps it: the value as header access
/// gave it, unchanged.
pub fn decode_header_value(value: Option<String>) -> (r: Option<String>)
    ensures
        r == value,
{
    value
}

/// Builds the record of a message fetched from `folder`: subject and sender
/// as the headers give them, the time read from the `Date` header, the body
/// and the attachments taken from the MIME tree.
pub fn build_mail_record(parsed: &ParsedMessage, folder: &str) -> (r: MailFetchRecord)
    ensures
        r@ == mail_record_of(parsed@, folder@),
{
    let received_time = parse_received_time(opt_text_copy(&parsed.date));
    let (plain, html, attachments) = extract_content_and_attachments(&parsed.body);
    let content = match plain {
        Some(text) => text,
        None => match html {
            Some(text) => text,
            None => String::new(),
        },
    };
    MailFetchRecord {
        subject: decode_header_value(opt_text_copy(&parsed.subject)),
        sender: decode_header_value(opt_text_copy(&parsed.sender)),
        received_time,
        content,
        folder: folder.to_owned(),
        attachments,
    }
}

/// `mailparse::ParsedMail`, a parsed message or part: an opaque value here.
#[verifier::external_type_specification]
#[verifier::external_body]
pub struct ExParsedMail<'a>(mailparse::ParsedMail<'a>);

/// `mailparse::DispositionType`, the kind of a content disposition: an
/// opaque value here.
#[verifier::external_type_specification]
#[verifier::external_body]
pub struct ExDispositionType(mailparse::DispositionType);

/// Carries a `mailparse::DispositionType` over, variant by variant.
#[verifier::external_body]
fn disposition_of(shown: mailparse::DispositionType) -> Disposition {
    match shown {
        mailparse::DispositionType::Inline => Disposition::Inline,
        mailparse::DispositionType::Attachment => Disposition::Attachment,
        mailparse::DispositionType::FormData => Disposition::FormData,
        mailparse::DispositionType::Extension(other) => Disposition::Extension(other),
    }
}

/// Carries a `mailparse::ParsedMail` over, node by node: the content type and
/// its parameters as parsed, the disposition that
/// `ParsedMail::get_content_disposition` gives, and what
/// `ParsedMail::get_body_raw` and `ParsedMail::get_body` return, an error of
/// either becoming an absent body. Nothing is claimed of the result.
#[verifier::external_body]
fn tree_of(mail: &mailparse::ParsedMail) -> MimePart {
    let shown = mail.get_content_disposition();
    MimePart {
        mimetype: mail.ctype.mimetype.clone(),
        type_params: mail.ctype.params.iter().map(|(k, v)| Param::of(k, v)).collect(),
        disposition_params: shown.params.iter().map(|(k, v)| Param::of(k, v)).collect(),
        disposition: disposition_of(shown.disposition),
        raw_body: mail.get_body_raw().ok(),
        text_body: mail.get_body().ok(),
        subparts: mail.subparts.iter().map(tree_of).collect(),
    }
}

/// The MIME tree that `mailparse::parse_mail` reads from the bytes of a
/// message, or nothing where it reports an error.
pub uninterp spec fn mime_tree(raw: Seq<u8>) -> Option<MimePartView>;

/// Calls `mailparse::parse_mail` and carries the tree over. The contract only
/// names the result.
#[verifier::external_body]
fn parse_tree(raw: &[u8]) -> (r: Option<MimePart>)
    ensures
        r.deep_view() == mime_tree(raw@),
{
    match mailparse::parse_mail(raw) {
        Ok(mail) => Some(tree_of(&mail)),
        Err(_) => None,
    }
}

/// The value that mailparse gives for the first header called `name` (names
/// compare without regard to ASCII case) among the headers that
/// `mailparse::parse_headers` reads at the start of `raw`; nothing where
/// there is no such header or the headers do not parse.
pub uninterp spec fn header_value(raw: Seq<u8>, name: Seq<char>) -> Option<Seq<char>>;

/// Calls `mailparse::parse_headers` and, on the headers it returns,
/// `MailHeaderMap::get_first_value`. The contract only names the result.
#[verifier::external_body]
fn first_header(raw: &[u8], name: &str) -> (r: Option<String>)
    ensures
        opt_text(r) == header_value(raw@, name@),
{
    match mailparse::parse_headers(raw) {
        Ok((headers, _)) => mailparse::MailHeaderMap::get_first_value(&headers[..], name),
        Err(_) => None,
    }
}

/// The message that the bytes `raw` hold: its `Subject`, `From` and `Date`
/// headers and its MIME tree; nothing where the bytes do not parse.
pub open spec fn parsed_message(raw: Seq<u8>) -> Option<ParsedMessageView> {
    match mime_tree(raw) {
        Some(body) => Some(
            ParsedMessageView {
                subject: header_value(raw, "Subject"@),
                sender: header_value(raw, "From"@),
                date: header_value(raw, "Date"@),
                body,
            },
        ),
        None => None,
    }
}

/// Parses the bytes of a message.
pub fn parse_message(raw: &[u8]) -> (r: Option<ParsedMessage>)
    ensures
        match r {
            Some(parsed) => parsed_message(raw@) == Some(parsed@),
            None => parsed_message(raw@) is None,
        },
{
    match parse_tree(raw) {
        Some(body) => Some(
            ParsedMessage {
                subject: first_header(raw, "Subject"),
                sender: first_header(raw, "From"),
                date: first_header(raw, "Date"),
                body,
            },
        ),
        None => None,
    }
}

/// The record of the message that the bytes `raw` hold, fetched from
/// `folder`; nothing where the bytes do not parse.
pub open spec fn record_of_raw(raw: Seq<u8>, folder: Seq<char>) -> Option<MailFetchRecordView> {
    match parsed_message(raw) {
        Some(parsed) => Some(mail_record_of(parsed, folder)),
        None => None,
    }
}

/// Parses the bytes of a fetched message and builds its record. Bytes that do
/// not parse give no record and no error: the message is skipped.
pub fn record_from_raw(raw: &[u8], folder: &str) -> (r: Option<MailFetchRecord>)
    ensures
        match r {
            Some(record) => record_of_raw(raw@, folder@) == Some(record@),
            None => record_of_raw(raw@, folder@) is None,
        },
{
    match parse_message(raw) {
        Some(parsed) => Some(build_mail_record(&parsed, folder)),
        None => None,
    }
}

} // verus!
