//! The records that travel between retrieval and storage, each with the
//! mathematical value it stands for.

use vstd::prelude::*;
use crate::text::{opt_text, opt_text_copy};

verus! {

/// One attachment of a fetched message.
#[derive(Debug, PartialEq, Eq)]
pub struct AttachmentInput {
    pub filename: String,
    pub content_type: String,
    pub content: Vec<u8>,
}

/// What an [`AttachmentInput`] holds.
pub struct AttachmentInputView {
    pub filename: Seq<char>,
    pub content_type: Seq<char>,
    pub content: Seq<u8>,
}

impl View for AttachmentInput {
    type V = AttachmentInputView;

    open spec fn view(&self) -> AttachmentInputView {
        AttachmentInputView {
            filename: self.filename@,
            content_type: self.content_type@,
            content: self.content@,
        }
    }
}

impl DeepView for AttachmentInput {
    type V = AttachmentInputView;

    open spec fn deep_view(&self) -> AttachmentInputView {
        self@
    }
}

impl Clone for AttachmentInput {
    fn clone(&self) -> (r: Self)
        ensures
            r@ == self@,
    {
        AttachmentInput {
            filename: self.filename.clone(),
            content_type: self.content_type.clone(),
            content: self.content.clone(),
        }
    }
}

/// Copies a list of attachments.
pub fn copy_attachments(list: &Vec<AttachmentInput>) -> (r: Vec<AttachmentInput>)
    ensures
        r.deep_view() == list.deep_view(),
{
    let mut out: Vec<AttachmentInput> = Vec::new();
    let mut i: usize = 0;
    while i < list.len()
        invariant
            i <= list.len(),
            out.len() == i,
            forall|j: int| 0 <= j < i ==> out@[j]@ == list@[j]@,
        decreases list.len() - i,
    {
        out.push(list[i].clone());
        i += 1;
    }
    assert(out.deep_view() =~= list.deep_view());
    out
}

/// A message as a retrieval path hands it over, before it is stored.
#[derive(Debug, PartialEq, Eq)]
pub struct MailFetchRecord {
    pub subject: Option<String>,
    pub sender: Option<String>,
    /// Absent where the message's date could not be read.
    pub received_time: Option<String>,
    pub content: String,
    pub folder: String,
    pub attachments: Vec<AttachmentInput>,
}

/// What a [`MailFetchRecord`] holds.
pub struct MailFetchRecordView {
    pub subject: Option<Seq<char>>,
    pub sender: Option<Seq<char>>,
    pub received_time: Option<Seq<char>>,
    pub content: Seq<char>,
    pub folder: Seq<char>,
    pub attachments: Seq<AttachmentInputView>,
}

impl View for MailFetchRecord {
    type V = MailFetchRecordView;

    open spec fn view(&self) -> MailFetchRecordView {
        MailFetchRecordView {
            subject: opt_text(self.subject),
            sender: opt_text(self.sender),
            received_time: opt_text(self.received_time),
            content: self.content@,
            folder: self.folder@,
            attachments: self.attachments.deep_view(),
        }
    }
}

impl DeepView for MailFetchRecord {
    type V = MailFetchRecordView;

    open spec fn deep_view(&self) -> MailFetchRecordView {
        self@
    }
}

impl Clone for MailFetchRecord {
    fn clone(&self) -> (r: Self)
        ensures
            r@ == self@,
    {
        MailFetchRecord {
            subject: opt_text_copy(&self.subject),
            sender: opt_text_copy(&self.sender),
            received_time: opt_text_copy(&self.received_time),
            content: self.content.clone(),
            folder: self.folder.clone(),
            attachments: copy_attachments(&self.attachments),
        }
    }
}

/// A stored message.
#[derive(Debug, Clone, PartialEq, Eq)]
pub struct MailRecord {
    pub id: i64,
    /// The account that the message belongs to.
    pub email_id: i64,
    pub subject: Option<String>,
    pub sender: Option<String>,
    pub received_time: Option<String>,
    pub content: Option<String>,
    pub folder: Option<String>,
    /// 1 where the message came with attachments, else 0.
    pub has_attachments: i64,
}

/// What a [`MailRecord`] holds.
pub struct MailRecordView {
    pub id: int,
    pub email_id: int,
    pub subject: Option<Seq<char>>,
    pub sender: Option<Seq<char>>,
    pub received_time: Option<Seq<char>>,
    pub content: Option<Seq<char>>,
    pub folder: Option<Seq<char>>,
    pub has_attachments: int,
}

impl View for MailRecord {
    type V = MailRecordView;

    open spec fn view(&self) -> MailRecordView {
        MailRecordView {
            id: self.id as int,
            email_id: self.email_id as int,
            subject: opt_text(self.subject),
            sender: opt_text(self.sender),
            received_time: opt_text(self.received_time),
            content: opt_text(self.content),
            folder: opt_text(self.folder),
            has_attachments: self.has_attachments as int,
        }
    }
}

impl DeepView for MailRecord {
    type V = MailRecordView;

    open spec fn deep_view(&self) -> MailRecordView {
        self@
    }
}

/// A stored attachment without its bytes.
#[derive(Debug, Clone, PartialEq, Eq)]
pub struct AttachmentInfo {
    pub id: i64,
    pub mail_id: i64,
    pub filename: Option<String>,
    pub content_type: Option<String>,
    pub size: Option<i64>,
}

/// What an [`AttachmentInfo`] holds.
pub struct AttachmentInfoView {
    pub id: int,
    pub mail_id: int,
    pub filename: Option<Seq<char>>,
    pub content_type: Option<Seq<char>>,
    pub size: Option<int>,
}

impl View for AttachmentInfo {
    type V = AttachmentInfoView;

    open spec fn view(&self) -> AttachmentInfoView {
        AttachmentInfoView {
            id: self.id as int,
            mail_id: self.mail_id as int,
            filename: opt_text(self.filename),
            content_type: opt_text(self.content_type),
            size: match self.size {
                Some(n) => Some(n as int),
                None => None,
            },
        }
    }
}

/// An account as the account list shows it.
#[derive(Debug, Clone, PartialEq, Eq)]
pub struct EmailAccount {
    pub id: i64,
    pub email: String,
    /// Kept for display and copying only; retrieval never reads it.
    pub password: String,
    pub mail_type: String,
    pub client_id: String,
    pub refresh_token: String,
    pub last_check_time: Option<String>,
    pub api_mode: Option<String>,
    pub proxy_type: Option<String>,
    pub proxy_url: Option<String>,
    pub default_folder: Option<String>,
}

/// An account as a check reads it.
#[derive(Debug, Clone, PartialEq, Eq)]
pub struct OutlookAccount {
    pub id: i64,
    pub email: String,
    pub mail_type: Option<String>,
    pub client_id: String,
    pub refresh_token: String,
    /// When the account was last checked, RFC 3339.
    pub last_check_time: Option<String>,
    pub api_mode: Option<String>,
    pub proxy_type: Option<String>,
    pub proxy_url: Option<String>,
    pub default_folder: Option<String>,
}

/// What an [`OutlookAccount`] holds.
pub struct OutlookAccountView {
    pub id: int,
    pub email: Seq<char>,
    pub mail_type: Option<Seq<char>>,
    pub client_id: Seq<char>,
    pub refresh_token: Seq<char>,
    pub last_check_time: Option<Seq<char>>,
    pub api_mode: Option<Seq<char>>,
    pub proxy_type: Option<Seq<char>>,
    pub proxy_url: Option<Seq<char>>,
    pub default_folder: Option<Seq<char>>,
}

impl View for OutlookAccount {
    type V = OutlookAccountView;

    open spec fn view(&self) -> OutlookAccountView {
        OutlookAccountView {
            id: self.id as int,
            email: self.email@,
            mail_type: opt_text(self.mail_type),
            client_id: self.client_id@,
            refresh_token: self.refresh_token@,
            last_check_time: opt_text(self.last_check_time),
            api_mode: opt_text(self.api_mode),
            proxy_type: opt_text(self.proxy_type),
            proxy_url: opt_text(self.proxy_url),
            default_folder: opt_text(self.default_folder),
        }
    }
}

} // verus!
