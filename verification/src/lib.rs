//! Mail retrieval for accounts behind a consumer OAuth2 identity provider.
//!
//! An account's mail is fetched over one of two protocols, the REST mail API
//! or the mailbox protocol, and the library falls back from one to the other
//! on the failures that call for it. The library decides and never acts:
//! [`check::CheckSession`] and [`mailbox::MailboxSession`] are handed what
//! the last action brought and answer with the next one, so that whoever
//! drives them does the reading, the writing and the waiting.
//!
//! - [`check`]: the check of one account, from the token to the result.
//! - [`token`]: the identity provider's answer and what a scope allows.
//! - [`mailbox`]: the mailbox protocol client's decisions and its session.
//! - [`mime`]: the MIME tree of a message, its body and its attachments.
//! - [`store`]: which fetched messages are new, and the rows they become.
//! - [`outcome`]: results and errors of checks, and batches of them.
//! - [`import`]: accounts from lines of text.
//! - [`attachment`], [`records`], [`mode`], [`proxy`], [`dates`], [`text`]:
//!   the records and the helpers that the others share.

pub mod attachment;
pub mod check;
pub mod dates;
pub mod import;
pub mod mailbox;
pub mod mime;
pub mod mode;
pub mod outcome;
pub mod proxy;
pub mod records;
pub mod store;
pub mod text;
pub mod token;

pub use attachment::AttachmentContent;
pub use import::ImportResult;
pub use mime::decode_header_value;
pub use mode::ApiMode;
pub use outcome::{BatchCheckResult, CheckResult};
pub use records::{AttachmentInfo, EmailAccount, MailRecord};
pub use token::TokenRefreshResult;
