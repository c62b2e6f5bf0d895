//! The mails the service sends: checking the sender and recipient
//! addresses and putting each kind of mail together, ready for the transport.

use vstd::prelude::*;

use lettre::message::header::ContentType;
use lettre::message::{Attachment, Mailbox, MultiPart, SinglePart};
use lettre::Message;

verus! {

/// A mail address with an optional display name, as `lettre` parses it.
#[verifier::external_type_specification]
#[verifier::external_body]
pub struct ExMailbox(Mailbox);

/// A mail ready for the transport, as `lettre` builds it.
#[verifier::external_type_specification]
#[verifier::external_body]
pub struct ExMessage(Message);

/// Whether `lettre` accepts a text as a mailbox (`Mailbox::from_str`).
pub uninterp spec fn mailbox_accepted(address: Seq<char>) -> bool;

/// A mailbox that `lettre` accepted, with the text it was parsed from.
pub struct Address {
    mailbox: Mailbox,
    text: Ghost<Seq<char>>,
}

impl Address {
    /// The text the mailbox was parsed from.
    pub closed spec fn text(&self) -> Seq<char> {
        self.text@
    }
}

/// What the body of a mail was built from.
pub enum MailContent {
    /// A `text/plain` body.
    Plain(Seq<char>),
    /// A `text/html` body.
    Html(Seq<char>),
    /// A `multipart/mixed` body: a `text/plain` part, then an attachment of
    /// type `application/pdf` with these bytes under this file name.
    TextWithPdf { text: Seq<char>, pdf: Seq<u8>, filename: Seq<char> },
}

/// What was handed to `Message::builder()`: the sender's and the
/// recipient's mailbox (by the text each was parsed from), the subject and
/// the body.
pub struct MailDraft {
    pub from: Seq<char>,
    pub to: Seq<char>,
    pub subject: Seq<char>,
    pub content: MailContent,
}

/// A mail ready for the transport, with a record of what it was built from.
pub struct Mail {
    message: Message,
    draft: Ghost<MailDraft>,
}

impl Mail {
    /// What the mail was built from.
    pub closed spec fn draft(&self) -> MailDraft {
        self.draft@
    }

    /// The message, ready for the transport.
    pub fn message(&self) -> &Message {
        &self.message
    }

    /// The message, handed over to the transport.
    pub fn into_message(self) -> Message {
        self.message
    }
}

/// The draft of a plain-text mail.
pub open spec fn plain_draft(from: Seq<char>, to: Seq<char>, subject: Seq<char>, body: Seq<char>) -> MailDraft {
    MailDraft { from, to, subject, content: MailContent::Plain(body) }
}

/// The draft of an HTML mail.
pub open spec fn html_draft(from: Seq<char>, to: Seq<char>, subject: Seq<char>, body: Seq<char>) -> MailDraft {
    MailDraft { from, to, subject, content: MailContent::Html(body) }
}

/// The draft of a mail with a text part and a PDF attachment.
pub open spec fn pdf_draft(
    from: Seq<char>,
    to: Seq<char>,
    subject: Seq<char>,
    text: Seq<char>,
    pdf: Seq<u8>,
    filename: Seq<char>,
) -> MailDraft {
    MailDraft { from, to, subject, content: MailContent::TextWithPdf { text, pdf, filename } }
}

/// Parses a mailbox with `Mailbox::from_str`. Whether it succeeds is named
/// by `mailbox_accepted`, a function of the text alone; the mailbox is kept
/// together with the text it was parsed from, and is not described further.
#[verifier::external_body]
fn parse_mailbox(address: &str) -> (r: Option<Address>)
    ensures
        r is Some <==> mailbox_accepted(address@),
        r matches Some(a) ==> a.text() == address@,
{
    match address.parse::<Mailbox>() {
        Ok(mailbox) => Some(Address { mailbox, text: Ghost(address@) }),
        Err(_) => None,
    }
}

/// `Message::builder()` with the sender, the recipient, the subject and a
/// plain-text body, recorded in the mail's draft. The builder fails only
/// without a sender or recipient, or with several senders, so with one of
/// each it succeeds. The built message also carries a `Date` header from the
/// clock, which the draft does not record.
#[verifier::external_body]
fn plain_message(from: Address, to: Address, subject: &str, body: String) -> (r: Option<Mail>)
    ensures
        r is Some,
        r matches Some(m) ==> m.draft() == plain_draft(from.text(), to.text(), subject@, body@),
{
    let draft = Ghost(plain_draft(from.text(), to.text(), subject@, body@));
    let message = Message::builder().from(from.mailbox).to(to.mailbox).subject(subject).header(ContentType::TEXT_PLAIN).body(body).ok()?;
    Some(Mail { message, draft })
}

/// As `plain_message`, with an HTML body.
#[verifier::external_body]
fn html_message(from: Address, to: Address, subject: &str, body: String) -> (r: Option<Mail>)
    ensures
        r is Some,
        r matches Some(m) ==> m.draft() == html_draft(from.text(), to.text(), subject@, body@),
{
    let draft = Ghost(html_draft(from.text(), to.text(), subject@, body@));
    let message = Message::builder().from(from.mailbox).to(to.mailbox).subject(subject).header(ContentType::TEXT_HTML).body(body).ok()?;
    Some(Mail { message, draft })
}

/// `Message::builder()` with the sender, the recipient, the subject and a
/// mixed multipart body: the plain text, then the PDF bytes as an
/// attachment named `filename` of type `application/pdf`, all recorded in
/// the mail's draft. As for the other mails, the builder succeeds with one
/// sender and one recipient.
#[verifier::external_body]
fn pdf_message(from: Address, to: Address, subject: &str, text: &str, pdf: Vec<u8>, filename: &str) -> (r: Option<Mail>)
    ensures
        r is Some,
        r matches Some(m) ==> m.draft() == pdf_draft(from.text(), to.text(), subject@, text@, pdf@, filename@),
{
    let draft = Ghost(pdf_draft(from.text(), to.text(), subject@, text@, pdf@, filename@));
    let pdf_type = ContentType::parse("application/pdf").ok()?;
    let attachment = Attachment::new(filename.to_owned()).body(pdf, pdf_type);
    let text_part = SinglePart::builder().header(ContentType::TEXT_PLAIN).body(text.to_owned());
    let parts = MultiPart::mixed().singlepart(text_part).singlepart(attachment);
    let message = Message::builder().from(from.mailbox).to(to.mailbox).subject(subject).multipart(parts).ok()?;
    Some(Mail { message, draft })
}

/// Why a mail could not be put together.
#[derive(Clone, Copy, Debug, PartialEq, Eq, Structural)]
pub enum MailError {
    InvalidFrom,
    InvalidTo,
    BuildPlain,
    BuildHtml,
    BuildAttachment,
}

impl MailError {
    /// What went wrong, in words.
    pub fn describe(&self) -> (s: &'static str)
        ensures
            *self == MailError::InvalidFrom ==> s@ == "Invalid from address"@,
            *self == MailError::InvalidTo ==> s@ == "Invalid to address"@,
            *self == MailError::BuildPlain ==> s@ == "Failed to build email message"@,
            *self == MailError::BuildHtml ==> s@ == "Failed to build HTML email message"@,
            *self == MailError::BuildAttachment ==> s@ == "Failed to build email with attachment"@,
    {
        match self {
            MailError::InvalidFrom => "Invalid from address",
            MailError::InvalidTo => "Invalid to address",
            MailError::BuildPlain => "Failed to build email message",
            MailError::BuildHtml => "Failed to build HTML email message",
            MailError::BuildAttachment => "Failed to build email with attachment",
        }
    }
}

/// The outcome of putting a mail together from `from` to `to`: the sender
/// is checked first, then the recipient.
pub open spec fn address_outcome(from: Seq<char>, to: Seq<char>) -> Option<MailError> {
    if !mailbox_accepted(from) {
        Some(MailError::InvalidFrom)
    } else if !mailbox_accepted(to) {
        Some(MailError::InvalidTo)
    } else {
        None
    }
}

fn mailboxes(from: &str, to: &str) -> (r: Result<(Address, Address), MailError>)
    ensures
        r is Ok <==> address_outcome(from@, to@) is None,
        r matches Err(e) ==> address_outcome(from@, to@) == Some(e),
        r matches Ok((f, t)) ==> f.text() == from@ && t.text() == to@,
{
    let f = match parse_mailbox(from) {
        Some(m) => m,
        None => return Err(MailError::InvalidFrom),
    };
    let t = match parse_mailbox(to) {
        Some(m) => m,
        None => return Err(MailError::InvalidTo),
    };
    Ok((f, t))
}

/// A plain-text mail from `from` to `to` with `subject` and `body`,
/// refused where an address is not valid.
pub fn compose_plain_email(from: &str, to: &str, subject: &str, body: String) -> (r: Result<Mail, MailError>)
    ensures
        r matches Ok(m) ==> m.draft() == plain_draft(from@, to@, subject@, body@),
        r is Ok <==> address_outcome(from@, to@) is None,
        r matches Err(e) ==> address_outcome(from@, to@) == Some(e),
{
    let (f, t) = mailboxes(from, to)?;
    match plain_message(f, t, subject, body) {
        Some(m) => Ok(m),
        None => Err(MailError::BuildPlain),
    }
}

/// An HTML mail from `from` to `to` with `subject` and `body`, refused
/// where an address is not valid.
pub fn compose_html_email(from: &str, to: &str, subject: &str, body: String) -> (r: Result<Mail, MailError>)
    ensures
        r matches Ok(m) ==> m.draft() == html_draft(from@, to@, subject@, body@),
        r is Ok <==> address_outcome(from@, to@) is None,
        r matches Err(e) ==> address_outcome(from@, to@) == Some(e),
{
    let (f, t) = mailboxes(from, to)?;
    match html_message(f, t, subject, body) {
        Some(m) => Ok(m),
        None => Err(MailError::BuildHtml),
    }
}

/// A mail from `from` to `to` with `subject`, a text part and the PDF
/// bytes attached as `filename`, refused where an address is not valid.
pub fn compose_pdf_email(from: &str, to: &str, subject: &str, text: &str, pdf: Vec<u8>, filename: &str) -> (r: Result<Mail, MailError>)
    ensures
        r matches Ok(m) ==> m.draft() == pdf_draft(from@, to@, subject@, text@, pdf@, filename@),
        r is Ok <==> address_outcome(from@, to@) is None,
        r matches Err(e) ==> address_outcome(from@, to@) == Some(e),
{
    let (f, t) = mailboxes(from, to)?;
    match pdf_message(f, t, subject, text, pdf, filename) {
        Some(m) => Ok(m),
        None => Err(MailError::BuildAttachment),
    }
}

} // verus!
