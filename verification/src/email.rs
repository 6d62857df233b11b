use vstd::prelude::*;

use crate::error::{error_source, ErrorStatus, WorkerError};

verus! {

/// A mailbox (an address with an optional display name).
#[verifier::external_type_specification]
#[verifier::external_body]
pub struct ExMailbox(lettre::message::Mailbox);

/// Why a text could not be read as a mailbox.
#[verifier::external_type_specification]
#[verifier::external_body]
pub struct ExAddressError(lettre::address::AddressError);

/// An email ready to be sent.
#[verifier::external_type_specification]
#[verifier::external_body]
pub struct ExMessage(lettre::Message);

/// Why an email message could not be built.
#[verifier::external_type_specification]
#[verifier::external_body]
pub struct ExEmailError(lettre::error::Error);

/// The mailbox that lettre reads `text` as (its RFC 5322 mailbox grammar,
/// followed by the checks of `Address::new`), or `None` when it reads none.
pub uninterp spec fn mailbox_parse(text: Seq<char>) -> Option<lettre::message::Mailbox>;

/// Whether lettre reads `text` as a mailbox.
pub open spec fn parses_as_mailbox(text: Seq<char>) -> bool {
    mailbox_parse(text) is Some
}

/// Reads `text` as a mailbox.
///
/// Calls `<lettre::message::Mailbox as FromStr>::from_str`. Claimed: the
/// outcome is `mailbox_parse` of the text, which depends on the text alone.
#[verifier::external_body]
fn parse_mailbox(text: &str) -> (r: Result<lettre::message::Mailbox, lettre::address::AddressError>)
    ensures
        match r {
            Ok(m) => mailbox_parse(text@) == Some(m),
            Err(_) => mailbox_parse(text@) is None,
        },
{
    text.parse::<lettre::message::Mailbox>()
}

/// Whether lettre builds a message with sender `from` and recipient `to`.
/// lettre writes each mailbox into its header as text and reads the
/// headers back while building; the build fails when a mailbox's text does
/// not read back as one mailbox (a quoted local part with a space, for
/// one). Subject and body take no part in it.
pub uninterp spec fn plain_message_builds(
    from: lettre::message::Mailbox,
    to: lettre::message::Mailbox,
) -> bool;

/// `text` with every line feed that does not follow a carriage return
/// preceded by one: the line endings an email body is sent with.
pub open spec fn crlf_line_endings(text: Seq<char>) -> Seq<char>
    decreases text.len(),
{
    if text.len() == 0 {
        Seq::empty()
    } else {
        let init = text.drop_last();
        if text.last() == '\n' && (init.len() == 0 || init.last() != '\r') {
            crlf_line_endings(init) + seq!['\r', '\n']
        } else {
            crlf_line_endings(init).push(text.last())
        }
    }
}

/// The media type of a plain-text email.
pub open spec fn plain_text_content_type() -> Seq<char> {
    "text/plain; charset=utf-8"@
}

/// What a message holds, besides the headers lettre adds on its own: its
/// sender, its recipient, its subject, its content type, and its body text
/// before the transfer encoding.
pub uninterp spec fn plain_message_content(message: lettre::Message) -> (
    lettre::message::Mailbox,
    lettre::message::Mailbox,
    Seq<char>,
    Seq<char>,
    Seq<char>,
);

/// A plain-text email from one mailbox to one mailbox.
///
/// Calls lettre's `Message::builder()`, sets the `From` header to `from`,
/// the `To` header to `to`, the subject to `subject` and the content type
/// to `text/plain; charset=utf-8` (`ContentType::TEXT_PLAIN`), then `body`
/// with `body`. Claimed: the build succeeds exactly when
/// `plain_message_builds` holds of the two mailboxes (lettre's
/// `MessageBuilder::build` re-reads the `From` and `To` headers and fails
/// with `MissingFrom` or `MissingTo` when they do not read back); a built
/// message holds these mailboxes, this subject, that content type, and the
/// body with its line endings made CRLF (`Body::new` inserts a carriage
/// return before each bare line feed, then picks a transfer encoding).
/// The headers lettre adds itself (the date, the transfer encoding) and the
/// encoded form of the body are not stated.
#[verifier::external_body]
fn build_plain_message(
    from: lettre::message::Mailbox,
    to: lettre::message::Mailbox,
    subject: &str,
    body: String,
) -> (r: Result<lettre::Message, lettre::error::Error>)
    ensures
        r is Ok <==> plain_message_builds(from, to),
        r matches Ok(m) ==> plain_message_content(m) == (
            from,
            to,
            subject@,
            plain_text_content_type(),
            crlf_line_endings(body@),
        ),
{
    lettre::Message::builder()
        .from(from)
        .to(to)
        .subject(subject)
        .header(lettre::message::header::ContentType::TEXT_PLAIN)
        .body(body)
}

/// The payload of an email job.
#[derive(Debug)]
pub struct EmailInfo {
    pub from: String,
    pub to: String,
    pub subject: String,
    pub body: String,
}

/// Builds the email of an email job: from `info.from` to `info.to`, with
/// subject `info.subject` and body `info.body` (sent with CRLF line
/// endings), as `text/plain`. A `from` or
/// `to` that is not a mailbox is a permanent failure, reported for `from`
/// first; so is a pair of mailboxes that lettre cannot build a message
/// with.
pub fn prepare_email(info: EmailInfo) -> (r: Result<lettre::Message, WorkerError>)
    ensures
        ({
            let from = mailbox_parse(info.from@);
            let to = mailbox_parse(info.to@);
            &&& from is None ==> (r matches Err(e) && e.status == ErrorStatus::Permanent
                && e.message@ == "Failed to deserialize 'from' email"@ && e.source is Some)
            &&& (from is Some && to is None) ==> (r matches Err(e)
                && e.status == ErrorStatus::Permanent
                && e.message@ == "Failed to deserialize 'to' email"@ && e.source is Some)
            &&& (from is Some && to is Some && !plain_message_builds(from->Some_0, to->Some_0))
                ==> (r matches Err(e) && e.status == ErrorStatus::Permanent
                && e.message@ == "Failed to build email message"@ && e.source is Some)
            &&& (from is Some && to is Some && plain_message_builds(from->Some_0, to->Some_0))
                ==> (r matches Ok(m) && plain_message_content(m) == (
                from->Some_0,
                to->Some_0,
                info.subject@,
                plain_text_content_type(),
                crlf_line_endings(info.body@),
            ))
        }),
{
    let from = match parse_mailbox(info.from.as_str()) {
        Ok(m) => m,
        Err(e) => {
            return Err(WorkerError::permanent("Failed to deserialize 'from' email").set_source(
                error_source(e),
            ));
        },
    };
    let to = match parse_mailbox(info.to.as_str()) {
        Ok(m) => m,
        Err(e) => {
            return Err(WorkerError::permanent("Failed to deserialize 'to' email").set_source(
                error_source(e),
            ));
        },
    };
    match build_plain_message(from, to, info.subject.as_str(), info.body) {
        Ok(message) => Ok(message),
        Err(e) => Err(WorkerError::permanent("Failed to build email message").set_source(
            error_source(e),
        )),
    }
}

/// The error for an email that the mail server did not accept: worth
/// retrying.
pub fn email_send_error(source: anyhow::Error) -> (e: WorkerError)
    ensures
        e.status == ErrorStatus::Temporary,
        e.message@ == "Failed to send email"@,
        e.source == Some(source),
{
    WorkerError::temporary("Failed to send email").set_source(source)
}

/// The error for an email job whose payload is not an email description;
/// `detail` describes what was wrong with it.
pub fn email_payload_error(detail: &str) -> (e: WorkerError)
    ensures
        e.status == ErrorStatus::Permanent,
        e.message@ == "email payload json error: "@ + detail@,
        e.source is None,
{
    let msg = String::from_str("email payload json error: ").concat(detail);
    WorkerError::permanent(msg.as_str())
}

} // verus!
