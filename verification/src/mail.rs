//! Alert mails: what they say, to whom they go, and whether their addresses
//! can be put on an envelope.

use vstd::prelude::*;
use lettre::address::AddressError;

verus! {

/// One alert mail, as plain text fields.
#[derive(Clone, Debug, PartialEq, Eq)]
pub struct Mail {
    pub from: String,
    pub to: String,
    pub subject: String,
    pub body: String,
}

/// Mathematical value of a [`Mail`].
pub struct MailView {
    pub from: Seq<char>,
    pub to: Seq<char>,
    pub subject: Seq<char>,
    pub body: Seq<char>,
}

impl View for Mail {
    type V = MailView;

    open spec fn view(&self) -> MailView {
        MailView { from: self.from@, to: self.to@, subject: self.subject@, body: self.body@ }
    }
}

impl DeepView for Mail {
    type V = MailView;

    open spec fn deep_view(&self) -> MailView {
        self@
    }
}

/// Why a mail cannot be put on an envelope.
#[derive(Clone, Copy, Debug, PartialEq, Eq, Structural)]
pub enum MailError {
    /// The sender's address is not a mailbox.
    InvalidSender,
    /// The recipient's address is not a mailbox.
    InvalidRecipient,
}

/// The message that goes with a mail error.
pub open spec fn mail_error_text(error: MailError) -> Seq<char> {
    match error {
        MailError::InvalidSender => "sender address is not a mailbox"@,
        MailError::InvalidRecipient => "recipient address is not a mailbox"@,
    }
}

impl MailError {
    /// A message for the operator.
    pub fn describe(self) -> (text: String)
        ensures
            text@ == mail_error_text(self),
    {
        match self {
            MailError::InvalidSender => String::from_str("sender address is not a mailbox"),
            MailError::InvalidRecipient => String::from_str("recipient address is not a mailbox"),
        }
    }
}

/// The subject line of every alert.
pub open spec fn alert_subject() -> Seq<char> {
    "Control Servidores RTO"@
}

/// The body of the alert for the server of the given name.
pub open spec fn body_text(server_name: Seq<char>) -> Seq<char> {
    "Server "@ + server_name + " potentially down, please check."@
}

/// The alert about the named server, from `sender` to `recipient`.
pub open spec fn alert_mail(sender: Seq<char>, recipient: Seq<char>, server_name: Seq<char>)
    -> MailView {
    MailView {
        from: sender,
        to: recipient,
        subject: alert_subject(),
        body: body_text(server_name),
    }
}

/// The alerts about the named server: one for each recipient, in the
/// recipients' order.
pub open spec fn alert_mails(
    sender: Seq<char>,
    server_name: Seq<char>,
    recipients: Seq<Seq<char>>,
) -> Seq<MailView> {
    Seq::new(recipients.len(), |i: int| alert_mail(sender, recipients[i], server_name))
}

/// The body of an alert holds the server's name, right after its first word.
pub proof fn law_body_names_server(server_name: Seq<char>)
    ensures
        body_text(server_name).len() == server_name.len() + 39,
        body_text(server_name).subrange(7, 7 + server_name.len() as int) == server_name,
{
    reveal_strlit("Server ");
    reveal_strlit(" potentially down, please check.");
}

/// An address as it goes on an envelope, with the display name that may stand
/// before it.
#[derive(Clone, Debug, PartialEq, Eq)]
pub struct Mailbox {
    pub name: Option<String>,
    pub address: String,
}

/// Mathematical value of a [`Mailbox`].
pub struct MailboxView {
    pub name: Option<Seq<char>>,
    pub address: Seq<char>,
}

impl View for Mailbox {
    type V = MailboxView;

    open spec fn view(&self) -> MailboxView {
        MailboxView { name: self.name.deep_view(), address: self.address@ }
    }
}

/// lettre's `AddressError`, carried through as an opaque value.
#[verifier::external_type_specification]
#[verifier::external_body]
pub struct ExAddressError(AddressError);

/// What lettre makes of a text read as a mailbox (an address, or a display
/// name followed by an address in angle brackets): the display name, if there
/// is one, and the address; or `None` where the text is no mailbox.
pub uninterp spec fn mailbox_of(text: Seq<char>) -> Option<(Option<Seq<char>>, Seq<char>)>;

/// Calls lettre's `Mailbox::from_str`, by way of `str::parse`, and hands out
/// the two fields of the mailbox it returns, the address as text. The parser
/// reads nothing but the text, so its result is named after the text.
#[verifier::external_body]
fn parse_mailbox(text: &str) -> (parsed: Result<(Option<String>, String), AddressError>)
    ensures
        match parsed {
            Ok(parts) => mailbox_of(text@) == Some(parts.deep_view()),
            Err(_) => mailbox_of(text@) is None,
        },
{
    match text.parse::<lettre::message::Mailbox>() {
        Ok(mailbox) => Ok((mailbox.name, mailbox.email.to_string())),
        Err(error) => Err(error),
    }
}

/// The mailbox with the given display name and address.
pub open spec fn mailbox_from(parts: (Option<Seq<char>>, Seq<char>)) -> MailboxView {
    MailboxView { name: parts.0, address: parts.1 }
}

/// Sender and recipient of a mail as mailboxes, given what each address reads
/// as. A sender that is no mailbox is reported first.
pub open spec fn envelope(
    from: Option<(Option<Seq<char>>, Seq<char>)>,
    to: Option<(Option<Seq<char>>, Seq<char>)>,
) -> Result<(MailboxView, MailboxView), MailError> {
    match from {
        None => Err(MailError::InvalidSender),
        Some(sender) => match to {
            None => Err(MailError::InvalidRecipient),
            Some(recipient) => Ok((mailbox_from(sender), mailbox_from(recipient))),
        },
    }
}

/// What a parse result stands for: the parts, or nothing where it failed.
pub open spec fn parsed_parts(parsed: Result<(Option<String>, String), AddressError>) -> Option<
    (Option<Seq<char>>, Seq<char>),
> {
    match parsed {
        Ok(parts) => Some(parts.deep_view()),
        Err(_) => None,
    }
}

/// Puts the two parsed addresses of a mail together. A sender that did not
/// parse is reported first.
pub fn pair_mailboxes(
    from: Result<(Option<String>, String), AddressError>,
    to: Result<(Option<String>, String), AddressError>,
) -> (pair: Result<(Mailbox, Mailbox), MailError>)
    ensures
        match envelope(parsed_parts(from), parsed_parts(to)) {
            Ok(expected) => pair is Ok && pair->Ok_0.0@ == expected.0 && pair->Ok_0.1@
                == expected.1,
            Err(error) => pair == Err::<(Mailbox, Mailbox), MailError>(error),
        },
{
    match from {
        Err(_) => Err(MailError::InvalidSender),
        Ok(sender) => match to {
            Err(_) => Err(MailError::InvalidRecipient),
            Ok(recipient) => Ok(
                (
                    Mailbox { name: sender.0, address: sender.1 },
                    Mailbox { name: recipient.0, address: recipient.1 },
                ),
            ),
        },
    }
}

impl Mail {
    /// A mail with the alert subject and an empty body.
    pub fn new(from: &str, to: &str) -> (mail: Mail)
        ensures
            mail@ == (MailView {
                from: from@,
                to: to@,
                subject: alert_subject(),
                body: Seq::<char>::empty(),
            }),
    {
        Mail {
            from: String::from_str(from),
            to: String::from_str(to),
            subject: String::from_str("Control Servidores RTO"),
            body: String::new(),
        }
    }

    /// The same mail with the alert text for the named server as its body.
    pub fn set_body(self, server_name: &str) -> (mail: Mail)
        ensures
            mail@ == (MailView { body: body_text(server_name@), ..self@ }),
    {
        let mut body = String::from_str("Server ");
        body.append(server_name);
        body.append(" potentially down, please check.");
        Mail { from: self.from, to: self.to, subject: self.subject, body }
    }

    /// The alert about the named server, from `sender` to `recipient`.
    pub fn alert(sender: &str, recipient: &str, server_name: &str) -> (mail: Mail)
        ensures
            mail@ == alert_mail(sender@, recipient@, server_name@),
    {
        Mail::new(sender, recipient).set_body(server_name)
    }

    /// The sender and the recipient as mailboxes, ready for an envelope.
    /// Fails when one of the two addresses is not a mailbox; the sender is
    /// looked at first.
    pub fn mailboxes(&self) -> (pair: Result<(Mailbox, Mailbox), MailError>)
        ensures
            match envelope(mailbox_of(self@.from), mailbox_of(self@.to)) {
                Ok(expected) => pair is Ok && pair->Ok_0.0@ == expected.0 && pair->Ok_0.1@
                    == expected.1,
                Err(error) => pair == Err::<(Mailbox, Mailbox), MailError>(error),
            },
    {
        let from = parse_mailbox(self.from.as_str());
        let to = parse_mailbox(self.to.as_str());
        pair_mailboxes(from, to)
    }
}

/// Composes the alerts about one server: one mail for each recipient, in the
/// recipients' order, all from the same sender and with the same text.
pub fn alert_batch(sender: &str, server_name: &str, recipients: &Vec<String>) -> (batch: Vec<Mail>)
    ensures
        batch.deep_view() == alert_mails(sender@, server_name@, recipients.deep_view()),
        batch.len() == recipients.len(),
{
    let mut batch: Vec<Mail> = Vec::new();
    let mut i: usize = 0;
    while i < recipients.len()
        invariant
            i <= recipients.len(),
            batch.len() == i,
            forall|j: int|
                0 <= j < i ==> (#[trigger] batch[j])@ == alert_mail(
                    sender@,
                    recipients[j]@,
                    server_name@,
                ),
        decreases recipients.len() - i,
    {
        batch.push(Mail::alert(sender, recipients[i].as_str(), server_name));
        i += 1;
    }
    batch
}

} // verus!
