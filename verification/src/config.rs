//! The mail configuration of a run: who sends, through which relay, and to
//! whom the alerts go.

use vstd::prelude::*;
use std::collections::BTreeMap;

verus! {

/// Why a configuration cannot be used.
#[derive(Clone, Copy, Debug, PartialEq, Eq, Structural)]
pub enum ConfigError {
    /// No sender address was given.
    MissingSender,
    /// No relay host was given.
    MissingRelay,
    /// No password was given.
    MissingPassword,
    /// No recipient list was given.
    MissingRecipients,
    /// The recipient list is not a JSON object of string lists.
    MalformedRecipients,
    /// The recipient list has no entry named `emails`.
    NoEmailsKey,
}

/// The message that goes with a configuration error.
pub open spec fn config_error_text(error: ConfigError) -> Seq<char> {
    match error {
        ConfigError::MissingSender => "sender address not found"@,
        ConfigError::MissingRelay => "SMTP relay host not found"@,
        ConfigError::MissingPassword => "SMTP password not found"@,
        ConfigError::MissingRecipients => "recipient list not found"@,
        ConfigError::MalformedRecipients => "recipient list is not a JSON object of string lists"@,
        ConfigError::NoEmailsKey => "recipient list has no entry named emails"@,
    }
}

impl ConfigError {
    /// A message for the operator.
    pub fn describe(self) -> (text: String)
        ensures
            text@ == config_error_text(self),
    {
        match self {
            ConfigError::MissingSender => String::from_str("sender address not found"),
            ConfigError::MissingRelay => String::from_str("SMTP relay host not found"),
            ConfigError::MissingPassword => String::from_str("SMTP password not found"),
            ConfigError::MissingRecipients => String::from_str("recipient list not found"),
            ConfigError::MalformedRecipients => String::from_str(
                "recipient list is not a JSON object of string lists",
            ),
            ConfigError::NoEmailsKey => String::from_str("recipient list has no entry named emails"),
        }
    }
}

/// The mail settings shared by all monitors of a run.
#[derive(Clone, Debug, PartialEq, Eq)]
pub struct MailInfo {
    pub sender_address: String,
    pub smtp_relay_host: String,
    pub smtp_password: String,
    /// JSON text: an object whose entry `emails` lists the recipients.
    pub recipient_source: String,
}

/// Mathematical value of a [`MailInfo`].
pub struct MailInfoView {
    pub sender_address: Seq<char>,
    pub smtp_relay_host: Seq<char>,
    pub smtp_password: Seq<char>,
    pub recipient_source: Seq<char>,
}

impl View for MailInfo {
    type V = MailInfoView;

    open spec fn view(&self) -> MailInfoView {
        MailInfoView {
            sender_address: self.sender_address@,
            smtp_relay_host: self.smtp_relay_host@,
            smtp_password: self.smtp_password@,
            recipient_source: self.recipient_source@,
        }
    }
}

/// The entries of a JSON object of string lists, as pairs of key and list.
pub type StringLists = Seq<(Seq<char>, Seq<Seq<char>>)>;

/// The name of the entry that lists the recipients.
pub open spec fn emails_key() -> Seq<char> {
    "emails"@
}

/// The list stored under `key`: that of the first entry with this key.
pub open spec fn lookup(entries: StringLists, key: Seq<char>) -> Option<Seq<Seq<char>>>
    decreases entries.len(),
{
    if entries.len() == 0 {
        None
    } else if entries[0].0 == key {
        Some(entries[0].1)
    } else {
        lookup(entries.drop_first(), key)
    }
}

/// The recipients that a configuration source names, or why it names none.
pub open spec fn recipients_of(parsed: Option<StringLists>) -> Result<Seq<Seq<char>>, ConfigError> {
    match parsed {
        None => Err(ConfigError::MalformedRecipients),
        Some(entries) => match lookup(entries, emails_key()) {
            None => Err(ConfigError::NoEmailsKey),
            Some(list) => Ok(list),
        },
    }
}

/// serde_json's `Error`, carried through as an opaque value.
#[verifier::external_type_specification]
#[verifier::external_body]
pub struct ExJsonError(serde_json::Error);

/// What serde_json makes of a text read as a JSON object whose values are
/// lists of strings: its entries in ascending order of their keys, or `None`
/// where the text is no such object.
pub uninterp spec fn json_string_lists(text: Seq<char>) -> Option<Seq<(Seq<char>, Seq<Seq<char>>)>>;

/// Calls `serde_json::from_str` for a `BTreeMap<String, Vec<String>>` and
/// hands the map's entries out in the map's own order. The parse reads
/// nothing but the text, so its result is named after the text.
#[verifier::external_body]
fn parse_string_lists(text: &str) -> (parsed: Result<Vec<(String, Vec<String>)>, serde_json::Error>)
    ensures
        match parsed {
            Ok(entries) => json_string_lists(text@) == Some(entries.deep_view()),
            Err(_) => json_string_lists(text@) is None,
        },
{
    match serde_json::from_str::<BTreeMap<String, Vec<String>>>(text) {
        Ok(map) => Ok(map.into_iter().collect()),
        Err(error) => Err(error),
    }
}

/// Picks the recipients out of the parsed entries: the list stored under
/// `emails`, if there is one.
pub fn emails_entry(entries: Vec<(String, Vec<String>)>) -> (found: Option<Vec<String>>)
    ensures
        found.deep_view() == lookup(entries.deep_view(), emails_key()),
{
    let key = String::from_str("emails");
    let ghost all = entries.deep_view();
    let mut rest = entries;
    let mut i: usize = 0;
    assert(all.skip(0) =~= all);
    while i < rest.len()
        invariant
            i <= rest.len(),
            rest.deep_view() == all,
            entries.deep_view() == all,
            key@ == emails_key(),
            lookup(all, emails_key()) == lookup(all.skip(i as int), emails_key()),
        decreases rest.len() - i,
    {
        if rest[i].0 == key {
            let entry = rest.remove(i);
            return Some(entry.1);
        }
        assert(all.skip(i as int).drop_first() =~= all.skip(i + 1));
        i += 1;
    }
    None
}

/// What a parse result stands for: the entries, or nothing where it failed.
pub open spec fn parsed_entries(parsed: Result<Vec<(String, Vec<String>)>, serde_json::Error>)
    -> Option<StringLists> {
    match parsed {
        Ok(entries) => Some(entries.deep_view()),
        Err(_) => None,
    }
}

/// Maps the outcome of the parse to the recipients or to the reason why there
/// are none.
pub fn recipients_from(parsed: Result<Vec<(String, Vec<String>)>, serde_json::Error>) -> (found:
    Result<Vec<String>, ConfigError>)
    ensures
        match recipients_of(parsed_entries(parsed)) {
            Ok(list) => found is Ok && found->Ok_0.deep_view() == list,
            Err(error) => found == Err::<Vec<String>, ConfigError>(error),
        },
{
    match parsed {
        Err(_) => Err(ConfigError::MalformedRecipients),
        Ok(entries) => match emails_entry(entries) {
            None => Err(ConfigError::NoEmailsKey),
            Some(list) => Ok(list),
        },
    }
}

impl MailInfo {
    /// Puts a configuration together from the four values a run needs. Each
    /// of them may be absent; the first absent one, in the order of the
    /// parameters, is reported.
    pub fn new(
        sender_address: Option<String>,
        smtp_relay_host: Option<String>,
        smtp_password: Option<String>,
        recipient_source: Option<String>,
    ) -> (made: Result<MailInfo, ConfigError>)
        ensures
            made is Ok <==> sender_address is Some && smtp_relay_host is Some && smtp_password
                is Some && recipient_source is Some,
            made is Ok ==> made->Ok_0@ == (MailInfoView {
                sender_address: sender_address->Some_0@,
                smtp_relay_host: smtp_relay_host->Some_0@,
                smtp_password: smtp_password->Some_0@,
                recipient_source: recipient_source->Some_0@,
            }),
            made is Err ==> made->Err_0 == (if sender_address is None {
                ConfigError::MissingSender
            } else if smtp_relay_host is None {
                ConfigError::MissingRelay
            } else if smtp_password is None {
                ConfigError::MissingPassword
            } else {
                ConfigError::MissingRecipients
            }),
    {
        let sender_address = match sender_address {
            Some(value) => value,
            None => return Err(ConfigError::MissingSender),
        };
        let smtp_relay_host = match smtp_relay_host {
            Some(value) => value,
            None => return Err(ConfigError::MissingRelay),
        };
        let smtp_password = match smtp_password {
            Some(value) => value,
            None => return Err(ConfigError::MissingPassword),
        };
        let recipient_source = match recipient_source {
            Some(value) => value,
            None => return Err(ConfigError::MissingRecipients),
        };
        Ok(MailInfo { sender_address, smtp_relay_host, smtp_password, recipient_source })
    }

    /// The recipients named by the configuration, in their order.
    pub fn recipients(&self) -> (found: Result<Vec<String>, ConfigError>)
        ensures
            match recipients_of(json_string_lists(self@.recipient_source)) {
                Ok(list) => found is Ok && found->Ok_0.deep_view() == list,
                Err(error) => found == Err::<Vec<String>, ConfigError>(error),
            },
    {
        recipients_from(parse_string_lists(self.recipient_source.as_str()))
    }
}

} // verus!
