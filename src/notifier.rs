//! The notification sink and the message posted to it when a host goes down.
use vstd::prelude::*;

verus! {

/// The endpoint that receives down-notifications, with optional basic-auth
/// credentials, the topic posted under and an optional icon.
#[derive(Clone, Debug)]
pub struct Target {
    pub url: String,
    pub username: Option<String>,
    pub password: Option<String>,
    pub topic: String,
    pub icon: Option<String>,
}

impl Default for Target {
    /// The public ntfy service, under this program's topic, without credentials
    /// or icon.
    fn default() -> (r: Target)
        ensures
            r.url@ == "https://ntfy.sh/"@,
            r.username is None,
            r.password is None,
            r.topic@ == "srvchk"@,
            r.icon is None,
    {
        Target {
            url: String::from_str("https://ntfy.sh/"),
            username: None,
            password: None,
            topic: String::from_str("srvchk"),
            icon: None,
        }
    }
}

/// The body of one notification.
#[derive(Clone, Debug)]
pub struct Payload {
    pub topic: String,
    pub title: String,
    pub message: String,
    pub icon: Option<String>,
}

/// What `str`'s `Debug` formatting makes of a text.
pub uninterp spec fn quoted(s: Seq<char>) -> Seq<char>;

/// Relies on `str`'s `Debug` formatting: the text in double quotes, with
/// quotes, backslashes and control characters escaped.
#[verifier::external_body]
fn quote(s: &str) -> (r: String)
    ensures
        r@ == quoted(s@),
{
    format!("{:?}", s)
}

/// How a host is called in a notification: its name if it has one, else its
/// address.
pub open spec fn label(name: Option<&str>, dns: &str) -> Seq<char> {
    match name {
        Some(n) => n@,
        None => dns@,
    }
}

/// The title of a down-notification for a host called `label`.
pub open spec fn title_of(label: Seq<char>) -> Seq<char> {
    label + " is down!"@
}

/// The message of a down-notification for the host at `dns`.
pub open spec fn message_of(dns: Seq<char>) -> Seq<char> {
    "Host "@ + quoted(dns) + " is unreachable."@
}

impl Target {
    /// The notification that host `dns`, called `name` if given, is down.
    pub fn payload(&self, name: Option<&str>, dns: &str) -> (r: Payload)
        ensures
            r.topic@ == self.topic@,
            r.title@ == title_of(label(name, dns)),
            r.message@ == message_of(dns@),
            r.icon == self.icon,
    {
        let shown: &str = match name {
            Some(n) => n,
            None => dns,
        };
        let title = String::from_str(shown).concat(" is down!");
        let message = String::from_str("Host ").concat(quote(dns).as_str()).concat(" is unreachable.");
        let icon = match &self.icon {
            Some(i) => Some(i.clone()),
            None => None,
        };
        Payload { topic: self.topic.clone(), title, message, icon }
    }
}

} // verus!
