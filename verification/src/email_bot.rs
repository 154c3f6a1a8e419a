//! Notices by mail: what a notice says. Sending it is the driver's part.

use vstd::prelude::*;
use crate::config::EmailConfig;
use crate::text::concat3;

verus! {

/// The subject of every notice.
pub const SUBJECT: &'static str = "TJUPT BOT STATUS";

/// A mail ready to be sent.
pub struct Mail {
    pub from: String,
    pub to: String,
    pub subject: String,
    pub body: String,
}

/// A mail as the contracts see it.
pub struct MailView {
    pub from: Seq<char>,
    pub to: Seq<char>,
    pub subject: Seq<char>,
    pub body: Seq<char>,
}

impl View for Mail {
    type V = MailView;

    open spec fn view(&self) -> MailView {
        MailView { from: self.from@, to: self.to@, subject: self.subject@, body: self.body@ }
    }
}

/// The mailbox `name <address>`.
pub fn mailbox(name: &str, address: &str) -> (r: String)
    ensures
        r@ == name@ + " <"@ + address@ + ">"@,
{
    let mut s = concat3(name, " <", address);
    s.append(">");
    s
}

/// The notice with the given content, from the configured sender to the
/// receiver.
pub fn compose(e_config: &EmailConfig, rece: &str, content: &str) -> (r: Mail)
    ensures
        r@ == (MailView {
            from: "TJUPT_BOT"@ + " <"@ + (match e_config@.sender {
                Some(s) => s,
                None => e_config@.user,
            }) + ">"@,
            to: "YOU"@ + " <"@ + rece@ + ">"@,
            subject: SUBJECT@,
            body: content@,
        }),
{
    Mail {
        from: mailbox("TJUPT_BOT", e_config.sender()),
        to: mailbox("YOU", rece),
        subject: String::from_str(SUBJECT),
        body: String::from_str(content),
    }
}

} // verus!
