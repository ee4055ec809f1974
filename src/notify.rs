//! The notification of a run: the fleet paragraph and the queue warnings in
//! one message, and the pieces of the outgoing email.

use base64::prelude::BASE64_STANDARD;
use base64::Engine;
use vstd::prelude::*;
use crate::text::{join_with, joined, opt_view, views};

verus! {

/// The lines gathered for one outgoing notification.
#[derive(Clone, Debug)]
pub struct Notification {
    pub messages: Vec<String>,
}

/// Whether to send, and the body to send.
#[derive(Clone, Debug)]
pub struct NotificationDecision {
    pub should_send: bool,
    pub body: Option<String>,
}

/// The paragraphs of a run's notification: the fleet paragraph, if any,
/// then the queue warnings.
pub open spec fn paragraphs_of(fleet: Option<Seq<char>>, warnings: Seq<Seq<char>>) -> Seq<Seq<char>> {
    match fleet {
        None => warnings,
        Some(f) => seq![f] + warnings,
    }
}

/// A notification is sent only when it has content; its body is its
/// paragraphs joined by newlines.
pub open spec fn decision_holds(d: NotificationDecision, paragraphs: Seq<Seq<char>>) -> bool {
    &&& d.should_send == (paragraphs.len() > 0)
    &&& d.body is Some <==> d.should_send
    &&& d.body matches Some(b) ==> b@ == joined(paragraphs, "\n"@)
}

impl Notification {
    pub fn new() -> (r: Notification)
        ensures
            r.messages@.len() == 0,
    {
        Notification { messages: Vec::new() }
    }

    /// Adds one paragraph at the end.
    pub fn push(&mut self, message: String)
        ensures
            final(self).messages@ == old(self).messages@.push(message),
    {
        self.messages.push(message);
    }

    /// Adds paragraphs at the end, in order.
    pub fn extend(&mut self, messages: Vec<String>)
        ensures
            final(self).messages@ == old(self).messages@ + messages@,
    {
        let ghost start = self.messages@;
        let mut i: usize = 0;
        let mut rest = messages;
        let ghost all = rest@;
        let total = rest.len();
        while rest.len() > 0
            invariant
                0 <= i <= all.len(),
                all == messages@,
                all.len() == total,
                rest@ == all.subrange(i as int, all.len() as int),
                self.messages@ == start + all.subrange(0, i as int),
            decreases rest@.len(),
        {
            let m = rest.remove(0);
            proof {
                assert(all.subrange(0, i + 1) =~= all.subrange(0, i as int).push(m));
            }
            self.messages.push(m);
            i += 1;
            proof {
                assert(rest@ =~= all.subrange(i as int, all.len() as int));
            }
        }
        proof {
            assert(all.subrange(0, i as int) =~= all);
        }
    }

    /// Decides the notification: sent exactly when it holds a paragraph.
    pub fn decision(&self) -> (r: NotificationDecision)
        ensures
            decision_holds(r, views(self.messages@)),
    {
        if self.messages.len() == 0 {
            NotificationDecision { should_send: false, body: None }
        } else {
            let body = join_with(&self.messages, "\n");
            NotificationDecision { should_send: true, body: Some(body) }
        }
    }
}

/// Merges the fleet paragraph, if any, and the queue warnings into the
/// run's single notification.
pub fn decide(fleet_message: Option<String>, warnings: Vec<String>) -> (r: NotificationDecision)
    ensures
        decision_holds(r, paragraphs_of(opt_view(fleet_message), views(warnings@))),
{
    let mut n = Notification::new();
    let ghost fleet = fleet_message;
    match fleet_message {
        Some(m) => n.push(m),
        None => {},
    }
    let ghost w = warnings@;
    n.extend(warnings);
    proof {
        assert(views(n.messages@) =~= paragraphs_of(opt_view(fleet), views(w)));
    }
    n.decision()
}

/// The HTML alternative of a plain-text body: the text, preformatted.
pub fn html_alternative(body: &String) -> (r: String)
    ensures
        r@ == "<pre>"@ + body@ + "</pre>"@,
{
    let mut r = String::from_str("<pre>");
    r.append(body.as_str());
    r.append("</pre>");
    r
}

/// The standard base64 text (RFC 4648 alphabet, with padding) of some bytes.
pub uninterp spec fn base64_standard(b: Seq<u8>) -> Seq<char>;

/// Relies on base64's `BASE64_STANDARD.encode`: the standard-alphabet, padded
/// encoding, a function of the bytes alone, four characters for each started
/// group of three bytes. It panics when that length overflows `usize`.
#[verifier::external_body]
fn encode_base64(raw: &Vec<u8>) -> (r: String)
    requires
        raw@.len() / 3 * 4 + 4 <= usize::MAX,
    ensures
        r@ == base64_standard(raw@),
        r@.len() == (raw@.len() + 2) / 3 * 4,
{
    BASE64_STANDARD.encode(raw)
}

/// The data field of a raw email request: the formatted message in
/// standard base64.
pub fn raw_message_data(raw: &Vec<u8>) -> (r: String)
    requires
        raw@.len() / 3 * 4 + 4 <= usize::MAX,
    ensures
        r@ == base64_standard(raw@),
        r@.len() == (raw@.len() + 2) / 3 * 4,
{
    encode_base64(raw)
}

} // verus!
