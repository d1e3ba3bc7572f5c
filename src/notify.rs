//! The notifications that a tick sends: what each configured target is
//! asked, and in what order.

use crate::monitor::TickReport;
use vstd::prelude::*;
use vstd::string::StringExecFns;

verus! {

/// The JSON text (a quoted, escaped string literal) that serde_json writes
/// for the string `s`.
pub uninterp spec fn json_string_of(s: Seq<char>) -> Seq<char>;

/// Relies on serde_json's `Value::String` and its compact `Display`, which
/// writes a string value as a quoted JSON literal, escaping as JSON asks.
#[verifier::external_body]
fn json_string(s: &str) -> (r: String)
    ensures
        r@ == json_string_of(s@),
{
    serde_json::Value::String(s.to_owned()).to_string()
}

/// An HTTP method that a notification uses.
#[derive(Clone, Copy, Debug, PartialEq, Eq, Structural)]
pub enum HttpMethod {
    Get,
    Post,
}

/// A place that is told of address changes.
#[derive(Clone, Debug)]
pub enum Notifier {
    /// A chat webhook: POST of a JSON object with one `content` text field.
    Webhook { url: String },
    /// A dynamic-DNS update: GET of `url_prefix` followed by the new address
    /// (the prefix carries domain, token and the name of the address
    /// parameter).
    DynDns { url_prefix: String },
}

/// One HTTP request that a notifier is to make.
#[derive(Clone, Debug)]
pub struct NotifyRequest {
    pub method: HttpMethod,
    pub url: String,
    pub body: Option<String>,
}

/// A request as the model sees it.
pub struct RequestSpec {
    pub method: HttpMethod,
    pub url: Seq<char>,
    pub body: Option<Seq<char>>,
}

impl View for NotifyRequest {
    type V = RequestSpec;

    open spec fn view(&self) -> RequestSpec {
        RequestSpec {
            method: self.method,
            url: self.url@,
            body: match self.body {
                Some(b) => Some(b@),
                None => None,
            },
        }
    }
}

/// The text of a change notice.
pub open spec fn change_message(previous: Seq<char>, current: Seq<char>) -> Seq<char> {
    " 🥳 New IP ["@ + current + "]  😓 Old IP ["@ + previous + "]"@
}

/// The text of a notice that an address was resolved.
pub open spec fn poll_message(address: Seq<char>) -> Seq<char> {
    " 💢 IP ["@ + address + "]"@
}

/// The JSON object that a webhook receives: `{"content":<text>}`.
pub open spec fn webhook_body(content: Seq<char>) -> Seq<char> {
    "{\"content\":"@ + json_string_of(content) + "}"@
}

/// The text of a change notice.
pub fn change_message_text(previous: &str, current: &str) -> (r: String)
    ensures
        r@ == change_message(previous@, current@),
{
    let mut m = String::from_str(" 🥳 New IP [");
    m.append(current);
    m.append("]  😓 Old IP [");
    m.append(previous);
    m.append("]");
    m
}

/// The text of a notice that an address was resolved.
pub fn poll_message_text(address: &str) -> (r: String)
    ensures
        r@ == poll_message(address@),
{
    let mut m = String::from_str(" 💢 IP [");
    m.append(address);
    m.append("]");
    m
}

/// The JSON object that a webhook receives for the text `content`.
pub fn webhook_body_text(content: &str) -> (r: String)
    ensures
        r@ == webhook_body(content@),
{
    let quoted = json_string(content);
    let mut b = String::from_str("{\"content\":");
    b.append(quoted.as_str());
    b.append("}");
    b
}

/// The models of the requests `v`, in order.
pub open spec fn request_views(v: Seq<NotifyRequest>) -> Seq<RequestSpec> {
    v.map_values(|r: NotifyRequest| r@)
}

impl Notifier {
    /// What this notifier is asked on a change from `previous` to `current`.
    pub open spec fn change_request_spec(self, previous: Seq<char>, current: Seq<char>) -> RequestSpec {
        match self {
            Notifier::Webhook { url } => RequestSpec {
                method: HttpMethod::Post,
                url: url@,
                body: Some(webhook_body(change_message(previous, current))),
            },
            Notifier::DynDns { url_prefix } => RequestSpec {
                method: HttpMethod::Get,
                url: url_prefix@ + current,
                body: None,
            },
        }
    }

    /// What this notifier is asked when `address` was resolved, if anything:
    /// only a webhook takes such notices.
    pub open spec fn poll_request_spec(self, address: Seq<char>) -> Option<RequestSpec> {
        match self {
            Notifier::Webhook { url } => Some(
                RequestSpec {
                    method: HttpMethod::Post,
                    url: url@,
                    body: Some(webhook_body(poll_message(address))),
                },
            ),
            Notifier::DynDns { .. } => None,
        }
    }

    /// The request that tells this notifier of a change from `previous` to
    /// `current`.
    pub fn change_request(&self, previous: &str, current: &str) -> (r: NotifyRequest)
        ensures
            r@ == self.change_request_spec(previous@, current@),
    {
        match self {
            Notifier::Webhook { url } => {
                let message = change_message_text(previous, current);
                NotifyRequest {
                    method: HttpMethod::Post,
                    url: url.clone(),
                    body: Some(webhook_body_text(message.as_str())),
                }
            },
            Notifier::DynDns { url_prefix } => {
                let mut u = url_prefix.clone();
                u.append(current);
                NotifyRequest { method: HttpMethod::Get, url: u, body: None }
            },
        }
    }

    /// The request that tells this notifier that `address` was resolved;
    /// `None` for a notifier that takes no such notices.
    pub fn poll_request(&self, address: &str) -> (r: Option<NotifyRequest>)
        ensures
            r is Some <==> self.poll_request_spec(address@) is Some,
            r is Some ==> r->Some_0@ == self.poll_request_spec(address@)->Some_0,
    {
        match self {
            Notifier::Webhook { url } => {
                let message = poll_message_text(address);
                Some(
                    NotifyRequest {
                        method: HttpMethod::Post,
                        url: url.clone(),
                        body: Some(webhook_body_text(message.as_str())),
                    },
                )
            },
            Notifier::DynDns { .. } => None,
        }
    }
}

/// The change requests for `notifiers`: one for each, in their order.
pub open spec fn change_plan(notifiers: Seq<Notifier>, previous: Seq<char>, current: Seq<char>) -> Seq<RequestSpec> {
    notifiers.map_values(|n: Notifier| n.change_request_spec(previous, current))
}

/// The resolution notices for `notifiers`: one for each that takes them, in
/// their order.
pub open spec fn poll_plan(notifiers: Seq<Notifier>, address: Seq<char>) -> Seq<RequestSpec>
    decreases notifiers.len(),
{
    if notifiers.len() == 0 {
        Seq::empty()
    } else {
        let rest = poll_plan(notifiers.drop_last(), address);
        match notifiers.last().poll_request_spec(address) {
            Some(r) => rest.push(r),
            None => rest,
        }
    }
}

/// Everything that one tick sends: nothing after a failed resolution;
/// resolution notices when `announce_polls` is set; and on a change, after
/// those, one change request for each notifier.
pub open spec fn tick_plan(report: TickReport, notifiers: Seq<Notifier>, announce_polls: bool) -> Seq<RequestSpec> {
    match report {
        TickReport::FetchFailed(_) => Seq::empty(),
        TickReport::Unchanged { address } => if announce_polls {
            poll_plan(notifiers, address@)
        } else {
            Seq::empty()
        },
        TickReport::Changed { previous, current } => (if announce_polls {
            poll_plan(notifiers, current@)
        } else {
            Seq::empty()
        }) + change_plan(notifiers, previous@, current@),
    }
}

/// Appends to `out` the change request of each of `notifiers`.
fn push_change_requests(out: &mut Vec<NotifyRequest>, notifiers: &Vec<Notifier>, previous: &str, current: &str)
    ensures
        request_views(final(out)@) == request_views(old(out)@) + change_plan(notifiers@, previous@, current@),
{
    let ghost start = request_views(out@);
    let mut i: usize = 0;
    while i < notifiers.len()
        invariant
            i <= notifiers@.len(),
            request_views(out@) == start + change_plan(notifiers@.take(i as int), previous@, current@),
        decreases notifiers@.len() - i,
    {
        let r = notifiers[i].change_request(previous, current);
        proof {
            assert(notifiers@.take(i + 1) =~= notifiers@.take(i as int).push(notifiers@[i as int]));
        }
        let ghost before = out@;
        out.push(r);
        proof {
            assert(request_views(out@) =~= request_views(before).push(r@));
            assert(change_plan(notifiers@.take(i + 1), previous@, current@) =~= change_plan(
                notifiers@.take(i as int),
                previous@,
                current@,
            ).push(r@));
            assert(request_views(out@) =~= start + change_plan(notifiers@.take(i + 1), previous@, current@));
        }
        i = i + 1;
    }
    assert(notifiers@.take(i as int) =~= notifiers@);
}

/// Appends to `out` the resolution notice of each of `notifiers` that takes
/// them.
fn push_poll_requests(out: &mut Vec<NotifyRequest>, notifiers: &Vec<Notifier>, address: &str)
    ensures
        request_views(final(out)@) == request_views(old(out)@) + poll_plan(notifiers@, address@),
{
    let ghost start = request_views(out@);
    let mut i: usize = 0;
    assert(start + poll_plan(notifiers@.take(0), address@) =~= start);
    while i < notifiers.len()
        invariant
            i <= notifiers@.len(),
            request_views(out@) == start + poll_plan(notifiers@.take(i as int), address@),
        decreases notifiers@.len() - i,
    {
        let r = notifiers[i].poll_request(address);
        proof {
            assert(notifiers@.take(i + 1).drop_last() =~= notifiers@.take(i as int));
            assert(notifiers@.take(i + 1).last() == notifiers@[i as int]);
        }
        match r {
            Some(q) => {
                let ghost before = out@;
                out.push(q);
                proof {
                    assert(request_views(out@) =~= request_views(before).push(q@));
                    assert(request_views(out@) =~= start + poll_plan(notifiers@.take(i + 1), address@));
                }
            },
            None => {},
        }
        i = i + 1;
    }
    assert(notifiers@.take(i as int) =~= notifiers@);
}

/// The requests that a change from `previous` to `current` sends: one to
/// each notifier, in their order.
pub fn plan_change(notifiers: &Vec<Notifier>, previous: &str, current: &str) -> (r: Vec<NotifyRequest>)
    ensures
        request_views(r@) == change_plan(notifiers@, previous@, current@),
{
    let mut out: Vec<NotifyRequest> = Vec::new();
    push_change_requests(&mut out, notifiers, previous, current);
    assert(request_views(Seq::<NotifyRequest>::empty()) =~= Seq::<RequestSpec>::empty());
    assert(Seq::<RequestSpec>::empty() + change_plan(notifiers@, previous@, current@) =~= change_plan(notifiers@, previous@, current@));
    out
}

/// The requests that the tick described by `report` sends.
pub fn plan_tick(report: &TickReport, notifiers: &Vec<Notifier>, announce_polls: bool) -> (r: Vec<NotifyRequest>)
    ensures
        request_views(r@) == tick_plan(*report, notifiers@, announce_polls),
{
    let mut out: Vec<NotifyRequest> = Vec::new();
    assert(request_views(out@) =~= Seq::<RequestSpec>::empty());
    match report {
        TickReport::FetchFailed(_) => {},
        TickReport::Unchanged { address } => {
            if announce_polls {
                push_poll_requests(&mut out, notifiers, address.as_str());
                assert(request_views(out@) =~= poll_plan(notifiers@, address@));
            }
        },
        TickReport::Changed { previous, current } => {
            if announce_polls {
                push_poll_requests(&mut out, notifiers, current.as_str());
            }
            push_change_requests(&mut out, notifiers, previous.as_str(), current.as_str());
            assert(request_views(out@) =~= tick_plan(*report, notifiers@, announce_polls));
        },
    }
    out
}

} // verus!
