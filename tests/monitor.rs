use ip_watch::dispatch::Dispatch;
use ip_watch::monitor::{resolution_from_response, ChangeMonitor, FetchError, TickReport};
use ip_watch::notify::{
    change_message_text, plan_change, plan_tick, poll_message_text, webhook_body_text, HttpMethod,
    Notifier, NotifyRequest,
};

fn ok(s: &str) -> Result<String, FetchError> {
    Ok(s.to_string())
}

fn is_change(r: &TickReport) -> bool {
    matches!(r, TickReport::Changed { .. })
}

fn content_of(body: &str) -> String {
    let v: serde_json::Value = serde_json::from_str(body).unwrap();
    let obj = v.as_object().unwrap();
    assert_eq!(obj.len(), 1);
    obj["content"].as_str().unwrap().to_string()
}

fn two_notifiers() -> Vec<Notifier> {
    vec![
        Notifier::Webhook { url: "https://hook.example/w".to_string() },
        Notifier::DynDns { url_prefix: "https://dns.example/update?ip=".to_string() },
    ]
}

#[test]
fn first_resolution_is_a_change_from_empty() {
    let mut m = ChangeMonitor::new();
    assert_eq!(m.observed(), "");
    let r = m.on_resolution(ok("5.6.7.8"));
    match &r {
        TickReport::Changed { previous, current } => {
            assert_eq!(previous, "");
            assert_eq!(current, "5.6.7.8");
        }
        _ => panic!("expected a change"),
    }
    assert_eq!(m.observed(), "5.6.7.8");
    let reqs = plan_change(&two_notifiers(), "", "5.6.7.8");
    assert_eq!(reqs.len(), 2);
    assert_eq!(reqs[0].method, HttpMethod::Post);
    assert_eq!(reqs[0].url, "https://hook.example/w");
    assert_eq!(content_of(reqs[0].body.as_ref().unwrap()), " 🥳 New IP [5.6.7.8]  😓 Old IP []");
    assert_eq!(reqs[1].method, HttpMethod::Get);
    assert_eq!(reqs[1].url, "https://dns.example/update?ip=5.6.7.8");
    assert!(reqs[1].body.is_none());
}

#[test]
fn repeated_answer_changes_once() {
    let mut m = ChangeMonitor::new();
    let mut changes = 0;
    for _ in 0..6 {
        if is_change(&m.on_resolution(ok("9.9.9.9"))) {
            changes += 1;
        }
        assert_eq!(m.observed(), "9.9.9.9");
    }
    assert_eq!(changes, 1);
    assert!(matches!(m.on_resolution(ok("9.9.9.9")), TickReport::Unchanged { address } if address == "9.9.9.9"));
}

#[test]
fn changes_fire_at_each_transition() {
    let mut m = ChangeMonitor::new();
    m.on_resolution(ok("1.1.1.1"));
    let flags: Vec<bool> = ["1.1.1.1", "1.1.1.1", "2.2.2.2", "2.2.2.2", "1.1.1.1"]
        .iter()
        .map(|a| is_change(&m.on_resolution(ok(a))))
        .collect();
    assert_eq!(flags, vec![false, false, true, false, true]);
    assert_eq!(flags.iter().filter(|f| **f).count(), 2);
    assert_eq!(m.observed(), "1.1.1.1");
}

#[test]
fn padded_answer_equals_bare_answer() {
    let mut m = ChangeMonitor::new();
    m.on_resolution(ok("1.2.3.4"));
    let r = m.on_resolution(ok("  1.2.3.4\n"));
    assert!(matches!(r, TickReport::Unchanged { address } if address == "1.2.3.4"));
    let mut n = ChangeMonitor::new();
    let r = n.on_resolution(ok("  1.2.3.4\n"));
    assert!(matches!(r, TickReport::Changed { current, .. } if current == "1.2.3.4"));
    assert_eq!(n.observed(), "1.2.3.4");
}

#[test]
fn failed_resolution_keeps_observed_address() {
    let mut m = ChangeMonitor::new();
    m.on_resolution(ok("3.3.3.3"));
    let r = m.on_resolution(Err(FetchError::Transport("timed out".to_string())));
    assert!(matches!(r, TickReport::FetchFailed(FetchError::Transport(_))));
    assert_eq!(m.observed(), "3.3.3.3");
    let r = m.on_resolution(Err(FetchError::Status(502)));
    assert!(matches!(r, TickReport::FetchFailed(FetchError::Status(502))));
    assert_eq!(m.observed(), "3.3.3.3");
    assert!(matches!(m.on_resolution(ok("3.3.3.3")), TickReport::Unchanged { .. }));
}

#[test]
fn response_status_decides_success() {
    assert_eq!(resolution_from_response(200, " 4.4.4.4\n").unwrap(), "4.4.4.4");
    assert_eq!(resolution_from_response(299, "x").unwrap(), "x");
    assert!(matches!(resolution_from_response(503, "4.4.4.4"), Err(FetchError::Status(503))));
    assert!(matches!(resolution_from_response(199, ""), Err(FetchError::Status(199))));
    assert!(matches!(resolution_from_response(300, ""), Err(FetchError::Status(300))));
}

#[test]
fn webhook_body_is_escaped_json() {
    let body = webhook_body_text("say \"hi\"\n");
    assert_eq!(body, "{\"content\":\"say \\\"hi\\\"\\n\"}");
    assert_eq!(content_of(&body), "say \"hi\"\n");
    assert_eq!(poll_message_text("7.7.7.7"), " 💢 IP [7.7.7.7]");
    assert_eq!(change_message_text("a", "b"), " 🥳 New IP [b]  😓 Old IP [a]");
}

#[test]
fn tick_plans_follow_the_report() {
    let ns = two_notifiers();
    let failed = TickReport::FetchFailed(FetchError::Status(500));
    assert!(plan_tick(&failed, &ns, true).is_empty());
    let same = TickReport::Unchanged { address: "8.8.8.8".to_string() };
    assert!(plan_tick(&same, &ns, false).is_empty());
    let notices = plan_tick(&same, &ns, true);
    assert_eq!(notices.len(), 1);
    assert_eq!(notices[0].url, "https://hook.example/w");
    assert_eq!(content_of(notices[0].body.as_ref().unwrap()), " 💢 IP [8.8.8.8]");
    let changed = TickReport::Changed { previous: "1.1.1.1".to_string(), current: "2.2.2.2".to_string() };
    let quiet = plan_tick(&changed, &ns, false);
    assert_eq!(quiet.len(), 2);
    assert_eq!(quiet[1].url, "https://dns.example/update?ip=2.2.2.2");
    let loud = plan_tick(&changed, &ns, true);
    assert_eq!(loud.len(), 3);
    assert_eq!(content_of(loud[0].body.as_ref().unwrap()), " 💢 IP [2.2.2.2]");
    assert_eq!(content_of(loud[1].body.as_ref().unwrap()), " 🥳 New IP [2.2.2.2]  😓 Old IP [1.1.1.1]");
    assert_eq!(loud[2].method, HttpMethod::Get);
}

#[test]
fn failing_notifier_does_not_stop_the_others() {
    let reqs = plan_change(&two_notifiers(), "1.1.1.1", "2.2.2.2");
    let urls: Vec<String> = reqs.iter().map(|r: &NotifyRequest| r.url.clone()).collect();
    let mut d = Dispatch::new(reqs);
    let mut sent = Vec::new();
    while let Some(req) = d.next_request() {
        sent.push(req.url.clone());
        d.record(false);
    }
    assert_eq!(sent, urls);
    assert!(d.is_finished());
    assert_eq!(d.failures(), 2);
}

#[test]
fn dispatch_counts_only_failures() {
    let reqs = plan_change(&two_notifiers(), "1.1.1.1", "2.2.2.2");
    let mut d = Dispatch::new(reqs);
    assert!(!d.is_finished());
    d.record(true);
    assert!(d.next_request().is_some());
    d.record(false);
    assert!(d.next_request().is_none());
    assert!(d.is_finished());
    assert_eq!(d.failures(), 1);
    let empty = Dispatch::new(Vec::new());
    assert!(empty.next_request().is_none());
    assert!(empty.is_finished());
    assert_eq!(empty.failures(), 0);
}
