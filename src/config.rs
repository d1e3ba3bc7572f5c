//! Startup configuration: the poll interval and the notification targets,
//! checked once before the loop starts.

use crate::notify::Notifier;
use vstd::prelude::*;
use vstd::string::StrSliceExecFns;

verus! {

/// The poll interval, in seconds, when none (or no number) is configured.
pub const DEFAULT_INTERVAL_SECS: u64 = 3600;

/// Whether `c` is an ASCII decimal digit.
pub open spec fn is_digit(c: char) -> bool {
    '0' as u32 <= c as u32 && c as u32 <= '9' as u32
}

/// Every character of `s` is a decimal digit.
pub open spec fn all_digits(s: Seq<char>) -> bool {
    forall|i: int| 0 <= i < s.len() ==> #[trigger] is_digit(s[i])
}

/// The number that the decimal digits `s` write.
pub open spec fn digits_value(s: Seq<char>) -> int
    decreases s.len(),
{
    if s.len() == 0 {
        0
    } else {
        digits_value(s.drop_last()) * 10 + (s.last() as u32 - '0' as u32)
    }
}

/// `s` read as an unsigned 64-bit decimal number, as `u64`'s `FromStr`
/// reads it: an optional `+`, then one digit or more, with a value that fits.
pub open spec fn parse_u64_spec(s: Seq<char>) -> Option<u64> {
    let d = if s.len() > 0 && s[0] == '+' {
        s.drop_first()
    } else {
        s
    };
    if d.len() > 0 && all_digits(d) && digits_value(d) <= u64::MAX {
        Some(digits_value(d) as u64)
    } else {
        None
    }
}

proof fn lemma_digits_prefix_le(d: Seq<char>, k: int)
    requires
        all_digits(d),
        0 <= k <= d.len(),
    ensures
        0 <= digits_value(d.take(k)) <= digits_value(d),
    decreases d.len(),
{
    if k == d.len() {
        assert(d.take(k) =~= d);
        if d.len() > 0 {
            assert(all_digits(d.drop_last()));
            lemma_digits_prefix_le(d.drop_last(), k - 1);
            assert(d.drop_last().take(k - 1) =~= d.drop_last());
            assert(is_digit(d[d.len() - 1]));
        }
    } else {
        assert(all_digits(d.drop_last()));
        assert(d.drop_last().take(k) =~= d.take(k));
        lemma_digits_prefix_le(d.drop_last(), k);
        lemma_digits_prefix_le(d.drop_last(), d.len() - 1);
        assert(d.drop_last().take(d.len() - 1) =~= d.drop_last());
        assert(is_digit(d[d.len() - 1]));
    }
}

/// `s` read as an unsigned 64-bit decimal number; `None` where it is no
/// such number or does not fit.
pub fn parse_u64(s: &str) -> (r: Option<u64>)
    ensures
        r == parse_u64_spec(s@),
{
    let n = s.unicode_len();
    let mut start: usize = 0;
    if n > 0 && s.get_char(0) == '+' {
        start = 1;
    }
    let ghost d = if s@.len() > 0 && s@[0] == '+' {
        s@.drop_first()
    } else {
        s@
    };
    assert(d =~= s@.subrange(start as int, n as int));
    assert(parse_u64_spec(s@) == (if d.len() > 0 && all_digits(d) && digits_value(d) <= u64::MAX {
        Some(digits_value(d) as u64)
    } else {
        None
    }));
    if start >= n {
        return None;
    }
    let mut v: u64 = 0;
    let mut i: usize = start;
    while i < n
        invariant
            start <= i <= n,
            n == s@.len(),
            d == s@.subrange(start as int, n as int),
            d.len() > 0,
            parse_u64_spec(s@) == (if all_digits(d) && digits_value(d) <= u64::MAX {
                Some(digits_value(d) as u64)
            } else {
                None
            }),
            all_digits(d.take(i - start)),
            v == digits_value(d.take(i - start)),
        decreases n - i,
    {
        let c = s.get_char(i);
        assert(d[i - start] == c);
        if (c as u32) < ('0' as u32) || (c as u32) > ('9' as u32) {
            assert(!is_digit(d[i - start]));
            assert(!all_digits(d));
            return None;
        }
        let digit = (c as u32 - '0' as u32) as u64;
        assert(d.take(i + 1 - start).drop_last() =~= d.take(i - start));
        assert(all_digits(d.take(i + 1 - start)));
        assert(digits_value(d.take(i + 1 - start)) == v * 10 + digit);
        let next = match v.checked_mul(10) {
            Some(m) => m.checked_add(digit),
            None => None,
        };
        match next {
            Some(w) => {
                v = w;
            },
            None => {
                proof {
                    assert(v * 10 + digit > u64::MAX);
                    if all_digits(d) {
                        lemma_digits_prefix_le(d, i + 1 - start);
                        assert(digits_value(d) > u64::MAX);
                    }
                }
                return None;
            },
        }
        i = i + 1;
    }
    assert(d.take(i - start) =~= d);
    Some(v)
}

/// The poll interval for the configured text `raw`: its number where it is
/// one, the default where it is absent or no number.
pub open spec fn interval_spec(raw: Option<Seq<char>>) -> u64 {
    match raw {
        Some(s) => match parse_u64_spec(s) {
            Some(v) => v,
            None => DEFAULT_INTERVAL_SECS,
        },
        None => DEFAULT_INTERVAL_SECS,
    }
}

/// The model of an optional text.
pub open spec fn opt_view(o: Option<String>) -> Option<Seq<char>> {
    match o {
        Some(s) => Some(s@),
        None => None,
    }
}

/// The poll interval, in seconds, for the configured text `raw`.
pub fn interval_from(raw: Option<&str>) -> (r: u64)
    ensures
        r == interval_spec(match raw {
            Some(s) => Some(s@),
            None => None,
        }),
{
    match raw {
        Some(s) => match parse_u64(s) {
            Some(v) => v,
            None => DEFAULT_INTERVAL_SECS,
        },
        None => DEFAULT_INTERVAL_SECS,
    }
}

/// Why the configuration cannot start the loop.
#[derive(Clone, Copy, Debug, PartialEq, Eq, Structural)]
pub enum ConfigError {
    /// No webhook URL is configured.
    MissingWebhookUrl,
}

/// What the loop runs with.
#[derive(Clone, Debug)]
pub struct Config {
    /// Seconds between two ticks.
    pub interval_secs: u64,
    /// The chat webhook that hears of every change.
    pub webhook_url: String,
    /// One dynamic-DNS update URL prefix for each managed host name.
    pub dyndns_prefixes: Vec<String>,
    /// Whether every successful resolution, not only a change, is announced
    /// on the webhook.
    pub announce_polls: bool,
}

/// The notifiers of a configuration: the webhook first, then one
/// dynamic-DNS notifier for each prefix, in order.
pub open spec fn notifiers_spec(webhook_url: Seq<char>, prefixes: Seq<Seq<char>>) -> Seq<(bool, Seq<char>)> {
    seq![(true, webhook_url)] + prefixes.map_values(|p: Seq<char>| (false, p))
}

/// A notifier as `notifiers_spec` sees it: whether it is the webhook, and
/// its URL or prefix.
pub open spec fn notifier_view(n: Notifier) -> (bool, Seq<char>) {
    match n {
        Notifier::Webhook { url } => (true, url@),
        Notifier::DynDns { url_prefix } => (false, url_prefix@),
    }
}

impl Config {
    /// Checks the configured values: a webhook URL is required; the
    /// interval falls back to its default.
    pub fn from_values(
        interval: Option<String>,
        webhook_url: Option<String>,
        dyndns_prefixes: Vec<String>,
        announce_polls: bool,
    ) -> (r: Result<Config, ConfigError>)
        ensures
            r is Err <==> webhook_url is None,
            r is Err ==> r == Err::<Config, ConfigError>(ConfigError::MissingWebhookUrl),
            r is Ok ==> ({
                let c = r->Ok_0;
                &&& c.interval_secs == interval_spec(opt_view(interval))
                &&& c.webhook_url@ == webhook_url->Some_0@
                &&& c.dyndns_prefixes@ == dyndns_prefixes@
                &&& c.announce_polls == announce_polls
            }),
    {
        match webhook_url {
            None => Err(ConfigError::MissingWebhookUrl),
            Some(url) => {
                let secs = match &interval {
                    Some(s) => interval_from(Some(s.as_str())),
                    None => interval_from(None),
                };
                Ok(Config { interval_secs: secs, webhook_url: url, dyndns_prefixes, announce_polls })
            },
        }
    }

    /// The notifiers to tell of a change: the webhook, then one dynamic-DNS
    /// notifier for each prefix.
    pub fn notifiers(&self) -> (r: Vec<Notifier>)
        ensures
            r@.map_values(|n: Notifier| notifier_view(n)) == notifiers_spec(
                self.webhook_url@,
                self.dyndns_prefixes@.map_values(|p: String| p@),
            ),
    {
        let mut out: Vec<Notifier> = Vec::new();
        out.push(Notifier::Webhook { url: self.webhook_url.clone() });
        let ghost prefixes = self.dyndns_prefixes@.map_values(|p: String| p@);
        let mut i: usize = 0;
        while i < self.dyndns_prefixes.len()
            invariant
                i <= self.dyndns_prefixes@.len(),
                prefixes == self.dyndns_prefixes@.map_values(|p: String| p@),
                out@.map_values(|n: Notifier| notifier_view(n)) == notifiers_spec(
                    self.webhook_url@,
                    prefixes.take(i as int),
                ),
            decreases self.dyndns_prefixes@.len() - i,
        {
            let ghost before = out@;
            out.push(Notifier::DynDns { url_prefix: self.dyndns_prefixes[i].clone() });
            proof {
                assert(prefixes.take(i + 1) =~= prefixes.take(i as int).push(prefixes[i as int]));
                assert(out@.map_values(|n: Notifier| notifier_view(n)) =~= before.map_values(
                    |n: Notifier| notifier_view(n),
                ).push((false, prefixes[i as int])));
                assert(notifiers_spec(self.webhook_url@, prefixes.take(i + 1)) =~= notifiers_spec(
                    self.webhook_url@,
                    prefixes.take(i as int),
                ).push((false, prefixes[i as int])));
            }
            i = i + 1;
        }
        assert(prefixes.take(i as int) =~= prefixes);
        out
    }
}

} // verus!
