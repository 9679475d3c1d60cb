//! The probing-and-classification engine: planning one probe from a site
//! definition, detecting adversarial responses, and turning a received
//! response into a scan outcome by the site's detection method.

use crate::outcome::ResultStatus;
use crate::outcome::ScanResult;
use crate::retry::ScrapingStrategy;
use crate::sites::SiteData;
use crate::text::has_substring;
use crate::text::lower_of;
use crate::text::lowercase;
use crate::text::str_contains;
use crate::text::str_eq;
use crate::text::substitute;
use crate::text::substituted;
use vstd::prelude::*;

verus! {

/// What compiling `pattern` with fancy_regex and testing `text` against it
/// yields: `Some(matched)` on success, `None` when the pattern does not
/// compile or the match exceeds the engine's limits.  The engine runs with
/// default options, so the outcome depends on the two texts alone.
pub uninterp spec fn regex_verdict(pattern: Seq<char>, text: Seq<char>) -> Option<bool>;

/// Relies on fancy_regex::Regex::new and fancy_regex::Regex::is_match: the
/// pattern is compiled with default options and tested against `text`;
/// both steps are pure functions of their textual arguments.
#[verifier::external_body]
fn regex_match(pattern: &str, text: &str) -> (r: Option<bool>)
    ensures
        r == regex_verdict(pattern@, text@),
{
    match fancy_regex::Regex::new(pattern) {
        Ok(re) => re.is_match(text).ok(),
        Err(_) => None,
    }
}

/// Relies on fastrand::usize: a random index drawn from `0..n`, which the
/// crate documents to lie in the given range.
#[verifier::external_body]
fn random_index(n: usize) -> (r: usize)
    requires
        n > 0,
    ensures
        r < n,
{
    fastrand::usize(0..n)
}

/// Number of user agents in the rotation set.
pub const USER_AGENT_COUNT: usize = 3;

/// The rotation set of user agents, by index.
pub open spec fn user_agent_spec(i: int) -> Seq<char> {
    if i == 0 {
        "Mozilla/5.0 (Windows NT 10.0; Win64; x64) AppleWebKit/537.36 (KHTML, like Gecko) Chrome/120.0.0.0 Safari/537.36"@
    } else if i == 1 {
        "Mozilla/5.0 (Macintosh; Intel Mac OS X 10_15_7) AppleWebKit/537.36 (KHTML, like Gecko) Chrome/120.0.0.0 Safari/537.36"@
    } else {
        "Mozilla/5.0 (X11; Linux x86_64) AppleWebKit/537.36 (KHTML, like Gecko) Chrome/120.0.0.0 Safari/537.36"@
    }
}

/// The user agent at one index of the rotation set.
pub fn user_agent(i: usize) -> (r: &'static str)
    requires
        i < USER_AGENT_COUNT,
    ensures
        r@ == user_agent_spec(i as int),
{
    match i {
        0 => "Mozilla/5.0 (Windows NT 10.0; Win64; x64) AppleWebKit/537.36 (KHTML, like Gecko) Chrome/120.0.0.0 Safari/537.36",
        1 => "Mozilla/5.0 (Macintosh; Intel Mac OS X 10_15_7) AppleWebKit/537.36 (KHTML, like Gecko) Chrome/120.0.0.0 Safari/537.36",
        _ => "Mozilla/5.0 (X11; Linux x86_64) AppleWebKit/537.36 (KHTML, like Gecko) Chrome/120.0.0.0 Safari/537.36",
    }
}

/// The user agent of ordinary probes.
pub fn default_user_agent() -> (r: &'static str)
    ensures
        r@ == user_agent_spec(0),
{
    user_agent(0)
}

/// A user agent drawn at random from the rotation set, for stealthy probes.
pub fn random_user_agent() -> (r: &'static str)
    ensures
        exists|i: int| 0 <= i < USER_AGENT_COUNT && r@ == user_agent_spec(i),
{
    let i: usize = random_index(USER_AGENT_COUNT);
    let r: &'static str = user_agent(i);
    assert(r@ == user_agent_spec(i as int));
    r
}

/// Which of the two pre-built transport handles a probe uses.
#[derive(Debug, Clone, Copy, PartialEq, Eq, Structural)]
pub enum ClientChoice {
    Direct,
    Anonymized,
}

/// The anonymizing client serves exactly when it was requested and is
/// configured; otherwise the shared direct client serves.
pub fn select_client(use_tor: bool, tor_available: bool) -> (c: ClientChoice)
    ensures
        c == (if use_tor && tor_available {
            ClientChoice::Anonymized
        } else {
            ClientChoice::Direct
        }),
{
    if use_tor && tor_available {
        ClientChoice::Anonymized
    } else {
        ClientChoice::Direct
    }
}

/// The view of an optional header value.
pub open spec fn opt_text_view(o: Option<String>) -> Option<Seq<char>> {
    match o {
        Option::Some(s) => Option::Some(s@),
        Option::None => Option::None,
    }
}

/// An edge-proxy signature: a `server` header naming the known CDN vendor,
/// or the vendor's ray header being present at all.
pub open spec fn edge_proxy_sig(server: Option<Seq<char>>, has_trace: bool) -> bool {
    (match server {
        Option::Some(s) => has_substring(lower_of(s), "cloudflare"@),
        Option::None => false,
    }) || has_trace
}

/// Whether the response headers carry an edge-proxy signature.
pub fn is_edge_proxy(server_header: &Option<String>, has_trace_header: bool) -> (r: bool)
    ensures
        r == edge_proxy_sig(opt_text_view(*server_header), has_trace_header),
{
    let from_server: bool = match server_header {
        Option::Some(s) => {
            let lower: String = lowercase(s.as_str());
            str_contains(lower.as_str(), "cloudflare")
        },
        Option::None => false,
    };
    from_server || has_trace_header
}

/// Whether the HTTP status signals rate limiting.
pub fn is_rate_limited(status: u16) -> (r: bool)
    ensures
        r == (status == 429 || status == 503),
{
    status == 429 || status == 503
}

/// A negative marker in a lowercased body: the page itself reports absence.
pub open spec fn negative_marked(lb: Seq<char>) -> bool {
    has_substring(lb, "page not found"@) || has_substring(lb, "404"@) || has_substring(
        lb,
        "user not found"@,
    )
}

/// How many of the positive-signal keywords a lowercased body holds.
pub open spec fn positive_signal_count(lb: Seq<char>) -> int {
    (if has_substring(lb, "profile"@) {
        1int
    } else {
        0int
    }) + (if has_substring(lb, "posts"@) {
        1int
    } else {
        0int
    }) + (if has_substring(lb, "followers"@) {
        1int
    } else {
        0int
    })
}

/// The keyword heuristic over a lowercased body: a negative marker denies
/// with high confidence; two or more positive signals confirm; otherwise
/// the body stays inconclusive at half confidence.
pub open spec fn quick_check_spec(lb: Seq<char>) -> (bool, u32) {
    if negative_marked(lb) {
        (false, 90u32)
    } else if positive_signal_count(lb) >= 2 {
        (true, 85u32)
    } else {
        (false, 50u32)
    }
}

/// Apply the keyword heuristic to a response body.
pub fn quick_html_check(body: &str) -> (r: (bool, u32))
    ensures
        r == quick_check_spec(lower_of(body@)),
{
    let lower: String = lowercase(body);
    let lb: &str = lower.as_str();
    if str_contains(lb, "page not found") || str_contains(lb, "404") || str_contains(
        lb,
        "user not found",
    ) {
        return (false, 90);
    }
    let mut count: u32 = 0;
    if str_contains(lb, "profile") {
        count = count + 1;
    }
    if str_contains(lb, "posts") {
        count = count + 1;
    }
    if str_contains(lb, "followers") {
        count = count + 1;
    }
    assert(count == positive_signal_count(lower_of(body@)));
    if count >= 2 {
        (true, 85)
    } else {
        (false, 50)
    }
}

/// The site's validity regex exists and rejects the username: the one case
/// that concludes without any network request.
pub open spec fn regex_rejects(data: SiteData, username: Seq<char>) -> bool {
    data.regex_check@.len() > 0 && regex_verdict(data.regex_check@, username) == Option::Some(
        false,
    )
}

/// What one probe attempt must fetch.
pub struct FetchPlan {
    /// The public profile URL, with the username substituted.
    pub url: String,
    /// The URL to request: the distinct probe template when the site has
    /// one, the public URL otherwise.
    pub url_probe: String,
    /// Attach a randomized user agent (every strategy but the plain one).
    pub randomize_agent: bool,
    /// Which transport handle serves the request.
    pub client: ClientChoice,
    /// The response body is needed (`message` detection only).
    pub needs_body: bool,
}

/// The first step of one probe attempt: either an outcome reached without
/// any network request, or a fetch to perform.
pub enum ProbeStep {
    Conclude(ScanResult),
    Fetch(FetchPlan),
}

/// The resolved probe URL of a site for a username: the distinct probe
/// template when one is configured, the public URL template otherwise,
/// with the username substituted.
pub open spec fn probe_url_spec(data: SiteData, username: Seq<char>) -> Seq<char> {
    if data.url_probe@.len() > 0 {
        substituted(data.url_probe@, username)
    } else {
        substituted(data.url@, username)
    }
}

/// Plan one probe attempt.  A username that fails the site's validity regex
/// concludes as NotFound at confidence 0.95 with no fetch; every other case
/// yields the fetch plan for the selected strategy and transport.  Either
/// way the outcome carries the resolved public and probe URLs.
pub fn prepare_probe(
    username: &str,
    site: &str,
    data: &SiteData,
    use_tor: bool,
    tor_available: bool,
    strategy: ScrapingStrategy,
) -> (step: ProbeStep)
    ensures
        (step is Conclude) <==> regex_rejects(*data, username@),
        step matches ProbeStep::Conclude(r) ==> {
            &&& r.username@ == username@
            &&& r.site@ == site@
            &&& r.url@ == substituted(data.url@, username@)
            &&& r.url_probe@ == probe_url_spec(*data, username@)
            &&& r.link@ == Seq::<char>::empty()
            &&& !r.exist
            &&& r.proxied == use_tor
            &&& !r.error
            &&& r.error_msg@ == Seq::<char>::empty()
            &&& r.status == ResultStatus::NotFound
            &&& r.confidence == 95
            &&& r.wf()
        },
        step matches ProbeStep::Fetch(p) ==> {
            &&& p.url@ == substituted(data.url@, username@)
            &&& p.url_probe@ == probe_url_spec(*data, username@)
            &&& p.randomize_agent == (strategy != ScrapingStrategy::Fast)
            &&& p.client == (if use_tor && tor_available {
                ClientChoice::Anonymized
            } else {
                ClientChoice::Direct
            })
            &&& p.needs_body == (data.error_type@ == "message"@)
        },
{
    let url: String = substitute(data.url.as_str(), username);
    let url_probe: String = if !data.url_probe.as_str().is_empty() {
        substitute(data.url_probe.as_str(), username)
    } else {
        url.clone()
    };
    if !data.regex_check.as_str().is_empty() {
        let verdict: Option<bool> = regex_match(data.regex_check.as_str(), username);
        if let Option::Some(false) = verdict {
            let base: ScanResult = ScanResult::new(String::from_str(username), String::from_str(site));
            let base = ScanResult { proxied: use_tor, url_probe, ..base };
            let r: ScanResult = base.not_found(url, ResultStatus::NotFound, 95);
            return ProbeStep::Conclude(r);
        }
    }
    ProbeStep::Fetch(
        FetchPlan {
            url,
            url_probe,
            randomize_agent: !matches!(strategy, ScrapingStrategy::Fast),
            client: select_client(use_tor, tor_available),
            needs_body: str_eq(data.error_type.as_str(), "message"),
        },
    )
}

/// The received response of one probe, reduced to the values the
/// classifier reads.
pub struct ProbeResponse {
    /// The HTTP status code.
    pub status: u16,
    /// The `server` header, when present.
    pub server_header: Option<String>,
    /// Whether the vendor-specific ray header is present.
    pub has_trace_header: bool,
    /// The final URL after redirects.
    pub final_url: String,
    /// The body: absent when it was not fetched, `Err` with the error text
    /// when reading it failed.
    pub body: Option<Result<String, String>>,
}

impl ProbeResponse {
    /// The view of the body field.
    pub open spec fn body_view(self) -> Option<Result<Seq<char>, Seq<char>>> {
        match self.body {
            Option::Some(Result::Ok(s)) => Option::Some(Result::Ok(s@)),
            Option::Some(Result::Err(e)) => Option::Some(Result::Err(e@)),
            Option::None => Option::None,
        }
    }
}

/// The classification of one response, at the level of views: the verdict
/// fields of the outcome, and whether the probe's duration is recorded.
pub struct Verdict {
    pub exist: bool,
    pub status: ResultStatus,
    pub confidence: u32,
    pub error: bool,
    pub error_msg: Seq<char>,
    pub url: Seq<char>,
    pub link: Seq<char>,
    pub timed: bool,
}

/// Classification by the site's detection method, per the engine's rules:
/// 429/503 is Blocked outright; `status_code` reads only the code;
/// `message` searches the body for the error marker and falls back to the
/// keyword heuristic; `response_url` compares the final URL against the
/// canonical one; an unknown method is a configuration error.
pub open spec fn classify_spec(
    data: SiteData,
    username: Seq<char>,
    status: u16,
    final_url: Seq<char>,
    body: Option<Result<Seq<char>, Seq<char>>>,
) -> Verdict {
    let pub_url = substituted(data.url@, username);
    if status == 429 || status == 503 {
        Verdict {
            exist: false,
            status: ResultStatus::Blocked,
            confidence: 0,
            error: true,
            error_msg: "Rate limited"@,
            url: pub_url,
            link: Seq::<char>::empty(),
            timed: false,
        }
    } else if data.error_type@ == "status_code"@ {
        if 200 <= status < 300 {
            Verdict {
                exist: true,
                status: ResultStatus::Confirmed,
                confidence: 85,
                error: false,
                error_msg: Seq::<char>::empty(),
                url: pub_url,
                link: pub_url,
                timed: true,
            }
        } else if status == 404 {
            Verdict {
                exist: false,
                status: ResultStatus::NotFound,
                confidence: 90,
                error: false,
                error_msg: Seq::<char>::empty(),
                url: pub_url,
                link: Seq::<char>::empty(),
                timed: true,
            }
        } else {
            Verdict {
                exist: false,
                status: ResultStatus::NotFound,
                confidence: 60,
                error: false,
                error_msg: Seq::<char>::empty(),
                url: pub_url,
                link: Seq::<char>::empty(),
                timed: true,
            }
        }
    } else if data.error_type@ == "message"@ {
        match body {
            Option::Some(Result::Err(e)) => Verdict {
                exist: false,
                status: ResultStatus::Error,
                confidence: 0,
                error: true,
                error_msg: e,
                url: pub_url,
                link: Seq::<char>::empty(),
                timed: false,
            },
            Option::Some(Result::Ok(text)) => {
                if has_substring(text, data.error_msg@) {
                    Verdict {
                        exist: false,
                        status: ResultStatus::NotFound,
                        confidence: 90,
                        error: false,
                        error_msg: Seq::<char>::empty(),
                        url: pub_url,
                        link: Seq::<char>::empty(),
                        timed: true,
                    }
                } else {
                    let check = quick_check_spec(lower_of(text));
                    if check.0 {
                        Verdict {
                            exist: true,
                            status: ResultStatus::Confirmed,
                            confidence: check.1,
                            error: false,
                            error_msg: Seq::<char>::empty(),
                            url: pub_url,
                            link: pub_url,
                            timed: true,
                        }
                    } else {
                        Verdict {
                            exist: true,
                            status: ResultStatus::Likely,
                            confidence: 75,
                            error: false,
                            error_msg: Seq::<char>::empty(),
                            url: pub_url,
                            link: pub_url,
                            timed: true,
                        }
                    }
                }
            },
            Option::None => Verdict {
                exist: false,
                status: ResultStatus::Error,
                confidence: 0,
                error: true,
                error_msg: Seq::<char>::empty(),
                url: pub_url,
                link: Seq::<char>::empty(),
                timed: false,
            },
        }
    } else if data.error_type@ == "response_url"@ {
        if 200 <= status < 300 && final_url == pub_url {
            Verdict {
                exist: true,
                status: ResultStatus::Confirmed,
                confidence: 90,
                error: false,
                error_msg: Seq::<char>::empty(),
                url: pub_url,
                link: pub_url,
                timed: true,
            }
        } else {
            Verdict {
                exist: false,
                status: ResultStatus::NotFound,
                confidence: 85,
                error: false,
                error_msg: Seq::<char>::empty(),
                url: pub_url,
                link: Seq::<char>::empty(),
                timed: true,
            }
        }
    } else {
        Verdict {
            exist: false,
            status: ResultStatus::Error,
            confidence: 0,
            error: true,
            error_msg: "Unsupported error type: "@ + data.error_type@,
            url: pub_url,
            link: Seq::<char>::empty(),
            timed: false,
        }
    }
}

/// One classified response together with what the run statistics record.
pub struct Classification {
    pub result: ScanResult,
    /// The headers carried an edge-proxy signature.
    pub edge_proxy_detected: bool,
    /// The response was a rate limit (already reflected in the outcome).
    pub rate_limited: bool,
    /// The probe's duration counts into the fastest/slowest trackers.
    pub timing_recorded: bool,
}

/// The outcome of a probe whose transport failed before any response:
/// status Error with the transport's message, no classification attempted.
pub fn transport_failure(
    username: &str,
    site: &str,
    data: &SiteData,
    proxied: bool,
    error_text: String,
) -> (r: ScanResult)
    ensures
        r.username@ == username@,
        r.site@ == site@,
        r.url@ == substituted(data.url@, username@),
        r.url_probe@ == probe_url_spec(*data, username@),
        r.link@ == Seq::<char>::empty(),
        !r.exist,
        r.proxied == proxied,
        r.error,
        r.error_msg == error_text,
        r.status == ResultStatus::Error,
        r.confidence == 0,
        r.wf(),
{
    let url: String = substitute(data.url.as_str(), username);
    let url_probe: String = if !data.url_probe.as_str().is_empty() {
        substitute(data.url_probe.as_str(), username)
    } else {
        url.clone()
    };
    let base: ScanResult = ScanResult::new(String::from_str(username), String::from_str(site));
    let base = ScanResult { proxied, url, url_probe, ..base };
    base.with_error(error_text, ResultStatus::Error)
}

/// Classify one received response by the site's detection method.
pub fn classify_response(
    username: &str,
    site: &str,
    data: &SiteData,
    proxied: bool,
    resp: ProbeResponse,
) -> (c: Classification)
    requires
        data.error_type@ == "message"@ ==> resp.body is Some,
    ensures
        c.result.username@ == username@,
        c.result.site@ == site@,
        c.result.proxied == proxied,
        c.result.url_probe@ == probe_url_spec(*data, username@),
        c.edge_proxy_detected == edge_proxy_sig(
            opt_text_view(resp.server_header),
            resp.has_trace_header,
        ),
        c.rate_limited == (resp.status == 429 || resp.status == 503),
        ({
            let v = classify_spec(*data, username@, resp.status, resp.final_url@, resp.body_view());
            &&& c.result.exist == v.exist
            &&& c.result.status == v.status
            &&& c.result.confidence == v.confidence
            &&& c.result.error == v.error
            &&& c.result.error_msg@ == v.error_msg
            &&& c.result.url@ == v.url
            &&& c.result.link@ == v.link
            &&& c.timing_recorded == v.timed
        }),
        c.result.wf(),
{
    let edge_proxy_detected: bool = is_edge_proxy(&resp.server_header, resp.has_trace_header);
    let rate_limited: bool = is_rate_limited(resp.status);
    let url: String = substitute(data.url.as_str(), username);
    let url_probe: String = if !data.url_probe.as_str().is_empty() {
        substitute(data.url_probe.as_str(), username)
    } else {
        url.clone()
    };
    let base: ScanResult = ScanResult::new(String::from_str(username), String::from_str(site));
    let base = ScanResult { proxied, url: url.clone(), url_probe, ..base };

    if rate_limited {
        let result: ScanResult = base.with_error(
            String::from_str("Rate limited"),
            ResultStatus::Blocked,
        );
        return Classification {
            result,
            edge_proxy_detected,
            rate_limited,
            timing_recorded: false,
        };
    }
    let success: bool = 200 <= resp.status && resp.status < 300;
    if str_eq(data.error_type.as_str(), "status_code") {
        let result: ScanResult = if success {
            let link: String = url.clone();
            base.found(url, link, ResultStatus::Confirmed, 85)
        } else if resp.status == 404 {
            base.not_found(url, ResultStatus::NotFound, 90)
        } else {
            base.not_found(url, ResultStatus::NotFound, 60)
        };
        Classification { result, edge_proxy_detected, rate_limited, timing_recorded: true }
    } else if str_eq(data.error_type.as_str(), "message") {
        match resp.body {
            Option::Some(Result::Err(e)) => {
                let result: ScanResult = base.with_error(e, ResultStatus::Error);
                Classification {
                    result,
                    edge_proxy_detected,
                    rate_limited,
                    timing_recorded: false,
                }
            },
            Option::Some(Result::Ok(text)) => {
                if str_contains(text.as_str(), data.error_msg.as_str()) {
                    let result: ScanResult = base.not_found(url, ResultStatus::NotFound, 90);
                    Classification {
                        result,
                        edge_proxy_detected,
                        rate_limited,
                        timing_recorded: true,
                    }
                } else {
                    let check: (bool, u32) = quick_html_check(text.as_str());
                    let result: ScanResult = if check.0 {
                        let link: String = url.clone();
                        base.found(url, link, ResultStatus::Confirmed, check.1)
                    } else {
                        let link: String = url.clone();
                        base.found(url, link, ResultStatus::Likely, 75)
                    };
                    Classification {
                        result,
                        edge_proxy_detected,
                        rate_limited,
                        timing_recorded: true,
                    }
                }
            },
            Option::None => {
                let result: ScanResult = base.with_error(String::new(), ResultStatus::Error);
                Classification {
                    result,
                    edge_proxy_detected,
                    rate_limited,
                    timing_recorded: false,
                }
            },
        }
    } else if str_eq(data.error_type.as_str(), "response_url") {
        let matches_canonical: bool = str_eq(resp.final_url.as_str(), url.as_str());
        let result: ScanResult = if success && matches_canonical {
            let link: String = url.clone();
            base.found(url, link, ResultStatus::Confirmed, 90)
        } else {
            base.not_found(url, ResultStatus::NotFound, 85)
        };
        Classification { result, edge_proxy_detected, rate_limited, timing_recorded: true }
    } else {
        let mut msg: String = String::new();
        msg.append("Unsupported error type: ");
        msg.append(data.error_type.as_str());
        assert(msg@ =~= "Unsupported error type: "@ + data.error_type@);
        let result: ScanResult = base.with_error(msg, ResultStatus::Error);
        Classification { result, edge_proxy_detected, rate_limited, timing_recorded: false }
    }
}

} // verus!
