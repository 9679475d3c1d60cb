//! Scan outcomes: the status classification of one probe and the record
//! returned to the caller, with a confidence score in hundredths.

use crate::text::hundredths_rendered;
use crate::text::render_hundredths;
use vstd::prelude::*;

verus! {

/// Confidence scores are integers in hundredths: 0 stands for 0.00
/// ("not computed") and 100 for 1.00.
pub const MAX_CONFIDENCE: u32 = 100;

/// Classification of one probe of a site for a username.
#[derive(Debug, Clone, Copy, PartialEq, Eq, Structural)]
pub enum ResultStatus {
    Confirmed,
    Likely,
    Private,
    NotFound,
    Blocked,
    Soft404,
    Redirected,
    Error,
}

impl ResultStatus {
    /// The display tag of each status.
    pub open spec fn tag_spec(self) -> Seq<char> {
        match self {
            ResultStatus::Confirmed => "CONFIRMED"@,
            ResultStatus::Likely => "LIKELY"@,
            ResultStatus::Private => "PRIVATE"@,
            ResultStatus::NotFound => "NOT_FOUND"@,
            ResultStatus::Blocked => "BLOCKED"@,
            ResultStatus::Soft404 => "SOFT_404"@,
            ResultStatus::Redirected => "REDIRECTED"@,
            ResultStatus::Error => "ERROR"@,
        }
    }

    pub fn as_tag(&self) -> (r: &'static str)
        ensures
            r@ == self.tag_spec(),
    {
        match self {
            ResultStatus::Confirmed => "CONFIRMED",
            ResultStatus::Likely => "LIKELY",
            ResultStatus::Private => "PRIVATE",
            ResultStatus::NotFound => "NOT_FOUND",
            ResultStatus::Blocked => "BLOCKED",
            ResultStatus::Soft404 => "SOFT_404",
            ResultStatus::Redirected => "REDIRECTED",
            ResultStatus::Error => "ERROR",
        }
    }

    /// A status counts as "found" exactly for Confirmed, Likely and Private.
    pub fn is_found(&self) -> (r: bool)
        ensures
            r == (*self == ResultStatus::Confirmed || *self == ResultStatus::Likely || *self
                == ResultStatus::Private),
    {
        match self {
            ResultStatus::Confirmed | ResultStatus::Likely | ResultStatus::Private => true,
            _ => false,
        }
    }
}

/// Confidence handed in by a classifier, clamped into [0, 100].
pub open spec fn clamp_confidence(c: u32) -> u32 {
    if c > MAX_CONFIDENCE {
        MAX_CONFIDENCE
    } else {
        c
    }
}

/// The outcome of probing one site for one username.
#[derive(Debug, Clone)]
pub struct ScanResult {
    pub username: String,
    pub site: String,
    pub url: String,
    pub url_probe: String,
    pub link: String,
    pub exist: bool,
    pub proxied: bool,
    pub error: bool,
    pub error_msg: String,
    pub status: ResultStatus,
    pub confidence: u32,
}

impl ScanResult {
    /// Every outcome the library hands out keeps its confidence in [0, 100].
    pub open spec fn wf(self) -> bool {
        self.confidence <= MAX_CONFIDENCE
    }

    /// A blank outcome for the pair: nothing found, nothing failed.
    pub fn new(username: String, site: String) -> (r: ScanResult)
        ensures
            r.username == username,
            r.site == site,
            r.url@ == Seq::<char>::empty(),
            r.url_probe@ == Seq::<char>::empty(),
            r.link@ == Seq::<char>::empty(),
            !r.exist,
            !r.proxied,
            !r.error,
            r.error_msg@ == Seq::<char>::empty(),
            r.status == ResultStatus::NotFound,
            r.confidence == 0,
            r.wf(),
    {
        ScanResult {
            username,
            site,
            url: String::new(),
            url_probe: String::new(),
            link: String::new(),
            exist: false,
            proxied: false,
            error: false,
            error_msg: String::new(),
            status: ResultStatus::NotFound,
            confidence: 0,
        }
    }

    /// Mark the outcome as failed: the error text and status are recorded
    /// and the confidence drops to "not computed".
    pub fn with_error(self, error_msg: String, status: ResultStatus) -> (r: ScanResult)
        ensures
            r == (ScanResult {
                error: true,
                error_msg: error_msg,
                status: status,
                confidence: 0u32,
                ..self
            }),
            r.wf(),
    {
        ScanResult { error: true, error_msg, status, confidence: 0, ..self }
    }

    /// Record a positive verdict with a clamped confidence.
    pub fn found(self, url: String, link: String, status: ResultStatus, confidence: u32) -> (r:
        ScanResult)
        ensures
            r == (ScanResult {
                exist: true,
                url: url,
                link: link,
                status: status,
                confidence: clamp_confidence(confidence),
                ..self
            }),
            r.wf(),
    {
        let c: u32 = if confidence > MAX_CONFIDENCE {
            MAX_CONFIDENCE
        } else {
            confidence
        };
        ScanResult { exist: true, url, link, status, confidence: c, ..self }
    }

    /// Record a negative verdict with a clamped confidence.
    pub fn not_found(self, url: String, status: ResultStatus, confidence: u32) -> (r: ScanResult)
        ensures
            r == (ScanResult {
                exist: false,
                url: url,
                status: status,
                confidence: clamp_confidence(confidence),
                ..self
            }),
            r.wf(),
    {
        let c: u32 = if confidence > MAX_CONFIDENCE {
            MAX_CONFIDENCE
        } else {
            confidence
        };
        ScanResult { exist: false, url, status, confidence: c, ..self }
    }

    /// Render the status for display: the tag in brackets, annotated with
    /// the confidence when one was computed.
    pub fn status_tag(&self) -> (r: String)
        ensures
            r@ == status_tag_rendered(self.status, self.confidence),
    {
        let mut r: String = String::new();
        r.append("[");
        r.append(self.status.as_tag());
        if self.confidence > 0 {
            r.append("] (confidence: ");
            let rendered: String = render_hundredths(self.confidence);
            r.append(rendered.as_str());
            r.append(")");
            assert(r@ =~= status_tag_rendered(self.status, self.confidence));
        } else {
            r.append("]");
            assert(r@ =~= status_tag_rendered(self.status, self.confidence));
        }
        r
    }
}

/// The per-site verdict of validation mode: a site checks out exactly
/// when its known-claimed canary username is found and its known-unclaimed
/// canary is not.
pub fn site_validation_passed(used: &ScanResult, unused: &ScanResult) -> (r: bool)
    ensures
        r == (used.exist && !unused.exist),
{
    used.exist && !unused.exist
}

/// The display form of a status with its confidence: a confidence of 0
/// counts as "not computed" and is left off.
pub open spec fn status_tag_rendered(status: ResultStatus, confidence: u32) -> Seq<char> {
    if confidence > 0 {
        "["@ + status.tag_spec() + "] (confidence: "@ + hundredths_rendered(confidence) + ")"@
    } else {
        "["@ + status.tag_spec() + "]"@
    }
}

} // verus!
