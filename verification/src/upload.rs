//! Assembly and classification for a single file's upload: the
//! endpoint URL, the form fields of the multipart request, and the
//! mapping from the wire-level response to a per-file outcome.

use vstd::prelude::*;

use crate::decimal::dec_rep;
use crate::decimal::lemma_dec_rep_digits;
use crate::decimal::lemma_dec_rep_len;
use crate::decimal::u64_to_string;
use crate::mime::sniff_mime;
use crate::mime::spec_sniffed_or_default;

verus! {

/// The fixed identifier this client reports for itself.
pub open spec fn spec_device_id() -> Seq<char> {
    "rimmich-desktop"@
}

/// `s` with every trailing `/` removed.
pub open spec fn spec_trim_slashes(s: Seq<char>) -> Seq<char>
    decreases s.len(),
{
    if s.len() > 0 && s.last() == '/' {
        spec_trim_slashes(s.drop_last())
    } else {
        s
    }
}

/// The asset-upload endpoint under a server's base URL.
pub open spec fn spec_asset_endpoint(server_url: Seq<char>) -> Seq<char> {
    spec_trim_slashes(server_url) + "/api/assets"@
}

/// The per-file identifier the server deduplicates on: base name and
/// byte size, joined by a dash.
pub open spec fn spec_device_asset_id(file_name: Seq<char>, size: u64) -> Seq<char> {
    file_name + "-"@ + dec_rep(size as nat)
}

/// Builds the URL the upload is POSTed to, dropping trailing slashes
/// from the configured base URL first.
pub fn asset_endpoint(server_url: &str) -> (r: String)
    ensures
        r@ == spec_asset_endpoint(server_url@),
{
    let len = server_url.unicode_len();
    let mut end = len;
    proof {
        assert(server_url@.subrange(0, len as int) =~= server_url@);
    }
    while end > 0 && server_url.get_char(end - 1) == '/'
        invariant
            end <= len,
            len == server_url@.len(),
            spec_trim_slashes(server_url@) == spec_trim_slashes(server_url@.subrange(0, end as int)),
        decreases end,
    {
        proof {
            assert(server_url@.subrange(0, end as int).drop_last() =~= server_url@.subrange(
                0,
                end - 1,
            ));
        }
        end = end - 1;
    }
    let head = server_url.substring_char(0, end);
    let mut r = String::from_str(head);
    r.append("/api/assets");
    r
}

/// Derives the stable per-file identifier from the file's base name
/// and byte size; identical pairs give identical identifiers.
pub fn device_asset_id(file_name: &str, size: u64) -> (r: String)
    ensures
        r@ == spec_device_asset_id(file_name@, size),
{
    let mut r = String::from_str(file_name);
    r.append("-");
    let num = u64_to_string(size);
    r.append(num.as_str());
    r
}

/// The derived identifier is injective: two files get the same one
/// exactly when both the base name and the byte size agree. The dash
/// before the size is the last dash of the identifier, since a decimal
/// rendering holds digits only, so name and size can be read back off.
pub proof fn lemma_device_asset_id_injective(n1: Seq<char>, s1: u64, n2: Seq<char>, s2: u64)
    requires
        spec_device_asset_id(n1, s1) == spec_device_asset_id(n2, s2),
    ensures
        n1 == n2,
        s1 == s2,
{
    reveal_strlit("-");
    let id = spec_device_asset_id(n1, s1);
    let d1 = dec_rep(s1 as nat);
    let d2 = dec_rep(s2 as nat);
    lemma_dec_rep_len(s1 as nat);
    lemma_dec_rep_len(s2 as nat);
    lemma_dec_rep_digits(s1 as nat);
    lemma_dec_rep_digits(s2 as nat);
    assert(id.len() == n1.len() + 1 + d1.len());
    assert(id.len() == n2.len() + 1 + d2.len());
    assert(id[n1.len() as int] == '-');
    assert(id[n2.len() as int] == '-');
    assert forall|q: int| n1.len() + 1 <= q < id.len() implies crate::decimal::is_dec_digit(
        id[q],
    ) by {
        assert(id[q] == d1[q - n1.len() - 1]);
    }
    assert forall|q: int| n2.len() + 1 <= q < id.len() implies crate::decimal::is_dec_digit(
        id[q],
    ) by {
        assert(id[q] == d2[q - n2.len() - 1]);
    }
    if n1.len() < n2.len() {
        assert(crate::decimal::is_dec_digit(id[n2.len() as int]));
        assert(false);
    }
    if n2.len() < n1.len() {
        assert(crate::decimal::is_dec_digit(id[n1.len() as int]));
        assert(false);
    }
    assert(n1 =~= n2) by {
        assert forall|i: int| 0 <= i < n1.len() implies n1[i] == n2[i] by {
            assert(id[i] == n1[i]);
            assert(id[i] == n2[i]);
        }
    }
    assert(d1 =~= d2) by {
        assert forall|i: int| 0 <= i < d1.len() implies d1[i] == d2[i] by {
            assert(id[n1.len() + 1 + i] == d1[i]);
            assert(id[n2.len() + 1 + i] == d2[i]);
        }
    }
    crate::decimal::lemma_dec_rep_injective(s1 as nat, s2 as nat);
}

/// The RFC 3339 rendering (millisecond precision, UTC, `Z` suffix)
/// that chrono gives a count of milliseconds since the Unix epoch, or
/// `None` where the count lies outside chrono's representable dates.
pub uninterp spec fn rfc3339_utc_millis(ms: i64) -> Option<Seq<char>>;

/// Relies on chrono's `DateTime::<Utc>::from_timestamp_millis` and
/// `DateTime::to_rfc3339_opts(SecondsFormat::Millis, true)`. Both are
/// functions of the millisecond count alone; the first returns `None`
/// only outside chrono's representable range, which contains at least
/// the years 1970 through 9999.
#[verifier::external_body]
fn format_rfc3339_millis(ms: i64) -> (r: Option<String>)
    ensures
        r is Some <==> rfc3339_utc_millis(ms) is Some,
        r matches Some(s) ==> rfc3339_utc_millis(ms) == Some(s@),
        r is Some <== 0 <= ms <= 253402300799999,
{
    chrono::DateTime::<chrono::Utc>::from_timestamp_millis(ms).map(
        |dt| dt.to_rfc3339_opts(chrono::SecondsFormat::Millis, true),
    )
}

/// Everything the wire-level POST for one file is built from: the
/// endpoint, the API key header value, the sibling text fields, and
/// the file part's name and content type. The raw bytes themselves are
/// streamed by the caller.
pub struct UploadForm {
    pub url: String,
    pub api_key: String,
    pub device_asset_id: String,
    pub device_id: String,
    pub file_created_at: String,
    pub file_modified_at: String,
    pub is_favorite: String,
    pub is_read_only: String,
    pub filename: String,
    pub content_type: String,
}

/// Assembles the form for one file from plain facts about it: its base
/// name, byte size, timestamps in milliseconds since the Unix epoch,
/// and its leading bytes for content-type sniffing. Returns `None`
/// exactly when a timestamp lies outside chrono's representable dates;
/// both timestamps of any file dated 1970–9999 are accepted.
pub fn build_upload_form(
    server_url: &str,
    api_key: &str,
    file_name: &str,
    size: u64,
    created_ms: i64,
    modified_ms: i64,
    head: &[u8],
) -> (r: Option<UploadForm>)
    ensures
        r is Some <==> rfc3339_utc_millis(created_ms) is Some && rfc3339_utc_millis(modified_ms)
            is Some,
        r matches Some(f) ==> f.url@ == spec_asset_endpoint(server_url@) && f.api_key@ == api_key@
            && f.device_asset_id@ == spec_device_asset_id(file_name@, size) && f.device_id@
            == spec_device_id() && rfc3339_utc_millis(created_ms) == Some(f.file_created_at@)
            && rfc3339_utc_millis(modified_ms) == Some(f.file_modified_at@) && f.is_favorite@
            == "false"@ && f.is_read_only@ == "false"@ && f.filename@ == file_name@
            && f.content_type@ == spec_sniffed_or_default(head@),
{
    let created = format_rfc3339_millis(created_ms);
    let modified = format_rfc3339_millis(modified_ms);
    match (created, modified) {
        (Some(created_at), Some(modified_at)) => Some(
            UploadForm {
                url: asset_endpoint(server_url),
                api_key: String::from_str(api_key),
                device_asset_id: device_asset_id(file_name, size),
                device_id: String::from_str("rimmich-desktop"),
                file_created_at: created_at,
                file_modified_at: modified_at,
                is_favorite: String::from_str("false"),
                is_read_only: String::from_str("false"),
                filename: String::from_str(file_name),
                content_type: sniff_mime(head),
            },
        ),
        _ => None,
    }
}

/// What came back over the wire for one file: an HTTP response, or a
/// failure of transport or local I/O before a status was received.
#[derive(Debug, Clone, PartialEq, Eq)]
pub enum WireResult {
    Http { status: u16, body: String },
    Transport { detail: String },
}

/// The mathematical shape of a `WireResult`.
pub enum WireView {
    Http { status: u16, body: Seq<char> },
    Transport { detail: Seq<char> },
}

impl View for WireResult {
    type V = WireView;

    open spec fn view(&self) -> WireView {
        match self {
            WireResult::Http { status, body } => WireView::Http { status: *status, body: body@ },
            WireResult::Transport { detail } => WireView::Transport { detail: detail@ },
        }
    }
}

/// Whether the wire result counts as a success: any 2xx status.
pub open spec fn spec_wire_ok(w: WireView) -> bool {
    w matches WireView::Http { status, .. } && 200 <= status < 300
}

/// The error detail for a non-2xx response: the status and the body
/// text the server sent with it.
pub open spec fn spec_protocol_detail(status: u16, body: Seq<char>) -> Seq<char> {
    "Upload failed with status "@ + dec_rep(status as nat) + ": "@ + body
}

/// The error detail carried by a failed wire result.
pub open spec fn spec_failure_detail(w: WireView) -> Seq<char> {
    match w {
        WireView::Http { status, body } => spec_protocol_detail(status, body),
        WireView::Transport { detail } => detail,
    }
}

/// One file's outcome: produced exactly once per submitted file.
#[derive(Debug, Clone, PartialEq, Eq)]
pub enum UploadOutcome {
    Success { display_name: String },
    Failure { display_name: String, error_detail: String },
}

/// The mathematical shape of an `UploadOutcome`.
pub enum OutcomeView {
    Success { display_name: Seq<char> },
    Failure { display_name: Seq<char>, error_detail: Seq<char> },
}

impl View for UploadOutcome {
    type V = OutcomeView;

    open spec fn view(&self) -> OutcomeView {
        match self {
            UploadOutcome::Success { display_name } => OutcomeView::Success {
                display_name: display_name@,
            },
            UploadOutcome::Failure { display_name, error_detail } => OutcomeView::Failure {
                display_name: display_name@,
                error_detail: error_detail@,
            },
        }
    }
}

/// The outcome a wire result yields for the file named `name`.
pub open spec fn spec_outcome(name: Seq<char>, w: WireView) -> OutcomeView {
    if spec_wire_ok(w) {
        OutcomeView::Success { display_name: name }
    } else {
        OutcomeView::Failure { display_name: name, error_detail: spec_failure_detail(w) }
    }
}

/// Whether this wire result counts as a success.
pub fn wire_is_ok(wire: &WireResult) -> (ok: bool)
    ensures
        ok == spec_wire_ok(wire@),
{
    match wire {
        WireResult::Http { status, .. } => 200 <= *status && *status < 300,
        WireResult::Transport { .. } => false,
    }
}

/// The error detail a failed wire result carries: status and body text
/// for a response, the transport's own description otherwise.
pub fn failure_detail(wire: &WireResult) -> (r: String)
    ensures
        r@ == spec_failure_detail(wire@),
{
    match wire {
        WireResult::Http { status, body } => {
            let mut detail = String::from_str("Upload failed with status ");
            let num = u64_to_string(*status as u64);
            detail.append(num.as_str());
            detail.append(": ");
            detail.append(body.as_str());
            detail
        },
        WireResult::Transport { detail } => detail.clone(),
    }
}

/// The generic detail recorded when the task running a worker ended
/// abnormally instead of returning an outcome.
pub open spec fn spec_task_failure_detail(msg: Seq<char>) -> Seq<char> {
    "Task execution failed: "@ + msg
}

/// Wraps an abnormal task termination's description in the detail
/// recorded for it; such a termination is treated as a plain failure.
pub fn task_failure_detail(msg: &str) -> (r: String)
    ensures
        r@ == spec_task_failure_detail(msg@),
{
    let mut s = String::from_str("Task execution failed: ");
    s.append(msg);
    s
}

/// Turns the wire-level result of one file's POST into its outcome: a
/// 2xx status is a success; any other status, or any transport or I/O
/// error, is a failure carrying a human-readable detail.
pub fn classify_response(display_name: &str, wire: &WireResult) -> (oc: UploadOutcome)
    ensures
        oc@ == spec_outcome(display_name@, wire@),
{
    if wire_is_ok(wire) {
        UploadOutcome::Success { display_name: String::from_str(display_name) }
    } else {
        UploadOutcome::Failure {
            display_name: String::from_str(display_name),
            error_detail: failure_detail(wire),
        }
    }
}

} // verus!
