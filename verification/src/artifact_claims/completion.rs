use vstd::prelude::*;

use crate::contracts::browser::SessionEcho;
use crate::contracts::ids::{
    conversation_url_of, derive_artifact_id, derived_id_of, is_general_id, is_h256,
    is_prefixed_hex, is_request_key, is_safe_rel_path, is_session_id, is_slot_id, is_text,
    is_timestamp_ms, validate_artifact_claim_id, validate_artifact_id, validate_browser_context_id,
    validate_byte_count, validate_conversation_url, validate_download_event_id, validate_h256,
    validate_non_empty_text, validate_page_incarnation_id, validate_request_key,
    validate_safe_rel_path, validate_session_id, validate_slot_id, validate_target_id,
    validate_timestamp_ms, validate_turn_id, MAX_BYTE_COUNT,
};
use crate::journal::canonical::ScalarView;
use crate::text::{concat2, contains_char, has_char, str_chars, str_eq, strip_prefix};

use super::{control_for_turn_error, is_turn_id, outcome, valid, ArtifactClaimError, ArtifactControl};

verus! {

/// What the browser host reports about one saved download.
#[derive(Clone, Debug, PartialEq, Eq)]
pub struct PlaywrightDownloadReceipt {
    pub artifact_claim_id: String,
    pub artifact_id: String,
    pub browser_context_id: String,
    pub clicked_at_ms: u64,
    pub control: ArtifactControl,
    pub conversation_url: String,
    pub download_event_id: String,
    pub host_saved_rel_path: String,
    pub listener_armed_at_ms: u64,
    pub media_type: String,
    pub page_incarnation_id: String,
    pub received_at_ms: u64,
    pub session_id: String,
    pub sha256: String,
    pub size_bytes: u64,
    pub slot_id: String,
    pub target_id: String,
    pub terminal_assistant_turn_id: String,
}

// ---------------------------------------------------------------- media types

/// The extension of the last component of `path`, as
/// `std::path::Path::extension` gives it.
pub uninterp spec fn path_extension_of(path: Seq<char>) -> Option<Seq<char>>;

/// Calls `std::path::Path::extension` on `path` and converts the extension to
/// a string. Claimed: the result is the named extension of exactly this path.
#[verifier::external_body]
fn path_extension(path: &str) -> (r: Option<String>)
    ensures
        match r {
            Some(e) => path_extension_of(path@) == Some(e@),
            None => path_extension_of(path@) is None,
        },
{
    match std::path::Path::new(path).extension() {
        Some(ext) => ext.to_str().map(String::from),
        None => None,
    }
}

/// The media type of a file extension.
pub open spec fn mime_of(ext: Option<Seq<char>>) -> Seq<char> {
    match ext {
        Some(e) => if e == "md"@ {
            "text/markdown"@
        } else if e == "txt"@ {
            "text/plain"@
        } else if e == "json"@ {
            "application/json"@
        } else if e == "csv"@ {
            "text/csv"@
        } else if e == "tsv"@ {
            "text/tab-separated-values"@
        } else if e == "zip"@ {
            "application/zip"@
        } else if e == "tar"@ {
            "application/x-tar"@
        } else if e == "gz"@ {
            "application/gzip"@
        } else if e == "png"@ {
            "image/png"@
        } else if e == "jpg"@ || e == "jpeg"@ {
            "image/jpeg"@
        } else if e == "pdf"@ {
            "application/pdf"@
        } else {
            "application/octet-stream"@
        },
        None => "application/octet-stream"@,
    }
}

/// The media type of a path, by its extension.
pub fn mime_from_path(path: &str) -> (r: &'static str)
    ensures
        r@ == mime_of(path_extension_of(path@)),
{
    match path_extension(path) {
        Some(ext) => {
            let e = ext.as_str();
            if str_eq(e, "md") {
                "text/markdown"
            } else if str_eq(e, "txt") {
                "text/plain"
            } else if str_eq(e, "json") {
                "application/json"
            } else if str_eq(e, "csv") {
                "text/csv"
            } else if str_eq(e, "tsv") {
                "text/tab-separated-values"
            } else if str_eq(e, "zip") {
                "application/zip"
            } else if str_eq(e, "tar") {
                "application/x-tar"
            } else if str_eq(e, "gz") {
                "application/gzip"
            } else if str_eq(e, "png") {
                "image/png"
            } else if str_eq(e, "jpg") || str_eq(e, "jpeg") {
                "image/jpeg"
            } else if str_eq(e, "pdf") {
                "application/pdf"
            } else {
                "application/octet-stream"
            }
        },
        None => "application/octet-stream",
    }
}

// ---------------------------------------------------------------- host paths

/// `artifacts/<key>/<claim>/<artifact>.download` with a valid request key and
/// no further separator.
pub open spec fn host_path_ok(v: Seq<char>, claim: Seq<char>, artifact: Seq<char>) -> bool {
    exists|k: Seq<char>|
        #[trigger] is_request_key(k) && !has_char(k, '/') && !has_char(claim, '/') && !has_char(
            artifact,
            '/',
        ) && v == "artifacts/"@ + k + "/"@ + claim + "/"@ + artifact + ".download"@
}

fn find_slash(v: &Vec<char>) -> (r: Option<usize>)
    ensures
        r matches Some(p) ==> p < v@.len() && v@[p as int] == '/' && forall|j: int|
            0 <= j < p ==> v@[j] != '/',
        r is None ==> !has_char(v@, '/'),
{
    let mut i: usize = 0;
    while i < v.len()
        invariant
            i <= v@.len(),
            forall|j: int| 0 <= j < i ==> v@[j] != '/',
        decreases v.len() - i,
    {
        if v[i] == '/' {
            return Some(i);
        }
        i += 1;
    }
    None
}

fn host_path_canonical(value: &str, artifact_claim_id: &str, artifact_id: &str) -> (r: bool)
    ensures
        r == host_path_ok(value@, artifact_claim_id@, artifact_id@),
{
    proof {
        reveal_strlit("artifacts/");
        reveal_strlit("/");
        reveal_strlit(".download");
        assert("artifacts/"@.len() == 10);
        assert(".download"@.len() == 9);
    }
    let rest = match strip_prefix(value, "artifacts/") {
        Some(rest) => rest,
        None => {
            proof {
                if host_path_ok(value@, artifact_claim_id@, artifact_id@) {
                    let k = choose|k: Seq<char>|
                        #[trigger] is_request_key(k) && !has_char(k, '/') && !has_char(
                            artifact_claim_id@,
                            '/',
                        ) && !has_char(artifact_id@, '/') && value@ == "artifacts/"@ + k + "/"@
                            + artifact_claim_id@ + "/"@ + artifact_id@ + ".download"@;
                    assert(value@.subrange(0, 10) =~= "artifacts/"@);
                }
            }
            return false;
        },
    };
    let rv = str_chars(rest.as_str());
    let p = match find_slash(&rv) {
        Some(p) => p,
        None => {
            proof {
                if host_path_ok(value@, artifact_claim_id@, artifact_id@) {
                    let k = choose|k: Seq<char>|
                        #[trigger] is_request_key(k) && !has_char(k, '/') && !has_char(
                            artifact_claim_id@,
                            '/',
                        ) && !has_char(artifact_id@, '/') && value@ == "artifacts/"@ + k + "/"@
                            + artifact_claim_id@ + "/"@ + artifact_id@ + ".download"@;
                    assert(rv@[k.len() as int] == '/');
                }
            }
            return false;
        },
    };
    assert(p < rv.len());
    let key = rest.as_str().substring_char(0, p);
    let tail = rest.as_str().substring_char(p + 1, rv.len());
    proof {
        assert("/"@ =~= seq!['/']);
        assert(rest@ =~= key@ + "/"@ + tail@);
        assert(value@ =~= "artifacts/"@ + rest@);
    }
    let mut expected = concat2(artifact_claim_id, "/");
    crate::text::push_str(&mut expected, artifact_id);
    crate::text::push_str(&mut expected, ".download");
    let ok = validate_request_key(key).is_ok() && str_eq(tail, expected.as_str()) && !contains_char(
        artifact_claim_id,
        '/',
    ) && !contains_char(artifact_id, '/');
    proof {
        let cv = artifact_claim_id@;
        let av = artifact_id@;
        if ok {
            assert(!has_char(key@, '/'));
            assert(value@ =~= "artifacts/"@ + key@ + "/"@ + cv + "/"@ + av + ".download"@);
        }
        if host_path_ok(value@, cv, av) {
            let k = choose|k: Seq<char>|
                #[trigger] is_request_key(k) && !has_char(k, '/') && !has_char(cv, '/') && !has_char(
                    av,
                    '/',
                ) && value@ == "artifacts/"@ + k + "/"@ + cv + "/"@ + av + ".download"@;
            assert(rv@ =~= k + "/"@ + cv + "/"@ + av + ".download"@);
            assert(rv@[k.len() as int] == '/');
            if p < k.len() {
                assert(rv@[p as int] == k[p as int]);
                assert(false);
            }
            assert(p == k.len());
            assert(key@ =~= k);
            assert(tail@ =~= cv + "/"@ + av + ".download"@);
        }
    }
    ok
}

fn validate_host_saved_rel_path(value: &str, artifact_claim_id: &str, artifact_id: &str) -> (r: Result<
    (),
    ArtifactClaimError,
>)
    ensures
        r == outcome(if host_path_ok(value@, artifact_claim_id@, artifact_id@) {
            None
        } else {
            Some("hostSavedRelPath canonical")
        }),
{
    if host_path_canonical(value, artifact_claim_id, artifact_id) {
        Ok(())
    } else {
        Err(ArtifactClaimError::Invalid("hostSavedRelPath canonical"))
    }
}

// ---------------------------------------------------------------- receipts

/// The artifact identifier that a receipt's claim, control and download event
/// derive.
pub open spec fn artifact_id_of(claim: Seq<char>, control: Seq<char>, download: Seq<char>) -> Seq<char> {
    derived_id_of(
        "artifact"@,
        seq![
            ScalarView::Text("pr72.artifact.r13.v1"@),
            ScalarView::Text(claim),
            ScalarView::Text(control),
            ScalarView::Text(download),
        ],
    )
}

/// The first invalid identifier field of a receipt.
pub open spec fn receipt_ids_error(r: PlaywrightDownloadReceipt) -> Option<&'static str> {
    if !is_prefixed_hex(r.artifact_claim_id@, "artifact_claim_"@, 64) {
        Some("artifactClaimId")
    } else if !is_prefixed_hex(r.artifact_id@, "artifact_"@, 64) {
        Some("artifactId")
    } else if !is_prefixed_hex(r.browser_context_id@, "ctx_"@, 64) {
        Some("browserContextId")
    } else if !is_prefixed_hex(r.download_event_id@, "download_"@, 64) {
        Some("downloadEventId")
    } else if !is_prefixed_hex(r.page_incarnation_id@, "page_"@, 64) {
        Some("pageIncarnationId")
    } else if !is_session_id(r.session_id@) {
        Some("sessionId")
    } else if !is_h256(r.sha256@) {
        Some("sha256")
    } else if !is_slot_id(r.slot_id@) {
        Some("slotId")
    } else if !is_prefixed_hex(r.target_id@, "target_"@, 64) {
        Some("targetId")
    } else if !is_turn_id(r.terminal_assistant_turn_id@) {
        Some("terminalAssistantTurnId")
    } else {
        None
    }
}

pub open spec fn timing_ok(r: PlaywrightDownloadReceipt) -> bool {
    r.listener_armed_at_ms < r.clicked_at_ms && r.clicked_at_ms <= r.received_at_ms
}

pub open spec fn receipt_shape_error(r: PlaywrightDownloadReceipt) -> Option<&'static str> {
    let expected = artifact_id_of(r.artifact_claim_id@, r.control.control_id@, r.download_event_id@);
    if receipt_ids_error(r) is Some {
        receipt_ids_error(r)
    } else if !is_safe_rel_path(r.host_saved_rel_path@) {
        Some("hostSavedRelPath")
    } else if !is_text(r.media_type@, 4096) {
        Some("mediaType")
    } else if r.size_bytes > MAX_BYTE_COUNT {
        Some("sizeBytes")
    } else if !is_timestamp_ms(r.listener_armed_at_ms) {
        Some("listenerArmedAtMs")
    } else if !is_timestamp_ms(r.clicked_at_ms) {
        Some("clickedAtMs")
    } else if !is_timestamp_ms(r.received_at_ms) {
        Some("receivedAtMs")
    } else if r.conversation_url@ != conversation_url_of(r.session_id@) {
        Some("conversationUrl")
    } else if control_for_turn_error(r.control, r.terminal_assistant_turn_id@) is Some {
        control_for_turn_error(r.control, r.terminal_assistant_turn_id@)
    } else if !host_path_ok(r.host_saved_rel_path@, r.artifact_claim_id@, expected) {
        Some("hostSavedRelPath canonical")
    } else if r.size_bytes == 0 || r.artifact_id@ != expected || !timing_ok(r) || r.media_type@
        != mime_of(path_extension_of(r.host_saved_rel_path@)) {
        Some("download receipt shape")
    } else {
        None
    }
}

pub open spec fn same_control(a: ArtifactControl, b: ArtifactControl) -> bool {
    &&& a.control_id@ == b.control_id@
    &&& a.role@ == b.role@
    &&& a.visible_text_hash@ == b.visible_text_hash@
    &&& a.dom_path_hash@ == b.dom_path_hash@
    &&& a.bounding_box_hash@ == b.bounding_box_hash@
    &&& a.current_turn_id@ == b.current_turn_id@
    &&& a.visible == b.visible
    &&& a.disabled == b.disabled
}

pub open spec fn receipt_binding_ok(
    r: PlaywrightDownloadReceipt,
    expected: SessionEcho,
    claim_id: Seq<char>,
    control: ArtifactControl,
    terminal_turn_id: Seq<char>,
) -> bool {
    let page = expected.page_binding;
    &&& r.artifact_claim_id@ == claim_id
    &&& same_control(r.control, control)
    &&& r.terminal_assistant_turn_id@ == terminal_turn_id
    &&& r.session_id@ == expected.session_id@
    &&& r.conversation_url@ == expected.conversation_url@
    &&& r.slot_id@ == page.slot_id@
    &&& r.browser_context_id@ == page.browser_context_id@
    &&& r.target_id@ == page.target_id@
    &&& r.page_incarnation_id@ == page.page_incarnation_id@
    &&& timing_ok(r)
    &&& r.media_type@ == mime_of(path_extension_of(r.host_saved_rel_path@))
}

pub open spec fn receipt_for_error(
    r: PlaywrightDownloadReceipt,
    expected: SessionEcho,
    claim_id: Seq<char>,
    control: ArtifactControl,
    terminal_turn_id: Seq<char>,
) -> Option<&'static str> {
    if receipt_shape_error(r) is Some {
        receipt_shape_error(r)
    } else if !receipt_binding_ok(r, expected, claim_id, control, terminal_turn_id) {
        Some("download receipt binding")
    } else {
        None
    }
}

fn controls_equal(a: &ArtifactControl, b: &ArtifactControl) -> (r: bool)
    ensures
        r == same_control(*a, *b),
{
    str_eq(a.control_id.as_str(), b.control_id.as_str()) && str_eq(a.role.as_str(), b.role.as_str())
        && str_eq(a.visible_text_hash.as_str(), b.visible_text_hash.as_str()) && str_eq(
        a.dom_path_hash.as_str(),
        b.dom_path_hash.as_str(),
    ) && str_eq(a.bounding_box_hash.as_str(), b.bounding_box_hash.as_str()) && str_eq(
        a.current_turn_id.as_str(),
        b.current_turn_id.as_str(),
    ) && a.visible == b.visible && a.disabled == b.disabled
}

impl PlaywrightDownloadReceipt {
    fn validate_ids(&self) -> (r: Result<(), ArtifactClaimError>)
        ensures
            r == outcome(receipt_ids_error(*self)),
    {
        valid(validate_artifact_claim_id(self.artifact_claim_id.as_str()), "artifactClaimId")?;
        valid(validate_artifact_id(self.artifact_id.as_str()), "artifactId")?;
        valid(validate_browser_context_id(self.browser_context_id.as_str()), "browserContextId")?;
        valid(validate_download_event_id(self.download_event_id.as_str()), "downloadEventId")?;
        valid(validate_page_incarnation_id(self.page_incarnation_id.as_str()), "pageIncarnationId")?;
        valid(validate_session_id(self.session_id.as_str()), "sessionId")?;
        valid(validate_h256(self.sha256.as_str()), "sha256")?;
        valid(validate_slot_id(self.slot_id.as_str()), "slotId")?;
        valid(validate_target_id(self.target_id.as_str()), "targetId")?;
        valid(validate_turn_id(self.terminal_assistant_turn_id.as_str()), "terminalAssistantTurnId")
    }

    pub fn validate_shape(&self) -> (r: Result<(), ArtifactClaimError>)
        ensures
            r == outcome(receipt_shape_error(*self)),
            r is Ok ==> 0 < self.size_bytes <= MAX_BYTE_COUNT && self.listener_armed_at_ms
                < self.clicked_at_ms <= self.received_at_ms,
    {
        self.validate_ids()?;
        valid(validate_safe_rel_path(self.host_saved_rel_path.as_str()), "hostSavedRelPath")?;
        valid(validate_non_empty_text(self.media_type.as_str()), "mediaType")?;
        valid(validate_byte_count(self.size_bytes), "sizeBytes")?;
        valid(validate_timestamp_ms(self.listener_armed_at_ms), "listenerArmedAtMs")?;
        valid(validate_timestamp_ms(self.clicked_at_ms), "clickedAtMs")?;
        valid(validate_timestamp_ms(self.received_at_ms), "receivedAtMs")?;
        valid(
            validate_conversation_url(self.conversation_url.as_str(), self.session_id.as_str()),
            "conversationUrl",
        )?;
        self.control.validate_for_turn(self.terminal_assistant_turn_id.as_str())?;
        let expected_artifact_id = match derive_artifact_id(
            self.artifact_claim_id.as_str(),
            self.control.control_id.as_str(),
            self.download_event_id.as_str(),
        ) {
            Ok(v) => v,
            Err(_) => {
                return Err(ArtifactClaimError::Invalid("artifactId preimage"));
            },
        };
        validate_host_saved_rel_path(
            self.host_saved_rel_path.as_str(),
            self.artifact_claim_id.as_str(),
            expected_artifact_id.as_str(),
        )?;
        let mime = mime_from_path(self.host_saved_rel_path.as_str());
        if self.size_bytes == 0 || !str_eq(self.artifact_id.as_str(), expected_artifact_id.as_str())
            || !(self.listener_armed_at_ms < self.clicked_at_ms && self.clicked_at_ms
            <= self.received_at_ms) || !str_eq(self.media_type.as_str(), mime) {
            return Err(ArtifactClaimError::Invalid("download receipt shape"));
        }
        Ok(())
    }

    /// Checks the receipt's shape, then that it belongs to the expected
    /// session, page, claim, control and terminal turn.
    pub fn validate_for(
        &self,
        expected: &SessionEcho,
        claim_id: &str,
        control: &ArtifactControl,
        terminal_turn_id: &str,
    ) -> (r: Result<(), ArtifactClaimError>)
        ensures
            r == outcome(receipt_for_error(*self, *expected, claim_id@, *control, terminal_turn_id@)),
            r is Ok ==> 0 < self.size_bytes <= MAX_BYTE_COUNT && self.listener_armed_at_ms
                < self.clicked_at_ms <= self.received_at_ms,
    {
        self.validate_shape()?;
        self.validate_ids()?;
        let page = &expected.page_binding;
        let mime = mime_from_path(self.host_saved_rel_path.as_str());
        let ok = str_eq(self.artifact_claim_id.as_str(), claim_id) && controls_equal(
            &self.control,
            control,
        ) && str_eq(self.terminal_assistant_turn_id.as_str(), terminal_turn_id) && str_eq(
            self.session_id.as_str(),
            expected.session_id.as_str(),
        ) && str_eq(self.conversation_url.as_str(), expected.conversation_url.as_str()) && str_eq(
            self.slot_id.as_str(),
            page.slot_id.as_str(),
        ) && str_eq(self.browser_context_id.as_str(), page.browser_context_id.as_str()) && str_eq(
            self.target_id.as_str(),
            page.target_id.as_str(),
        ) && str_eq(self.page_incarnation_id.as_str(), page.page_incarnation_id.as_str()) && (
        self.listener_armed_at_ms < self.clicked_at_ms && self.clicked_at_ms
            <= self.received_at_ms) && str_eq(self.media_type.as_str(), mime);
        if !ok {
            return Err(ArtifactClaimError::Invalid("download receipt binding"));
        }
        Ok(())
    }
}

/// A receipt of a valid shape is for a download that arrived: it has at
/// least one byte and at most the byte limit, the listener was armed before
/// the click and the file came no earlier than the click, its media type is
/// the one its file extension names, and its artifact id is the one derived
/// from its claim, control and download event.
pub proof fn valid_receipts_are_non_empty(r: PlaywrightDownloadReceipt)
    requires
        receipt_shape_error(r) is None,
    ensures
        r.size_bytes > 0,
        r.size_bytes <= MAX_BYTE_COUNT,
        r.listener_armed_at_ms < r.clicked_at_ms,
        r.clicked_at_ms <= r.received_at_ms,
        r.media_type@ == mime_of(path_extension_of(r.host_saved_rel_path@)),
        r.artifact_id@ == artifact_id_of(
            r.artifact_claim_id@,
            r.control.control_id@,
            r.download_event_id@,
        ),
{
}

/// An empty download never has a valid receipt.
pub proof fn empty_downloads_are_refused(r: PlaywrightDownloadReceipt)
    requires
        r.size_bytes == 0,
    ensures
        receipt_shape_error(r) is Some,
{
}

/// A receipt is valid for a download exactly when its own shape is valid and
/// it names the expected claim, control, terminal turn, session and page.
pub proof fn receipt_for_is_shape_and_binding(
    r: PlaywrightDownloadReceipt,
    expected: SessionEcho,
    claim_id: Seq<char>,
    control: ArtifactControl,
    terminal_turn_id: Seq<char>,
)
    ensures
        receipt_for_error(r, expected, claim_id, control, terminal_turn_id) is None <==> {
            &&& receipt_shape_error(r) is None
            &&& r.artifact_claim_id@ == claim_id
            &&& same_control(r.control, control)
            &&& r.terminal_assistant_turn_id@ == terminal_turn_id
            &&& r.session_id@ == expected.session_id@
            &&& r.conversation_url@ == expected.conversation_url@
            &&& r.slot_id@ == expected.page_binding.slot_id@
            &&& r.browser_context_id@ == expected.page_binding.browser_context_id@
            &&& r.target_id@ == expected.page_binding.target_id@
            &&& r.page_incarnation_id@ == expected.page_binding.page_incarnation_id@
        },
{
}

} // verus!
