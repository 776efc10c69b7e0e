use vstd::prelude::*;

use crate::contracts::browser::{
    distinct_paths, evidence, evidence_ref_error, evidence_set_problem, failure_proof_error,
    first_evidence_error, is_failure_reason, model_tuple_ok, proof_error,
    page_binding_error, root_binding_error, validate_model_tuple, ControlIdentity, PageBindingEcho,
    RootBindingCandidate, Effort, EffortProof, EvidenceMediaType, EvidenceRef, FailureProof, Model,
    ModelProof,
};
use crate::artifact_claims::baseline::{
    baseline_error, ArtifactBaseline, ArtifactBaselineEntry,
};
use crate::artifact_claims::completion::{receipt_shape_error, PlaywrightDownloadReceipt};
use crate::artifact_claims::{
    bottom_proof_error, control_for_turn_error, zero_proof_error, ArtifactControl, BottomProof, ZeroControlProof,
};
use crate::contracts::events::EventType;
use crate::contracts::projection::{get_entry, lookup};
use crate::contracts::semantics::JsonValue;
use crate::text::str_eq;

verus! {

// ---------------------------------------------------------------- record shapes

/// The characters of each name.
pub open spec fn name_views(names: Seq<&str>) -> Seq<Seq<char>> {
    names.map_values(|s: &str| s@)
}

/// The field names of an object are all among `names`, each at most once.
pub open spec fn object_shape(es: Seq<(String, JsonValue)>, names: Seq<Seq<char>>) -> bool {
    &&& forall|i: int| 0 <= i < es.len() ==> names.contains(#[trigger] es[i].0@)
    &&& forall|i: int, j: int| #![trigger es[i], es[j]] 0 <= i < j < es.len() ==> es[i].0@ != es[j].0@
}

/// Whether `v` can hold a record with the fields `names`: an object whose
/// field names are all among them, each at most once, or an array with one
/// element per field, in field order.
pub open spec fn record_shape(v: JsonValue, names: Seq<Seq<char>>) -> bool {
    match v {
        JsonValue::Object(es) => object_shape(es@, names),
        JsonValue::Array(vs) => vs@.len() == names.len(),
        _ => false,
    }
}

/// The value of the record field `name`, the `i`-th of its fields: looked up
/// by name in an object, taken by position in an array.
pub open spec fn member_of(v: JsonValue, name: Seq<char>, i: int) -> Option<JsonValue> {
    match v {
        JsonValue::Object(es) => lookup(es@, name),
        JsonValue::Array(vs) => if 0 <= i < vs@.len() {
            Some(vs@[i])
        } else {
            None
        },
        _ => None,
    }
}

fn name_listed(names: &Vec<&'static str>, k: &str) -> (r: bool)
    ensures
        r == name_views(names@).contains(k@),
{
    let mut j: usize = 0;
    while j < names.len()
        invariant
            j <= names@.len(),
            forall|m: int| 0 <= m < j ==> names@[m]@ != k@,
        decreases names.len() - j,
    {
        if str_eq(names[j], k) {
            assert(name_views(names@)[j as int] == k@);
            return true;
        }
        j += 1;
    }
    proof {
        if name_views(names@).contains(k@) {
            let m = choose|m: int| 0 <= m < name_views(names@).len() && name_views(names@)[m] == k@;
            assert(names@[m]@ == k@);
        }
    }
    false
}

fn object_shape_ok(es: &Vec<(String, JsonValue)>, names: &Vec<&'static str>) -> (r: bool)
    ensures
        r == object_shape(es@, name_views(names@)),
{
    let mut i: usize = 0;
    while i < es.len()
        invariant
            i <= es@.len(),
            forall|m: int| 0 <= m < i ==> name_views(names@).contains(#[trigger] es@[m].0@),
            forall|m: int, n: int| #![trigger es@[m], es@[n]] 0 <= m < n < i ==> es@[m].0@ != es@[n].0@,
        decreases es.len() - i,
    {
        if !name_listed(names, es[i].0.as_str()) {
            return false;
        }
        let mut j: usize = 0;
        while j < i
            invariant
                i < es@.len(),
                j <= i,
                forall|m: int| 0 <= m < j ==> es@[m].0@ != es@[i as int].0@,
            decreases i - j,
        {
            if str_eq(es[j].0.as_str(), es[i].0.as_str()) {
                assert(es@[j as int].0@ == es@[i as int].0@);
                return false;
            }
            j += 1;
        }
        i += 1;
    }
    true
}

pub(crate) fn shape_ok(v: &JsonValue, names: &Vec<&'static str>) -> (r: bool)
    ensures
        r == record_shape(*v, name_views(names@)),
{
    match v {
        JsonValue::Object(es) => object_shape_ok(es, names),
        JsonValue::Array(vs) => vs.len() == names.len(),
        _ => false,
    }
}

pub(crate) fn member<'a>(v: &'a JsonValue, name: &str, i: usize) -> (r: Option<&'a JsonValue>)
    ensures
        match member_of(*v, name@, i as int) {
            Some(x) => r matches Some(y) && *y == x,
            None => r is None,
        },
{
    match v {
        JsonValue::Object(es) => get_entry(es, name),
        JsonValue::Array(vs) => if i < vs.len() {
            Some(&vs[i])
        } else {
            None
        },
        _ => None,
    }
}

// ---------------------------------------------------------------- field values

/// A text field.
pub open spec fn text_in(o: Option<JsonValue>) -> Option<String> {
    match o {
        Some(JsonValue::Text(s)) => Some(s),
        _ => None,
    }
}

/// An optional text field: absent or null gives `None`.
pub open spec fn opt_text_in(o: Option<JsonValue>) -> Option<Option<String>> {
    match o {
        None => Some(None),
        Some(JsonValue::Null) => Some(None),
        Some(JsonValue::Text(s)) => Some(Some(s)),
        _ => None,
    }
}

pub open spec fn unsigned_in(o: Option<JsonValue>) -> Option<u64> {
    match o {
        Some(JsonValue::Unsigned(n)) => Some(n),
        _ => None,
    }
}

pub open spec fn bool_in(o: Option<JsonValue>) -> Option<bool> {
    match o {
        Some(JsonValue::Bool(b)) => Some(b),
        _ => None,
    }
}

pub(crate) fn decode_text(o: Option<&JsonValue>) -> (r: Option<String>)
    ensures
        match o {
            Some(x) => r == text_in(Some(*x)),
            None => r == text_in(None),
        },
{
    match o {
        Some(JsonValue::Text(s)) => Some(s.clone()),
        _ => None,
    }
}

pub(crate) fn decode_opt_text(o: Option<&JsonValue>) -> (r: Option<Option<String>>)
    ensures
        match o {
            Some(x) => r == opt_text_in(Some(*x)),
            None => r == opt_text_in(None),
        },
{
    match o {
        None => Some(None),
        Some(JsonValue::Null) => Some(None),
        Some(JsonValue::Text(s)) => Some(Some(s.clone())),
        _ => None,
    }
}

pub(crate) fn decode_unsigned(o: Option<&JsonValue>) -> (r: Option<u64>)
    ensures
        match o {
            Some(x) => r == unsigned_in(Some(*x)),
            None => r == unsigned_in(None),
        },
{
    match o {
        Some(JsonValue::Unsigned(n)) => Some(*n),
        _ => None,
    }
}

fn decode_bool(o: Option<&JsonValue>) -> (r: Option<bool>)
    ensures
        match o {
            Some(x) => r == bool_in(Some(*x)),
            None => r == bool_in(None),
        },
{
    match o {
        Some(JsonValue::Bool(b)) => Some(*b),
        _ => None,
    }
}

// ---------------------------------------------------------------- unit variants

/// The name of a unit variant: a text, or an object whose one field, named
/// after the variant, is null.
pub open spec fn variant_name(v: JsonValue) -> Option<Seq<char>> {
    match v {
        JsonValue::Text(s) => Some(s@),
        JsonValue::Object(es) => if es@.len() == 1 && es@[0].1 is Null {
            Some(es@[0].0@)
        } else {
            None
        },
        _ => None,
    }
}

fn variant<'a>(v: &'a JsonValue) -> (r: Option<&'a str>)
    ensures
        match variant_name(*v) {
            Some(n) => r matches Some(s) && s@ == n,
            None => r is None,
        },
{
    match v {
        JsonValue::Text(s) => Some(s.as_str()),
        JsonValue::Object(es) => if es.len() == 1 {
            match &es[0].1 {
                JsonValue::Null => Some(es[0].0.as_str()),
                _ => None,
            }
        } else {
            None
        },
        _ => None,
    }
}

pub open spec fn model_in(o: Option<JsonValue>) -> Option<Model> {
    match o {
        Some(v) => match variant_name(v) {
            Some(n) => if n == "pro"@ {
                Some(Model::Pro)
            } else if n == "xhigh"@ {
                Some(Model::Xhigh)
            } else {
                None
            },
            None => None,
        },
        None => None,
    }
}

pub open spec fn effort_in(o: Option<JsonValue>) -> Option<Effort> {
    match o {
        Some(v) => match variant_name(v) {
            Some(n) => if n == "standard"@ {
                Some(Effort::Standard)
            } else if n == "high"@ {
                Some(Effort::High)
            } else {
                None
            },
            None => None,
        },
        None => None,
    }
}

pub open spec fn media_type_in(o: Option<JsonValue>) -> Option<EvidenceMediaType> {
    match o {
        Some(v) => match variant_name(v) {
            Some(n) => if n == "application/json"@ {
                Some(EvidenceMediaType::Json)
            } else if n == "image/png"@ {
                Some(EvidenceMediaType::Png)
            } else if n == "application/octet-stream"@ {
                Some(EvidenceMediaType::Binary)
            } else if n == "text/markdown"@ {
                Some(EvidenceMediaType::Markdown)
            } else {
                None
            },
            None => None,
        },
        None => None,
    }
}

/// Reads a model name (`pro` or `xhigh`).
pub fn decode_model(o: Option<&JsonValue>) -> (r: Option<Model>)
    ensures
        match o {
            Some(x) => r == model_in(Some(*x)),
            None => r == model_in(None),
        },
{
    match o {
        Some(v) => match variant(v) {
            Some(n) => if str_eq(n, "pro") {
                Some(Model::Pro)
            } else if str_eq(n, "xhigh") {
                Some(Model::Xhigh)
            } else {
                None
            },
            None => None,
        },
        None => None,
    }
}

/// Reads an effort name (`standard` or `high`).
pub fn decode_effort(o: Option<&JsonValue>) -> (r: Option<Effort>)
    ensures
        match o {
            Some(x) => r == effort_in(Some(*x)),
            None => r == effort_in(None),
        },
{
    match o {
        Some(v) => match variant(v) {
            Some(n) => if str_eq(n, "standard") {
                Some(Effort::Standard)
            } else if str_eq(n, "high") {
                Some(Effort::High)
            } else {
                None
            },
            None => None,
        },
        None => None,
    }
}

fn decode_media_type(o: Option<&JsonValue>) -> (r: Option<EvidenceMediaType>)
    ensures
        match o {
            Some(x) => r == media_type_in(Some(*x)),
            None => r == media_type_in(None),
        },
{
    match o {
        Some(v) => match variant(v) {
            Some(n) => if str_eq(n, "application/json") {
                Some(EvidenceMediaType::Json)
            } else if str_eq(n, "image/png") {
                Some(EvidenceMediaType::Png)
            } else if str_eq(n, "application/octet-stream") {
                Some(EvidenceMediaType::Binary)
            } else if str_eq(n, "text/markdown") {
                Some(EvidenceMediaType::Markdown)
            } else {
                None
            },
            None => None,
        },
        None => None,
    }
}

// ---------------------------------------------------------------- records

pub open spec fn evidence_names() -> Seq<Seq<char>> {
    seq!["path"@, "sha256"@, "sizeBytes"@, "mediaType"@]
}

/// An evidence reference, from an object with the fields `path`, `sha256`,
/// `sizeBytes` and `mediaType` or an array of those four values.
pub open spec fn evidence_ref_of(v: JsonValue) -> Option<EvidenceRef> {
    if !record_shape(v, evidence_names()) {
        None
    } else {
        match (
            text_in(member_of(v, "path"@, 0)),
            text_in(member_of(v, "sha256"@, 1)),
            unsigned_in(member_of(v, "sizeBytes"@, 2)),
            media_type_in(member_of(v, "mediaType"@, 3)),
        ) {
            (Some(path), Some(sha256), Some(size_bytes), Some(media_type)) => Some(
                EvidenceRef { path, sha256, size_bytes, media_type },
            ),
            _ => None,
        }
    }
}

pub fn decode_evidence_ref(v: &JsonValue) -> (r: Option<EvidenceRef>)
    ensures
        r == evidence_ref_of(*v),
{
    let names = vec!["path", "sha256", "sizeBytes", "mediaType"];
    proof {
        assert(name_views(names@) =~= evidence_names());
    }
    if !shape_ok(v, &names) {
        return None;
    }
    let path = decode_text(member(v, "path", 0));
    let sha256 = decode_text(member(v, "sha256", 1));
    let size_bytes = decode_unsigned(member(v, "sizeBytes", 2));
    let media_type = decode_media_type(member(v, "mediaType", 3));
    match (path, sha256, size_bytes, media_type) {
        (Some(path), Some(sha256), Some(size_bytes), Some(media_type)) => Some(
            EvidenceRef { path, sha256, size_bytes, media_type },
        ),
        _ => None,
    }
}

/// A list of evidence references: an array whose every element reads as one.
pub open spec fn evidence_list_in(o: Option<JsonValue>) -> Option<Seq<EvidenceRef>> {
    match o {
        Some(JsonValue::Array(vs)) => if forall|i: int|
            0 <= i < vs@.len() ==> (#[trigger] evidence_ref_of(vs@[i])) is Some {
            Some(vs@.map_values(|x: JsonValue| evidence_ref_of(x).unwrap()))
        } else {
            None
        },
        _ => None,
    }
}

fn decode_evidence_items(vs: &Vec<JsonValue>) -> (r: Option<Vec<EvidenceRef>>)
    ensures
        match evidence_list_in(Some(JsonValue::Array(*vs))) {
            Some(s) => r matches Some(l) && l@ == s,
            None => r is None,
        },
{
    let mut out: Vec<EvidenceRef> = Vec::new();
    let mut i: usize = 0;
    while i < vs.len()
        invariant
            i <= vs@.len(),
            out@.len() == i,
            forall|j: int| 0 <= j < i ==> evidence_ref_of(#[trigger] vs@[j]) == Some(out@[j]),
        decreases vs.len() - i,
    {
        match decode_evidence_ref(&vs[i]) {
            Some(e) => out.push(e),
            None => {
                assert(evidence_ref_of(vs@[i as int]) is None);
                return None;
            },
        }
        i += 1;
    }
    assert(out@ =~= vs@.map_values(|x: JsonValue| evidence_ref_of(x).unwrap()));
    Some(out)
}

fn decode_evidence_list(o: Option<&JsonValue>) -> (r: Option<Vec<EvidenceRef>>)
    ensures
        match o {
            Some(x) => match evidence_list_in(Some(*x)) {
                Some(s) => r matches Some(l) && l@ == s,
                None => r is None,
            },
            None => r is None,
        },
{
    match o {
        Some(JsonValue::Array(vs)) => decode_evidence_items(vs),
        _ => None,
    }
}

pub open spec fn control_names() -> Seq<Seq<char>> {
    seq![
        "boundingBoxHash"@,
        "controlId"@,
        "disabled"@,
        "domPathHash"@,
        "labelHash"@,
        "role"@,
        "testIdHash"@,
        "visible"@,
    ]
}

/// A control identity, by its eight fields.
pub open spec fn control_in(o: Option<JsonValue>) -> Option<ControlIdentity> {
    match o {
        Some(v) => if !record_shape(v, control_names()) {
            None
        } else {
            match (
                text_in(member_of(v, "boundingBoxHash"@, 0)),
                text_in(member_of(v, "controlId"@, 1)),
                bool_in(member_of(v, "disabled"@, 2)),
                text_in(member_of(v, "domPathHash"@, 3)),
                text_in(member_of(v, "labelHash"@, 4)),
                text_in(member_of(v, "role"@, 5)),
                opt_text_in(member_of(v, "testIdHash"@, 6)),
                bool_in(member_of(v, "visible"@, 7)),
            ) {
                (
                    Some(bounding_box_hash),
                    Some(control_id),
                    Some(disabled),
                    Some(dom_path_hash),
                    Some(label_hash),
                    Some(role),
                    Some(test_id_hash),
                    Some(visible),
                ) => Some(
                    ControlIdentity {
                        bounding_box_hash,
                        control_id,
                        disabled,
                        dom_path_hash,
                        label_hash,
                        role,
                        test_id_hash,
                        visible,
                    },
                ),
                _ => None,
            }
        },
        None => None,
    }
}

fn decode_control(o: Option<&JsonValue>) -> (r: Option<ControlIdentity>)
    ensures
        match o {
            Some(x) => r == control_in(Some(*x)),
            None => r is None,
        },
{
    let v = match o {
        Some(v) => v,
        None => return None,
    };
    let names = vec![
        "boundingBoxHash",
        "controlId",
        "disabled",
        "domPathHash",
        "labelHash",
        "role",
        "testIdHash",
        "visible",
    ];
    proof {
        assert(name_views(names@) =~= control_names());
    }
    if !shape_ok(v, &names) {
        return None;
    }
    let bounding_box_hash = decode_text(member(v, "boundingBoxHash", 0));
    let control_id = decode_text(member(v, "controlId", 1));
    let disabled = decode_bool(member(v, "disabled", 2));
    let dom_path_hash = decode_text(member(v, "domPathHash", 3));
    let label_hash = decode_text(member(v, "labelHash", 4));
    let role = decode_text(member(v, "role", 5));
    let test_id_hash = decode_opt_text(member(v, "testIdHash", 6));
    let visible = decode_bool(member(v, "visible", 7));
    match (
        bounding_box_hash,
        control_id,
        disabled,
        dom_path_hash,
        label_hash,
        role,
        test_id_hash,
        visible,
    ) {
        (
            Some(bounding_box_hash),
            Some(control_id),
            Some(disabled),
            Some(dom_path_hash),
            Some(label_hash),
            Some(role),
            Some(test_id_hash),
            Some(visible),
        ) => Some(
            ControlIdentity {
                bounding_box_hash,
                control_id,
                disabled,
                dom_path_hash,
                label_hash,
                role,
                test_id_hash,
                visible,
            },
        ),
        _ => None,
    }
}

pub open spec fn proof_names() -> Seq<Seq<char>> {
    seq![
        "requested"@,
        "observed"@,
        "verified"@,
        "control"@,
        "selectedBy"@,
        "evidenceRefs"@,
        "verifiedAtMs"@,
    ]
}

/// The fields of a selection proof, in field order: requested, observed,
/// verified, control, selectedBy, evidenceRefs, verifiedAtMs.
pub open spec fn proof_fields_in<T>(o: Option<JsonValue>, choice: spec_fn(Option<JsonValue>) -> Option<T>) -> Option<
    (T, T, bool, ControlIdentity, String, Seq<EvidenceRef>, u64),
> {
    match o {
        Some(v) => if !record_shape(v, proof_names()) {
            None
        } else {
            match (
                choice(member_of(v, "requested"@, 0)),
                choice(member_of(v, "observed"@, 1)),
                bool_in(member_of(v, "verified"@, 2)),
                control_in(member_of(v, "control"@, 3)),
                text_in(member_of(v, "selectedBy"@, 4)),
                evidence_list_in(member_of(v, "evidenceRefs"@, 5)),
                unsigned_in(member_of(v, "verifiedAtMs"@, 6)),
            ) {
                (Some(a), Some(b), Some(c), Some(d), Some(e), Some(f), Some(g)) => Some(
                    (a, b, c, d, e, f, g),
                ),
                _ => None,
            }
        },
        None => None,
    }
}

/// A model proof, as its fields.
pub open spec fn model_proof_in(o: Option<JsonValue>) -> Option<
    (Model, Model, bool, ControlIdentity, String, Seq<EvidenceRef>, u64),
> {
    proof_fields_in(o, |x: Option<JsonValue>| model_in(x))
}

/// An effort proof, as its fields.
pub open spec fn effort_proof_in(o: Option<JsonValue>) -> Option<
    (Effort, Effort, bool, ControlIdentity, String, Seq<EvidenceRef>, u64),
> {
    proof_fields_in(o, |x: Option<JsonValue>| effort_in(x))
}

/// A model proof holds the given fields.
pub open spec fn model_proof_is(
    p: ModelProof,
    t: (Model, Model, bool, ControlIdentity, String, Seq<EvidenceRef>, u64),
) -> bool {
    &&& p.requested == t.0
    &&& p.observed == t.1
    &&& p.verified == t.2
    &&& p.control == t.3
    &&& p.selected_by == t.4
    &&& p.evidence_refs@ == t.5
    &&& p.verified_at_ms == t.6
}

/// An effort proof holds the given fields.
pub open spec fn effort_proof_is(
    p: EffortProof,
    t: (Effort, Effort, bool, ControlIdentity, String, Seq<EvidenceRef>, u64),
) -> bool {
    &&& p.requested == t.0
    &&& p.observed == t.1
    &&& p.verified == t.2
    &&& p.control == t.3
    &&& p.selected_by == t.4
    &&& p.evidence_refs@ == t.5
    &&& p.verified_at_ms == t.6
}

/// Reads a model-selection proof of the model.
pub fn decode_model_proof(o: Option<&JsonValue>) -> (r: Option<ModelProof>)
    ensures
        match o {
            Some(x) => match model_proof_in(Some(*x)) {
                Some(t) => r matches Some(p) && model_proof_is(p, t),
                None => r is None,
            },
            None => r is None,
        },
{
    let v = match o {
        Some(v) => v,
        None => return None,
    };
    let names = vec![
        "requested",
        "observed",
        "verified",
        "control",
        "selectedBy",
        "evidenceRefs",
        "verifiedAtMs",
    ];
    proof {
        assert(name_views(names@) =~= proof_names());
    }
    if !shape_ok(v, &names) {
        return None;
    }
    let requested = decode_model(member(v, "requested", 0));
    let observed = decode_model(member(v, "observed", 1));
    let verified = decode_bool(member(v, "verified", 2));
    let control = decode_control(member(v, "control", 3));
    let selected_by = decode_text(member(v, "selectedBy", 4));
    let evidence_refs = decode_evidence_list(member(v, "evidenceRefs", 5));
    let verified_at_ms = decode_unsigned(member(v, "verifiedAtMs", 6));
    match (requested, observed, verified, control, selected_by, evidence_refs, verified_at_ms) {
        (
            Some(requested),
            Some(observed),
            Some(verified),
            Some(control),
            Some(selected_by),
            Some(evidence_refs),
            Some(verified_at_ms),
        ) => Some(
            ModelProof {
                requested,
                observed,
                verified,
                control,
                selected_by,
                evidence_refs,
                verified_at_ms,
            },
        ),
        _ => None,
    }
}

/// Reads a model-selection proof of the effort.
pub fn decode_effort_proof(o: Option<&JsonValue>) -> (r: Option<EffortProof>)
    ensures
        match o {
            Some(x) => match effort_proof_in(Some(*x)) {
                Some(t) => r matches Some(p) && effort_proof_is(p, t),
                None => r is None,
            },
            None => r is None,
        },
{
    let v = match o {
        Some(v) => v,
        None => return None,
    };
    let names = vec![
        "requested",
        "observed",
        "verified",
        "control",
        "selectedBy",
        "evidenceRefs",
        "verifiedAtMs",
    ];
    proof {
        assert(name_views(names@) =~= proof_names());
    }
    if !shape_ok(v, &names) {
        return None;
    }
    let requested = decode_effort(member(v, "requested", 0));
    let observed = decode_effort(member(v, "observed", 1));
    let verified = decode_bool(member(v, "verified", 2));
    let control = decode_control(member(v, "control", 3));
    let selected_by = decode_text(member(v, "selectedBy", 4));
    let evidence_refs = decode_evidence_list(member(v, "evidenceRefs", 5));
    let verified_at_ms = decode_unsigned(member(v, "verifiedAtMs", 6));
    match (requested, observed, verified, control, selected_by, evidence_refs, verified_at_ms) {
        (
            Some(requested),
            Some(observed),
            Some(verified),
            Some(control),
            Some(selected_by),
            Some(evidence_refs),
            Some(verified_at_ms),
        ) => Some(
            EffortProof {
                requested,
                observed,
                verified,
                control,
                selected_by,
                evidence_refs,
                verified_at_ms,
            },
        ),
        _ => None,
    }
}

pub open spec fn failure_names() -> Seq<Seq<char>> {
    seq![
        "reason"@,
        "pickerOpened"@,
        "requestedModelVisible"@,
        "requestedEffortVisible"@,
        "controlIdentityStable"@,
        "evidenceRefs"@,
        "failedAtMs"@,
    ]
}

/// A failure proof, as its fields in field order.
pub open spec fn failure_proof_in(o: Option<JsonValue>) -> Option<
    (String, bool, bool, bool, bool, Seq<EvidenceRef>, u64),
> {
    match o {
        Some(v) => if !record_shape(v, failure_names()) {
            None
        } else {
            match (
                text_in(member_of(v, "reason"@, 0)),
                bool_in(member_of(v, "pickerOpened"@, 1)),
                bool_in(member_of(v, "requestedModelVisible"@, 2)),
                bool_in(member_of(v, "requestedEffortVisible"@, 3)),
                bool_in(member_of(v, "controlIdentityStable"@, 4)),
                evidence_list_in(member_of(v, "evidenceRefs"@, 5)),
                unsigned_in(member_of(v, "failedAtMs"@, 6)),
            ) {
                (Some(a), Some(b), Some(c), Some(d), Some(e), Some(f), Some(g)) => Some(
                    (a, b, c, d, e, f, g),
                ),
                _ => None,
            }
        },
        None => None,
    }
}

/// A failure proof holds the given fields.
pub open spec fn failure_proof_is(
    p: FailureProof,
    t: (String, bool, bool, bool, bool, Seq<EvidenceRef>, u64),
) -> bool {
    &&& p.reason == t.0
    &&& p.picker_opened == t.1
    &&& p.requested_model_visible == t.2
    &&& p.requested_effort_visible == t.3
    &&& p.control_identity_stable == t.4
    &&& p.evidence_refs@ == t.5
    &&& p.failed_at_ms == t.6
}

/// Reads a model-selection failure proof.
pub fn decode_failure_proof(o: Option<&JsonValue>) -> (r: Option<FailureProof>)
    ensures
        match o {
            Some(x) => match failure_proof_in(Some(*x)) {
                Some(t) => r matches Some(p) && failure_proof_is(p, t),
                None => r is None,
            },
            None => r is None,
        },
{
    let v = match o {
        Some(v) => v,
        None => return None,
    };
    let names = vec![
        "reason",
        "pickerOpened",
        "requestedModelVisible",
        "requestedEffortVisible",
        "controlIdentityStable",
        "evidenceRefs",
        "failedAtMs",
    ];
    proof {
        assert(name_views(names@) =~= failure_names());
    }
    if !shape_ok(v, &names) {
        return None;
    }
    let reason = decode_text(member(v, "reason", 0));
    let picker_opened = decode_bool(member(v, "pickerOpened", 1));
    let requested_model_visible = decode_bool(member(v, "requestedModelVisible", 2));
    let requested_effort_visible = decode_bool(member(v, "requestedEffortVisible", 3));
    let control_identity_stable = decode_bool(member(v, "controlIdentityStable", 4));
    let evidence_refs = decode_evidence_list(member(v, "evidenceRefs", 5));
    let failed_at_ms = decode_unsigned(member(v, "failedAtMs", 6));
    match (
        reason,
        picker_opened,
        requested_model_visible,
        requested_effort_visible,
        control_identity_stable,
        evidence_refs,
        failed_at_ms,
    ) {
        (Some(a), Some(b), Some(c), Some(d), Some(e), Some(f), Some(g)) => Some(
            FailureProof {
                reason: a,
                picker_opened: b,
                requested_model_visible: c,
                requested_effort_visible: d,
                control_identity_stable: e,
                evidence_refs: f,
                failed_at_ms: g,
            },
        ),
        _ => None,
    }
}

// ---------------------------------------------------------------- verdicts of the model-selection events

/// A payload field.
pub open spec fn payload_field(p: JsonValue, key: Seq<char>) -> Option<JsonValue> {
    match p {
        JsonValue::Object(es) => lookup(es@, key),
        _ => None,
    }
}

/// An optional record field: present, and null or readable by `read`.
pub open spec fn optional_record_ok(o: Option<JsonValue>, readable: bool) -> bool {
    match o {
        None => false,
        Some(JsonValue::Null) => true,
        Some(_) => readable,
    }
}

/// Every failure proof with the given fields passes `FailureProof::validate`.
pub open spec fn failure_fields_valid(t: (String, bool, bool, bool, bool, Seq<EvidenceRef>, u64)) -> bool {
    forall|f: FailureProof| failure_proof_is(f, t) ==> #[trigger] failure_proof_error(f) is None
}

/// The reasons of a model-selection failure that need no failure proof.
pub open spec fn proofless_failure_reason(s: Seq<char>) -> bool {
    s == "contract.invalid_provider_envelope"@ || s == "binding.mismatch"@ || s
        == "provider.schema_drift"@
}

/// The failure proof of a payload, where its field holds one (not null).
pub open spec fn failure_proof_at(p: JsonValue) -> Option<
    (String, bool, bool, bool, bool, Seq<EvidenceRef>, u64),
> {
    match payload_field(p, "failureProof"@) {
        Some(JsonValue::Null) => None,
        o => failure_proof_in(o),
    }
}

/// Whether a failed model selection carries the proof its reason calls for:
/// a reason the picker observed comes with a failure proof that names it; the
/// other known reasons come without one.
pub open spec fn failed_selection_proof_ok(p: JsonValue) -> bool {
    match text_in(payload_field(p, "reason"@)) {
        Some(reason) => if is_failure_reason(reason@) {
            failure_proof_at(p) matches Some(t) && t.0@ == reason@
        } else {
            failure_proof_at(p) is None && proofless_failure_reason(reason@)
        },
        None => false,
    }
}

pub open spec fn requested_model_at(p: JsonValue) -> Option<Model> {
    model_in(payload_field(p, "requestedModel"@))
}

pub open spec fn requested_effort_at(p: JsonValue) -> Option<Effort> {
    effort_in(payload_field(p, "requestedEffort"@))
}

/// The requested model and effort read, and form a supported pair.
pub open spec fn requested_tuple_ok(p: JsonValue) -> bool {
    requested_model_at(p) matches Some(m) && requested_effort_at(p) matches Some(e) && model_tuple_ok(
        m,
        e,
    )
}

pub open spec fn model_proof_at(p: JsonValue) -> Option<
    (Model, Model, bool, ControlIdentity, String, Seq<EvidenceRef>, u64),
> {
    model_proof_in(payload_field(p, "modelProof"@))
}

pub open spec fn effort_proof_at(p: JsonValue) -> Option<
    (Effort, Effort, bool, ControlIdentity, String, Seq<EvidenceRef>, u64),
> {
    effort_proof_in(payload_field(p, "effortProof"@))
}

/// The model proof reads and passes `ModelProof::validate`.
pub open spec fn model_proof_valid(p: JsonValue) -> bool {
    model_proof_at(p) matches Some(t) && proof_error(t.3, t.5, t.6, t.2, t.1 == t.0, t.4@, "ModelProof")
        is None
}

/// The effort proof reads and passes `EffortProof::validate`.
pub open spec fn effort_proof_valid(p: JsonValue) -> bool {
    effort_proof_at(p) matches Some(t) && proof_error(t.3, t.5, t.6, t.2, t.1 == t.0, t.4@, "EffortProof")
        is None
}

/// Both proofs read, and their requested model and effort form a supported
/// pair.
pub open spec fn proof_tuple_ok(p: JsonValue) -> bool {
    model_proof_at(p) matches Some(a) && effort_proof_at(p) matches Some(b) && model_tuple_ok(a.0, b.0)
}

/// The failure proof field is present, and null or a readable failure proof.
pub open spec fn failure_proof_parsed(p: JsonValue) -> bool {
    optional_record_ok(
        payload_field(p, "failureProof"@),
        failure_proof_in(payload_field(p, "failureProof"@)) is Some,
    )
}

/// The provider receipt field is present, and null or a valid evidence
/// reference.
pub open spec fn optional_receipt_ok(p: JsonValue) -> bool {
    optional_record_ok(
        payload_field(p, "providerReceipt"@),
        evidence_ref_of(payload_field(p, "providerReceipt"@).unwrap()) matches Some(e)
            && evidence_ref_error(e) is None,
    )
}

/// Where a failed selection's reason calls for a failure proof and the proof
/// names that reason, the proof passes `FailureProof::validate`.
pub open spec fn failure_proof_valid(p: JsonValue) -> bool {
    match text_in(payload_field(p, "reason"@)) {
        Some(reason) => is_failure_reason(reason@) && (failure_proof_at(p) matches Some(t)
            && t.0@ == reason@) ==> failure_fields_valid(failure_proof_at(p).unwrap()),
        None => failure_proof_at(p) matches Some(t) ==> failure_fields_valid(t),
    }
}

/// The verdicts that `model_selection_verdicts` gives: names, in order, with
/// whether each step passed.
pub open spec fn model_selection_verdicts_are(t: EventType, p: JsonValue, r: Seq<(String, bool)>) -> bool {
    match t {
        EventType::ModelSelectionStarted => {
            &&& r.len() == 3
            &&& r[0].0@ == "requestedModel"@ && r[0].1 == requested_model_at(p) is Some
            &&& r[1].0@ == "requestedEffort"@ && r[1].1 == requested_effort_at(p) is Some
            &&& r[2].0@ == "model tuple"@ && r[2].1 == requested_tuple_ok(p)
        },
        EventType::ModelSelectionVerified => {
            &&& r.len() == 5
            &&& r[0].0@ == "modelProof parsed"@ && r[0].1 == model_proof_at(p) is Some
            &&& r[1].0@ == "effortProof parsed"@ && r[1].1 == effort_proof_at(p) is Some
            &&& r[2].0@ == "modelProof"@ && r[2].1 == model_proof_valid(p)
            &&& r[3].0@ == "effortProof"@ && r[3].1 == effort_proof_valid(p)
            &&& r[4].0@ == "model proof tuple"@ && r[4].1 == proof_tuple_ok(p)
        },
        EventType::ModelSelectionFailed => {
            &&& r.len() == 4
            &&& r[0].0@ == "failureProof parsed"@ && r[0].1 == failure_proof_parsed(p)
            &&& r[1].0@ == "providerReceipt"@ && r[1].1 == optional_receipt_ok(p)
            &&& r[2].0@ == "ModelSelectionFailed proof"@ && r[2].1 == failed_selection_proof_ok(p)
            &&& r[3].0@ == "failureProof"@ && r[3].1 == failure_proof_valid(p)
        },
        _ => r.len() == 0,
    }
}

fn verdict_pair(label: &str, ok: bool) -> (r: (String, bool))
    ensures
        r.0@ == label@,
        r.1 == ok,
{
    (label.to_owned(), ok)
}

fn failure_reason(s: &str) -> (r: bool)
    ensures
        r == is_failure_reason(s@),
{
    str_eq(s, "picker.model_absent") || str_eq(s, "picker.effort_absent") || str_eq(
        s,
        "picker.control_drift",
    ) || str_eq(s, "picker.selection_timeout") || str_eq(s, "picker.reverify_mismatch") || str_eq(
        s,
        "capture.ambiguous",
    )
}

fn field_in<'a>(p: &'a JsonValue, key: &str) -> (r: Option<&'a JsonValue>)
    ensures
        match payload_field(*p, key@) {
            Some(x) => r matches Some(y) && *y == x,
            None => r is None,
        },
{
    match p {
        JsonValue::Object(es) => get_entry(es, key),
        _ => None,
    }
}

/// Judges the typed steps of the model-selection events' payload rules: the
/// requested model and effort and their pairing, the model and effort proofs,
/// and the failure proof and provider receipt of a failed selection. Each
/// pair names a step of `checks_of(t)` and says whether it passed; other
/// event types get none.
pub fn model_selection_verdicts(t: EventType, p: &JsonValue) -> (r: Vec<(String, bool)>)
    ensures
        model_selection_verdicts_are(t, *p, r@),
{
    let mut r: Vec<(String, bool)> = Vec::new();
    match t {
        EventType::ModelSelectionStarted => {
            let model = decode_model(field_in(p, "requestedModel"));
            let effort = decode_effort(field_in(p, "requestedEffort"));
            let tuple = match (&model, &effort) {
                (Some(m), Some(e)) => validate_model_tuple(m, e).is_ok(),
                _ => false,
            };
            r.push(verdict_pair("requestedModel", model.is_some()));
            r.push(verdict_pair("requestedEffort", effort.is_some()));
            r.push(verdict_pair("model tuple", tuple));
        },
        EventType::ModelSelectionVerified => {
            let model = decode_model_proof(field_in(p, "modelProof"));
            let effort = decode_effort_proof(field_in(p, "effortProof"));
            let model_valid = match &model {
                Some(m) => m.validate().is_ok(),
                None => false,
            };
            let effort_valid = match &effort {
                Some(e) => e.validate().is_ok(),
                None => false,
            };
            let tuple = match (&model, &effort) {
                (Some(m), Some(e)) => validate_model_tuple(&m.requested, &e.requested).is_ok(),
                _ => false,
            };
            r.push(verdict_pair("modelProof parsed", model.is_some()));
            r.push(verdict_pair("effortProof parsed", effort.is_some()));
            r.push(verdict_pair("modelProof", model_valid));
            r.push(verdict_pair("effortProof", effort_valid));
            r.push(verdict_pair("model proof tuple", tuple));
        },
        EventType::ModelSelectionFailed => {
            let proof_field = field_in(p, "failureProof");
            let failure = match proof_field {
                Some(JsonValue::Null) => None,
                other => decode_failure_proof(other),
            };
            let parsed = match proof_field {
                None => false,
                Some(JsonValue::Null) => true,
                Some(_) => failure.is_some(),
            };
            let receipt_field = field_in(p, "providerReceipt");
            let receipt = match receipt_field {
                None => false,
                Some(JsonValue::Null) => true,
                Some(v) => match decode_evidence_ref(v) {
                    Some(e) => e.validate().is_ok(),
                    None => false,
                },
            };
            let reason = match field_in(p, "reason") {
                Some(JsonValue::Text(s)) => Some(s.as_str()),
                _ => None,
            };
            let (rule, valid) = match reason {
                Some(reason) => if failure_reason(reason) {
                    match &failure {
                        Some(f) => if str_eq(f.reason.as_str(), reason) {
                            (true, f.validate().is_ok())
                        } else {
                            (false, true)
                        },
                        None => (false, true),
                    }
                } else {
                    let known = str_eq(reason, "contract.invalid_provider_envelope") || str_eq(
                        reason,
                        "binding.mismatch",
                    ) || str_eq(reason, "provider.schema_drift");
                    (failure.is_none() && known, true)
                },
                None => (false, match &failure {
                    Some(f) => f.validate().is_ok(),
                    None => true,
                }),
            };
            r.push(verdict_pair("failureProof parsed", parsed));
            r.push(verdict_pair("providerReceipt", receipt));
            r.push(verdict_pair("ModelSelectionFailed proof", rule));
            r.push(verdict_pair("failureProof", valid));
        },
        _ => {},
    }
    r
}

// ---------------------------------------------------------------- artifact records

pub open spec fn artifact_control_names() -> Seq<Seq<char>> {
    seq![
        "controlId"@,
        "role"@,
        "visibleTextHash"@,
        "domPathHash"@,
        "boundingBoxHash"@,
        "currentTurnId"@,
        "visible"@,
        "disabled"@,
    ]
}

/// An artifact control, by its eight fields.
pub open spec fn artifact_control_of(v: JsonValue) -> Option<ArtifactControl> {
    if !record_shape(v, artifact_control_names()) {
        None
    } else {
        match (
            text_in(member_of(v, "controlId"@, 0)),
            text_in(member_of(v, "role"@, 1)),
            text_in(member_of(v, "visibleTextHash"@, 2)),
            text_in(member_of(v, "domPathHash"@, 3)),
            text_in(member_of(v, "boundingBoxHash"@, 4)),
            text_in(member_of(v, "currentTurnId"@, 5)),
            bool_in(member_of(v, "visible"@, 6)),
            bool_in(member_of(v, "disabled"@, 7)),
        ) {
            (
                Some(control_id),
                Some(role),
                Some(visible_text_hash),
                Some(dom_path_hash),
                Some(bounding_box_hash),
                Some(current_turn_id),
                Some(visible),
                Some(disabled),
            ) => Some(
                ArtifactControl {
                    control_id,
                    role,
                    visible_text_hash,
                    dom_path_hash,
                    bounding_box_hash,
                    current_turn_id,
                    visible,
                    disabled,
                },
            ),
            _ => None,
        }
    }
}

/// Reads an artifact control.
pub fn decode_artifact_control(v: &JsonValue) -> (r: Option<ArtifactControl>)
    ensures
        r == artifact_control_of(*v),
{
    let names = vec![
        "controlId",
        "role",
        "visibleTextHash",
        "domPathHash",
        "boundingBoxHash",
        "currentTurnId",
        "visible",
        "disabled",
    ];
    proof {
        assert(name_views(names@) =~= artifact_control_names());
    }
    if !shape_ok(v, &names) {
        return None;
    }
    let control_id = decode_text(member(v, "controlId", 0));
    let role = decode_text(member(v, "role", 1));
    let visible_text_hash = decode_text(member(v, "visibleTextHash", 2));
    let dom_path_hash = decode_text(member(v, "domPathHash", 3));
    let bounding_box_hash = decode_text(member(v, "boundingBoxHash", 4));
    let current_turn_id = decode_text(member(v, "currentTurnId", 5));
    let visible = decode_bool(member(v, "visible", 6));
    let disabled = decode_bool(member(v, "disabled", 7));
    match (
        control_id,
        role,
        visible_text_hash,
        dom_path_hash,
        bounding_box_hash,
        current_turn_id,
        visible,
        disabled,
    ) {
        (
            Some(control_id),
            Some(role),
            Some(visible_text_hash),
            Some(dom_path_hash),
            Some(bounding_box_hash),
            Some(current_turn_id),
            Some(visible),
            Some(disabled),
        ) => Some(
            ArtifactControl {
                control_id,
                role,
                visible_text_hash,
                dom_path_hash,
                bounding_box_hash,
                current_turn_id,
                visible,
                disabled,
            },
        ),
        _ => None,
    }
}

/// Why a list of discovered controls is refused, by the first control that
/// is at fault.
#[derive(Clone, Copy, Debug, PartialEq, Eq, Structural)]
pub enum ControlsProblem {
    /// The control does not read, or is not a visible, enabled button or
    /// link of its own turn.
    Invalid,
    /// The control repeats the id of an earlier one.
    Duplicate,
}

/// A control reads and passes `validate_for_turn` for its own turn.
pub open spec fn control_usable(v: JsonValue) -> bool {
    artifact_control_of(v) matches Some(c) && control_for_turn_error(c, c.current_turn_id@) is None
}

pub open spec fn control_id_at(vs: Seq<JsonValue>, j: int) -> Seq<char> {
    artifact_control_of(vs[j]).unwrap().control_id@
}

/// The first problem of a list of discovered controls, taken in order.
pub open spec fn controls_problem(vs: Seq<JsonValue>) -> Option<ControlsProblem>
    decreases vs.len(),
{
    if vs.len() == 0 {
        None
    } else if controls_problem(vs.drop_last()) is Some {
        controls_problem(vs.drop_last())
    } else if !control_usable(vs.last()) {
        Some(ControlsProblem::Invalid)
    } else if exists|j: int|
        0 <= j < vs.len() - 1 && #[trigger] control_id_at(vs, j) == control_id_at(vs, vs.len() - 1) {
        Some(ControlsProblem::Duplicate)
    } else {
        None
    }
}

proof fn controls_problem_extends(vs: Seq<JsonValue>, k: int)
    requires
        0 <= k <= vs.len(),
        controls_problem(vs.take(k)) is Some,
    ensures
        controls_problem(vs) == controls_problem(vs.take(k)),
    decreases vs.len(),
{
    if k == vs.len() {
        assert(vs.take(k) =~= vs);
    } else {
        assert(vs.drop_last().take(k) =~= vs.take(k));
        controls_problem_extends(vs.drop_last(), k);
    }
}

/// Reads discovered controls in order and reports the first problem.
pub fn find_controls_problem(vs: &Vec<JsonValue>) -> (r: Option<ControlsProblem>)
    ensures
        r == controls_problem(vs@),
{
    let mut ids: Vec<String> = Vec::new();
    let mut i: usize = 0;
    assert(vs@.take(0) =~= Seq::<JsonValue>::empty());
    while i < vs.len()
        invariant
            i <= vs@.len(),
            ids@.len() == i,
            controls_problem(vs@.take(i as int)) is None,
            forall|j: int| 0 <= j < i ==> control_usable(#[trigger] vs@[j]),
            forall|j: int| 0 <= j < i ==> (#[trigger] ids@[j])@ == control_id_at(vs@, j),
        decreases vs.len() - i,
    {
        let prefix = Ghost(vs@.take(i as int + 1));
        assert(prefix@.drop_last() =~= vs@.take(i as int));
        assert(prefix@.last() == vs@[i as int]);
        let usable = match decode_artifact_control(&vs[i]) {
            Some(c) => {
                if c.validate_for_turn(c.current_turn_id.as_str()).is_ok() {
                    Some(c)
                } else {
                    None
                }
            },
            None => None,
        };
        let c = match usable {
            Some(c) => c,
            None => {
                proof {
                    assert(controls_problem(prefix@) == Some(ControlsProblem::Invalid));
                    controls_problem_extends(vs@, i as int + 1);
                }
                return Some(ControlsProblem::Invalid);
            },
        };
        let mut j: usize = 0;
        while j < i
            invariant
                i < vs@.len(),
                j <= i,
                ids@.len() == i,
                prefix@ == vs@.take(i as int + 1),
                controls_problem(prefix@.drop_last()) is None,
                control_usable(prefix@.last()),
                c.control_id@ == control_id_at(vs@, i as int),
                forall|m: int| 0 <= m < i ==> (#[trigger] ids@[m])@ == control_id_at(vs@, m),
                forall|m: int| 0 <= m < j ==> control_id_at(vs@, m) != control_id_at(vs@, i as int),
            decreases i - j,
        {
            if str_eq(ids[j].as_str(), c.control_id.as_str()) {
                proof {
                    assert(prefix@[j as int] == vs@[j as int]);
                    assert(prefix@[i as int] == vs@[i as int]);
                    assert(control_id_at(prefix@, j as int) == control_id_at(prefix@, i as int));
                    assert(controls_problem(prefix@) == Some(ControlsProblem::Duplicate));
                    controls_problem_extends(vs@, i as int + 1);
                }
                return Some(ControlsProblem::Duplicate);
            }
            j += 1;
        }
        proof {
            assert forall|m: int| 0 <= m < prefix@.len() - 1 implies #[trigger] control_id_at(prefix@, m)
                != control_id_at(prefix@, prefix@.len() - 1) by {
                assert(prefix@.len() == i + 1);
                assert(prefix@[m] == vs@[m]);
                assert(prefix@[i as int] == vs@[i as int]);
                assert(control_id_at(vs@, m) != control_id_at(vs@, i as int));
            }
        }
        ids.push(c.control_id);
        i += 1;
    }
    assert(vs@.take(vs@.len() as int) =~= vs@);
    None
}

/// The fields of a bottom proof: atBottom, method, capturedAtMs,
/// evidenceRefs.
pub open spec fn bottom_proof_in(o: Option<JsonValue>) -> Option<(bool, String, u64, Seq<EvidenceRef>)> {
    match o {
        Some(v) => if !record_shape(v, seq!["atBottom"@, "method"@, "capturedAtMs"@, "evidenceRefs"@]) {
            None
        } else {
            match (
                bool_in(member_of(v, "atBottom"@, 0)),
                text_in(member_of(v, "method"@, 1)),
                unsigned_in(member_of(v, "capturedAtMs"@, 2)),
                evidence_list_in(member_of(v, "evidenceRefs"@, 3)),
            ) {
                (Some(a), Some(b), Some(c), Some(d)) => Some((a, b, c, d)),
                _ => None,
            }
        },
        None => None,
    }
}

/// A bottom proof holds the given fields.
pub open spec fn bottom_proof_is(b: BottomProof, t: (bool, String, u64, Seq<EvidenceRef>)) -> bool {
    b.at_bottom == t.0 && b.method == t.1 && b.captured_at_ms == t.2 && b.evidence_refs@ == t.3
}

/// Every bottom proof with the given fields passes `BottomProof::validate`.
pub open spec fn bottom_fields_valid(t: (bool, String, u64, Seq<EvidenceRef>)) -> bool {
    forall|b: BottomProof| bottom_proof_is(b, t) ==> #[trigger] bottom_proof_error(b) is None
}

/// Reads a bottom proof.
pub fn decode_bottom_proof(o: Option<&JsonValue>) -> (r: Option<BottomProof>)
    ensures
        match o {
            Some(x) => match bottom_proof_in(Some(*x)) {
                Some(t) => r matches Some(p) && p.at_bottom == t.0 && p.method == t.1
                    && p.captured_at_ms == t.2 && p.evidence_refs@ == t.3,
                None => r is None,
            },
            None => r is None,
        },
{
    let v = match o {
        Some(v) => v,
        None => return None,
    };
    let names = vec!["atBottom", "method", "capturedAtMs", "evidenceRefs"];
    proof {
        assert(name_views(names@) =~= seq!["atBottom"@, "method"@, "capturedAtMs"@, "evidenceRefs"@]);
    }
    if !shape_ok(v, &names) {
        return None;
    }
    let at_bottom = decode_bool(member(v, "atBottom", 0));
    let method = decode_text(member(v, "method", 1));
    let captured_at_ms = decode_unsigned(member(v, "capturedAtMs", 2));
    let evidence_refs = decode_evidence_list(member(v, "evidenceRefs", 3));
    match (at_bottom, method, captured_at_ms, evidence_refs) {
        (Some(at_bottom), Some(method), Some(captured_at_ms), Some(evidence_refs)) => Some(
            BottomProof { at_bottom, method, captured_at_ms, evidence_refs },
        ),
        _ => None,
    }
}

pub open spec fn entry_names() -> Seq<Seq<char>> {
    seq!["relPath"@, "sizeBytes"@, "sha256"@]
}

/// A baseline entry, by its three fields.
pub open spec fn baseline_entry_of(v: JsonValue) -> Option<ArtifactBaselineEntry> {
    if !record_shape(v, entry_names()) {
        None
    } else {
        match (
            text_in(member_of(v, "relPath"@, 0)),
            unsigned_in(member_of(v, "sizeBytes"@, 1)),
            text_in(member_of(v, "sha256"@, 2)),
        ) {
            (Some(rel_path), Some(size_bytes), Some(sha256)) => Some(
                ArtifactBaselineEntry { rel_path, size_bytes, sha256 },
            ),
            _ => None,
        }
    }
}

fn decode_baseline_entry(v: &JsonValue) -> (r: Option<ArtifactBaselineEntry>)
    ensures
        r == baseline_entry_of(*v),
{
    let names = vec!["relPath", "sizeBytes", "sha256"];
    proof {
        assert(name_views(names@) =~= entry_names());
    }
    if !shape_ok(v, &names) {
        return None;
    }
    let rel_path = decode_text(member(v, "relPath", 0));
    let size_bytes = decode_unsigned(member(v, "sizeBytes", 1));
    let sha256 = decode_text(member(v, "sha256", 2));
    match (rel_path, size_bytes, sha256) {
        (Some(rel_path), Some(size_bytes), Some(sha256)) => Some(
            ArtifactBaselineEntry { rel_path, size_bytes, sha256 },
        ),
        _ => None,
    }
}

/// A list of baseline entries: an array whose every element reads as one.
pub open spec fn entry_list_in(o: Option<JsonValue>) -> Option<Seq<ArtifactBaselineEntry>> {
    match o {
        Some(JsonValue::Array(vs)) => if forall|i: int|
            0 <= i < vs@.len() ==> (#[trigger] baseline_entry_of(vs@[i])) is Some {
            Some(vs@.map_values(|x: JsonValue| baseline_entry_of(x).unwrap()))
        } else {
            None
        },
        _ => None,
    }
}

fn decode_entry_items(vs: &Vec<JsonValue>) -> (r: Option<Vec<ArtifactBaselineEntry>>)
    ensures
        match entry_list_in(Some(JsonValue::Array(*vs))) {
            Some(s) => r matches Some(l) && l@ == s,
            None => r is None,
        },
{
    let mut out: Vec<ArtifactBaselineEntry> = Vec::new();
    let mut i: usize = 0;
    while i < vs.len()
        invariant
            i <= vs@.len(),
            out@.len() == i,
            forall|j: int| 0 <= j < i ==> baseline_entry_of(#[trigger] vs@[j]) == Some(out@[j]),
        decreases vs.len() - i,
    {
        match decode_baseline_entry(&vs[i]) {
            Some(e) => out.push(e),
            None => {
                assert(baseline_entry_of(vs@[i as int]) is None);
                return None;
            },
        }
        i += 1;
    }
    assert(out@ =~= vs@.map_values(|x: JsonValue| baseline_entry_of(x).unwrap()));
    Some(out)
}

pub open spec fn baseline_names() -> Seq<Seq<char>> {
    seq!["directory"@, "entries"@, "capturedAtMs"@, "baselineSha256"@]
}

/// The fields of an artifact baseline: directory, entries, capturedAtMs,
/// baselineSha256.
pub open spec fn baseline_in(o: Option<JsonValue>) -> Option<(String, Seq<ArtifactBaselineEntry>, u64, String)> {
    match o {
        Some(v) => if !record_shape(v, baseline_names()) {
            None
        } else {
            match (
                text_in(member_of(v, "directory"@, 0)),
                entry_list_in(member_of(v, "entries"@, 1)),
                unsigned_in(member_of(v, "capturedAtMs"@, 2)),
                text_in(member_of(v, "baselineSha256"@, 3)),
            ) {
                (Some(a), Some(b), Some(c), Some(d)) => Some((a, b, c, d)),
                _ => None,
            }
        },
        None => None,
    }
}

/// A baseline holds the given fields.
pub open spec fn baseline_is(b: ArtifactBaseline, t: (String, Seq<ArtifactBaselineEntry>, u64, String)) -> bool {
    b.directory == t.0 && b.entries@ == t.1 && b.captured_at_ms == t.2 && b.baseline_sha256 == t.3
}

/// Every baseline with the given fields passes `ArtifactBaseline::validate`.
pub open spec fn baseline_fields_valid(t: (String, Seq<ArtifactBaselineEntry>, u64, String)) -> bool {
    forall|b: ArtifactBaseline| baseline_is(b, t) ==> #[trigger] baseline_error(b) is None
}

/// Reads an artifact baseline.
pub fn decode_baseline(o: Option<&JsonValue>) -> (r: Option<ArtifactBaseline>)
    ensures
        match o {
            Some(x) => match baseline_in(Some(*x)) {
                Some(t) => r matches Some(b) && b.directory == t.0 && b.entries@ == t.1
                    && b.captured_at_ms == t.2 && b.baseline_sha256 == t.3,
                None => r is None,
            },
            None => r is None,
        },
{
    let v = match o {
        Some(v) => v,
        None => return None,
    };
    let names = vec!["directory", "entries", "capturedAtMs", "baselineSha256"];
    proof {
        assert(name_views(names@) =~= baseline_names());
    }
    if !shape_ok(v, &names) {
        return None;
    }
    let directory = decode_text(member(v, "directory", 0));
    let entries = match member(v, "entries", 1) {
        Some(JsonValue::Array(vs)) => decode_entry_items(vs),
        _ => None,
    };
    let captured_at_ms = decode_unsigned(member(v, "capturedAtMs", 2));
    let baseline_sha256 = decode_text(member(v, "baselineSha256", 3));
    match (directory, entries, captured_at_ms, baseline_sha256) {
        (Some(directory), Some(entries), Some(captured_at_ms), Some(baseline_sha256)) => Some(
            ArtifactBaseline { directory, entries, captured_at_ms, baseline_sha256 },
        ),
        _ => None,
    }
}

pub open spec fn zero_proof_names() -> Seq<Seq<char>> {
    seq![
        "artifactClaimId"@,
        "terminalAssistantTurnId"@,
        "bottomProof"@,
        "controlCount"@,
        "evidenceRefs"@,
        "capturedAtMs"@,
    ]
}

/// A count that fits in a byte.
pub open spec fn byte_in(o: Option<JsonValue>) -> Option<u8> {
    match o {
        Some(JsonValue::Unsigned(n)) => if n <= 255 {
            Some(n as u8)
        } else {
            None
        },
        _ => None,
    }
}

fn decode_byte(o: Option<&JsonValue>) -> (r: Option<u8>)
    ensures
        match o {
            Some(x) => r == byte_in(Some(*x)),
            None => r == byte_in(None),
        },
{
    match o {
        Some(JsonValue::Unsigned(n)) => if *n <= 255 {
            Some(*n as u8)
        } else {
            None
        },
        _ => None,
    }
}

/// The fields of a zero-control proof: artifactClaimId,
/// terminalAssistantTurnId, bottomProof, controlCount, evidenceRefs,
/// capturedAtMs.
pub open spec fn zero_proof_in(o: Option<JsonValue>) -> Option<
    (String, String, (bool, String, u64, Seq<EvidenceRef>), u8, Seq<EvidenceRef>, u64),
> {
    match o {
        Some(v) => if !record_shape(v, zero_proof_names()) {
            None
        } else {
            match (
                text_in(member_of(v, "artifactClaimId"@, 0)),
                text_in(member_of(v, "terminalAssistantTurnId"@, 1)),
                bottom_proof_in(member_of(v, "bottomProof"@, 2)),
                byte_in(member_of(v, "controlCount"@, 3)),
                evidence_list_in(member_of(v, "evidenceRefs"@, 4)),
                unsigned_in(member_of(v, "capturedAtMs"@, 5)),
            ) {
                (Some(a), Some(b), Some(c), Some(d), Some(e), Some(f)) => Some((a, b, c, d, e, f)),
                _ => None,
            }
        },
        None => None,
    }
}

/// A zero-control proof holds the given fields.
pub open spec fn zero_proof_is(
    z: ZeroControlProof,
    t: (String, String, (bool, String, u64, Seq<EvidenceRef>), u8, Seq<EvidenceRef>, u64),
) -> bool {
    &&& z.artifact_claim_id == t.0
    &&& z.terminal_assistant_turn_id == t.1
    &&& bottom_proof_is(z.bottom_proof, t.2)
    &&& z.control_count == t.3
    &&& z.evidence_refs@ == t.4
    &&& z.captured_at_ms == t.5
}

/// Every zero-control proof with the given fields passes
/// `ZeroControlProof::validate_for` the claim `claim_id` and its own turn.
pub open spec fn zero_fields_valid(
    t: (String, String, (bool, String, u64, Seq<EvidenceRef>), u8, Seq<EvidenceRef>, u64),
    claim_id: Seq<char>,
) -> bool {
    forall|z: ZeroControlProof|
        zero_proof_is(z, t) ==> #[trigger] zero_proof_error(z, claim_id, z.terminal_assistant_turn_id@)
            is None
}

/// Reads a zero-control proof.
pub fn decode_zero_proof(o: Option<&JsonValue>) -> (r: Option<ZeroControlProof>)
    ensures
        match o {
            Some(x) => match zero_proof_in(Some(*x)) {
                Some(t) => r matches Some(p) && p.artifact_claim_id == t.0
                    && p.terminal_assistant_turn_id == t.1 && p.bottom_proof.at_bottom == t.2.0
                    && p.bottom_proof.method == t.2.1 && p.bottom_proof.captured_at_ms == t.2.2
                    && p.bottom_proof.evidence_refs@ == t.2.3 && p.control_count == t.3
                    && p.evidence_refs@ == t.4 && p.captured_at_ms == t.5,
                None => r is None,
            },
            None => r is None,
        },
{
    let v = match o {
        Some(v) => v,
        None => return None,
    };
    let names = vec![
        "artifactClaimId",
        "terminalAssistantTurnId",
        "bottomProof",
        "controlCount",
        "evidenceRefs",
        "capturedAtMs",
    ];
    proof {
        assert(name_views(names@) =~= zero_proof_names());
    }
    if !shape_ok(v, &names) {
        return None;
    }
    let artifact_claim_id = decode_text(member(v, "artifactClaimId", 0));
    let terminal_assistant_turn_id = decode_text(member(v, "terminalAssistantTurnId", 1));
    let bottom_proof = decode_bottom_proof(member(v, "bottomProof", 2));
    let control_count = decode_byte(member(v, "controlCount", 3));
    let evidence_refs = decode_evidence_list(member(v, "evidenceRefs", 4));
    let captured_at_ms = decode_unsigned(member(v, "capturedAtMs", 5));
    match (
        artifact_claim_id,
        terminal_assistant_turn_id,
        bottom_proof,
        control_count,
        evidence_refs,
        captured_at_ms,
    ) {
        (Some(a), Some(b), Some(c), Some(d), Some(e), Some(f)) => Some(
            ZeroControlProof {
                artifact_claim_id: a,
                terminal_assistant_turn_id: b,
                bottom_proof: c,
                control_count: d,
                evidence_refs: e,
                captured_at_ms: f,
            },
        ),
        _ => None,
    }
}

/// An artifact control field.
pub open spec fn artifact_control_in(o: Option<JsonValue>) -> Option<ArtifactControl> {
    match o {
        Some(v) => artifact_control_of(v),
        None => None,
    }
}

fn decode_artifact_control_at(o: Option<&JsonValue>) -> (r: Option<ArtifactControl>)
    ensures
        match o {
            Some(x) => r == artifact_control_in(Some(*x)),
            None => r is None,
        },
{
    match o {
        Some(v) => decode_artifact_control(v),
        None => None,
    }
}

pub open spec fn receipt_names() -> Seq<Seq<char>> {
    seq![
        "artifactClaimId"@,
        "artifactId"@,
        "browserContextId"@,
        "clickedAtMs"@,
        "control"@,
        "conversationUrl"@,
        "downloadEventId"@,
        "hostSavedRelPath"@,
        "listenerArmedAtMs"@,
        "mediaType"@,
        "pageIncarnationId"@,
        "receivedAtMs"@,
        "sessionId"@,
        "sha256"@,
        "sizeBytes"@,
        "slotId"@,
        "targetId"@,
        "terminalAssistantTurnId"@,
    ]
}

/// A download receipt, by its eighteen fields.
pub open spec fn download_receipt_of(v: JsonValue) -> Option<PlaywrightDownloadReceipt> {
    if !record_shape(v, receipt_names()) {
        None
    } else {
        match (
            text_in(member_of(v, "artifactClaimId"@, 0)),
            text_in(member_of(v, "artifactId"@, 1)),
            text_in(member_of(v, "browserContextId"@, 2)),
            unsigned_in(member_of(v, "clickedAtMs"@, 3)),
            artifact_control_in(member_of(v, "control"@, 4)),
            text_in(member_of(v, "conversationUrl"@, 5)),
        ) {
            (Some(artifact_claim_id), Some(artifact_id), Some(browser_context_id), Some(clicked_at_ms), Some(control), Some(conversation_url)) => match (
            text_in(member_of(v, "downloadEventId"@, 6)),
            text_in(member_of(v, "hostSavedRelPath"@, 7)),
            unsigned_in(member_of(v, "listenerArmedAtMs"@, 8)),
            text_in(member_of(v, "mediaType"@, 9)),
            text_in(member_of(v, "pageIncarnationId"@, 10)),
            unsigned_in(member_of(v, "receivedAtMs"@, 11)),
        ) {
                (Some(download_event_id), Some(host_saved_rel_path), Some(listener_armed_at_ms), Some(media_type), Some(page_incarnation_id), Some(received_at_ms)) => match (
            text_in(member_of(v, "sessionId"@, 12)),
            text_in(member_of(v, "sha256"@, 13)),
            unsigned_in(member_of(v, "sizeBytes"@, 14)),
            text_in(member_of(v, "slotId"@, 15)),
            text_in(member_of(v, "targetId"@, 16)),
            text_in(member_of(v, "terminalAssistantTurnId"@, 17)),
        ) {
                    (Some(session_id), Some(sha256), Some(size_bytes), Some(slot_id), Some(target_id), Some(terminal_assistant_turn_id)) => Some(
                            PlaywrightDownloadReceipt {
                                artifact_claim_id,
                                artifact_id,
                                browser_context_id,
                                clicked_at_ms,
                                control,
                                conversation_url,
                                download_event_id,
                                host_saved_rel_path,
                                listener_armed_at_ms,
                                media_type,
                                page_incarnation_id,
                                received_at_ms,
                                session_id,
                                sha256,
                                size_bytes,
                                slot_id,
                                target_id,
                                terminal_assistant_turn_id,
                            },
                    ),
                    _ => None,
                },
                _ => None,
            },
            _ => None,
        }
    }
}

/// Reads a download receipt.
pub fn decode_download_receipt(o: Option<&JsonValue>) -> (r: Option<PlaywrightDownloadReceipt>)
    ensures
        match o {
            Some(x) => r == download_receipt_of(*x),
            None => r is None,
        },
{
    let v = match o {
        Some(v) => v,
        None => return None,
    };
    let names = vec![
        "artifactClaimId",
        "artifactId",
        "browserContextId",
        "clickedAtMs",
        "control",
        "conversationUrl",
        "downloadEventId",
        "hostSavedRelPath",
        "listenerArmedAtMs",
        "mediaType",
        "pageIncarnationId",
        "receivedAtMs",
        "sessionId",
        "sha256",
        "sizeBytes",
        "slotId",
        "targetId",
        "terminalAssistantTurnId",
    ];
    proof {
        assert(name_views(names@) =~= receipt_names());
    }
    if !shape_ok(v, &names) {
        return None;
    }
    let artifact_claim_id = decode_text(member(v, "artifactClaimId", 0));
    let artifact_id = decode_text(member(v, "artifactId", 1));
    let browser_context_id = decode_text(member(v, "browserContextId", 2));
    let clicked_at_ms = decode_unsigned(member(v, "clickedAtMs", 3));
    let control = decode_artifact_control_at(member(v, "control", 4));
    let conversation_url = decode_text(member(v, "conversationUrl", 5));
    let download_event_id = decode_text(member(v, "downloadEventId", 6));
    let host_saved_rel_path = decode_text(member(v, "hostSavedRelPath", 7));
    let listener_armed_at_ms = decode_unsigned(member(v, "listenerArmedAtMs", 8));
    let media_type = decode_text(member(v, "mediaType", 9));
    let page_incarnation_id = decode_text(member(v, "pageIncarnationId", 10));
    let received_at_ms = decode_unsigned(member(v, "receivedAtMs", 11));
    let session_id = decode_text(member(v, "sessionId", 12));
    let sha256 = decode_text(member(v, "sha256", 13));
    let size_bytes = decode_unsigned(member(v, "sizeBytes", 14));
    let slot_id = decode_text(member(v, "slotId", 15));
    let target_id = decode_text(member(v, "targetId", 16));
    let terminal_assistant_turn_id = decode_text(member(v, "terminalAssistantTurnId", 17));
    match (artifact_claim_id, artifact_id, browser_context_id, clicked_at_ms, control, conversation_url) {
        (Some(artifact_claim_id), Some(artifact_id), Some(browser_context_id), Some(clicked_at_ms), Some(control), Some(conversation_url)) => match (download_event_id, host_saved_rel_path, listener_armed_at_ms, media_type, page_incarnation_id, received_at_ms) {
            (Some(download_event_id), Some(host_saved_rel_path), Some(listener_armed_at_ms), Some(media_type), Some(page_incarnation_id), Some(received_at_ms)) => match (session_id, sha256, size_bytes, slot_id, target_id, terminal_assistant_turn_id) {
                (Some(session_id), Some(sha256), Some(size_bytes), Some(slot_id), Some(target_id), Some(terminal_assistant_turn_id)) => Some(
                            PlaywrightDownloadReceipt {
                                artifact_claim_id,
                                artifact_id,
                                browser_context_id,
                                clicked_at_ms,
                                control,
                                conversation_url,
                                download_event_id,
                                host_saved_rel_path,
                                listener_armed_at_ms,
                                media_type,
                                page_incarnation_id,
                                received_at_ms,
                                session_id,
                                sha256,
                                size_bytes,
                                slot_id,
                                target_id,
                                terminal_assistant_turn_id,
                            },
                ),
                _ => None,
            },
            _ => None,
        },
        _ => None,
    }
}

// ---------------------------------------------------------------- verdicts of the slot and artifact events

/// The evidence list reads, holds at most four valid references, and no
/// path twice.
pub open spec fn evidence_refs_ok(p: JsonValue) -> bool {
    evidence_list_in(payload_field(p, "evidenceRefs"@)) matches Some(l) && l.len() <= 4
        && first_evidence_error(l) is None && distinct_paths(l)
}

/// The provider receipt reads as a valid evidence reference.
pub open spec fn required_receipt_ok(p: JsonValue) -> bool {
    payload_field(p, "providerReceipt"@) matches Some(v) && evidence_ref_of(v) matches Some(e)
        && evidence_ref_error(e) is None
}

/// The first problem of the payload's discovered controls, where it holds an
/// array of them.
pub open spec fn discovered_controls_problem(p: JsonValue) -> Option<Option<ControlsProblem>> {
    match payload_field(p, "controls"@) {
        Some(JsonValue::Array(vs)) => Some(controls_problem(vs@)),
        _ => None,
    }
}

/// The payload's download receipt, where it reads.
pub open spec fn download_receipt_at(p: JsonValue) -> Option<PlaywrightDownloadReceipt> {
    match payload_field(p, "downloadReceipt"@) {
        Some(v) => download_receipt_of(v),
        None => None,
    }
}

/// The download receipt reads and passes `validate_shape`.
pub open spec fn receipt_shape_ok(p: JsonValue) -> bool {
    download_receipt_at(p) matches Some(d) && receipt_shape_error(d) is None
}

/// The download receipt names the payload's claim and artifact.
pub open spec fn receipt_identity_ok(p: JsonValue) -> bool {
    match (
        download_receipt_at(p),
        text_in(payload_field(p, "artifactClaimId"@)),
        text_in(payload_field(p, "artifactId"@)),
    ) {
        (Some(d), Some(c), Some(a)) => d.artifact_claim_id@ == c@ && d.artifact_id@ == a@,
        _ => false,
    }
}

/// The verdicts that `artifact_verdicts` gives: names, in order, with
/// whether each step passed.
pub open spec fn artifact_verdicts_are(t: EventType, p: JsonValue, r: Seq<(String, bool)>) -> bool {
    match t {
        EventType::SlotHealthObserved => {
            &&& r.len() == 1
            &&& r[0].0@ == "evidenceRefs"@ && r[0].1 == evidence_refs_ok(p)
        },
        EventType::ArtifactControlsDiscovered => {
            &&& r.len() == 4
            &&& r[0].0@ == "ArtifactControl"@ && r[0].1 == (discovered_controls_problem(p) matches Some(x)
                && x != Some(ControlsProblem::Invalid))
            &&& r[1].0@ == "duplicate ArtifactControl"@ && r[1].1 == (discovered_controls_problem(p)
                == Some(None::<ControlsProblem>))
            &&& r[2].0@ == "bottomProof"@ && r[2].1 == (bottom_proof_in(payload_field(p, "bottomProof"@))
                matches Some(b) && bottom_fields_valid(b))
            &&& r[3].0@ == "providerReceipt"@ && r[3].1 == required_receipt_ok(p)
        },
        EventType::ArtifactControlsAbsent => {
            &&& r.len() == 2
            &&& r[0].0@ == "zeroControlProof"@ && r[0].1 == (text_in(payload_field(p, "artifactClaimId"@))
                matches Some(claim) && zero_proof_in(payload_field(p, "zeroControlProof"@)) matches Some(z)
                && zero_fields_valid(z, claim@))
            &&& r[1].0@ == "providerReceipt"@ && r[1].1 == required_receipt_ok(p)
        },
        EventType::ArtifactDownloadCompleted => {
            &&& r.len() == 2
            &&& r[0].0@ == "downloadReceipt"@ && r[0].1 == receipt_shape_ok(p)
            &&& r[1].0@ == "download receipt identity"@ && r[1].1 == receipt_identity_ok(p)
        },
        EventType::ArtifactDownloadAttemptConsumed => {
            &&& r.len() == 1
            &&& r[0].0@ == "artifactBaseline"@ && r[0].1 == (baseline_in(
                payload_field(p, "artifactBaseline"@),
            ) matches Some(b) && baseline_fields_valid(b))
        },
        _ => r.len() == 0,
    }
}

/// Judges the typed steps of the slot-health and artifact-discovery payload
/// rules: the evidence list of a health observation, the zero-control proof
/// of an absent control, the receipt of a completed download, the
/// discovered controls
/// (each valid for its turn, no id twice), the bottom proof and provider
/// receipt, and the baseline of a consumed download attempt. Each pair names
/// a step of `checks_of(t)` and says whether it passed; other event types get
/// none.
pub fn artifact_verdicts(t: EventType, p: &JsonValue) -> (r: Vec<(String, bool)>)
    ensures
        artifact_verdicts_are(t, *p, r@),
{
    let mut r: Vec<(String, bool)> = Vec::new();
    match t {
        EventType::SlotHealthObserved => {
            let ok = match decode_evidence_list(field_in(p, "evidenceRefs")) {
                Some(l) => evidence(&l, 0, 4).is_ok() && (l.len() == 0 || evidence_set_problem(
                    &l,
                ).is_none()),
                None => false,
            };
            r.push(verdict_pair("evidenceRefs", ok));
        },
        EventType::ArtifactControlsDiscovered => {
            let problem = match field_in(p, "controls") {
                Some(JsonValue::Array(vs)) => Some(find_controls_problem(vs)),
                _ => None,
            };
            let controls_ok = match problem {
                Some(Some(ControlsProblem::Invalid)) => false,
                Some(_) => true,
                None => false,
            };
            let distinct = match problem {
                Some(None) => true,
                _ => false,
            };
            let bottom = match decode_bottom_proof(field_in(p, "bottomProof")) {
                Some(b) => b.validate().is_ok(),
                None => false,
            };
            let receipt = match field_in(p, "providerReceipt") {
                Some(v) => match decode_evidence_ref(v) {
                    Some(e) => e.validate().is_ok(),
                    None => false,
                },
                None => false,
            };
            r.push(verdict_pair("ArtifactControl", controls_ok));
            r.push(verdict_pair("duplicate ArtifactControl", distinct));
            r.push(verdict_pair("bottomProof", bottom));
            r.push(verdict_pair("providerReceipt", receipt));
        },
        EventType::ArtifactControlsAbsent => {
            let claim = match field_in(p, "artifactClaimId") {
                Some(JsonValue::Text(c)) => Some(c.as_str()),
                _ => None,
            };
            let zero = match (claim, decode_zero_proof(field_in(p, "zeroControlProof"))) {
                (Some(c), Some(z)) => z.validate_for(c, z.terminal_assistant_turn_id.as_str()).is_ok(),
                _ => false,
            };
            let receipt = match field_in(p, "providerReceipt") {
                Some(v) => match decode_evidence_ref(v) {
                    Some(e) => e.validate().is_ok(),
                    None => false,
                },
                None => false,
            };
            r.push(verdict_pair("zeroControlProof", zero));
            r.push(verdict_pair("providerReceipt", receipt));
        },
        EventType::ArtifactDownloadCompleted => {
            let receipt = decode_download_receipt(field_in(p, "downloadReceipt"));
            let shape = match &receipt {
                Some(d) => d.validate_shape().is_ok(),
                None => false,
            };
            let identity = match (&receipt, field_in(p, "artifactClaimId"), field_in(p, "artifactId")) {
                (Some(d), Some(JsonValue::Text(c)), Some(JsonValue::Text(a))) => str_eq(
                    d.artifact_claim_id.as_str(),
                    c.as_str(),
                ) && str_eq(d.artifact_id.as_str(), a.as_str()),
                _ => false,
            };
            r.push(verdict_pair("downloadReceipt", shape));
            r.push(verdict_pair("download receipt identity", identity));
        },
        EventType::ArtifactDownloadAttemptConsumed => {
            let ok = match decode_baseline(field_in(p, "artifactBaseline")) {
                Some(b) => b.validate().is_ok(),
                None => false,
            };
            r.push(verdict_pair("artifactBaseline", ok));
        },
        _ => {},
    }
    r
}

// ---------------------------------------------------------------- root capture records

/// A count that fits in 16 bits.
pub open spec fn u16_in(o: Option<JsonValue>) -> Option<u16> {
    match o {
        Some(JsonValue::Unsigned(n)) => if n <= 65535 {
            Some(n as u16)
        } else {
            None
        },
        _ => None,
    }
}

/// A count that fits in 32 bits.
pub open spec fn u32_in(o: Option<JsonValue>) -> Option<u32> {
    match o {
        Some(JsonValue::Unsigned(n)) => if n <= 4294967295 {
            Some(n as u32)
        } else {
            None
        },
        _ => None,
    }
}

fn decode_u16(o: Option<&JsonValue>) -> (r: Option<u16>)
    ensures
        match o {
            Some(x) => r == u16_in(Some(*x)),
            None => r == u16_in(None),
        },
{
    match o {
        Some(JsonValue::Unsigned(n)) => if *n <= 65535 {
            Some(*n as u16)
        } else {
            None
        },
        _ => None,
    }
}

fn decode_u32(o: Option<&JsonValue>) -> (r: Option<u32>)
    ensures
        match o {
            Some(x) => r == u32_in(Some(*x)),
            None => r == u32_in(None),
        },
{
    match o {
        Some(JsonValue::Unsigned(n)) => if *n <= 4294967295 {
            Some(*n as u32)
        } else {
            None
        },
        _ => None,
    }
}

pub open spec fn page_binding_names() -> Seq<Seq<char>> {
    seq![
        "bindingId"@,
        "bindingGeneration"@,
        "slotId"@,
        "cohort"@,
        "leaseId"@,
        "leaseGeneration"@,
        "runtimeOwnerId"@,
        "runtimeOwnerGeneration"@,
        "runtimeIncarnationId"@,
        "browserContextId"@,
        "targetId"@,
        "pageIncarnationId"@,
        "rootBindingHash"@,
        "domMutationGeneration"@,
    ]
}

/// A page binding echo, by its fourteen fields.
pub open spec fn page_binding_of(v: JsonValue) -> Option<PageBindingEcho> {
    if !record_shape(v, page_binding_names()) {
        None
    } else {
        match (text_in(member_of(v, "bindingId"@, 0)), u16_in(member_of(v, "bindingGeneration"@, 1)), text_in(member_of(v, "slotId"@, 2)), text_in(member_of(v, "cohort"@, 3)), text_in(member_of(v, "leaseId"@, 4)), u16_in(member_of(v, "leaseGeneration"@, 5)), text_in(member_of(v, "runtimeOwnerId"@, 6))) {
            (Some(binding_id), Some(binding_generation), Some(slot_id), Some(cohort), Some(lease_id), Some(lease_generation), Some(runtime_owner_id)) => match (u16_in(member_of(v, "runtimeOwnerGeneration"@, 7)), text_in(member_of(v, "runtimeIncarnationId"@, 8)), text_in(member_of(v, "browserContextId"@, 9)), text_in(member_of(v, "targetId"@, 10)), text_in(member_of(v, "pageIncarnationId"@, 11)), text_in(member_of(v, "rootBindingHash"@, 12)), u16_in(member_of(v, "domMutationGeneration"@, 13))) {
                (Some(runtime_owner_generation), Some(runtime_incarnation_id), Some(browser_context_id), Some(target_id), Some(page_incarnation_id), Some(root_binding_hash), Some(dom_mutation_generation)) => Some(PageBindingEcho { binding_id, binding_generation, slot_id, cohort, lease_id, lease_generation, runtime_owner_id, runtime_owner_generation, runtime_incarnation_id, browser_context_id, target_id, page_incarnation_id, root_binding_hash, dom_mutation_generation }),
                _ => None,
            },
            _ => None,
        }
    }
}

/// Reads a page binding echo.
pub fn decode_page_binding(o: Option<&JsonValue>) -> (r: Option<PageBindingEcho>)
    ensures
        match o {
            Some(x) => r == page_binding_of(*x),
            None => r is None,
        },
{
    let v = match o {
        Some(v) => v,
        None => return None,
    };
    let names = vec![
        "bindingId",
        "bindingGeneration",
        "slotId",
        "cohort",
        "leaseId",
        "leaseGeneration",
        "runtimeOwnerId",
        "runtimeOwnerGeneration",
        "runtimeIncarnationId",
        "browserContextId",
        "targetId",
        "pageIncarnationId",
        "rootBindingHash",
        "domMutationGeneration",
    ];
    proof {
        assert(name_views(names@) =~= page_binding_names());
    }
    if !shape_ok(v, &names) {
        return None;
    }
    let binding_id = decode_text(member(v, "bindingId", 0));
    let binding_generation = decode_u16(member(v, "bindingGeneration", 1));
    let slot_id = decode_text(member(v, "slotId", 2));
    let cohort = decode_text(member(v, "cohort", 3));
    let lease_id = decode_text(member(v, "leaseId", 4));
    let lease_generation = decode_u16(member(v, "leaseGeneration", 5));
    let runtime_owner_id = decode_text(member(v, "runtimeOwnerId", 6));
    let runtime_owner_generation = decode_u16(member(v, "runtimeOwnerGeneration", 7));
    let runtime_incarnation_id = decode_text(member(v, "runtimeIncarnationId", 8));
    let browser_context_id = decode_text(member(v, "browserContextId", 9));
    let target_id = decode_text(member(v, "targetId", 10));
    let page_incarnation_id = decode_text(member(v, "pageIncarnationId", 11));
    let root_binding_hash = decode_text(member(v, "rootBindingHash", 12));
    let dom_mutation_generation = decode_u16(member(v, "domMutationGeneration", 13));
    match (binding_id, binding_generation, slot_id, cohort, lease_id, lease_generation, runtime_owner_id) {
        (Some(binding_id), Some(binding_generation), Some(slot_id), Some(cohort), Some(lease_id), Some(lease_generation), Some(runtime_owner_id)) => match (runtime_owner_generation, runtime_incarnation_id, browser_context_id, target_id, page_incarnation_id, root_binding_hash, dom_mutation_generation) {
            (Some(runtime_owner_generation), Some(runtime_incarnation_id), Some(browser_context_id), Some(target_id), Some(page_incarnation_id), Some(root_binding_hash), Some(dom_mutation_generation)) => Some(PageBindingEcho { binding_id, binding_generation, slot_id, cohort, lease_id, lease_generation, runtime_owner_id, runtime_owner_generation, runtime_incarnation_id, browser_context_id, target_id, page_incarnation_id, root_binding_hash, dom_mutation_generation }),
            _ => None,
        },
        _ => None,
    }
}

pub open spec fn root_candidate_names() -> Seq<Seq<char>> {
    seq![
        "browserContextId"@,
        "capturedAtMs"@,
        "composerRootId"@,
        "conversationRootId"@,
        "domMutationGeneration"@,
        "effortControl"@,
        "evidenceRefs"@,
        "modelControl"@,
        "normalizedUrl"@,
        "operationId"@,
        "pageIncarnationId"@,
        "selectorMargin"@,
        "targetId"@,
    ]
}

/// The fields of a root binding candidate, in field order, in two groups.
pub open spec fn root_candidate_in(o: Option<JsonValue>) -> Option<
    ((String, u64, String, String, u16, ControlIdentity), (Seq<EvidenceRef>, ControlIdentity, String, String, String, u32, String)),
> {
    match o {
        Some(v) => if !record_shape(v, root_candidate_names()) {
            None
        } else {
            match (text_in(member_of(v, "browserContextId"@, 0)), unsigned_in(member_of(v, "capturedAtMs"@, 1)), text_in(member_of(v, "composerRootId"@, 2)), text_in(member_of(v, "conversationRootId"@, 3)), u16_in(member_of(v, "domMutationGeneration"@, 4)), control_in(member_of(v, "effortControl"@, 5))) {
                (Some(browser_context_id), Some(captured_at_ms), Some(composer_root_id), Some(conversation_root_id), Some(dom_mutation_generation), Some(effort_control)) => match (evidence_list_in(member_of(v, "evidenceRefs"@, 6)), control_in(member_of(v, "modelControl"@, 7)), text_in(member_of(v, "normalizedUrl"@, 8)), text_in(member_of(v, "operationId"@, 9)), text_in(member_of(v, "pageIncarnationId"@, 10)), u32_in(member_of(v, "selectorMargin"@, 11)), text_in(member_of(v, "targetId"@, 12))) {
                    (Some(evidence_refs), Some(model_control), Some(normalized_url), Some(operation_id), Some(page_incarnation_id), Some(selector_margin), Some(target_id)) => Some(((browser_context_id, captured_at_ms, composer_root_id, conversation_root_id, dom_mutation_generation, effort_control), (evidence_refs, model_control, normalized_url, operation_id, page_incarnation_id, selector_margin, target_id))),
                    _ => None,
                },
                _ => None,
            }
        },
        None => None,
    }
}

/// A root binding candidate holds the given fields.
pub open spec fn root_candidate_is(
    c: RootBindingCandidate,
    t: ((String, u64, String, String, u16, ControlIdentity), (Seq<EvidenceRef>, ControlIdentity, String, String, String, u32, String)),
) -> bool {
    &&& c.browser_context_id == t.0.0
    &&& c.captured_at_ms == t.0.1
    &&& c.composer_root_id == t.0.2
    &&& c.conversation_root_id == t.0.3
    &&& c.dom_mutation_generation == t.0.4
    &&& c.effort_control == t.0.5
    &&& c.evidence_refs@ == t.1.0
    &&& c.model_control == t.1.1
    &&& c.normalized_url == t.1.2
    &&& c.operation_id == t.1.3
    &&& c.page_incarnation_id == t.1.4
    &&& c.selector_margin == t.1.5
    &&& c.target_id == t.1.6
}

/// Reads a root binding candidate.
pub fn decode_root_candidate(o: Option<&JsonValue>) -> (r: Option<RootBindingCandidate>)
    ensures
        match o {
            Some(x) => match root_candidate_in(Some(*x)) {
                Some(t) => r matches Some(c) && root_candidate_is(c, t),
                None => r is None,
            },
            None => r is None,
        },
{
    let v = match o {
        Some(v) => v,
        None => return None,
    };
    let names = vec![
        "browserContextId",
        "capturedAtMs",
        "composerRootId",
        "conversationRootId",
        "domMutationGeneration",
        "effortControl",
        "evidenceRefs",
        "modelControl",
        "normalizedUrl",
        "operationId",
        "pageIncarnationId",
        "selectorMargin",
        "targetId",
    ];
    proof {
        assert(name_views(names@) =~= root_candidate_names());
    }
    if !shape_ok(v, &names) {
        return None;
    }
    let browser_context_id = decode_text(member(v, "browserContextId", 0));
    let captured_at_ms = decode_unsigned(member(v, "capturedAtMs", 1));
    let composer_root_id = decode_text(member(v, "composerRootId", 2));
    let conversation_root_id = decode_text(member(v, "conversationRootId", 3));
    let dom_mutation_generation = decode_u16(member(v, "domMutationGeneration", 4));
    let effort_control = decode_control(member(v, "effortControl", 5));
    let evidence_refs = decode_evidence_list(member(v, "evidenceRefs", 6));
    let model_control = decode_control(member(v, "modelControl", 7));
    let normalized_url = decode_text(member(v, "normalizedUrl", 8));
    let operation_id = decode_text(member(v, "operationId", 9));
    let page_incarnation_id = decode_text(member(v, "pageIncarnationId", 10));
    let selector_margin = decode_u32(member(v, "selectorMargin", 11));
    let target_id = decode_text(member(v, "targetId", 12));
    match (browser_context_id, captured_at_ms, composer_root_id, conversation_root_id, dom_mutation_generation, effort_control) {
        (Some(browser_context_id), Some(captured_at_ms), Some(composer_root_id), Some(conversation_root_id), Some(dom_mutation_generation), Some(effort_control)) => match (evidence_refs, model_control, normalized_url, operation_id, page_incarnation_id, selector_margin, target_id) {
            (Some(evidence_refs), Some(model_control), Some(normalized_url), Some(operation_id), Some(page_incarnation_id), Some(selector_margin), Some(target_id)) => Some(RootBindingCandidate { browser_context_id, captured_at_ms, composer_root_id, conversation_root_id, dom_mutation_generation, effort_control, evidence_refs, model_control, normalized_url, operation_id, page_incarnation_id, selector_margin, target_id }),
            _ => None,
        },
        _ => None,
    }
}

/// The root binding candidate reads, and every candidate with its fields
/// passes `RootBindingCandidate::validate`.
pub open spec fn root_candidate_ok(p: JsonValue) -> bool {
    root_candidate_in(payload_field(p, "rootBindingCandidate"@)) matches Some(t) && forall|c: RootBindingCandidate|
        root_candidate_is(c, t) ==> #[trigger] root_binding_error(c) is None
}

/// The payload's page binding, where it reads.
pub open spec fn page_binding_at(p: JsonValue) -> Option<PageBindingEcho> {
    match payload_field(p, "pageBinding"@) {
        Some(v) => page_binding_of(v),
        None => None,
    }
}

/// The page binding is the first generation of the payload's binding id.
pub open spec fn root_page_binding_ok(p: JsonValue) -> bool {
    match (page_binding_at(p), text_in(payload_field(p, "bindingId"@))) {
        (Some(b), Some(id)) => b.binding_id@ == id@ && b.binding_generation == 1,
        _ => false,
    }
}

/// The verdicts that `capture_verdicts` gives: names, in order, with whether
/// each step passed.
pub open spec fn capture_verdicts_are(t: EventType, p: JsonValue, r: Seq<(String, bool)>) -> bool {
    match t {
        EventType::RootCaptureObserved => {
            &&& r.len() == 3
            &&& r[0].0@ == "rootBindingCandidate"@ && r[0].1 == root_candidate_ok(p)
            &&& r[1].0@ == "pageBinding"@ && r[1].1 == (page_binding_at(p) matches Some(b)
                && page_binding_error(b) is None)
            &&& r[2].0@ == "root page binding"@ && r[2].1 == root_page_binding_ok(p)
        },
        EventType::RootCaptureFailed => {
            &&& r.len() == 1
            &&& r[0].0@ == "providerReceipt"@ && r[0].1 == optional_receipt_ok(p)
        },
        _ => r.len() == 0,
    }
}

/// Judges the typed steps of the root-capture payload rules: the root
/// binding candidate, the page binding and its tie to the binding id, and the
/// optional provider receipt of a failed capture. Each pair names a step of
/// `checks_of(t)` and says whether it passed; other event types get none.
pub fn capture_verdicts(t: EventType, p: &JsonValue) -> (r: Vec<(String, bool)>)
    ensures
        capture_verdicts_are(t, *p, r@),
{
    let mut r: Vec<(String, bool)> = Vec::new();
    match t {
        EventType::RootCaptureObserved => {
            let root = match decode_root_candidate(field_in(p, "rootBindingCandidate")) {
                Some(c) => c.validate().is_ok(),
                None => false,
            };
            let page = decode_page_binding(field_in(p, "pageBinding"));
            let page_ok = match &page {
                Some(b) => b.validate().is_ok(),
                None => false,
            };
            let tied = match (&page, field_in(p, "bindingId")) {
                (Some(b), Some(JsonValue::Text(id))) => str_eq(b.binding_id.as_str(), id.as_str())
                    && b.binding_generation == 1,
                _ => false,
            };
            r.push(verdict_pair("rootBindingCandidate", root));
            r.push(verdict_pair("pageBinding", page_ok));
            r.push(verdict_pair("root page binding", tied));
        },
        EventType::RootCaptureFailed => {
            let receipt = match field_in(p, "providerReceipt") {
                None => false,
                Some(JsonValue::Null) => true,
                Some(v) => match decode_evidence_ref(v) {
                    Some(e) => e.validate().is_ok(),
                    None => false,
                },
            };
            r.push(verdict_pair("providerReceipt", receipt));
        },
        _ => {},
    }
    r
}

} // verus!
