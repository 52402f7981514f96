//! Artifact contracts and evidence verification.
//!
//! An artifact contract defines what "done" looks like for an action; evidence
//! is the proof that the action produced the expected result. Agents do not
//! just report success, they prove it.

use vstd::prelude::*;
use vstd::string::*;
use crate::json::JsonValue;
use crate::text::{blank, is_blank, same_text, concat4};
use crate::state::copy_texts;
use crate::time::{Timestamp, current_time};

verus! {

/// Evidence that an action produced a result.
#[derive(Debug)]
pub struct Evidence {
    /// What kind of evidence this is (e.g., "screenshot", "dom_snapshot", "text_content", "http_status").
    pub kind: String,
    /// The evidence payload.
    pub data: JsonValue,
    /// When this evidence was captured.
    pub captured_at: Timestamp,
}

impl Evidence {
    /// Evidence of kind `kind` with payload `data`, captured now.
    pub fn new(kind: &str, data: JsonValue) -> (r: Evidence)
        ensures
            r.kind@ == kind@,
            r.data == data,
    {
        Evidence { kind: String::from_str(kind), data, captured_at: current_time() }
    }
}

/// Result of artifact verification.
#[derive(Debug, Clone, PartialEq, Eq)]
pub enum VerificationResult {
    /// Evidence satisfies the contract. Includes extracted artifacts.
    Passed { artifacts: Vec<String> },
    /// Evidence does not satisfy the contract.
    Failed { reason: String },
    /// Not enough evidence to make a determination.
    Insufficient { missing: Vec<String> },
}

/// The mathematical model of a [`VerificationResult`].
pub enum VerificationModel {
    Passed { artifacts: Seq<Seq<char>> },
    Failed { reason: Seq<char> },
    Insufficient { missing: Seq<Seq<char>> },
}

impl View for VerificationResult {
    type V = VerificationModel;

    open spec fn view(&self) -> VerificationModel {
        match self {
            VerificationResult::Passed { artifacts } => VerificationModel::Passed { artifacts: artifacts.deep_view() },
            VerificationResult::Failed { reason } => VerificationModel::Failed { reason: reason@ },
            VerificationResult::Insufficient { missing } => VerificationModel::Insufficient {
                missing: missing.deep_view(),
            },
        }
    }
}

/// A contract that checks whether collected evidence satisfies the completion
/// criteria of an action.
pub trait ArtifactContract {
    /// The verdict this contract gives on `evidence`.
    spec fn verdict(&self, evidence: Seq<Evidence>) -> VerificationModel;

    /// Check whether the evidence satisfies this contract.
    fn verify(&self, evidence: &[Evidence]) -> (r: VerificationResult)
        ensures
            r@ == self.verdict(evidence@);

    /// The contract's description.
    spec fn spec_description(&self) -> Seq<char>;

    /// Human-readable description of what this contract checks.
    fn description(&self) -> (d: &str)
        ensures
            d@ == self.spec_description();
}

/// A contract that requires evidence of each of a list of kinds, each with at
/// least one well-formed entry.
pub struct RequiredEvidenceContract {
    pub required_kinds: Vec<String>,
    pub description: String,
}

/// Whether some evidence has kind `kind`.
pub open spec fn kind_present(evidence: Seq<Evidence>, kind: Seq<char>) -> bool {
    exists|i: int| 0 <= i < evidence.len() && #[trigger] evidence[i].kind@ == kind
}

/// The required kinds of which no evidence is present, in order.
pub open spec fn missing_kinds(required: Seq<Seq<char>>, evidence: Seq<Evidence>) -> Seq<Seq<char>>
    decreases required.len(),
{
    if required.len() == 0 {
        Seq::empty()
    } else {
        let rest = missing_kinds(required.drop_last(), evidence);
        if kind_present(evidence, required.last()) {
            rest
        } else {
            rest.push(required.last())
        }
    }
}

/// Whether field `key` of `data` is a string that is not blank.
pub open spec fn has_text_field(data: JsonValue, key: Seq<char>) -> bool {
    match data.spec_get(key) {
        Some(v) => match v.spec_as_str() {
            Some(s) => !blank(s),
            None => false,
        },
        None => false,
    }
}

/// Whether field `key` of `data` is a positive integer.
pub open spec fn has_positive_field(data: JsonValue, key: Seq<char>) -> bool {
    match data.spec_get(key) {
        Some(v) => match v.spec_as_u64() {
            Some(n) => n > 0,
            None => false,
        },
        None => false,
    }
}

/// Whether field `key` of `data` is a blank string.
pub open spec fn has_blank_text_field(data: JsonValue, key: Seq<char>) -> bool {
    match data.spec_get(key) {
        Some(v) => match v.spec_as_str() {
            Some(s) => blank(s),
            None => false,
        },
        None => false,
    }
}

/// What is wrong with a screenshot evidence payload, if anything.
pub open spec fn screenshot_problem(data: JsonValue) -> Option<Seq<char>> {
    if !(data is Object) {
        Some("screenshot evidence must be a JSON object"@)
    } else if has_blank_text_field(data, "format"@) {
        Some("screenshot evidence field 'format' cannot be empty"@)
    } else if has_text_field(data, "base64"@) || has_positive_field(data, "base64_length"@)
        || has_text_field(data, "path"@) {
        None
    } else {
        Some("screenshot evidence must include non-empty 'base64', positive 'base64_length', or non-empty 'path'"@)
    }
}

/// What is wrong with a text content evidence payload, if anything.
pub open spec fn text_content_problem(data: JsonValue) -> Option<Seq<char>> {
    if !(data is Object) {
        Some("text_content evidence must be a JSON object"@)
    } else if has_text_field(data, "text"@) || has_positive_field(data, "length"@) {
        None
    } else {
        Some("text_content evidence must include non-empty 'text' or positive 'length'"@)
    }
}

/// What is wrong with an evidence payload of kind `kind`, if anything. Only
/// screenshots and text content have a required shape.
pub open spec fn item_problem(kind: Seq<char>, data: JsonValue) -> Option<Seq<char>> {
    if kind == "screenshot"@ {
        screenshot_problem(data)
    } else if kind == "text_content"@ {
        text_content_problem(data)
    } else {
        None
    }
}

/// Whether some evidence of kind `kind` is well formed.
pub open spec fn has_valid_item(evidence: Seq<Evidence>, kind: Seq<char>) -> bool {
    exists|i: int|
        0 <= i < evidence.len() && #[trigger] evidence[i].kind@ == kind && item_problem(kind, evidence[i].data) is None
}

/// The first evidence of kind `kind`.
pub open spec fn first_of_kind(evidence: Seq<Evidence>, kind: Seq<char>) -> Option<Evidence>
    decreases evidence.len(),
{
    if evidence.len() == 0 {
        None
    } else if evidence[0].kind@ == kind {
        Some(evidence[0])
    } else {
        first_of_kind(evidence.drop_first(), kind)
    }
}

/// Why the evidence of kind `kind` is not accepted, if it is not.
pub open spec fn kind_problem(evidence: Seq<Evidence>, kind: Seq<char>) -> Option<Seq<char>> {
    if has_valid_item(evidence, kind) {
        None
    } else {
        let detail = match first_of_kind(evidence, kind) {
            Some(e) => match item_problem(kind, e.data) {
                Some(p) => p,
                None => Seq::empty(),
            },
            None => "no valid evidence entries"@,
        };
        Some("Invalid evidence for '"@ + kind + "': "@ + detail)
    }
}

/// The problem of the first required kind whose evidence is not accepted.
pub open spec fn required_problem(required: Seq<Seq<char>>, evidence: Seq<Evidence>) -> Option<Seq<char>>
    decreases required.len(),
{
    if required.len() == 0 {
        None
    } else {
        match kind_problem(evidence, required[0]) {
            Some(p) => Some(p),
            None => required_problem(required.drop_first(), evidence),
        }
    }
}

/// The verdict on `evidence` of a contract that requires the kinds `required`:
/// missing kinds first, then ill-formed evidence, else success listing the
/// required kinds.
pub open spec fn required_verdict(required: Seq<Seq<char>>, evidence: Seq<Evidence>) -> VerificationModel {
    let missing = missing_kinds(required, evidence);
    if missing.len() > 0 {
        VerificationModel::Insufficient { missing }
    } else {
        match required_problem(required, evidence) {
            Some(reason) => VerificationModel::Failed { reason },
            None => VerificationModel::Passed { artifacts: required },
        }
    }
}

/// Whether some evidence has kind `kind`.
fn has_kind(evidence: &[Evidence], kind: &str) -> (b: bool)
    ensures
        b == kind_present(evidence@, kind@),
{
    let mut i: usize = 0;
    while i < evidence.len()
        invariant
            i <= evidence@.len(),
            forall|j: int| 0 <= j < i ==> #[trigger] evidence@[j].kind@ != kind@,
        decreases evidence@.len() - i,
    {
        if same_text(evidence[i].kind.as_str(), kind) {
            return true;
        }
        i += 1;
    }
    false
}

/// Whether field `key` of `data` is a string that is not blank.
fn text_field(data: &JsonValue, key: &str) -> (b: bool)
    ensures
        b == has_text_field(*data, key@),
{
    match data.get(key) {
        Some(v) => match v.as_str() {
            Some(s) => !is_blank(s),
            None => false,
        },
        None => false,
    }
}

/// Whether field `key` of `data` is a blank string.
fn blank_text_field(data: &JsonValue, key: &str) -> (b: bool)
    ensures
        b == has_blank_text_field(*data, key@),
{
    match data.get(key) {
        Some(v) => match v.as_str() {
            Some(s) => is_blank(s),
            None => false,
        },
        None => false,
    }
}

/// Whether field `key` of `data` is a positive integer.
fn positive_field(data: &JsonValue, key: &str) -> (b: bool)
    ensures
        b == has_positive_field(*data, key@),
{
    match data.get(key) {
        Some(v) => match v.as_u64() {
            Some(n) => n > 0,
            None => false,
        },
        None => false,
    }
}

/// Checks a screenshot evidence payload.
fn validate_screenshot_evidence(evidence: &Evidence) -> (r: Result<(), String>)
    ensures
        match r {
            Ok(()) => screenshot_problem(evidence.data) is None,
            Err(e) => screenshot_problem(evidence.data) == Some(e@),
        },
{
    let data = &evidence.data;
    if !data.is_object() {
        return Err(String::from_str("screenshot evidence must be a JSON object"));
    }
    let has_non_empty_base64 = text_field(data, "base64");
    let has_positive_base64_length = positive_field(data, "base64_length");
    let has_non_empty_path = text_field(data, "path");
    if blank_text_field(data, "format") {
        return Err(String::from_str("screenshot evidence field 'format' cannot be empty"));
    }
    if has_non_empty_base64 || has_positive_base64_length || has_non_empty_path {
        Ok(())
    } else {
        Err(
            String::from_str(
                "screenshot evidence must include non-empty 'base64', positive 'base64_length', or non-empty 'path'",
            ),
        )
    }
}

/// Checks a text content evidence payload.
fn validate_text_content_evidence(evidence: &Evidence) -> (r: Result<(), String>)
    ensures
        match r {
            Ok(()) => text_content_problem(evidence.data) is None,
            Err(e) => text_content_problem(evidence.data) == Some(e@),
        },
{
    let data = &evidence.data;
    if !data.is_object() {
        return Err(String::from_str("text_content evidence must be a JSON object"));
    }
    let has_non_empty_text = text_field(data, "text");
    let has_positive_length = positive_field(data, "length");
    if has_non_empty_text || has_positive_length {
        Ok(())
    } else {
        Err(String::from_str("text_content evidence must include non-empty 'text' or positive 'length'"))
    }
}

/// Checks an evidence payload against the shape its kind requires.
fn validate_evidence_item(kind: &str, evidence: &Evidence) -> (r: Result<(), String>)
    ensures
        match r {
            Ok(()) => item_problem(kind@, evidence.data) is None,
            Err(e) => item_problem(kind@, evidence.data) == Some(e@),
        },
{
    if same_text(kind, "screenshot") {
        validate_screenshot_evidence(evidence)
    } else if same_text(kind, "text_content") {
        validate_text_content_evidence(evidence)
    } else {
        Ok(())
    }
}

/// Why the evidence of kind `kind` is not accepted, if it is not.
fn check_kind(kind: &str, evidence: &[Evidence]) -> (r: Option<String>)
    ensures
        match r {
            Some(p) => kind_problem(evidence@, kind@) == Some(p@),
            None => kind_problem(evidence@, kind@) is None,
        },
{
    let ghost all = evidence@;
    let mut first_error: Option<String> = None;
    let mut i: usize = 0;
    assert(all.subrange(0, all.len() as int) =~= all);
    while i < evidence.len()
        invariant
            i <= all.len(),
            all == evidence@,
            forall|j: int| 0 <= j < i && #[trigger] all[j].kind@ == kind@ ==> item_problem(kind@, all[j].data) is Some,
            match first_error {
                Some(e) => first_of_kind(all, kind@) matches Some(f) && item_problem(kind@, f.data) == Some(e@),
                None => first_of_kind(all, kind@) == first_of_kind(all.subrange(i as int, all.len() as int), kind@),
            },
        decreases all.len() - i,
    {
        let ghost rest = all.subrange(i as int, all.len() as int);
        assert(rest.drop_first() =~= all.subrange(i + 1, all.len() as int));
        assert(rest[0] == all[i as int]);
        if same_text(evidence[i].kind.as_str(), kind) {
            match validate_evidence_item(kind, &evidence[i]) {
                Ok(()) => {
                    assert(has_valid_item(all, kind@));
                    return None;
                }
                Err(err) => {
                    if first_error.is_none() {
                        first_error = Some(err);
                    }
                }
            }
        }
        i += 1;
    }
    assert(!has_valid_item(all, kind@));
    let detail = match first_error {
        Some(e) => e,
        None => {
            assert(all.subrange(i as int, all.len() as int).len() == 0);
            String::from_str("no valid evidence entries")
        }
    };
    Some(concat4("Invalid evidence for '", kind, "': ", detail.as_str()))
}

/// The problem of the first required kind whose evidence is not accepted.
fn validate_required_evidence(required_kinds: &[String], evidence: &[Evidence]) -> (r: Option<String>)
    ensures
        match r {
            Some(p) => required_problem(required_kinds.deep_view(), evidence@) == Some(p@),
            None => required_problem(required_kinds.deep_view(), evidence@) is None,
        },
{
    let ghost all = required_kinds.deep_view();
    let mut i: usize = 0;
    assert(all.subrange(0, all.len() as int) =~= all);
    while i < required_kinds.len()
        invariant
            i <= all.len(),
            all == required_kinds.deep_view(),
            required_problem(all, evidence@) == required_problem(all.subrange(i as int, all.len() as int), evidence@),
        decreases all.len() - i,
    {
        let ghost rest = all.subrange(i as int, all.len() as int);
        assert(rest.drop_first() =~= all.subrange(i + 1, all.len() as int));
        assert(rest[0] == required_kinds@[i as int]@);
        if let Some(reason) = check_kind(required_kinds[i].as_str(), evidence) {
            return Some(reason);
        }
        i += 1;
    }
    None
}

impl ArtifactContract for RequiredEvidenceContract {
    open spec fn verdict(&self, evidence: Seq<Evidence>) -> VerificationModel {
        required_verdict(self.required_kinds.deep_view(), evidence)
    }

    fn verify(&self, evidence: &[Evidence]) -> (r: VerificationResult) {
        let ghost req = self.required_kinds.deep_view();
        let mut missing: Vec<String> = Vec::new();
        let mut i: usize = 0;
        while i < self.required_kinds.len()
            invariant
                i <= req.len(),
                req == self.required_kinds.deep_view(),
                missing.deep_view() == missing_kinds(req.subrange(0, i as int), evidence@),
            decreases req.len() - i,
        {
            assert(req.subrange(0, i + 1).drop_last() =~= req.subrange(0, i as int));
            if !has_kind(evidence, self.required_kinds[i].as_str()) {
                missing.push(self.required_kinds[i].clone());
                assert(missing.deep_view() =~= missing_kinds(req.subrange(0, i as int), evidence@).push(req[i as int]));
            }
            i += 1;
        }
        assert(req.subrange(0, req.len() as int) =~= req);
        if missing.len() > 0 {
            return VerificationResult::Insufficient { missing };
        }
        if let Some(reason) = validate_required_evidence(self.required_kinds.as_slice(), evidence) {
            return VerificationResult::Failed { reason };
        }
        VerificationResult::Passed { artifacts: copy_texts(&self.required_kinds) }
    }

    open spec fn spec_description(&self) -> Seq<char> {
        self.description@
    }

    fn description(&self) -> (d: &str) {
        self.description.as_str()
    }
}

} // verus!

verus! {

/// The missing kinds are exactly the required kinds of which no evidence is
/// present.
pub proof fn lemma_missing_kinds(required: Seq<Seq<char>>, evidence: Seq<Evidence>)
    ensures
        forall|k: Seq<char>| #[trigger] missing_kinds(required, evidence).contains(k) <==> required.contains(k) && !kind_present(evidence, k),
        missing_kinds(required, evidence).len() == 0 <==> forall|i: int| 0 <= i < required.len() ==> kind_present(evidence, #[trigger] required[i]),
    decreases required.len(),
{
    if required.len() > 0 {
        let prefix = required.drop_last();
        lemma_missing_kinds(prefix, evidence);
        let rest = missing_kinds(prefix, evidence);
        assert forall|k: Seq<char>| #[trigger] missing_kinds(required, evidence).contains(k) <==> required.contains(k) && !kind_present(evidence, k) by {
            if required.contains(k) && !kind_present(evidence, k) {
                let i = choose|i: int| 0 <= i < required.len() && required[i] == k;
                if i < prefix.len() {
                    assert(prefix[i] == k);
                    assert(prefix.contains(k));
                    assert(missing_kinds(prefix, evidence).contains(k));
                    let j = choose|j: int| 0 <= j < rest.len() && rest[j] == k;
                    if !kind_present(evidence, required.last()) {
                        assert(rest.push(required.last())[j] == k);
                    }
                } else {
                    assert(missing_kinds(required, evidence) == rest.push(k));
                    assert(rest.push(k)[rest.len() as int] == k);
                }
            }
            if missing_kinds(required, evidence).contains(k) {
                if kind_present(evidence, required.last()) {
                    assert(missing_kinds(prefix, evidence).contains(k));
                    let i = choose|i: int| 0 <= i < prefix.len() && prefix[i] == k;
                    assert(required[i] == k);
                } else {
                    let i = choose|i: int| 0 <= i < rest.push(required.last()).len() && rest.push(required.last())[i] == k;
                    if i < rest.len() {
                        assert(rest[i] == k);
                        assert(rest.contains(k));
                        assert(missing_kinds(prefix, evidence).contains(k));
                        let j = choose|j: int| 0 <= j < prefix.len() && prefix[j] == k;
                        assert(required[j] == k);
                    } else {
                        assert(required[required.len() - 1] == k);
                    }
                }
            }
        }
        if forall|i: int| 0 <= i < required.len() ==> kind_present(evidence, #[trigger] required[i]) {
            assert forall|i: int| 0 <= i < prefix.len() implies kind_present(evidence, #[trigger] prefix[i]) by {
                assert(required[i] == prefix[i]);
            }
            assert(kind_present(evidence, required[required.len() - 1]));
        }
        if missing_kinds(required, evidence).len() == 0 {
            assert forall|i: int| 0 <= i < required.len() implies kind_present(evidence, #[trigger] required[i]) by {
                if i < prefix.len() {
                    assert(required[i] == prefix[i]);
                }
            }
        }
    }
}

/// No problem is found exactly when every required kind has a well-formed
/// piece of evidence.
pub proof fn lemma_required_problem(required: Seq<Seq<char>>, evidence: Seq<Evidence>)
    ensures
        required_problem(required, evidence) is None <==> forall|i: int| 0 <= i < required.len() ==> has_valid_item(evidence, #[trigger] required[i]),
    decreases required.len(),
{
    if required.len() > 0 {
        let rest = required.drop_first();
        lemma_required_problem(rest, evidence);
        if forall|i: int| 0 <= i < required.len() ==> has_valid_item(evidence, #[trigger] required[i]) {
            assert(has_valid_item(evidence, required[0]));
            assert forall|i: int| 0 <= i < rest.len() implies has_valid_item(evidence, #[trigger] rest[i]) by {
                assert(rest[i] == required[i + 1]);
            }
        }
        if required_problem(required, evidence) is None {
            assert forall|i: int| 0 <= i < required.len() implies has_valid_item(evidence, #[trigger] required[i]) by {
                if i > 0 {
                    assert(required[i] == rest[i - 1]);
                }
            }
        }
    }
}

/// What a required-evidence contract concludes: it passes, listing the
/// required kinds, exactly when every required kind has a well-formed piece
/// of evidence; it reports missing evidence exactly when some required kind
/// has none, listing exactly those kinds; otherwise it fails.
pub proof fn lemma_required_verdict(required: Seq<Seq<char>>, evidence: Seq<Evidence>)
    ensures
        required_verdict(required, evidence) is Passed <==> forall|i: int| 0 <= i < required.len() ==> has_valid_item(evidence, #[trigger] required[i]),
        required_verdict(required, evidence) matches VerificationModel::Passed { artifacts } ==> artifacts == required,
        required_verdict(required, evidence) is Insufficient <==> exists|i: int| 0 <= i < required.len() && !kind_present(evidence, #[trigger] required[i]),
        required_verdict(required, evidence) matches VerificationModel::Insufficient { missing } ==> forall|k: Seq<char>|
            #[trigger] missing.contains(k) <==> required.contains(k) && !kind_present(evidence, k),
{
    lemma_missing_kinds(required, evidence);
    lemma_required_problem(required, evidence);
    assert forall|i: int| 0 <= i < required.len() && has_valid_item(evidence, #[trigger] required[i]) implies kind_present(evidence, required[i]) by {
        let j = choose|j: int| 0 <= j < evidence.len() && #[trigger] evidence[j].kind@ == required[i] && item_problem(required[i], evidence[j].data) is None;
        assert(evidence[j].kind@ == required[i]);
    }
}

} // verus!

verus! {

/// The shapes that evidence payloads must have. A screenshot payload is
/// accepted exactly when it is an object whose `format`, if it is a string,
/// is not blank, and which has a non-blank `base64`, a positive
/// `base64_length` or a non-blank `path`; a text content payload exactly when
/// it is an object with a non-blank `text` or a positive `length`; a payload
/// of any other kind always. A payload that is not an object, or a screenshot
/// with a blank `format`, is refused with its own message.
pub proof fn lemma_evidence_shapes(kind: Seq<char>, data: JsonValue)
    ensures
        kind == "screenshot"@ ==> (item_problem(kind, data) is None <==> {
            &&& data is Object
            &&& !has_blank_text_field(data, "format"@)
            &&& has_text_field(data, "base64"@) || has_positive_field(data, "base64_length"@)
                || has_text_field(data, "path"@)
        }),
        kind == "screenshot"@ && !(data is Object) ==> item_problem(kind, data) == Some(
            "screenshot evidence must be a JSON object"@,
        ),
        kind == "screenshot"@ && data is Object && has_blank_text_field(data, "format"@) ==> item_problem(kind, data)
            == Some("screenshot evidence field 'format' cannot be empty"@),
        kind == "text_content"@ ==> (item_problem(kind, data) is None <==> {
            &&& data is Object
            &&& has_text_field(data, "text"@) || has_positive_field(data, "length"@)
        }),
        kind == "text_content"@ && !(data is Object) ==> item_problem(kind, data) == Some(
            "text_content evidence must be a JSON object"@,
        ),
        kind != "screenshot"@ && kind != "text_content"@ ==> item_problem(kind, data) is None,
{
    reveal_strlit("screenshot");
    reveal_strlit("text_content");
    assert("text_content"@[0] != "screenshot"@[0]);
}

} // verus!
