//! Risk assessments: scored evaluations of compliance items, stored under
//! the ownership-scoped pattern with a coalescing partial update.

use vstd::prelude::*;
use crate::errors::AppError;
use crate::errors::AppResult;
use crate::store::OwnedRecord;
use crate::store::OwnedStore;
use crate::store::Patch;
use crate::store::RecordView;
use crate::store::act_before;
use crate::store::has_match;
use crate::store::match_idx;
use crate::store::patched_rec;
use crate::text::parse_u64;
use crate::text::str_eq;

verus! {

/// Whether `s` names a risk level.
pub open spec fn is_risk_level(s: Seq<char>) -> bool {
    s == "low"@ || s == "medium"@ || s == "high"@ || s == "critical"@
}

/// Check that `level` names a risk level.
pub fn validate_risk_level(level: &str) -> (r: AppResult<()>)
    ensures
        r is Ok <==> is_risk_level(level@),
        r matches Err(e) ==> e is Validation,
{
    if str_eq(level, "low") || str_eq(level, "medium") || str_eq(level, "high")
        || str_eq(level, "critical") {
        Ok(())
    } else {
        Err(AppError::Validation("Invalid risk level".to_owned()))
    }
}

/// The mutable payload of a risk assessment.
///
/// The payload deliberately carries no floating-point confidence value:
/// the verified model stores no floating point, so collaborators that
/// track a confidence fraction keep it outside this core.
pub struct RiskScoreFields {
    /// The compliance item this assessment concerns.
    pub compliance_item_id: u64,
    /// The document the assessment drew on, when any.
    pub document_id: Option<u64>,
    /// Risk category.
    pub risk_category: String,
    /// Numeric risk score, 0 to 100.
    pub risk_score: i32,
    /// Risk level string.
    pub risk_level: String,
    /// Who performed the assessment.
    pub assessed_by: Option<String>,
    /// Additional notes.
    pub notes: Option<String>,
    /// Reasoning text attached to the assessment, when any.
    pub ai_reasoning: Option<String>,
}

/// Mathematical view of a risk assessment payload.
pub struct RiskScoreFieldsView {
    /// The compliance item this assessment concerns.
    pub compliance_item_id: u64,
    /// The document the assessment drew on, when any.
    pub document_id: Option<u64>,
    /// Risk category.
    pub risk_category: Seq<char>,
    /// Numeric risk score.
    pub risk_score: i32,
    /// Risk level string.
    pub risk_level: Seq<char>,
    /// Who performed the assessment.
    pub assessed_by: Option<Seq<char>>,
    /// Additional notes.
    pub notes: Option<Seq<char>>,
    /// Reasoning text attached to the assessment, when any.
    pub ai_reasoning: Option<Seq<char>>,
}

impl View for RiskScoreFields {
    type V = RiskScoreFieldsView;

    open spec fn view(&self) -> RiskScoreFieldsView {
        RiskScoreFieldsView {
            compliance_item_id: self.compliance_item_id,
            document_id: self.document_id,
            risk_category: self.risk_category@,
            risk_score: self.risk_score,
            risk_level: self.risk_level@,
            assessed_by: match self.assessed_by {
                Some(ref a) => Some(a@),
                None => None,
            },
            notes: match self.notes {
                Some(ref n) => Some(n@),
                None => None,
            },
            ai_reasoning: match self.ai_reasoning {
                Some(ref r) => Some(r@),
                None => None,
            },
        }
    }
}

/// A stored risk assessment.
pub type RiskScore = OwnedRecord<RiskScoreFields>;

/// Payload for creating a risk assessment; ids arrive as decimal strings.
pub struct CreateRiskScoreDto {
    /// The compliance item id, as a decimal string.
    pub compliance_item_id: String,
    /// The document id, as a decimal string, when any.
    pub document_id: Option<String>,
    /// Risk category; 1 to 100 characters.
    pub risk_category: String,
    /// Numeric risk score; 0 to 100.
    pub risk_score: i32,
    /// Risk level string; must name a level.
    pub risk_level: String,
    /// Who performed the assessment.
    pub assessed_by: Option<String>,
    /// Additional notes.
    pub notes: Option<String>,
    /// Reasoning text attached to the assessment, when any.
    pub ai_reasoning: Option<String>,
}

impl CreateRiskScoreDto {
    /// Check the payload: category length, score range and level name.
    pub fn validate(&self) -> (r: AppResult<()>)
        ensures
            r is Ok <==> (1 <= self.risk_category@.len() <= 100
                && 0 <= self.risk_score <= 100 && is_risk_level(self.risk_level@)),
            r matches Err(e) ==> e is Validation,
    {
        let cat_len = self.risk_category.as_str().unicode_len();
        if cat_len < 1 || cat_len > 100 {
            return Err(AppError::Validation(
                "Risk category must be 1-100 characters".to_owned()));
        }
        if self.risk_score < 0 || self.risk_score > 100 {
            return Err(AppError::Validation("Risk score must be 0-100".to_owned()));
        }
        validate_risk_level(self.risk_level.as_str())
    }
}

/// Partial update of a risk assessment: only present fields change.
pub struct UpdateRiskScoreDto {
    /// New risk category, when present.
    pub risk_category: Option<String>,
    /// New risk score, when present.
    pub risk_score: Option<i32>,
    /// New risk level string, when present.
    pub risk_level: Option<String>,
    /// New notes, when present.
    pub notes: Option<String>,
    /// New reasoning text, when present.
    pub ai_reasoning: Option<String>,
}

impl UpdateRiskScoreDto {
    /// Check the risk level, when one is present.
    pub fn validate_risk_level(&self) -> (r: AppResult<()>)
        ensures
            r is Ok <==> (self.risk_level matches Some(l) ==> is_risk_level(l@)),
            r matches Err(e) ==> e is Validation,
    {
        if let Some(level) = &self.risk_level {
            return crate::risk::validate_risk_level(level.as_str());
        }
        Ok(())
    }
}

impl Patch<RiskScoreFields> for UpdateRiskScoreDto {
    open spec fn spec_apply(&self, cur: RiskScoreFieldsView) -> RiskScoreFieldsView {
        RiskScoreFieldsView {
            compliance_item_id: cur.compliance_item_id,
            document_id: cur.document_id,
            risk_category: match self.risk_category {
                Some(ref c) => c@,
                None => cur.risk_category,
            },
            risk_score: match self.risk_score {
                Some(n) => n,
                None => cur.risk_score,
            },
            risk_level: match self.risk_level {
                Some(ref l) => l@,
                None => cur.risk_level,
            },
            assessed_by: cur.assessed_by,
            notes: match self.notes {
                Some(ref n) => Some(n@),
                None => cur.notes,
            },
            ai_reasoning: match self.ai_reasoning {
                Some(ref r) => Some(r@),
                None => cur.ai_reasoning,
            },
        }
    }

    open spec fn spec_is_empty(&self) -> bool {
        &&& self.risk_category is None
        &&& self.risk_score is None
        &&& self.risk_level is None
        &&& self.notes is None
        &&& self.ai_reasoning is None
    }

    fn apply(&self, cur: &RiskScoreFields) -> (r: RiskScoreFields) {
        RiskScoreFields {
            compliance_item_id: cur.compliance_item_id,
            document_id: cur.document_id,
            risk_category: match &self.risk_category {
                Some(c) => c.clone(),
                None => cur.risk_category.clone(),
            },
            risk_score: match self.risk_score {
                Some(n) => n,
                None => cur.risk_score,
            },
            risk_level: match &self.risk_level {
                Some(l) => l.clone(),
                None => cur.risk_level.clone(),
            },
            assessed_by: match &cur.assessed_by {
                Some(a) => Some(a.clone()),
                None => None,
            },
            notes: match &self.notes {
                Some(n) => Some(n.clone()),
                None => match &cur.notes {
                    Some(n) => Some(n.clone()),
                    None => None,
                },
            },
            ai_reasoning: match &self.ai_reasoning {
                Some(r) => Some(r.clone()),
                None => match &cur.ai_reasoning {
                    Some(r) => Some(r.clone()),
                    None => None,
                },
            },
        }
    }

    fn is_empty(&self) -> (b: bool) {
        self.risk_category.is_none() && self.risk_score.is_none()
            && self.risk_level.is_none() && self.notes.is_none()
            && self.ai_reasoning.is_none()
    }

    proof fn empty_patch_is_identity(&self, cur: RiskScoreFieldsView) {
    }
}

/// Risk assessment storage: the ownership-scoped pattern instantiated for
/// risk assessments.
pub struct RiskScoreRepository {
    store: OwnedStore<RiskScoreFields>,
}

impl View for RiskScoreRepository {
    type V = Seq<RecordView<RiskScoreFieldsView>>;

    closed spec fn view(&self) -> Seq<RecordView<RiskScoreFieldsView>> {
        self.store@
    }
}

impl RiskScoreRepository {
    /// Well-formedness of the underlying store; in particular the record
    /// ids of the view are distinct, so the cross-tenant isolation law
    /// applies to this repository's view directly.
    pub open spec fn wf(&self) -> bool {
        &&& self.spec_store().wf()
        &&& crate::store::ids_distinct(self@)
    }

    /// The underlying store.
    pub closed spec fn spec_store(&self) -> OwnedStore<RiskScoreFields> {
        self.store
    }

    /// An empty repository.
    pub fn new() -> (s: Self)
        ensures
            s.wf(),
            s@ =~= Seq::<RecordView<RiskScoreFieldsView>>::empty(),
    {
        RiskScoreRepository { store: OwnedStore::new() }
    }

    /// All assessments of `user_id`, newest first, ties broken by id.
    pub fn find_by_user(&self, user_id: u64) -> (r: Vec<&RiskScore>)
        requires
            self.wf(),
        ensures
            forall|i: int| 0 <= i < r@.len() ==> (#[trigger] r@[i])@.owner == user_id
                && exists|j: int| 0 <= j < self@.len() && r@[i]@ == #[trigger] self@[j],
            forall|j: int| 0 <= j < self@.len() && (#[trigger] self@[j]).owner == user_id
                ==> exists|i: int| 0 <= i < r@.len() && (#[trigger] r@[i])@ == self@[j],
            forall|i: int, j: int| 0 <= i < j < r@.len()
                ==> act_before((#[trigger] r@[i])@, (#[trigger] r@[j])@),
    {
        let r = self.store.list_owned(user_id);
        proof {
            assert forall|i: int| 0 <= i < r@.len()
                implies ((#[trigger] r@[i])@.owner == user_id
                    && exists|j: int| 0 <= j < self@.len()
                        && r@[i]@ == #[trigger] self@[j]) by {
                assert((#[trigger] r@[i])@.owner == user_id);
                assert(exists|j: int| 0 <= j < self.store@.len()
                    && r@[i]@ == #[trigger] self.store@[j]);
                let j = choose|j: int| 0 <= j < self.store@.len()
                    && r@[i]@ == #[trigger] self.store@[j];
                assert(0 <= j < self@.len() && r@[i]@ == self@[j]);
            }
        }
        r
    }

    /// The assessments of `user_id` that concern one compliance item,
    /// keeping the listing order.
    pub fn find_by_compliance_item(
        &self,
        compliance_item_id: u64,
        user_id: u64,
    ) -> (r: Vec<&RiskScore>)
        requires
            self.wf(),
        ensures
            forall|i: int| 0 <= i < r@.len() ==> (#[trigger] r@[i])@.owner == user_id
                && r@[i]@.data.compliance_item_id == compliance_item_id
                && exists|j: int| 0 <= j < self@.len() && r@[i]@ == #[trigger] self@[j],
            forall|i: int, j: int| 0 <= i < j < r@.len()
                ==> act_before((#[trigger] r@[i])@, (#[trigger] r@[j])@),
    {
        let all = self.find_by_user(user_id);
        let n = all.len();
        let mut out: Vec<&RiskScore> = Vec::new();
        let mut i: usize = 0;
        while i < n
            invariant
                0 <= i <= n == all@.len(),
                forall|k: int| 0 <= k < all@.len() ==> (#[trigger] all@[k])@.owner == user_id
                    && exists|j: int| 0 <= j < self@.len() && all@[k]@ == #[trigger] self@[j],
                forall|k: int, l: int| 0 <= k < l < all@.len()
                    ==> act_before((#[trigger] all@[k])@, (#[trigger] all@[l])@),
                forall|k: int| 0 <= k < out@.len() ==> (#[trigger] out@[k])@.owner == user_id
                    && out@[k]@.data.compliance_item_id == compliance_item_id
                    && exists|j: int| 0 <= j < self@.len() && out@[k]@ == #[trigger] self@[j],
                forall|k: int, l: int| 0 <= k < l < out@.len()
                    ==> act_before((#[trigger] out@[k])@, (#[trigger] out@[l])@),
                forall|k: int| 0 <= k < out@.len()
                    ==> exists|m: int| 0 <= m < i && (#[trigger] out@[k]) == all@[m],
            decreases n - i,
        {
            let cand = all[i];
            if cand.data.compliance_item_id == compliance_item_id {
                proof {
                    assert forall|k: int| 0 <= k < out@.len()
                        implies act_before((#[trigger] out@[k])@, cand@) by {
                        let m = choose|m: int| 0 <= m < i && (#[trigger] out@[k]) == all@[m];
                        assert(act_before(all@[m]@, all@[i as int]@));
                    }
                }
                out.push(cand);
            }
            i = i + 1;
        }
        out
    }

    /// The assessment with this id under this owner, if any.
    pub fn find_by_id(&self, id: u64, user_id: u64) -> (r: Option<&RiskScore>)
        requires
            self.wf(),
        ensures
            r matches Some(score) ==> has_match(self@, id, user_id)
                && score@ == self@[match_idx(self@, id, user_id)],
            r is None ==> !has_match(self@, id, user_id),
    {
        self.store.find_owned(id, user_id)
    }

    /// Create an assessment owned by `user_id`.  The linked ids arrive as
    /// decimal strings and are refused when malformed.
    pub fn create(
        &mut self,
        user_id: u64,
        dto: &CreateRiskScoreDto,
        now: u64,
    ) -> (r: Result<u64, AppError>)
        requires
            old(self).wf(),
        ensures
            final(self).wf(),
            r is Err ==> final(self)@ == old(self)@,
            r matches Err(e) ==> e is Validation || e is Internal,
            !crate::account::parses_to_id(dto.compliance_item_id@)
                ==> (r matches Err(e) && e is Validation),
            (dto.document_id matches Some(d) && !crate::account::parses_to_id(d@))
                ==> (r matches Err(e) && e is Validation),
            (crate::account::parses_to_id(dto.compliance_item_id@)
                && (dto.document_id matches Some(d) ==> crate::account::parses_to_id(d@))
                && old(self).spec_store().spec_next_id() < u64::MAX)
                ==> r is Ok,
            r matches Ok(id) ==> final(self)@ =~= old(self)@.push(
                (RecordView {
                    id,
                    owner: user_id,
                    created_at: now,
                    updated_at: now,
                    data: (RiskScoreFieldsView {
                        compliance_item_id: crate::account::dec_val_of(
                            dto.compliance_item_id@),
                        document_id: match dto.document_id {
                            Some(ref d) => Some(crate::account::dec_val_of(d@)),
                            None => None,
                        },
                        risk_category: dto.risk_category@,
                        risk_score: dto.risk_score,
                        risk_level: dto.risk_level@,
                        assessed_by: match dto.assessed_by {
                            Some(ref a) => Some(a@),
                            None => None,
                        },
                        notes: match dto.notes {
                            Some(ref n) => Some(n@),
                            None => None,
                        },
                        ai_reasoning: match dto.ai_reasoning {
                            Some(ref t) => Some(t@),
                            None => None,
                        },
                    }),
                })),
    {
        let compliance_item_id = match parse_u64(dto.compliance_item_id.as_str()) {
            Some(n) => n,
            None => {
                return Err(AppError::Validation("Invalid compliance item ID".to_owned()));
            },
        };
        let document_id = match &dto.document_id {
            Some(d) => match parse_u64(d.as_str()) {
                Some(n) => Some(n),
                None => {
                    return Err(AppError::Validation("Invalid document ID".to_owned()));
                },
            },
            None => None,
        };
        let fields = RiskScoreFields {
            compliance_item_id,
            document_id,
            risk_category: dto.risk_category.clone(),
            risk_score: dto.risk_score,
            risk_level: dto.risk_level.clone(),
            assessed_by: match &dto.assessed_by {
                Some(a) => Some(a.clone()),
                None => None,
            },
            notes: match &dto.notes {
                Some(n) => Some(n.clone()),
                None => None,
            },
            ai_reasoning: match &dto.ai_reasoning {
                Some(t) => Some(t.clone()),
                None => None,
            },
        };
        self.store.create_owned(user_id, fields, now)
    }

    /// Apply a partial update to the assessment with this id under this
    /// owner.
    pub fn update(
        &mut self,
        id: u64,
        user_id: u64,
        dto: &UpdateRiskScoreDto,
        now: u64,
    ) -> (r: Option<&RiskScore>)
        requires
            old(self).wf(),
        ensures
            final(self).wf(),
            !has_match(old(self)@, id, user_id) ==> r is None && final(self)@ == old(self)@,
            has_match(old(self)@, id, user_id) ==> r is Some,
            dto.spec_is_empty() ==> final(self)@ == old(self)@,
            (has_match(old(self)@, id, user_id) && !dto.spec_is_empty()) ==> final(self)@
                =~= old(self)@.update(
                    match_idx(old(self)@, id, user_id),
                    patched_rec(
                        old(self)@[match_idx(old(self)@, id, user_id)],
                        dto.spec_apply(old(self)@[match_idx(old(self)@, id, user_id)].data),
                        now,
                    ),
                ),
            r matches Some(score) ==> has_match(old(self)@, id, user_id)
                && score@ == final(self)@[match_idx(old(self)@, id, user_id)],
    {
        self.store.update_owned(id, user_id, dto, now)
    }

    /// Delete the assessment with this id under this owner.
    pub fn delete(&mut self, id: u64, user_id: u64) -> (r: bool)
        requires
            old(self).wf(),
        ensures
            final(self).wf(),
            r == has_match(old(self)@, id, user_id),
            !r ==> final(self)@ == old(self)@,
            r ==> final(self)@ =~= old(self)@.remove(match_idx(old(self)@, id, user_id)),
    {
        self.store.delete_owned(id, user_id)
    }
}

} // verus!
