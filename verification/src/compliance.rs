//! Compliance items: the richest owned resource, with enumerated risk
//! levels and statuses and a field-by-field partial-update merge.

use vstd::prelude::*;
use crate::errors::AppError;
use crate::errors::AppResult;
use crate::store::OwnedRecord;
use crate::store::OwnedStore;
use crate::store::Patch;
use crate::store::RecordView;
use crate::store::act_before;
use crate::store::has_match;
use crate::store::match_idx;
use crate::store::patched_rec;

verus! {

/// Risk level of a compliance item.
#[derive(Debug, Clone, PartialEq, Eq, Structural)]
pub enum RiskLevel {
    /// Low risk.
    Low,
    /// Medium risk.
    Medium,
    /// High risk.
    High,
    /// Critical risk.
    Critical,
}

impl RiskLevel {
    /// The storage string of the level.
    pub open spec fn spec_str(&self) -> Seq<char> {
        match self {
            RiskLevel::Low => "low"@,
            RiskLevel::Medium => "medium"@,
            RiskLevel::High => "high"@,
            RiskLevel::Critical => "critical"@,
        }
    }

    /// Render the level as its storage string.
    pub fn as_str(&self) -> (s: &'static str)
        ensures
            s@ == self.spec_str(),
    {
        match self {
            RiskLevel::Low => "low",
            RiskLevel::Medium => "medium",
            RiskLevel::High => "high",
            RiskLevel::Critical => "critical",
        }
    }
}

/// Status of a compliance item.
#[derive(Debug, Clone, PartialEq, Eq, Structural)]
pub enum ComplianceStatus {
    /// Not yet started.
    Pending,
    /// Being worked on.
    InProgress,
    /// Done.
    Completed,
    /// Past its due date.
    Expired,
}

impl ComplianceStatus {
    /// The storage string of the status.
    pub open spec fn spec_str(&self) -> Seq<char> {
        match self {
            ComplianceStatus::Pending => "pending"@,
            ComplianceStatus::InProgress => "in_progress"@,
            ComplianceStatus::Completed => "completed"@,
            ComplianceStatus::Expired => "expired"@,
        }
    }

    /// Render the status as its storage string.
    pub fn as_str(&self) -> (s: &'static str)
        ensures
            s@ == self.spec_str(),
    {
        match self {
            ComplianceStatus::Pending => "pending",
            ComplianceStatus::InProgress => "in_progress",
            ComplianceStatus::Completed => "completed",
            ComplianceStatus::Expired => "expired",
        }
    }
}

/// The mutable payload of a compliance item.
pub struct ComplianceFields {
    /// Title of the requirement.
    pub title: String,
    /// Detailed description.
    pub description: Option<String>,
    /// Risk level, as its storage string.
    pub risk_level: String,
    /// Status, as its storage string.
    pub status: String,
    /// Due date (Unix seconds).
    pub due_date: Option<u64>,
}

/// Mathematical view of a compliance payload.
pub struct ComplianceFieldsView {
    /// Title of the requirement.
    pub title: Seq<char>,
    /// Detailed description.
    pub description: Option<Seq<char>>,
    /// Risk level string.
    pub risk_level: Seq<char>,
    /// Status string.
    pub status: Seq<char>,
    /// Due date (Unix seconds).
    pub due_date: Option<u64>,
}

impl View for ComplianceFields {
    type V = ComplianceFieldsView;

    open spec fn view(&self) -> ComplianceFieldsView {
        ComplianceFieldsView {
            title: self.title@,
            description: match self.description {
                Some(ref d) => Some(d@),
                None => None,
            },
            risk_level: self.risk_level@,
            status: self.status@,
            due_date: self.due_date,
        }
    }
}

/// A stored compliance item.
pub type ComplianceItem = OwnedRecord<ComplianceFields>;

/// Payload for creating a compliance item.
pub struct CreateComplianceDto {
    /// Title; at least 3 characters.
    pub title: String,
    /// Description.
    pub description: Option<String>,
    /// Risk level string.
    pub risk_level: String,
    /// Status string.
    pub status: String,
    /// Due date (Unix seconds).
    pub due_date: Option<u64>,
}

impl CreateComplianceDto {
    /// Check the payload: the title must have at least 3 characters.
    pub fn validate(&self) -> (r: AppResult<()>)
        ensures
            r is Ok <==> self.title@.len() >= 3,
            r matches Err(e) ==> e is Validation,
    {
        if self.title.as_str().unicode_len() < 3 {
            return Err(AppError::Validation(
                "Title must be at least 3 characters".to_owned()));
        }
        Ok(())
    }

    /// The stored payload this request describes.
    pub fn to_fields(&self) -> (r: ComplianceFields)
        ensures
            r@ == self.spec_fields(),
    {
        ComplianceFields {
            title: self.title.clone(),
            description: match &self.description {
                Some(d) => Some(d.clone()),
                None => None,
            },
            risk_level: self.risk_level.clone(),
            status: self.status.clone(),
            due_date: self.due_date,
        }
    }

    /// View of the payload this request describes.
    pub open spec fn spec_fields(&self) -> ComplianceFieldsView {
        ComplianceFieldsView {
            title: self.title@,
            description: match self.description {
                Some(ref d) => Some(d@),
                None => None,
            },
            risk_level: self.risk_level@,
            status: self.status@,
            due_date: self.due_date,
        }
    }
}

/// Partial update of a compliance item: only present fields change.
pub struct UpdateComplianceDto {
    /// New title, when present.
    pub title: Option<String>,
    /// New description, when present.
    pub description: Option<String>,
    /// New risk level string, when present.
    pub risk_level: Option<String>,
    /// New status string, when present.
    pub status: Option<String>,
    /// New due date, when present.
    pub due_date: Option<u64>,
}

impl Patch<ComplianceFields> for UpdateComplianceDto {
    open spec fn spec_apply(&self, cur: ComplianceFieldsView) -> ComplianceFieldsView {
        ComplianceFieldsView {
            title: match self.title {
                Some(ref t) => t@,
                None => cur.title,
            },
            description: match self.description {
                Some(ref d) => Some(d@),
                None => cur.description,
            },
            risk_level: match self.risk_level {
                Some(ref l) => l@,
                None => cur.risk_level,
            },
            status: match self.status {
                Some(ref s) => s@,
                None => cur.status,
            },
            due_date: match self.due_date {
                Some(d) => Some(d),
                None => cur.due_date,
            },
        }
    }

    open spec fn spec_is_empty(&self) -> bool {
        &&& self.title is None
        &&& self.description is None
        &&& self.risk_level is None
        &&& self.status is None
        &&& self.due_date is None
    }

    fn apply(&self, cur: &ComplianceFields) -> (r: ComplianceFields) {
        ComplianceFields {
            title: match &self.title {
                Some(t) => t.clone(),
                None => cur.title.clone(),
            },
            description: match &self.description {
                Some(d) => Some(d.clone()),
                None => match &cur.description {
                    Some(d) => Some(d.clone()),
                    None => None,
                },
            },
            risk_level: match &self.risk_level {
                Some(l) => l.clone(),
                None => cur.risk_level.clone(),
            },
            status: match &self.status {
                Some(s) => s.clone(),
                None => cur.status.clone(),
            },
            due_date: match self.due_date {
                Some(d) => Some(d),
                None => cur.due_date,
            },
        }
    }

    fn is_empty(&self) -> (b: bool) {
        self.title.is_none() && self.description.is_none() && self.risk_level.is_none()
            && self.status.is_none() && self.due_date.is_none()
    }

    proof fn empty_patch_is_identity(&self, cur: ComplianceFieldsView) {
    }
}

/// Law: the partial-update merge touches exactly the fields present in the
/// patch.  A field absent from the patch keeps its current value; a field
/// present in the patch takes the patch's value; a patch with no fields at
/// all reproduces the current payload unchanged.
pub proof fn lemma_merge_field_by_field(p: &UpdateComplianceDto, cur: ComplianceFieldsView)
    ensures
        p.title is None ==> p.spec_apply(cur).title == cur.title,
        p.title matches Some(t) ==> p.spec_apply(cur).title == t@,
        p.description is None ==> p.spec_apply(cur).description == cur.description,
        p.description matches Some(d) ==> p.spec_apply(cur).description == Some(d@),
        p.risk_level is None ==> p.spec_apply(cur).risk_level == cur.risk_level,
        p.risk_level matches Some(l) ==> p.spec_apply(cur).risk_level == l@,
        p.status is None ==> p.spec_apply(cur).status == cur.status,
        p.status matches Some(s) ==> p.spec_apply(cur).status == s@,
        p.due_date is None ==> p.spec_apply(cur).due_date == cur.due_date,
        p.due_date matches Some(d) ==> p.spec_apply(cur).due_date == Some(d),
        p.spec_is_empty() ==> p.spec_apply(cur) == cur,
{
}

/// Compliance storage: the ownership-scoped pattern instantiated for
/// compliance items.
pub struct ComplianceRepository {
    store: OwnedStore<ComplianceFields>,
}

impl View for ComplianceRepository {
    type V = Seq<RecordView<ComplianceFieldsView>>;

    closed spec fn view(&self) -> Seq<RecordView<ComplianceFieldsView>> {
        self.store@
    }
}

impl ComplianceRepository {
    /// Well-formedness of the underlying store; in particular the record
    /// ids of the view are distinct, so the cross-tenant isolation law
    /// applies to this repository's view directly.
    pub open spec fn wf(&self) -> bool {
        &&& self.spec_store().wf()
        &&& crate::store::ids_distinct(self@)
    }

    /// The underlying store.
    pub closed spec fn spec_store(&self) -> OwnedStore<ComplianceFields> {
        self.store
    }

    /// An empty repository.
    pub fn new() -> (s: Self)
        ensures
            s.wf(),
            s@ =~= Seq::<RecordView<ComplianceFieldsView>>::empty(),
    {
        ComplianceRepository { store: OwnedStore::new() }
    }

    /// All items of `user_id`, newest first, ties broken by id.
    pub fn find_by_user(&self, user_id: u64) -> (r: Vec<&ComplianceItem>)
        requires
            self.wf(),
        ensures
            forall|i: int| 0 <= i < r@.len() ==> (#[trigger] r@[i])@.owner == user_id
                && exists|j: int| 0 <= j < self@.len() && r@[i]@ == #[trigger] self@[j],
            forall|j: int| 0 <= j < self@.len() && (#[trigger] self@[j]).owner == user_id
                ==> exists|i: int| 0 <= i < r@.len() && (#[trigger] r@[i])@ == self@[j],
            forall|i: int, j: int| 0 <= i < j < r@.len()
                ==> act_before((#[trigger] r@[i])@, (#[trigger] r@[j])@),
    {
        let r = self.store.list_owned(user_id);
        proof {
            assert forall|i: int| 0 <= i < r@.len()
                implies ((#[trigger] r@[i])@.owner == user_id
                    && exists|j: int| 0 <= j < self@.len()
                        && r@[i]@ == #[trigger] self@[j]) by {
                let j = choose|j: int| 0 <= j < self.store@.len()
                    && r@[i]@ == #[trigger] self.store@[j];
                assert(0 <= j < self@.len() && r@[i]@ == self@[j]);
            }
        }
        r
    }

    /// The item with this id under this owner, if any.
    pub fn find_by_id(&self, id: u64, user_id: u64) -> (r: Option<&ComplianceItem>)
        requires
            self.wf(),
        ensures
            r matches Some(item) ==> has_match(self@, id, user_id)
                && item@ == self@[match_idx(self@, id, user_id)],
            r is None ==> !has_match(self@, id, user_id),
    {
        self.store.find_owned(id, user_id)
    }

    /// Create an item owned by `user_id`; the owner cannot be chosen by
    /// the payload.
    pub fn create(
        &mut self,
        user_id: u64,
        dto: &CreateComplianceDto,
        now: u64,
    ) -> (r: Result<u64, AppError>)
        requires
            old(self).wf(),
        ensures
            final(self).wf(),
            r matches Ok(id) ==> final(self)@ =~= old(self)@.push(
                (RecordView {
                    id,
                    owner: user_id,
                    created_at: now,
                    updated_at: now,
                    data: dto.spec_fields(),
                })),
            r is Err ==> final(self)@ == old(self)@,
            r is Err <==> old(self).spec_store().spec_next_id() == u64::MAX,
    {
        self.store.create_owned(user_id, dto.to_fields(), now)
    }

    /// Apply a partial update to the item with this id under this owner.
    pub fn update(
        &mut self,
        id: u64,
        user_id: u64,
        dto: &UpdateComplianceDto,
        now: u64,
    ) -> (r: Option<&ComplianceItem>)
        requires
            old(self).wf(),
        ensures
            final(self).wf(),
            !has_match(old(self)@, id, user_id) ==> r is None && final(self)@ == old(self)@,
            has_match(old(self)@, id, user_id) ==> r is Some,
            dto.spec_is_empty() ==> final(self)@ == old(self)@,
            (has_match(old(self)@, id, user_id) && !dto.spec_is_empty()) ==> final(self)@
                =~= old(self)@.update(
                    match_idx(old(self)@, id, user_id),
                    patched_rec(
                        old(self)@[match_idx(old(self)@, id, user_id)],
                        dto.spec_apply(old(self)@[match_idx(old(self)@, id, user_id)].data),
                        now,
                    ),
                ),
            r matches Some(item) ==> has_match(old(self)@, id, user_id)
                && item@ == final(self)@[match_idx(old(self)@, id, user_id)],
    {
        self.store.update_owned(id, user_id, dto, now)
    }

    /// Delete the item with this id under this owner; nothing is mutated
    /// when no such item exists under this owner.
    pub fn delete(&mut self, id: u64, user_id: u64) -> (r: bool)
        requires
            old(self).wf(),
        ensures
            final(self).wf(),
            r == has_match(old(self)@, id, user_id),
            !r ==> final(self)@ == old(self)@,
            r ==> final(self)@ =~= old(self)@.remove(match_idx(old(self)@, id, user_id)),
    {
        self.store.delete_owned(id, user_id)
    }
}


/// A value bound to one positional parameter of the update statement.
pub enum UpdateBind {
    /// A bound string.
    Text(String),
    /// A bound timestamp (Unix seconds).
    Time(u64),
}

/// Mathematical view of a bound value.
pub enum UpdateBindView {
    /// A bound string.
    Text(Seq<char>),
    /// A bound timestamp.
    Time(u64),
}

impl View for UpdateBind {
    type V = UpdateBindView;

    open spec fn view(&self) -> UpdateBindView {
        match self {
            UpdateBind::Text(s) => UpdateBindView::Text(s@),
            UpdateBind::Time(t) => UpdateBindView::Time(*t),
        }
    }
}

/// The text of one `SET` clause: `<name> = $<idx>`.
pub open spec fn set_clause(name: Seq<char>, idx: int) -> Seq<char> {
    name + " = $"@ + seq![crate::text::dec_digit(idx)]
}

/// Clauses and bound values after considering the title field.
pub open spec fn upd_title(p: &UpdateComplianceDto)
    -> (Seq<Seq<char>>, Seq<UpdateBindView>) {
    match p.title {
        Some(ref t) => (
            seq![set_clause("title"@, 3)],
            seq![UpdateBindView::Text(t@)],
        ),
        None => (Seq::empty(), Seq::empty()),
    }
}

/// Clauses and bound values after considering the description field.
pub open spec fn upd_description(p: &UpdateComplianceDto)
    -> (Seq<Seq<char>>, Seq<UpdateBindView>) {
    let (c, b) = upd_title(p);
    match p.description {
        Some(ref d) => (
            c.push(set_clause("description"@, 3 + c.len() as int)),
            b.push(UpdateBindView::Text(d@)),
        ),
        None => (c, b),
    }
}

/// Clauses and bound values after considering the risk level field.
pub open spec fn upd_risk_level(p: &UpdateComplianceDto)
    -> (Seq<Seq<char>>, Seq<UpdateBindView>) {
    let (c, b) = upd_description(p);
    match p.risk_level {
        Some(ref l) => (
            c.push(set_clause("risk_level"@, 3 + c.len() as int)),
            b.push(UpdateBindView::Text(l@)),
        ),
        None => (c, b),
    }
}

/// Clauses and bound values after considering the status field.
pub open spec fn upd_status(p: &UpdateComplianceDto)
    -> (Seq<Seq<char>>, Seq<UpdateBindView>) {
    let (c, b) = upd_risk_level(p);
    match p.status {
        Some(ref s) => (
            c.push(set_clause("status"@, 3 + c.len() as int)),
            b.push(UpdateBindView::Text(s@)),
        ),
        None => (c, b),
    }
}

/// The `SET` clauses and bound values of the conditional update statement
/// for this patch: one clause and one value per present field, in the
/// fixed field order title, description, risk level, status, due date,
/// with positional parameters numbered consecutively from `$3` (`$1` and
/// `$2` filter by id and owner).
pub open spec fn update_statement_parts(p: &UpdateComplianceDto)
    -> (Seq<Seq<char>>, Seq<UpdateBindView>) {
    let (c, b) = upd_status(p);
    match p.due_date {
        Some(d) => (
            c.push(set_clause("due_date"@, 3 + c.len() as int)),
            b.push(UpdateBindView::Time(d)),
        ),
        None => (c, b),
    }
}

/// One `SET` clause, `<name> = $<idx>`.
fn make_clause(name: &str, idx: usize) -> (r: String)
    requires
        idx < 10,
    ensures
        r@ == set_clause(name@, idx as int),
{
    let mut s = name.to_owned();
    s.append(" = $");
    s.append(crate::text::dec_digit_str(idx as u64));
    proof {
        assert(s@ =~= set_clause(name@, idx as int));
    }
    s
}

/// Build the `SET` clauses of the conditional update statement for this
/// patch, with the values to bind, in the fixed field order.  The
/// parameter count always matches the number of bound values: the two
/// filters plus one per present field.
pub fn build_update_statement(p: &UpdateComplianceDto)
    -> (r: (Vec<String>, Vec<UpdateBind>, usize))
    ensures
        r.0@.len() == update_statement_parts(p).0.len(),
        forall|i: int| 0 <= i < r.0@.len()
            ==> (#[trigger] r.0@[i])@ == update_statement_parts(p).0[i],
        r.1@.len() == update_statement_parts(p).1.len(),
        forall|i: int| 0 <= i < r.1@.len()
            ==> (#[trigger] r.1@[i])@ == update_statement_parts(p).1[i],
        r.2 == 2 + r.0@.len(),
        r.0@.len() == r.1@.len(),
    {
    let mut clauses: Vec<String> = Vec::new();
    let mut binds: Vec<UpdateBind> = Vec::new();
    if let Some(t) = &p.title {
        clauses.push(make_clause("title", 3));
        binds.push(UpdateBind::Text(t.clone()));
    }
    proof {
        assert(clauses@.len() == upd_title(p).0.len());
        assert(forall|i: int| 0 <= i < clauses@.len()
            ==> (#[trigger] clauses@[i])@ == upd_title(p).0[i]);
        assert(binds@.len() == upd_title(p).1.len());
        assert(forall|i: int| 0 <= i < binds@.len()
            ==> (#[trigger] binds@[i])@ == upd_title(p).1[i]);
    }
    if let Some(d) = &p.description {
        let n = clauses.len();
        clauses.push(make_clause("description", 3 + n));
        binds.push(UpdateBind::Text(d.clone()));
    }
    proof {
        assert(clauses@.len() == upd_description(p).0.len());
        assert(forall|i: int| 0 <= i < clauses@.len()
            ==> (#[trigger] clauses@[i])@ == upd_description(p).0[i]);
        assert(binds@.len() == upd_description(p).1.len());
        assert(forall|i: int| 0 <= i < binds@.len()
            ==> (#[trigger] binds@[i])@ == upd_description(p).1[i]);
    }
    if let Some(l) = &p.risk_level {
        let n = clauses.len();
        clauses.push(make_clause("risk_level", 3 + n));
        binds.push(UpdateBind::Text(l.clone()));
    }
    proof {
        assert(clauses@.len() == upd_risk_level(p).0.len());
        assert(forall|i: int| 0 <= i < clauses@.len()
            ==> (#[trigger] clauses@[i])@ == upd_risk_level(p).0[i]);
        assert(binds@.len() == upd_risk_level(p).1.len());
        assert(forall|i: int| 0 <= i < binds@.len()
            ==> (#[trigger] binds@[i])@ == upd_risk_level(p).1[i]);
    }
    if let Some(st) = &p.status {
        let n = clauses.len();
        clauses.push(make_clause("status", 3 + n));
        binds.push(UpdateBind::Text(st.clone()));
    }
    proof {
        assert(clauses@.len() == upd_status(p).0.len());
        assert(forall|i: int| 0 <= i < clauses@.len()
            ==> (#[trigger] clauses@[i])@ == upd_status(p).0[i]);
        assert(binds@.len() == upd_status(p).1.len());
        assert(forall|i: int| 0 <= i < binds@.len()
            ==> (#[trigger] binds@[i])@ == upd_status(p).1[i]);
    }
    if let Some(d) = p.due_date {
        let n = clauses.len();
        clauses.push(make_clause("due_date", 3 + n));
        binds.push(UpdateBind::Time(d));
    }
    proof {
        assert(clauses@.len() == update_statement_parts(p).0.len());
        assert(forall|i: int| 0 <= i < clauses@.len()
            ==> (#[trigger] clauses@[i])@ == update_statement_parts(p).0[i]);
        assert(binds@.len() == update_statement_parts(p).1.len());
        assert(forall|i: int| 0 <= i < binds@.len()
            ==> (#[trigger] binds@[i])@ == update_statement_parts(p).1[i]);
    }
    let count = 2 + clauses.len();
    (clauses, binds, count)
}

} // verus!
