//! Documents: uploaded files with extracted text, stored under the
//! ownership-scoped pattern, and the text-document helpers.

use vstd::prelude::*;
use crate::errors::AppError;
use crate::errors::AppResult;
use crate::store::OwnedRecord;
use crate::store::OwnedStore;
use crate::store::Patch;
use crate::store::RecordView;
use crate::store::act_before;
use crate::store::has_match;
use crate::store::match_idx;
use crate::store::patched_rec;

verus! {

/// The mutable payload of a document record.
pub struct DocumentFields {
    /// Original filename.
    pub filename: String,
    /// Path of the stored file.
    pub file_path: String,
    /// File size in bytes.
    pub file_size: i64,
    /// MIME type.
    pub mime_type: String,
    /// Extracted text, when available.
    pub extracted_text: Option<String>,
    /// Serialized analysis results, when available.
    pub ai_analysis: Option<String>,
}

/// Mathematical view of a document payload.
pub struct DocumentFieldsView {
    /// Original filename.
    pub filename: Seq<char>,
    /// Path of the stored file.
    pub file_path: Seq<char>,
    /// File size in bytes.
    pub file_size: i64,
    /// MIME type.
    pub mime_type: Seq<char>,
    /// Extracted text, when available.
    pub extracted_text: Option<Seq<char>>,
    /// Serialized analysis results, when available.
    pub ai_analysis: Option<Seq<char>>,
}

impl View for DocumentFields {
    type V = DocumentFieldsView;

    open spec fn view(&self) -> DocumentFieldsView {
        DocumentFieldsView {
            filename: self.filename@,
            file_path: self.file_path@,
            file_size: self.file_size,
            mime_type: self.mime_type@,
            extracted_text: match self.extracted_text {
                Some(ref t) => Some(t@),
                None => None,
            },
            ai_analysis: match self.ai_analysis {
                Some(ref a) => Some(a@),
                None => None,
            },
        }
    }
}

/// A stored document record.
pub type Document = OwnedRecord<DocumentFields>;

/// Payload for registering an uploaded document.
pub struct CreateDocumentDto {
    /// Original filename; required.
    pub filename: String,
    /// Path of the stored file; required.
    pub file_path: String,
    /// File size in bytes; positive.
    pub file_size: i64,
    /// MIME type; required.
    pub mime_type: String,
    /// Extracted text, when already known.
    pub extracted_text: Option<String>,
}

impl CreateDocumentDto {
    /// Check the payload: filename, path and MIME type non-empty, size
    /// positive.
    pub fn validate(&self) -> (r: AppResult<()>)
        ensures
            r is Ok <==> (self.filename@.len() >= 1 && self.file_path@.len() >= 1
                && self.file_size >= 1 && self.mime_type@.len() >= 1),
            r matches Err(e) ==> e is Validation,
    {
        if self.filename.as_str().unicode_len() < 1 {
            return Err(AppError::Validation("Filename is required".to_owned()));
        }
        if self.file_path.as_str().unicode_len() < 1 {
            return Err(AppError::Validation("File path is required".to_owned()));
        }
        if self.file_size < 1 {
            return Err(AppError::Validation("File size must be positive".to_owned()));
        }
        if self.mime_type.as_str().unicode_len() < 1 {
            return Err(AppError::Validation("MIME type is required".to_owned()));
        }
        Ok(())
    }

    /// The stored payload this request describes; analysis starts absent.
    pub fn to_fields(&self) -> (r: DocumentFields)
        ensures
            r@ == self.spec_fields(),
    {
        DocumentFields {
            filename: self.filename.clone(),
            file_path: self.file_path.clone(),
            file_size: self.file_size,
            mime_type: self.mime_type.clone(),
            extracted_text: match &self.extracted_text {
                Some(t) => Some(t.clone()),
                None => None,
            },
            ai_analysis: None,
        }
    }

    /// View of the payload this request describes.
    pub open spec fn spec_fields(&self) -> DocumentFieldsView {
        DocumentFieldsView {
            filename: self.filename@,
            file_path: self.file_path@,
            file_size: self.file_size,
            mime_type: self.mime_type@,
            extracted_text: match self.extracted_text {
                Some(ref t) => Some(t@),
                None => None,
            },
            ai_analysis: None,
        }
    }
}

/// Partial update of a document: extracted text and analysis results.
pub struct UpdateDocumentDto {
    /// New extracted text, when present.
    pub extracted_text: Option<String>,
    /// New serialized analysis, when present.
    pub ai_analysis: Option<String>,
}

impl Patch<DocumentFields> for UpdateDocumentDto {
    open spec fn spec_apply(&self, cur: DocumentFieldsView) -> DocumentFieldsView {
        DocumentFieldsView {
            filename: cur.filename,
            file_path: cur.file_path,
            file_size: cur.file_size,
            mime_type: cur.mime_type,
            extracted_text: match self.extracted_text {
                Some(ref t) => Some(t@),
                None => cur.extracted_text,
            },
            ai_analysis: match self.ai_analysis {
                Some(ref a) => Some(a@),
                None => cur.ai_analysis,
            },
        }
    }

    open spec fn spec_is_empty(&self) -> bool {
        self.extracted_text is None && self.ai_analysis is None
    }

    fn apply(&self, cur: &DocumentFields) -> (r: DocumentFields) {
        DocumentFields {
            filename: cur.filename.clone(),
            file_path: cur.file_path.clone(),
            file_size: cur.file_size,
            mime_type: cur.mime_type.clone(),
            extracted_text: match &self.extracted_text {
                Some(t) => Some(t.clone()),
                None => match &cur.extracted_text {
                    Some(t) => Some(t.clone()),
                    None => None,
                },
            },
            ai_analysis: match &self.ai_analysis {
                Some(a) => Some(a.clone()),
                None => match &cur.ai_analysis {
                    Some(a) => Some(a.clone()),
                    None => None,
                },
            },
        }
    }

    fn is_empty(&self) -> (b: bool) {
        self.extracted_text.is_none() && self.ai_analysis.is_none()
    }

    proof fn empty_patch_is_identity(&self, cur: DocumentFieldsView) {
    }
}

/// A document as shown in listings: metadata only, with flags for the
/// presence of extracted text and analysis.
pub struct DocumentResponse {
    /// Record id.
    pub id: u64,
    /// Original filename.
    pub filename: String,
    /// File size in bytes.
    pub file_size: i64,
    /// MIME type.
    pub mime_type: String,
    /// Whether text has been extracted.
    pub has_extracted_text: bool,
    /// Whether analysis results are available.
    pub has_ai_analysis: bool,
    /// Upload time (Unix seconds).
    pub uploaded_at: u64,
}

impl DocumentResponse {
    /// Build the listing representation of a stored document.
    pub fn from_document(doc: &Document) -> (r: DocumentResponse)
        ensures
            r.id == doc@.id,
            r.filename@ == doc@.data.filename,
            r.file_size == doc@.data.file_size,
            r.mime_type@ == doc@.data.mime_type,
            r.has_extracted_text == (doc@.data.extracted_text is Some),
            r.has_ai_analysis == (doc@.data.ai_analysis is Some),
            r.uploaded_at == doc@.created_at,
    {
        DocumentResponse {
            id: doc.id,
            filename: doc.data.filename.clone(),
            file_size: doc.data.file_size,
            mime_type: doc.data.mime_type.clone(),
            has_extracted_text: doc.data.extracted_text.is_some(),
            has_ai_analysis: doc.data.ai_analysis.is_some(),
            uploaded_at: doc.created_at,
        }
    }
}

/// Whether `c` may appear unchanged in a stored filename: ASCII letters,
/// digits, `-` and `_`.
pub open spec fn filename_char_ok(c: char) -> bool {
    (48 <= c as int <= 57) || (65 <= c as int <= 90) || (97 <= c as int <= 122)
        || c == '-' || c == '_'
}

/// `c` when it may appear in a stored filename, `_` otherwise.
pub open spec fn sanitized_char(c: char) -> char {
    if filename_char_ok(c) { c } else { '_' }
}

/// Replace every character that may not appear in a stored filename by
/// `_`, keeping ASCII letters, digits, `-` and `_`.
#[verifier::loop_isolation(false)]
pub fn sanitize_filename(title: &str) -> (r: String)
    ensures
        r@.len() == title@.len(),
        forall|i: int| 0 <= i < title@.len() ==> r@[i] == sanitized_char(#[trigger] title@[i]),
{
    let len = title.unicode_len();
    let mut out = String::new();
    let mut i: usize = 0;
    while i < len
        invariant
            0 <= i <= len,
            out@.len() == i,
            forall|k: int| 0 <= k < i ==> out@[k] == sanitized_char(#[trigger] title@[k]),
        decreases len - i,
    {
        let c = title.get_char(i);
        let cp = c as u32;
        let keep = (48 <= cp && cp <= 57) || (65 <= cp && cp <= 90)
            || (97 <= cp && cp <= 122) || c == '-' || c == '_';
        if keep {
            out.push(c);
        } else {
            out.push('_');
        }
        i = i + 1;
    }
    out
}

/// Document storage: the ownership-scoped pattern instantiated for
/// document records.
pub struct DocumentRepository {
    store: OwnedStore<DocumentFields>,
}

impl View for DocumentRepository {
    type V = Seq<RecordView<DocumentFieldsView>>;

    closed spec fn view(&self) -> Seq<RecordView<DocumentFieldsView>> {
        self.store@
    }
}

impl DocumentRepository {
    /// Well-formedness of the underlying store; in particular the record
    /// ids of the view are distinct, so the cross-tenant isolation law
    /// applies to this repository's view directly.
    pub open spec fn wf(&self) -> bool {
        &&& self.spec_store().wf()
        &&& crate::store::ids_distinct(self@)
    }

    /// The underlying store.
    pub closed spec fn spec_store(&self) -> OwnedStore<DocumentFields> {
        self.store
    }

    /// An empty repository.
    pub fn new() -> (s: Self)
        ensures
            s.wf(),
            s@ =~= Seq::<RecordView<DocumentFieldsView>>::empty(),
    {
        DocumentRepository { store: OwnedStore::new() }
    }

    /// All documents of `user_id`, newest first, ties broken by id.
    pub fn find_by_user(&self, user_id: u64) -> (r: Vec<&Document>)
        requires
            self.wf(),
        ensures
            forall|i: int| 0 <= i < r@.len() ==> (#[trigger] r@[i])@.owner == user_id
                && exists|j: int| 0 <= j < self@.len() && r@[i]@ == #[trigger] self@[j],
            forall|j: int| 0 <= j < self@.len() && (#[trigger] self@[j]).owner == user_id
                ==> exists|i: int| 0 <= i < r@.len() && (#[trigger] r@[i])@ == self@[j],
            forall|i: int, j: int| 0 <= i < j < r@.len()
                ==> act_before((#[trigger] r@[i])@, (#[trigger] r@[j])@),
    {
        let r = self.store.list_owned(user_id);
        proof {
            assert forall|i: int| 0 <= i < r@.len()
                implies ((#[trigger] r@[i])@.owner == user_id
                    && exists|j: int| 0 <= j < self@.len()
                        && r@[i]@ == #[trigger] self@[j]) by {
                let j = choose|j: int| 0 <= j < self.store@.len()
                    && r@[i]@ == #[trigger] self.store@[j];
                assert(0 <= j < self@.len() && r@[i]@ == self@[j]);
            }
        }
        r
    }

    /// The document with this id under this owner, if any.
    pub fn find_by_id(&self, id: u64, user_id: u64) -> (r: Option<&Document>)
        requires
            self.wf(),
        ensures
            r matches Some(doc) ==> has_match(self@, id, user_id)
                && doc@ == self@[match_idx(self@, id, user_id)],
            r is None ==> !has_match(self@, id, user_id),
    {
        self.store.find_owned(id, user_id)
    }

    /// Create a document owned by `user_id`.
    pub fn create(
        &mut self,
        user_id: u64,
        dto: &CreateDocumentDto,
        now: u64,
    ) -> (r: Result<u64, AppError>)
        requires
            old(self).wf(),
        ensures
            final(self).wf(),
            r matches Ok(id) ==> final(self)@ =~= old(self)@.push(
                (RecordView {
                    id,
                    owner: user_id,
                    created_at: now,
                    updated_at: now,
                    data: dto.spec_fields(),
                })),
            r is Err ==> final(self)@ == old(self)@,
            r is Err <==> old(self).spec_store().spec_next_id() == u64::MAX,
    {
        self.store.create_owned(user_id, dto.to_fields(), now)
    }

    /// Apply a partial update to the document with this id under this
    /// owner.
    pub fn update(
        &mut self,
        id: u64,
        user_id: u64,
        dto: &UpdateDocumentDto,
        now: u64,
    ) -> (r: Option<&Document>)
        requires
            old(self).wf(),
        ensures
            final(self).wf(),
            !has_match(old(self)@, id, user_id) ==> r is None && final(self)@ == old(self)@,
            has_match(old(self)@, id, user_id) ==> r is Some,
            dto.spec_is_empty() ==> final(self)@ == old(self)@,
            (has_match(old(self)@, id, user_id) && !dto.spec_is_empty()) ==> final(self)@
                =~= old(self)@.update(
                    match_idx(old(self)@, id, user_id),
                    patched_rec(
                        old(self)@[match_idx(old(self)@, id, user_id)],
                        dto.spec_apply(old(self)@[match_idx(old(self)@, id, user_id)].data),
                        now,
                    ),
                ),
            r matches Some(doc) ==> has_match(old(self)@, id, user_id)
                && doc@ == final(self)@[match_idx(old(self)@, id, user_id)],
    {
        self.store.update_owned(id, user_id, dto, now)
    }

    /// Delete the document with this id under this owner.
    pub fn delete(&mut self, id: u64, user_id: u64) -> (r: bool)
        requires
            old(self).wf(),
        ensures
            final(self).wf(),
            r == has_match(old(self)@, id, user_id),
            !r ==> final(self)@ == old(self)@,
            r ==> final(self)@ =~= old(self)@.remove(match_idx(old(self)@, id, user_id)),
    {
        self.store.delete_owned(id, user_id)
    }
}

/// Payload for creating a document from raw text.
pub struct CreateTextDocumentDto {
    /// Title; the stored filename is derived from it.
    pub title: String,
    /// The document's text content.
    pub content: String,
}

} // verus!
