//! Attachments: files and notes linked to other records.

use vstd::prelude::*;
use vstd::string::StrSliceExecFns;

use crate::common::CustomField;
use crate::common::NtRef;
use crate::entity::EntityRecord;
use crate::error::QBTypeError;
use crate::kind::EntityKind;
use crate::common::view_opt_str;
use crate::wire::str_eq;
use crate::QBItem;
use crate::QBToRef;

verus! {

/// Category of an attachment.
#[derive(Clone, Copy, Debug, PartialEq, Eq, Structural, Hash)]
pub enum AttachmentCategory {
    ContactPhoto,
    Document,
    Image,
    Receipt,
    Signature,
    Sound,
    Other,
}

/// The content type a file extension maps to, if it is a known one.
pub open spec fn spec_content_type(ext: Seq<char>) -> Option<Seq<char>> {
    if ext == ("ai")@ || ext == ("eps")@ {
        Some(("application/postscript")@)
    } else if ext == ("csv")@ {
        Some(("text/csv")@)
    } else if ext == ("doc")@ {
        Some(("application/msword")@)
    } else if ext == ("docx")@ {
        Some(("application/vnd.openxmlformats-officedocument.wordprocessingml.document")@)
    } else if ext == ("gif")@ {
        Some(("image/gif")@)
    } else if ext == ("jpeg")@ {
        Some(("image/jpeg")@)
    } else if ext == ("jpg")@ {
        Some(("image/jpg")@)
    } else if ext == ("png")@ {
        Some(("image/png")@)
    } else if ext == ("rtf")@ {
        Some(("text/rtf")@)
    } else if ext == ("txt")@ {
        Some(("text/plain")@)
    } else if ext == ("tif")@ {
        Some(("image/tiff")@)
    } else if ext == ("ods")@ {
        Some(("application/vnd.oasis.opendocument.spreadsheet")@)
    } else if ext == ("pdf")@ {
        Some(("application/pdf")@)
    } else if ext == ("xls")@ {
        Some(("application/vnd.ms-excel")@)
    } else if ext == ("xml")@ {
        Some(("text/xml")@)
    } else if ext == ("xlsx")@ {
        Some(("application/vnd.openxmlformats-officedocument.spreadsheetml.sheet")@)
    } else {
        None
    }
}

/// Derives the content type from a file extension.
pub fn content_type_from_ext(ext: &str) -> (r: Option<&'static str>)
    ensures
        match r {
            Some(s) => spec_content_type(ext@) == Some(s@),
            None => spec_content_type(ext@) is None,
        },
{
    if str_eq(ext, "ai") || str_eq(ext, "eps") {
        Some("application/postscript")
    } else if str_eq(ext, "csv") {
        Some("text/csv")
    } else if str_eq(ext, "doc") {
        Some("application/msword")
    } else if str_eq(ext, "docx") {
        Some("application/vnd.openxmlformats-officedocument.wordprocessingml.document")
    } else if str_eq(ext, "gif") {
        Some("image/gif")
    } else if str_eq(ext, "jpeg") {
        Some("image/jpeg")
    } else if str_eq(ext, "jpg") {
        Some("image/jpg")
    } else if str_eq(ext, "png") {
        Some("image/png")
    } else if str_eq(ext, "rtf") {
        Some("text/rtf")
    } else if str_eq(ext, "txt") {
        Some("text/plain")
    } else if str_eq(ext, "tif") {
        Some("image/tiff")
    } else if str_eq(ext, "ods") {
        Some("application/vnd.oasis.opendocument.spreadsheet")
    } else if str_eq(ext, "pdf") {
        Some("application/pdf")
    } else if str_eq(ext, "xls") {
        Some("application/vnd.ms-excel")
    } else if str_eq(ext, "xml") {
        Some("text/xml")
    } else if str_eq(ext, "xlsx") {
        Some("application/vnd.openxmlformats-officedocument.spreadsheetml.sheet")
    } else {
        None
    }
}

/// Records that can carry an attachment as a file or a note.
pub trait QBAttachable {
    /// The note text, as an abstract optional character sequence.
    spec fn spec_note(&self) -> Option<Seq<char>>;

    /// The attachment file name, likewise.
    spec fn spec_file_name(&self) -> Option<Seq<char>>;

    /// An attachment can be uploaded exactly when its file name is set; the
    /// error names the note when neither a note nor a file name is present.
    fn can_upload(&self) -> (r: Result<(), QBTypeError>)
        ensures
            r is Ok <==> self.spec_file_name() is Some,
            r matches Err(e) ==> (e matches QBTypeError::MissingField(n) && if self.spec_note()
                is None && self.spec_file_name() is None {
                n@ == ("note")@
            } else {
                n@ == ("file_name")@
            }),
    ;

    /// The stored file name.
    fn file_path(&self) -> (r: Option<&String>)
        ensures
            r.deep_view() == self.spec_file_name(),
    ;
}

impl QBAttachable for EntityRecord {
    open spec fn spec_note(&self) -> Option<Seq<char>> {
        view_opt_str(self.note)
    }

    open spec fn spec_file_name(&self) -> Option<Seq<char>> {
        view_opt_str(self.file_name)
    }

    fn can_upload(&self) -> (r: Result<(), QBTypeError>) {
        if self.note.is_none() && self.file_name.is_none() {
            return Err(QBTypeError::MissingField("note".to_owned()));
        }
        if self.file_name.is_none() {
            return Err(QBTypeError::MissingField("file_name".to_owned()));
        }
        Ok(())
    }

    fn file_path(&self) -> (r: Option<&String>) {
        self.file_name.as_ref()
    }
}

/// A reference linking an attachment to a target record.
#[derive(Clone, Debug, PartialEq, Eq)]
pub struct AttachableRef {
    /// Whether the attachment goes along when the target is sent.
    pub include_on_send: Option<bool>,
    /// Line information for the target.
    pub line_info: Option<String>,
    /// Whether this entry is a reference only.
    pub no_ref_only: Option<bool>,
    /// Custom fields of the entry.
    pub custom_field: Option<Vec<CustomField>>,
    /// Type of the target.
    pub ref_type: Option<String>,
    /// Whether the entry is inactive.
    pub inactive: Option<bool>,
    /// The reference to the target record.
    pub entity_ref: Option<NtRef>,
}

impl Default for AttachableRef {
    fn default() -> (r: AttachableRef)
        ensures
            r.include_on_send is None && r.line_info is None && r.no_ref_only is None
                && r.custom_field is None && r.ref_type is None && r.inactive is None
                && r.entity_ref is None,
    {
        AttachableRef {
            include_on_send: None,
            line_info: None,
            no_ref_only: None,
            custom_field: None,
            ref_type: None,
            inactive: None,
            entity_ref: None,
        }
    }
}

impl From<NtRef> for AttachableRef {
    /// An attachment link carrying only the target reference.
    fn from(value: NtRef) -> (r: AttachableRef) {
        AttachableRef {
            include_on_send: None,
            line_info: None,
            no_ref_only: None,
            custom_field: None,
            ref_type: None,
            inactive: None,
            entity_ref: Some(value),
        }
    }
}

impl vstd::std_specs::convert::FromSpecImpl<NtRef> for AttachableRef {
    open spec fn obeys_from_spec() -> bool {
        false
    }

    open spec fn from_spec(value: NtRef) -> AttachableRef {
        AttachableRef {
            include_on_send: None,
            line_info: None,
            no_ref_only: None,
            custom_field: None,
            ref_type: None,
            inactive: None,
            entity_ref: Some(value),
        }
    }
}

/// Conversion of a saved record into an attachment link.
pub trait QBToAttachableRef: QBToRef {
    /// Succeeds exactly when the record has an id, wrapping the reference
    /// that [`QBToRef::to_ref`] yields.
    fn to_attach_ref(&self) -> (r: Result<AttachableRef, QBTypeError>)
        ensures
            r is Ok <==> self.spec_id() is Some,
            r matches Ok(ar) ==> (ar.entity_ref matches Some(nt) && nt@.entity_ref_type == Some(
                self.spec_ref_type(),
            ) && nt@.name == self.spec_ref_name() && nt@.value == self.spec_id()),
            r matches Ok(ar) ==> (ar.include_on_send is None && ar.line_info is None
                && ar.no_ref_only is None && ar.custom_field is None && ar.ref_type is None
                && ar.inactive is None),
            r matches Err(e) ==> e == QBTypeError::QBToRefError,
        {
            match self.to_ref() {
                Ok(value) => Ok(
                    AttachableRef {
                        include_on_send: None,
                        line_info: None,
                        no_ref_only: None,
                        custom_field: None,
                        ref_type: None,
                        inactive: None,
                        entity_ref: Some(value),
                    },
                ),
                Err(e) => Err(e),
            }
        }
}

impl<T: QBToRef> QBToAttachableRef for T {

}

// ------------------------------------------------------------------
// Building an attachment record
// ------------------------------------------------------------------

/// The suffix of the sequence after the last occurrence of `c`; the whole
/// sequence when `c` does not occur.
pub open spec fn after_last(cs: Seq<char>, c: char) -> Seq<char>
    decreases cs.len(),
{
    if cs.len() == 0 {
        cs
    } else if cs.last() == c {
        Seq::empty()
    } else {
        after_last(cs.drop_last(), c).push(cs.last())
    }
}

/// Whether a file name carries an extension: a dot somewhere past its
/// first character.  A name that is nothing but a leading dot (a hidden
/// file) has none.
pub open spec fn has_extension(cs: Seq<char>) -> bool {
    exists|i: int| 1 <= i < cs.len() && cs[i] == '.'
}

/// A step-by-step builder for an attachment record.
///
/// Mirrors the caller-facing construction flow: set a note or derive the
/// file fields from a path, then build the record.
pub struct AttachableBuilder {
    pub file_name: Option<String>,
    pub file_path: Option<String>,
    pub content_type: Option<String>,
    pub note: Option<String>,
}

impl AttachableBuilder {
    /// A builder with nothing set.
    pub fn new() -> (r: AttachableBuilder)
        ensures
            r.file_name is None && r.file_path is None && r.content_type is None
                && r.note is None,
    {
        AttachableBuilder { file_name: None, file_path: None, content_type: None, note: None }
    }

    /// Sets the note text.
    pub fn note(self, text: String) -> (r: AttachableBuilder)
        ensures
            r.note == Some(text),
            r.file_name == self.file_name,
            r.file_path == self.file_path,
            r.content_type == self.content_type,
    {
        AttachableBuilder { note: Some(text), ..self }
    }

    /// Sets the file path, deriving the file name (the component after the
    /// last path separator) and the content type (from the extension after
    /// the last dot of the file name).
    ///
    /// Fails when the path ends in a separator (no file name) or the file
    /// name carries no extension: no dot past its first character, so a
    /// hidden file named by a bare leading dot is refused.
    pub fn file(self, path: &str) -> (r: Result<AttachableBuilder, QBTypeError>)
        ensures
            r is Ok <==> (after_last(path@, '/').len() > 0 && has_extension(
                after_last(path@, '/'),
            )),
            r matches Ok(b) ==> ({
                &&& view_opt_str(b.file_path) == Some(path@)
                &&& view_opt_str(b.file_name) == Some(after_last(path@, '/'))
                &&& view_opt_str(b.content_type) == spec_content_type(
                    after_last(after_last(path@, '/'), '.'),
                )
                &&& b.note == self.note
            }),
            r matches Err(e) ==> e matches QBTypeError::ValidationError(_),
    {
        let n = path.unicode_len();
        let mut i: usize = 0;
        let mut name_start: usize = 0;
        while i < n
            invariant
                n == path@.len(),
                i <= n,
                name_start <= i,
                after_last(path@.take(i as int), '/') =~= path@.subrange(
                    name_start as int,
                    i as int,
                ),
            decreases n - i,
        {
            proof {
                assert(path@.take(i as int + 1).drop_last() =~= path@.take(i as int));
                assert(path@.take(i as int + 1).last() == path@[i as int]);
            }
            if path.get_char(i) == '/' {
                name_start = i + 1;
            }
            i = i + 1;
            proof {
                assert(after_last(path@.take(i as int), '/') =~= path@.subrange(
                    name_start as int,
                    i as int,
                ));
            }
        }
        proof {
            assert(path@.take(n as int) =~= path@);
        }
        let name = path.substring_char(name_start, n);
        let name_len = name.unicode_len();
        if name_len == 0 {
            proof {
                assert(after_last(path@, '/').len() == 0);
            }
            return Err(
                QBTypeError::ValidationError("No file name on file path".to_owned()),
            );
        }
        let mut j: usize = 0;
        let mut dot_at: usize = 0;
        let mut seen_dot: bool = false;
        while j < name_len
            invariant
                name_len == name@.len(),
                j <= name_len,
                seen_dot ==> dot_at < j && name@[dot_at as int] == '.',
                seen_dot ==> forall|k: int| dot_at < k < j ==> name@[k] != '.',
                !seen_dot ==> forall|k: int| 0 <= k < j ==> name@[k] != '.',
                after_last(name@.take(j as int), '.') =~= if seen_dot {
                    name@.subrange(dot_at as int + 1, j as int)
                } else {
                    name@.take(j as int)
                },
            decreases name_len - j,
        {
            proof {
                assert(name@.take(j as int + 1).drop_last() =~= name@.take(j as int));
                assert(name@.take(j as int + 1).last() == name@[j as int]);
            }
            if name.get_char(j) == '.' {
                dot_at = j;
                seen_dot = true;
            }
            j = j + 1;
            proof {
                if seen_dot {
                    assert(after_last(name@.take(j as int), '.') =~= name@.subrange(
                        dot_at as int + 1,
                        j as int,
                    ));
                } else {
                    assert(after_last(name@.take(j as int), '.') =~= name@.take(j as int));
                }
            }
        }
        proof {
            assert(name@.take(name_len as int) =~= name@);
        }
        if !seen_dot || dot_at == 0 {
            proof {
                assert(!has_extension(name@));
            }
            return Err(QBTypeError::ValidationError("No extension on file".to_owned()));
        }
        proof {
            assert(has_extension(name@));
        }
        let ext = name.substring_char(dot_at + 1, name_len);
        let content_type = match content_type_from_ext(ext) {
            Some(s) => Some(s.to_owned()),
            None => None,
        };
        Ok(
            AttachableBuilder {
                file_name: Some(name.to_owned()),
                file_path: Some(path.to_owned()),
                content_type,
                note: self.note,
            },
        )
    }

    /// Builds the attachment record the builder describes.
    pub fn build(self) -> (r: EntityRecord)
        ensures
            r.kind == EntityKind::Attachable,
            r.file_name == self.file_name,
            r.file_path == self.file_path,
            r.content_type == self.content_type,
            r.note == self.note,
            r.id is None,
            r.sync_token is None,
    {
        let mut record = EntityRecord::new(EntityKind::Attachable);
        record.file_name = self.file_name;
        record.file_path = self.file_path;
        record.content_type = self.content_type;
        record.note = self.note;
        record
    }
}

} // verus!
