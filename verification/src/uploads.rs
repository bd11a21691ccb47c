//! Fields of an uploaded multipart form: what each field becomes, the map of
//! processed fields by name, and the notices shown after an upload.

use vstd::prelude::*;
use vstd::string::StringExecFns;
use vstd::pervasive::VecAdditionalExecFns;
use vstd::utf8::{valid_utf8, decode_utf8, encode_utf8, decode_utf8_encode_utf8};
use crate::errors::{FileSystemError, UploadError, single_cause, texts};

verus! {

/// The content of a form field that is not a file.
pub struct NonfilePayload {
    pub data: Vec<u8>,
    pub text: String,
}

/// The content of a file field, as saved to a temporary file.
pub struct FilePayload {
    pub data: Vec<u8>,
    pub filename: String,
    /// BLAKE3 digest of `data`.
    pub hash: Vec<u8>,
    pub tmp_path: String,
    /// The content type sent with the field.
    pub mime: String,
}

/// A processed form field.
pub enum UploadPayload {
    File(FilePayload),
    Nonfile(NonfilePayload),
}

/// How a form field is read: as text, or as a file when it carries a
/// content type.
#[derive(Clone, Copy, Debug, PartialEq, Eq, Structural)]
pub enum FieldKind {
    Text,
    File,
}

/// The bytes of a field's chunks, one after the other.
pub open spec fn concat_chunks(chunks: Seq<Vec<u8>>) -> Seq<u8>
    decreases chunks.len(),
{
    if chunks.len() == 0 {
        Seq::empty()
    } else {
        concat_chunks(chunks.drop_last()) + chunks.last()@
    }
}

/// Joining keeps every byte of every chunk, with no cap on the length:
/// joining no chunk gives no byte, and joining a list of chunks followed by
/// one more gives the join of the list followed by all of that chunk's
/// bytes, so the joined length is the sum of the chunks' lengths.
pub proof fn lemma_join_keeps_every_byte(cs: Seq<Vec<u8>>, c: Vec<u8>)
    ensures
        concat_chunks(Seq::empty()) == Seq::<u8>::empty(),
        concat_chunks(cs.push(c)) == concat_chunks(cs) + c@,
        concat_chunks(cs.push(c)).len() == concat_chunks(cs).len() + c@.len(),
{
    assert(cs.push(c).drop_last() =~= cs);
}

/// The error of processing a field whose cause chain is `causes`.
pub open spec fn is_payload_error(e: FileSystemError, causes: Seq<Seq<char>>) -> bool {
    e matches FileSystemError::Payload(c) && texts(c@) == causes
}

/// Where a file field is saved, for a generated name and a file extension.
pub open spec fn temp_file_path(id: Seq<char>, ext: Seq<char>) -> Seq<char> {
    "./app/tempfiles/"@ + id + "."@ + ext
}

/// What a file field gives once its filename, content type and extension
/// are known and its temporary file is named by `id`: the error that stopped
/// reading its chunks, if any; no payload for an empty file; else the file.
pub open spec fn file_field_result(
    r: Result<Option<FilePayload>, FileSystemError>,
    filename: String,
    mime: String,
    ext: Seq<char>,
    id: Seq<char>,
    chunks: Seq<Vec<u8>>,
    failure: Option<Vec<String>>,
) -> bool {
    &&& failure matches Some(c) ==> (r matches Err(e) && is_payload_error(e, texts(c@)))
    &&& failure is None ==> (r matches Ok(o) && {
        let data = concat_chunks(chunks);
        &&& (o is None <==> data.len() == 0)
        &&& (o matches Some(p) ==> {
            &&& p.data@ == data
            &&& p.filename == filename
            &&& p.mime == mime
            &&& p.hash@ == blake3_digest(data)
            &&& p.tmp_path@ == temp_file_path(id, ext)
        })
    })
}

/// The BLAKE3 digest of the given bytes.
pub uninterp spec fn blake3_digest(data: Seq<u8>) -> Seq<u8>;

/// The file extension that `mime2ext` picks for a content type, if any.
pub uninterp spec fn mime_extension(mime: Seq<char>) -> Option<Seq<char>>;

/// Decodes bytes as UTF-8 (std's `str::from_utf8`): the text exactly when the
/// bytes are valid UTF-8.
#[verifier::external_body]
fn utf8_text(bytes: &[u8]) -> (r: Option<String>)
    ensures
        r is Some <==> valid_utf8(bytes@),
        r matches Some(t) ==> t@ == decode_utf8(bytes@),
{
    match std::str::from_utf8(bytes) {
        Ok(t) => Some(t.to_string()),
        Err(_) => None,
    }
}

/// `blake3::hash`: the 32-byte BLAKE3 digest of `data`.
#[verifier::external_body]
fn blake3_hash(data: &[u8]) -> (r: Vec<u8>)
    ensures
        r@ == blake3_digest(data@),
        r@.len() == 32,
{
    blake3::hash(data).as_bytes().to_vec()
}

/// `mime2ext::mime2ext`: the extension registered for a content type, read
/// from the crate's built-in table; the claim is only that the result is a
/// function of the content type.
#[verifier::external_body]
fn guess_extension(mime: &str) -> (r: Option<String>)
    ensures
        r matches Some(e) ==> mime_extension(mime@) == Some(e@),
        r is None ==> mime_extension(mime@) is None,
{
    mime2ext::mime2ext(mime).map(|e| e.to_string())
}

/// A lowercase hexadecimal digit.
pub open spec fn is_lower_hex_digit(c: char) -> bool {
    (48 <= c as u32 && c as u32 <= 57) || (97 <= c as u32 && c as u32 <= 102)
}

/// A version 4 UUID in hyphenated lowercase form: 36 characters, hyphens at
/// positions 8, 13, 18 and 23, lowercase hex digits elsewhere, the version
/// digit `4` at position 14 and a variant digit `8`, `9`, `a` or `b` at
/// position 19.
pub open spec fn is_hyphenated_v4(s: Seq<char>) -> bool {
    &&& s.len() == 36
    &&& forall|i: int|
        0 <= i < 36 ==> if i == 8 || i == 13 || i == 18 || i == 23 {
            s[i] == '-'
        } else {
            is_lower_hex_digit(#[trigger] s[i])
        }
    &&& s[14] == '4'
    &&& (s[19] == '8' || s[19] == '9' || s[19] == 'a' || s[19] == 'b')
}

/// `uuid::Uuid::new_v4`, written by its `Display` impl (lowercase,
/// hyphenated). The identifier is random, so which one comes back is not
/// stated, only its form.
#[verifier::external_body]
fn random_file_id() -> (r: String)
    ensures
        is_hyphenated_v4(r@),
{
    uuid::Uuid::new_v4().to_string()
}

/// The bytes of all chunks, in order.
pub fn join_chunks(chunks: &Vec<Vec<u8>>) -> (r: Vec<u8>)
    ensures
        r@ == concat_chunks(chunks@),
{
    let mut data: Vec<u8> = Vec::new();
    let mut i: usize = 0;
    while i < chunks.len()
        invariant
            i <= chunks.len(),
            data@ == concat_chunks(chunks@.take(i as int)),
        decreases chunks.len() - i,
    {
        let chunk = &chunks[i];
        let ghost before = data@;
        let mut j: usize = 0;
        while j < chunk.len()
            invariant
                j <= chunk.len(),
                data@ == before + chunk@.take(j as int),
            decreases chunk.len() - j,
        {
            data.push(chunk[j]);
            proof {
                assert(chunk@.take(j + 1) =~= chunk@.take(j as int).push(chunk@[j as int]));
            }
            j = j + 1;
        }
        proof {
            assert(chunk@.take(chunk@.len() as int) =~= chunk@);
            assert(chunks@.take(i + 1).drop_last() =~= chunks@.take(i as int));
        }
        i = i + 1;
    }
    proof {
        assert(chunks@.take(chunks@.len() as int) =~= chunks@);
    }
    data
}

/// Decides how a form field is read: a field must be named, and it is a
/// file exactly when it carries a content type.
pub fn classify_field(name: Option<String>, has_content_type: bool) -> (r: Result<
    (String, FieldKind),
    FileSystemError,
>)
    ensures
        name is None ==> (r matches Err(e) && is_payload_error(e, seq!["Field name not found"@])),
        name matches Some(n) ==> (r matches Ok((m, k)) && m == n && k == (if has_content_type {
            FieldKind::File
        } else {
            FieldKind::Text
        })),
{
    match name {
        None => Err(FileSystemError::Payload(single_cause("Field name not found"))),
        Some(n) => {
            let kind = if has_content_type {
                FieldKind::File
            } else {
                FieldKind::Text
            };
            Ok((n, kind))
        },
    }
}

/// A text field from the chunks read for it; `failure` is the cause chain
/// of the error that stopped the reading, if one did. An empty field, or
/// one that is not UTF-8, gives no payload.
pub fn process_nonfile_field(chunks: Vec<Vec<u8>>, failure: Option<Vec<String>>) -> (r: Result<
    Option<NonfilePayload>,
    FileSystemError,
>)
    ensures
        failure matches Some(c) ==> (r matches Err(e) && is_payload_error(e, texts(c@))),
        failure is None ==> (r matches Ok(o) && {
            let data = concat_chunks(chunks@);
            &&& (o is None <==> (data.len() == 0 || !valid_utf8(data)))
            &&& (o matches Some(p) ==> p.data@ == data && p.text@ == decode_utf8(data))
            &&& (o matches Some(p) ==> encode_utf8(p.text@) == p.data@)
        }),
{
    if let Some(c) = failure {
        return Err(FileSystemError::Payload(c));
    }
    let data = join_chunks(&chunks);
    if data.len() == 0 {
        return Ok(None);
    }
    match utf8_text(data.as_slice()) {
        None => Ok(None),
        Some(text) => {
            proof {
                decode_utf8_encode_utf8(data@);
            }
            Ok(Some(NonfilePayload { data, text }))
        },
    }
}

/// A file field once its name, content type and extension are known: it is
/// saved under `./app/tempfiles/{id}.{ext}`. `failure` is the cause chain of
/// the error that stopped reading the chunks, if one did. An empty file
/// gives no payload.
pub fn assemble_file_payload(
    filename: String,
    mime: String,
    ext: &str,
    id: &str,
    chunks: Vec<Vec<u8>>,
    failure: Option<Vec<String>>,
) -> (r: Result<Option<FilePayload>, FileSystemError>)
    ensures
        file_field_result(r, filename, mime, ext@, id@, chunks@, failure),
{
    let mut tmp_path = String::from_str("./app/tempfiles/");
    tmp_path.append(id);
    tmp_path.append(".");
    tmp_path.append(ext);
    if let Some(c) = failure {
        return Err(FileSystemError::Payload(c));
    }
    let data = join_chunks(&chunks);
    let hash = blake3_hash(data.as_slice());
    if data.len() == 0 {
        return Ok(None);
    }
    Ok(Some(FilePayload { data, filename, hash, tmp_path, mime }))
}

/// A file field from its filename, its content type and the chunks read for
/// it. The field needs a filename, a content type, and an extension known
/// for that type; the file is then named by a fresh random version 4 UUID.
pub fn process_file_field(
    filename: Option<String>,
    mime: Option<String>,
    chunks: Vec<Vec<u8>>,
    failure: Option<Vec<String>>,
) -> (r: Result<Option<FilePayload>, FileSystemError>)
    ensures
        filename is None ==> (r matches Err(e) && is_payload_error(
            e,
            seq!["field missing filename"@],
        )),
        filename is Some && mime is None ==> (r matches Err(e) && is_payload_error(
            e,
            seq!["field mime not found"@],
        )),
        (mime matches Some(m) && mime_extension(m@) is None && filename is Some) ==> (r matches Err(e)
            && is_payload_error(e, seq!["Could not guess fiel field ext"@])),
        filename is Some && mime is Some && mime_extension(mime.unwrap()@) is Some ==> exists|
            id: Seq<char>,
        |
            is_hyphenated_v4(id) && #[trigger] file_field_result(
                r,
                filename.unwrap(),
                mime.unwrap(),
                mime_extension(mime.unwrap()@).unwrap(),
                id,
                chunks@,
                failure,
            ),
{
    let ghost filename_in = filename;
    let ghost mime_in = mime;
    let filename = match filename {
        None => {
            return Err(FileSystemError::Payload(single_cause("field missing filename")));
        },
        Some(f) => f,
    };
    let mime = match mime {
        None => {
            return Err(FileSystemError::Payload(single_cause("field mime not found")));
        },
        Some(m) => m,
    };
    let ext = match guess_extension(mime.as_str()) {
        None => {
            return Err(
                FileSystemError::Payload(single_cause("Could not guess fiel field ext")),
            );
        },
        Some(e) => e,
    };
    let id = random_file_id();
    let ghost chunks_v = chunks@;
    let r = assemble_file_payload(filename, mime, ext.as_str(), id.as_str(), chunks, failure);
    proof {
        // the generated identifier witnesses the existential of the contract
        assert(file_field_result(
            r,
            filename_in.unwrap(),
            mime_in.unwrap(),
            mime_extension(mime_in.unwrap()@).unwrap(),
            id@,
            chunks_v,
            failure,
        ));
    }
    r
}

/// The map from field name to processed field that an entry list denotes.
pub open spec fn entries_map(s: Seq<(String, UploadPayload)>) -> Map<Seq<char>, UploadPayload>
    decreases s.len(),
{
    if s.len() == 0 {
        Map::empty()
    } else {
        entries_map(s.drop_last()).insert(s.last().0@, s.last().1)
    }
}

/// No two entries carry the same field name.
pub open spec fn names_unique(s: Seq<(String, UploadPayload)>) -> bool {
    forall|i: int, j: int|
        0 <= i < s.len() && 0 <= j < s.len() && i != j ==> #[trigger] s[i].0@ != #[trigger] s[j].0@
}

proof fn lemma_entries_map_keys(s: Seq<(String, UploadPayload)>, k: Seq<char>)
    ensures
        entries_map(s).contains_key(k) <==> exists|i: int| 0 <= i < s.len() && #[trigger] s[i].0@ == k,
    decreases s.len(),
{
    if s.len() > 0 {
        let t = s.drop_last();
        lemma_entries_map_keys(t, k);
        if entries_map(s).contains_key(k) && k != s.last().0@ {
            let i = choose|i: int| 0 <= i < t.len() && #[trigger] t[i].0@ == k;
            assert(s[i].0@ == k);
        }
        if exists|i: int| 0 <= i < s.len() && #[trigger] s[i].0@ == k {
            let i = choose|i: int| 0 <= i < s.len() && #[trigger] s[i].0@ == k;
            if i < s.len() - 1 {
                assert(t[i].0@ == k);
            }
        }
    }
}

proof fn lemma_entries_map_value(s: Seq<(String, UploadPayload)>, i: int)
    requires
        names_unique(s),
        0 <= i < s.len(),
    ensures
        entries_map(s).contains_key(s[i].0@),
        entries_map(s)[s[i].0@] == s[i].1,
    decreases s.len(),
{
    let t = s.drop_last();
    if i < s.len() - 1 {
        assert(names_unique(t));
        assert(t[i] == s[i]);
        lemma_entries_map_value(t, i);
        assert(s[i].0@ != s[s.len() - 1].0@);
    }
}

proof fn lemma_entries_map_update(s: Seq<(String, UploadPayload)>, i: int, e: (String, UploadPayload))
    requires
        names_unique(s),
        0 <= i < s.len(),
        s[i].0@ == e.0@,
    ensures
        names_unique(s.update(i, e)),
        entries_map(s.update(i, e)) =~= entries_map(s).insert(e.0@, e.1),
{
    let u = s.update(i, e);
    assert(names_unique(u)) by {
        assert forall|a: int, b: int|
            0 <= a < u.len() && 0 <= b < u.len() && a != b implies #[trigger] u[a].0@
            != #[trigger] u[b].0@ by {
            assert(u[a].0@ == s[a].0@);
            assert(u[b].0@ == s[b].0@);
        }
    }
    let lhs = entries_map(u);
    let rhs = entries_map(s).insert(e.0@, e.1);
    assert forall|k: Seq<char>| lhs.contains_key(k) <==> rhs.contains_key(k) by {
        lemma_entries_map_keys(u, k);
        lemma_entries_map_keys(s, k);
        if exists|j: int| 0 <= j < s.len() && #[trigger] s[j].0@ == k {
            let j = choose|j: int| 0 <= j < s.len() && #[trigger] s[j].0@ == k;
            assert(u[j].0@ == k);
        }
        if exists|j: int| 0 <= j < u.len() && #[trigger] u[j].0@ == k {
            let j = choose|j: int| 0 <= j < u.len() && #[trigger] u[j].0@ == k;
            assert(s[j].0@ == k);
        }
        if k == e.0@ {
            assert(u[i].0@ == k);
        }
    }
    assert forall|k: Seq<char>| #[trigger] lhs.contains_key(k) implies lhs[k] == rhs[k] by {
        lemma_entries_map_keys(u, k);
        let j = choose|j: int| 0 <= j < u.len() && #[trigger] u[j].0@ == k;
        lemma_entries_map_value(u, j);
        if j != i {
            assert(s[j] == u[j]);
            lemma_entries_map_value(s, j);
        }
    }
}

/// The processed fields of a form, by field name; recording a field under a
/// name already present replaces the earlier one.
pub struct PayloadMap {
    entries: Vec<(String, UploadPayload)>,
}

impl View for PayloadMap {
    type V = Map<Seq<char>, UploadPayload>;

    closed spec fn view(&self) -> Map<Seq<char>, UploadPayload> {
        entries_map(self.entries@)
    }
}

impl PayloadMap {
    /// The map is well formed: each name occurs once.
    pub closed spec fn wf(&self) -> bool {
        names_unique(self.entries@)
    }

    /// The empty map.
    pub fn new() -> (r: PayloadMap)
        ensures
            r.wf(),
            r@ == Map::<Seq<char>, UploadPayload>::empty(),
    {
        PayloadMap { entries: Vec::new() }
    }

    fn position(&self, name: &String) -> (r: Option<usize>)
        requires
            self.wf(),
        ensures
            r matches Some(i) ==> i < self.entries@.len() && self.entries@[i as int].0@ == name@,
            r is None ==> forall|i: int|
                0 <= i < self.entries@.len() ==> #[trigger] self.entries@[i].0@ != name@,
    {
        let mut i: usize = 0;
        while i < self.entries.len()
            invariant
                i <= self.entries@.len(),
                forall|j: int| 0 <= j < i ==> #[trigger] self.entries@[j].0@ != name@,
            decreases self.entries.len() - i,
        {
            if self.entries[i].0 == *name {
                return Some(i);
            }
            i = i + 1;
        }
        None
    }

    /// Records a processed field under its name; a field that gave no
    /// payload leaves the map as it was.
    pub fn record(&mut self, name: String, payload: Option<UploadPayload>)
        requires
            old(self).wf(),
        ensures
            final(self).wf(),
            final(self)@ == (match payload {
                Some(p) => old(self)@.insert(name@, p),
                None => old(self)@,
            }),
    {
        match payload {
            None => {},
            Some(p) => {
                match self.position(&name) {
                    Some(i) => {
                        proof {
                            lemma_entries_map_update(self.entries@, i as int, (name, p));
                        }
                        self.entries.set(i, (name, p));
                    },
                    None => {
                        let ghost s = self.entries@;
                        self.entries.push((name, p));
                        proof {
                            let u = self.entries@;
                            assert(u.drop_last() =~= s);
                            assert forall|a: int, b: int|
                                0 <= a < u.len() && 0 <= b < u.len() && a != b implies #[trigger] u[a].0@
                                != #[trigger] u[b].0@ by {
                                if a < s.len() && b < s.len() {
                                    assert(u[a] == s[a] && u[b] == s[b]);
                                } else if a < s.len() {
                                    assert(u[a] == s[a]);
                                } else {
                                    assert(u[b] == s[b]);
                                }
                            }
                        }
                    },
                }
            },
        }
    }

    /// The field recorded under `name`, if any.
    pub fn get(&self, name: &str) -> (r: Option<&UploadPayload>)
        requires
            self.wf(),
        ensures
            r is Some <==> self@.contains_key(name@),
            r matches Some(p) ==> *p == self@[name@],
    {
        let key = String::from_str(name);
        proof {
            lemma_entries_map_keys(self.entries@, name@);
        }
        match self.position(&key) {
            Some(i) => {
                proof {
                    lemma_entries_map_value(self.entries@, i as int);
                }
                Some(&self.entries[i].1)
            },
            None => None,
        }
    }
}

/// Recording a payload under a name makes it the one found under that name,
/// and leaves what is found under every other name as it was.
pub proof fn lemma_recorded_payload_is_found(
    m: Map<Seq<char>, UploadPayload>,
    name: Seq<char>,
    p: UploadPayload,
    other: Seq<char>,
)
    ensures
        m.insert(name, p).contains_key(name),
        m.insert(name, p)[name] == p,
        other != name ==> m.insert(name, p).contains_key(other) == m.contains_key(other),
        other != name && m.contains_key(other) ==> m.insert(name, p)[other] == m[other],
{
}

/// The notice about the form's text field, if one is shown.
pub open spec fn text_field_notice(m: Map<Seq<char>, UploadPayload>) -> Option<Seq<char>> {
    if m.contains_key("text-field"@) {
        match m["text-field"@] {
            UploadPayload::Nonfile(f) => Some("name: text-field | text: "@ + f.text@),
            UploadPayload::File(_) => None,
        }
    } else {
        Some("text-file field not processed"@)
    }
}

/// The notice about the form's file field, if one is shown.
pub open spec fn file_field_notice(m: Map<Seq<char>, UploadPayload>) -> Option<Seq<char>> {
    if m.contains_key("file-field"@) {
        match m["file-field"@] {
            UploadPayload::File(f) => Some(
                "name: file-field | filename: "@ + f.filename@ + " | tmp_path: "@ + f.tmp_path@,
            ),
            UploadPayload::Nonfile(_) => None,
        }
    } else {
        Some("field-file field not processed"@)
    }
}

/// The notice about the text field depends only on what is recorded under
/// "text-field", and says that the field was not processed when nothing is.
pub proof fn lemma_text_notice_reads_only_the_text_field(
    m1: Map<Seq<char>, UploadPayload>,
    m2: Map<Seq<char>, UploadPayload>,
)
    requires
        m1.contains_key("text-field"@) == m2.contains_key("text-field"@),
        m1.contains_key("text-field"@) ==> m1["text-field"@] == m2["text-field"@],
    ensures
        text_field_notice(m1) == text_field_notice(m2),
        !m1.contains_key("text-field"@) ==> text_field_notice(m1) == Some(
            "text-file field not processed"@,
        ),
{
}

/// The notice about the file field depends only on what is recorded under
/// "file-field", and says that the field was not processed when nothing is,
/// whatever the text field holds.
pub proof fn lemma_file_notice_reads_only_the_file_field(
    m1: Map<Seq<char>, UploadPayload>,
    m2: Map<Seq<char>, UploadPayload>,
)
    requires
        m1.contains_key("file-field"@) == m2.contains_key("file-field"@),
        m1.contains_key("file-field"@) ==> m1["file-field"@] == m2["file-field"@],
    ensures
        file_field_notice(m1) == file_field_notice(m2),
        !m1.contains_key("file-field"@) ==> file_field_notice(m1) == Some(
            "field-file field not processed"@,
        ),
{
}

/// The sequence holding the value of an option, if it has one.
pub open spec fn option_to_seq<T>(o: Option<T>) -> Seq<T> {
    match o {
        Some(x) => seq![x],
        None => Seq::empty(),
    }
}

/// The notices shown after an upload: first the one about the text field,
/// then the one about the file field, each where there is one.
pub fn upload_flash_messages(map: &PayloadMap) -> (r: Vec<String>)
    requires
        map.wf(),
    ensures
        texts(r@) == option_to_seq(text_field_notice(map@)) + option_to_seq(
            file_field_notice(map@),
        ),
        !map@.contains_key("text-field"@) ==> r@.len() >= 1 && r@[0]@
            == "text-file field not processed"@,
        !map@.contains_key("file-field"@) ==> r@.len() >= 1 && r@.last()@
            == "field-file field not processed"@,
{
    let mut r: Vec<String> = Vec::new();
    match map.get("text-field") {
        Some(UploadPayload::Nonfile(f)) => {
            let mut msg = String::from_str("name: text-field | text: ");
            msg.append(f.text.as_str());
            r.push(msg);
        },
        Some(UploadPayload::File(_)) => {},
        None => {
            r.push(String::from_str("text-file field not processed"));
        },
    }
    let ghost first = r@;
    match map.get("file-field") {
        Some(UploadPayload::File(f)) => {
            let mut msg = String::from_str("name: file-field | filename: ");
            msg.append(f.filename.as_str());
            msg.append(" | tmp_path: ");
            msg.append(f.tmp_path.as_str());
            r.push(msg);
        },
        Some(UploadPayload::Nonfile(_)) => {},
        None => {
            r.push(String::from_str("field-file field not processed"));
        },
    }
    proof {
        assert(texts(first) =~= option_to_seq(text_field_notice(map@)));
        assert(texts(r@).len() == r@.len());
        if r@.len() >= 1 {
            assert(texts(r@)[0] == r@[0]@);
            assert(texts(r@)[r@.len() - 1] == r@.last()@);
        }
        assert(texts(r@) =~= option_to_seq(text_field_notice(map@)) + option_to_seq(
            file_field_notice(map@),
        ));
    }
    r
}

/// The error shown when the upload's fields could not be processed: the
/// processing error, under the context "Multipart processing error".
pub fn upload_failure(err: &FileSystemError) -> (r: UploadError)
    ensures
        r matches UploadError::UnexpectedError(c) && texts(c@) == seq![
            "Multipart processing error"@,
            err.spec_message(),
        ] + texts(err.spec_causes()),
{
    let mut chain: Vec<String> = Vec::new();
    chain.push(String::from_str("Multipart processing error"));
    chain.push(String::from_str(err.message()));
    let causes = err.causes();
    let mut i: usize = 0;
    while i < causes.len()
        invariant
            i <= causes@.len(),
            causes@ == err.spec_causes(),
            texts(chain@) == seq!["Multipart processing error"@, err.spec_message()] + texts(
                causes@.take(i as int),
            ),
        decreases causes.len() - i,
    {
        let ghost before = chain@;
        chain.push(causes[i].clone());
        proof {
            assert(texts(chain@) =~= texts(before).push(causes@[i as int]@));
            assert(texts(causes@.take(i + 1)) =~= texts(causes@.take(i as int)).push(causes@[i as int]@));
            assert(texts(chain@) =~= seq!["Multipart processing error"@, err.spec_message()] + texts(
                causes@.take(i + 1),
            ));
        }
        i = i + 1;
    }
    proof {
        assert(causes@.take(causes@.len() as int) =~= causes@);
    }
    UploadError::UnexpectedError(chain)
}

} // verus!
