//! Typed drive and file records, decoded field by field from JSON records.
use crate::json::{entries_of, entry_get, json_of, jsons, Json};
use crate::text::{chars_of, ends_with, ends_with_chars};
use serde_json::Value;
use vstd::prelude::*;

verus! {

/// A drive as the CLI lists it. `drive_id` is its stable key; `name` is a
/// label that may change and need not be unique.
#[derive(Debug)]
pub struct ArDriveDrive {
    pub app_name: Option<String>,
    pub app_version: Option<String>,
    pub ar_fs: Option<String>,
    pub content_type: Option<String>,
    pub drive_id: Option<String>,
    pub entity_type: Option<String>,
    pub name: Option<String>,
    pub tx_id: Option<String>,
    pub unix_time: Option<u64>,
    pub custom_meta_data_gql_tags: Option<serde_json::Map<String, Value>>,
    pub custom_meta_data_json: Option<serde_json::Map<String, Value>>,
    pub drive_privacy: Option<String>,
    pub root_folder_id: Option<String>,
    pub drive_auth_mode: Option<String>,
    pub cipher: Option<String>,
    pub cipher_iv: Option<String>,
    pub drive_signature_type: Option<u8>,
}

/// A file stored in a drive.
#[derive(Debug, Clone, PartialEq, Eq)]
pub struct ArDriveFile {
    pub entity_type: Option<String>,
    pub name: Option<String>,
    /// Transaction that holds the file's data.
    pub data_tx_id: Option<String>,
    /// Transaction that holds the file's metadata.
    pub metadata_tx_id: Option<String>,
    pub parent_folder_id: Option<String>,
    pub size: Option<u64>,
    pub last_modified_date: Option<u64>,
    pub content_type: Option<String>,
    pub data_content_type: Option<String>,
}

/// A record that did not decode: its position, and the field at fault (or
/// `None` where the record is not an object).
#[derive(Debug, Clone, PartialEq, Eq)]
pub struct RecordError {
    pub index: usize,
    pub field: Option<String>,
}

/// The characters of an optional string.
pub open spec fn text_view(o: Option<String>) -> Option<Seq<char>> {
    match o {
        Some(s) => Some(s@),
        None => None,
    }
}

/// The entries of an optional map.
pub open spec fn map_view(o: Option<serde_json::Map<String, Value>>) -> Option<
    Seq<(Seq<char>, Json)>,
> {
    match o {
        Some(m) => Some(entries_of(m)),
        None => None,
    }
}

/// A text field: absent or null reads as nothing, a string as itself;
/// anything else does not decode (`None`).
pub open spec fn text_field(es: Seq<(Seq<char>, Json)>, key: Seq<char>) -> Option<
    Option<Seq<char>>,
> {
    match entry_get(es, key) {
        None => Some(None),
        Some(Json::Null) => Some(None),
        Some(Json::Str(s)) => Some(Some(s)),
        _ => None,
    }
}

/// An unsigned 64-bit field: absent or null reads as nothing.
pub open spec fn u64_field(es: Seq<(Seq<char>, Json)>, key: Seq<char>) -> Option<Option<u64>> {
    match entry_get(es, key) {
        None => Some(None),
        Some(Json::Null) => Some(None),
        Some(Json::Num(Some(n))) => Some(Some(n)),
        _ => None,
    }
}

/// An unsigned 8-bit field: absent or null reads as nothing.
pub open spec fn u8_field(es: Seq<(Seq<char>, Json)>, key: Seq<char>) -> Option<Option<u8>> {
    match entry_get(es, key) {
        None => Some(None),
        Some(Json::Null) => Some(None),
        Some(Json::Num(Some(n))) => if n < 256 {
            Some(Some(n as u8))
        } else {
            None
        },
        _ => None,
    }
}

/// An object field: absent or null reads as nothing.
pub open spec fn object_field(es: Seq<(Seq<char>, Json)>, key: Seq<char>) -> Option<
    Option<Seq<(Seq<char>, Json)>>,
> {
    match entry_get(es, key) {
        None => Some(None),
        Some(Json::Null) => Some(None),
        Some(Json::Obj(o)) => Some(Some(o)),
        _ => None,
    }
}

/// Whether `f` is what the record `j` decodes to, field by field.
pub open spec fn decodes_file(j: Json, f: ArDriveFile) -> bool {
    &&& j matches Json::Obj(es)
    &&& text_field(es, "entityType"@) == Some(text_view(f.entity_type))
    &&& text_field(es, "name"@) == Some(text_view(f.name))
    &&& text_field(es, "dataTxId"@) == Some(text_view(f.data_tx_id))
    &&& text_field(es, "metadataTxId"@) == Some(text_view(f.metadata_tx_id))
    &&& text_field(es, "parentFolderId"@) == Some(text_view(f.parent_folder_id))
    &&& u64_field(es, "size"@) == Some(f.size)
    &&& u64_field(es, "lastModifiedDate"@) == Some(f.last_modified_date)
    &&& text_field(es, "contentType"@) == Some(text_view(f.content_type))
    &&& text_field(es, "dataContentType"@) == Some(text_view(f.data_content_type))
}

/// Whether the record `j` decodes to a file.
pub open spec fn file_decodable(j: Json) -> bool {
    &&& j matches Json::Obj(es)
    &&& text_field(es, "entityType"@) is Some
    &&& text_field(es, "name"@) is Some
    &&& text_field(es, "dataTxId"@) is Some
    &&& text_field(es, "metadataTxId"@) is Some
    &&& text_field(es, "parentFolderId"@) is Some
    &&& u64_field(es, "size"@) is Some
    &&& u64_field(es, "lastModifiedDate"@) is Some
    &&& text_field(es, "contentType"@) is Some
    &&& text_field(es, "dataContentType"@) is Some
}

/// Whether `d` is what the record `j` decodes to, field by field.
pub open spec fn decodes_drive(j: Json, d: ArDriveDrive) -> bool {
    &&& j matches Json::Obj(es)
    &&& text_field(es, "appName"@) == Some(text_view(d.app_name))
    &&& text_field(es, "appVersion"@) == Some(text_view(d.app_version))
    &&& text_field(es, "arFS"@) == Some(text_view(d.ar_fs))
    &&& text_field(es, "contentType"@) == Some(text_view(d.content_type))
    &&& text_field(es, "driveId"@) == Some(text_view(d.drive_id))
    &&& text_field(es, "entityType"@) == Some(text_view(d.entity_type))
    &&& text_field(es, "name"@) == Some(text_view(d.name))
    &&& text_field(es, "txId"@) == Some(text_view(d.tx_id))
    &&& u64_field(es, "unixTime"@) == Some(d.unix_time)
    &&& object_field(es, "customMetaDataGqlTags"@) == Some(map_view(d.custom_meta_data_gql_tags))
    &&& object_field(es, "customMetaDataJson"@) == Some(map_view(d.custom_meta_data_json))
    &&& text_field(es, "drivePrivacy"@) == Some(text_view(d.drive_privacy))
    &&& text_field(es, "rootFolderId"@) == Some(text_view(d.root_folder_id))
    &&& text_field(es, "driveAuthMode"@) == Some(text_view(d.drive_auth_mode))
    &&& text_field(es, "cipher"@) == Some(text_view(d.cipher))
    &&& text_field(es, "cipherIV"@) == Some(text_view(d.cipher_iv))
    &&& u8_field(es, "driveSignatureType"@) == Some(d.drive_signature_type)
}

/// Whether the record `j` decodes to a drive.
pub open spec fn drive_decodable(j: Json) -> bool {
    &&& j matches Json::Obj(es)
    &&& text_field(es, "appName"@) is Some
    &&& text_field(es, "appVersion"@) is Some
    &&& text_field(es, "arFS"@) is Some
    &&& text_field(es, "contentType"@) is Some
    &&& text_field(es, "driveId"@) is Some
    &&& text_field(es, "entityType"@) is Some
    &&& text_field(es, "name"@) is Some
    &&& text_field(es, "txId"@) is Some
    &&& u64_field(es, "unixTime"@) is Some
    &&& object_field(es, "customMetaDataGqlTags"@) is Some
    &&& object_field(es, "customMetaDataJson"@) is Some
    &&& text_field(es, "drivePrivacy"@) is Some
    &&& text_field(es, "rootFolderId"@) is Some
    &&& text_field(es, "driveAuthMode"@) is Some
    &&& text_field(es, "cipher"@) is Some
    &&& text_field(es, "cipherIV"@) is Some
    &&& u8_field(es, "driveSignatureType"@) is Some
}

/// Reads a text field of `m`; `Err` names the key.
fn read_text(m: &serde_json::Map<String, Value>, key: &str) -> (r: Result<Option<String>, String>)
    ensures
        r matches Ok(o) ==> text_field(entries_of(*m), key@) == Some(text_view(o)),
        r is Err ==> text_field(entries_of(*m), key@) is None,
{
    match crate::json::object_get(m, key) {
        None => Ok(None),
        Some(x) => {
            if x.is_null() {
                Ok(None)
            } else {
                match x.as_str() {
                    Some(s) => Ok(Some(s.to_owned())),
                    None => Err(key.to_owned()),
                }
            }
        },
    }
}

/// Reads an unsigned 64-bit field of `m`; `Err` names the key.
fn read_u64(m: &serde_json::Map<String, Value>, key: &str) -> (r: Result<Option<u64>, String>)
    ensures
        r matches Ok(o) ==> u64_field(entries_of(*m), key@) == Some(o),
        r is Err ==> u64_field(entries_of(*m), key@) is None,
{
    match crate::json::object_get(m, key) {
        None => Ok(None),
        Some(x) => {
            if x.is_null() {
                Ok(None)
            } else {
                match x.as_u64() {
                    Some(n) => Ok(Some(n)),
                    None => Err(key.to_owned()),
                }
            }
        },
    }
}

/// Reads an unsigned 8-bit field of `m`; `Err` names the key.
fn read_u8(m: &serde_json::Map<String, Value>, key: &str) -> (r: Result<Option<u8>, String>)
    ensures
        r matches Ok(o) ==> u8_field(entries_of(*m), key@) == Some(o),
        r is Err ==> u8_field(entries_of(*m), key@) is None,
{
    match crate::json::object_get(m, key) {
        None => Ok(None),
        Some(x) => {
            if x.is_null() {
                Ok(None)
            } else {
                match x.as_u64() {
                    Some(n) => if n < 256 {
                        Ok(Some(n as u8))
                    } else {
                        Err(key.to_owned())
                    },
                    None => Err(key.to_owned()),
                }
            }
        },
    }
}

/// Reads an object field of `m`; `Err` names the key.
fn read_object(m: &serde_json::Map<String, Value>, key: &str) -> (r: Result<
    Option<serde_json::Map<String, Value>>,
    String,
>)
    ensures
        r matches Ok(o) ==> object_field(entries_of(*m), key@) == Some(map_view(o)),
        r is Err ==> object_field(entries_of(*m), key@) is None,
{
    match crate::json::object_get(m, key) {
        None => Ok(None),
        Some(x) => {
            if x.is_null() {
                Ok(None)
            } else {
                match x.as_object() {
                    Some(o) => Ok(Some(o.clone())),
                    None => Err(key.to_owned()),
                }
            }
        },
    }
}

impl ArDriveFile {
    /// Decodes one file record; `Err` names the field at fault, or is
    /// `None` where the record is not an object.
    pub fn from_value(v: &Value) -> (r: Result<ArDriveFile, Option<String>>)
        ensures
            r is Ok <==> file_decodable(json_of(*v)),
            r matches Ok(f) ==> decodes_file(json_of(*v), f),
    {
        let m = match v.as_object() {
            Some(m) => m,
            None => return Err(None),
        };
        let entity_type = match read_text(m, "entityType") { Ok(x) => x, Err(k) => return Err(Some(k)) };
        let name = match read_text(m, "name") { Ok(x) => x, Err(k) => return Err(Some(k)) };
        let data_tx_id = match read_text(m, "dataTxId") { Ok(x) => x, Err(k) => return Err(Some(k)) };
        let metadata_tx_id = match read_text(m, "metadataTxId") { Ok(x) => x, Err(k) => return Err(Some(k)) };
        let parent_folder_id = match read_text(m, "parentFolderId") { Ok(x) => x, Err(k) => return Err(Some(k)) };
        let size = match read_u64(m, "size") { Ok(x) => x, Err(k) => return Err(Some(k)) };
        let last_modified_date = match read_u64(m, "lastModifiedDate") { Ok(x) => x, Err(k) => return Err(Some(k)) };
        let content_type = match read_text(m, "contentType") { Ok(x) => x, Err(k) => return Err(Some(k)) };
        let data_content_type = match read_text(m, "dataContentType") { Ok(x) => x, Err(k) => return Err(Some(k)) };
        Ok(ArDriveFile {
            entity_type,
            name,
            data_tx_id,
            metadata_tx_id,
            parent_folder_id,
            size,
            last_modified_date,
            content_type,
            data_content_type,
        })
    }
}

impl ArDriveDrive {
    /// Decodes one drive record; `Err` names the field at fault, or is
    /// `None` where the record is not an object.
    pub fn from_value(v: &Value) -> (r: Result<ArDriveDrive, Option<String>>)
        ensures
            r is Ok <==> drive_decodable(json_of(*v)),
            r matches Ok(d) ==> decodes_drive(json_of(*v), d),
    {
        let m = match v.as_object() {
            Some(m) => m,
            None => return Err(None),
        };
        let app_name = match read_text(m, "appName") { Ok(x) => x, Err(k) => return Err(Some(k)) };
        let app_version = match read_text(m, "appVersion") { Ok(x) => x, Err(k) => return Err(Some(k)) };
        let ar_fs = match read_text(m, "arFS") { Ok(x) => x, Err(k) => return Err(Some(k)) };
        let content_type = match read_text(m, "contentType") { Ok(x) => x, Err(k) => return Err(Some(k)) };
        let drive_id = match read_text(m, "driveId") { Ok(x) => x, Err(k) => return Err(Some(k)) };
        let entity_type = match read_text(m, "entityType") { Ok(x) => x, Err(k) => return Err(Some(k)) };
        let name = match read_text(m, "name") { Ok(x) => x, Err(k) => return Err(Some(k)) };
        let tx_id = match read_text(m, "txId") { Ok(x) => x, Err(k) => return Err(Some(k)) };
        let unix_time = match read_u64(m, "unixTime") { Ok(x) => x, Err(k) => return Err(Some(k)) };
        let custom_meta_data_gql_tags = match read_object(m, "customMetaDataGqlTags") { Ok(x) => x, Err(k) => return Err(Some(k)) };
        let custom_meta_data_json = match read_object(m, "customMetaDataJson") { Ok(x) => x, Err(k) => return Err(Some(k)) };
        let drive_privacy = match read_text(m, "drivePrivacy") { Ok(x) => x, Err(k) => return Err(Some(k)) };
        let root_folder_id = match read_text(m, "rootFolderId") { Ok(x) => x, Err(k) => return Err(Some(k)) };
        let drive_auth_mode = match read_text(m, "driveAuthMode") { Ok(x) => x, Err(k) => return Err(Some(k)) };
        let cipher = match read_text(m, "cipher") { Ok(x) => x, Err(k) => return Err(Some(k)) };
        let cipher_iv = match read_text(m, "cipherIV") { Ok(x) => x, Err(k) => return Err(Some(k)) };
        let drive_signature_type = match read_u8(m, "driveSignatureType") { Ok(x) => x, Err(k) => return Err(Some(k)) };
        Ok(ArDriveDrive {
            app_name,
            app_version,
            ar_fs,
            content_type,
            drive_id,
            entity_type,
            name,
            tx_id,
            unix_time,
            custom_meta_data_gql_tags,
            custom_meta_data_json,
            drive_privacy,
            root_folder_id,
            drive_auth_mode,
            cipher,
            cipher_iv,
            drive_signature_type,
        })
    }
}

/// Whether every record of `js` decodes to a file.
pub open spec fn all_files_decodable(js: Seq<Json>) -> bool {
    forall|i: int| 0 <= i < js.len() ==> file_decodable(#[trigger] js[i])
}

/// Whether `fs` is what the records `js` decode to, one for one.
pub open spec fn files_decode(js: Seq<Json>, fs: Seq<ArDriveFile>) -> bool {
    &&& js.len() == fs.len()
    &&& forall|i: int| 0 <= i < js.len() ==> decodes_file(#[trigger] js[i], fs[i])
}

/// Whether every record of `js` decodes to a drive.
pub open spec fn all_drives_decodable(js: Seq<Json>) -> bool {
    forall|i: int| 0 <= i < js.len() ==> drive_decodable(#[trigger] js[i])
}

/// Whether `ds` is what the records `js` decode to, one for one.
pub open spec fn drives_decode(js: Seq<Json>, ds: Seq<ArDriveDrive>) -> bool {
    &&& js.len() == ds.len()
    &&& forall|i: int| 0 <= i < js.len() ==> decodes_drive(#[trigger] js[i], ds[i])
}

/// Decodes every record into a file, in order; the first record that does
/// not decode fails the whole batch.
pub fn decode_files(recs: &Vec<Value>) -> (r: Result<Vec<ArDriveFile>, RecordError>)
    ensures
        r is Ok <==> all_files_decodable(jsons(recs@)),
        r matches Ok(fs) ==> files_decode(jsons(recs@), fs@),
        r matches Err(e) ==> e.index < recs.len() && !file_decodable(jsons(recs@)[e.index as int])
            && all_files_decodable(jsons(recs@).take(e.index as int)),
{
    let ghost js = jsons(recs@);
    let mut out: Vec<ArDriveFile> = Vec::new();
    let mut i: usize = 0;
    while i < recs.len()
        invariant
            i <= recs.len(),
            js == jsons(recs@),
            files_decode(js.take(i as int), out@),
            all_files_decodable(js.take(i as int)),
        decreases recs.len() - i,
    {
        match ArDriveFile::from_value(&recs[i]) {
            Ok(f) => {
                out.push(f);
                proof {
                    assert(js.take(i + 1) =~= js.take(i as int).push(js[i as int]));
                }
            },
            Err(field) => {
                proof {
                    assert(js[i as int] == json_of(recs@[i as int]));
                    assert(!all_files_decodable(js));
                }
                return Err(RecordError { index: i, field });
            },
        }
        i = i + 1;
    }
    proof { assert(js.take(recs.len() as int) =~= js); }
    Ok(out)
}

/// Decodes every record into a drive, in order; the first record that does
/// not decode fails the whole batch.
pub fn decode_drives(recs: &Vec<Value>) -> (r: Result<Vec<ArDriveDrive>, RecordError>)
    ensures
        r is Ok <==> all_drives_decodable(jsons(recs@)),
        r matches Ok(ds) ==> drives_decode(jsons(recs@), ds@),
        r matches Err(e) ==> e.index < recs.len() && !drive_decodable(jsons(recs@)[e.index as int])
            && all_drives_decodable(jsons(recs@).take(e.index as int)),
{
    let ghost js = jsons(recs@);
    let mut out: Vec<ArDriveDrive> = Vec::new();
    let mut i: usize = 0;
    while i < recs.len()
        invariant
            i <= recs.len(),
            js == jsons(recs@),
            drives_decode(js.take(i as int), out@),
            all_drives_decodable(js.take(i as int)),
        decreases recs.len() - i,
    {
        match ArDriveDrive::from_value(&recs[i]) {
            Ok(d) => {
                out.push(d);
                proof {
                    assert(js.take(i + 1) =~= js.take(i as int).push(js[i as int]));
                }
            },
            Err(field) => {
                proof {
                    assert(js[i as int] == json_of(recs@[i as int]));
                    assert(!all_drives_decodable(js));
                }
                return Err(RecordError { index: i, field });
            },
        }
        i = i + 1;
    }
    proof { assert(js.take(recs.len() as int) =~= js); }
    Ok(out)
}

/// Whether a file is kept by a filter on extension `ext`: its name ends
/// with `.` followed by `ext`.
pub open spec fn has_extension(f: ArDriveFile, ext: Seq<char>) -> bool {
    f.name matches Some(n) && ends_with(n@, seq!['.'] + ext)
}

/// The files of `fs` that have extension `ext`, in order.
pub open spec fn with_extension(fs: Seq<ArDriveFile>, ext: Seq<char>) -> Seq<ArDriveFile>
    decreases fs.len(),
{
    if fs.len() == 0 {
        Seq::empty()
    } else if has_extension(fs.last(), ext) {
        with_extension(fs.drop_last(), ext).push(fs.last())
    } else {
        with_extension(fs.drop_last(), ext)
    }
}

/// Keeps the files whose name ends with `.` and `ext`, in their order.
pub fn filter_by_extension(files: Vec<ArDriveFile>, ext: &str) -> (r: Vec<ArDriveFile>)
    ensures
        r@ == with_extension(files@, ext@),
{
    let ghost all = files@;
    let mut suffix: Vec<char> = Vec::new();
    suffix.push('.');
    let ev = chars_of(ext);
    let mut k: usize = 0;
    while k < ev.len()
        invariant
            k <= ev.len(),
            suffix@ == seq!['.'] + ev@.take(k as int),
        decreases ev.len() - k,
    {
        suffix.push(ev[k]);
        k = k + 1;
        proof { assert(suffix@ =~= seq!['.'] + ev@.take(k as int)); }
    }
    proof { assert(ev@.take(ev.len() as int) =~= ext@); }
    let mut out: Vec<ArDriveFile> = Vec::new();
    for f in it: files.into_iter()
        invariant
            it.seq() == all,
            suffix@ == seq!['.'] + ext@,
            out@ == with_extension(it.seq().take(it.index() as int), ext@),
    {
        proof {
            assert(it.seq().take(it.index() + 1).drop_last() =~= it.seq().take(it.index() as int));
        }
        let keep = match &f.name {
            Some(n) => ends_with_chars(&chars_of(n.as_str()), &suffix),
            None => false,
        };
        if keep {
            out.push(f);
        }
    }
    proof { assert(all.take(all.len() as int) =~= all); }
    out
}

/// The position of the first drive whose id or name is `q`.
pub open spec fn first_match(ds: Seq<ArDriveDrive>, q: Seq<char>, i: int) -> Option<int>
    decreases ds.len() - i,
{
    if i < 0 || i >= ds.len() {
        None
    } else if text_view(ds[i].drive_id) == Some(q) || text_view(ds[i].name) == Some(q) {
        Some(i)
    } else {
        first_match(ds, q, i + 1)
    }
}

/// Whether `o` holds exactly the text `q`.
fn holds_text(o: &Option<String>, q: &String) -> (r: bool)
    ensures
        r == (text_view(*o) == Some(q@)),
{
    match o {
        Some(s) => *s == *q,
        None => false,
    }
}

impl ArDriveDrive {
    /// The first drive whose id or name is `name_or_id`.
    pub fn find_in_list<'a>(drives: &'a [ArDriveDrive], name_or_id: &str) -> (r: Option<
        &'a ArDriveDrive,
    >)
        ensures
            r is None ==> first_match(drives@, name_or_id@, 0) is None,
            r matches Some(d) ==> first_match(drives@, name_or_id@, 0) matches Some(i) && *d
                == drives@[i],
    {
        let q = name_or_id.to_owned();
        let mut i: usize = 0;
        while i < drives.len()
            invariant
                i <= drives@.len(),
                q@ == name_or_id@,
                first_match(drives@, q@, i as int) == first_match(drives@, q@, 0),
            decreases drives@.len() - i,
        {
            if holds_text(&drives[i].drive_id, &q) || holds_text(&drives[i].name, &q) {
                return Some(&drives[i]);
            }
            i = i + 1;
        }
        None
    }
}

/// The extension of the last component of a path, as `std::path` reads it.
pub uninterp spec fn extension_of(name: Seq<char>) -> Option<Seq<char>>;

/// The lower-case form of a text, as `str::to_lowercase` gives it.
pub uninterp spec fn lower_of(s: Seq<char>) -> Seq<char>;

/// Relies on `Path::extension`: the part of the file name after its last `.`.
#[verifier::external_body]
fn path_extension(name: &str) -> (r: Option<String>)
    ensures
        text_view(r) == extension_of(name@),
{
    let ext = std::path::Path::new(name).extension()?;
    Some(ext.to_str()?.to_owned())
}

/// Relies on `str::to_lowercase`: the result depends on the characters alone.
#[verifier::external_body]
fn lowercase(s: &str) -> (r: String)
    ensures
        r@ == lower_of(s@),
{
    s.to_lowercase()
}

/// The media type that a lower-case file extension stands for.
pub open spec fn mime_for(ext: Seq<char>) -> Seq<char> {
    if ext == "jpg"@ || ext == "jpeg"@ {
        "image/jpeg"@
    } else if ext == "png"@ {
        "image/png"@
    } else if ext == "gif"@ {
        "image/gif"@
    } else if ext == "json"@ {
        "application/json"@
    } else {
        "application/octet-stream"@
    }
}

/// The content type of a file: the one it states, else its data's, else the
/// one its name's extension stands for.
pub open spec fn file_content_type(f: ArDriveFile) -> Seq<char> {
    match f.content_type {
        Some(ct) => ct@,
        None => match f.data_content_type {
            Some(ct) => ct@,
            None => {
                let name = match f.name {
                    Some(n) => n@,
                    None => "<unnamed>"@,
                };
                match extension_of(name) {
                    Some(e) => mime_for(lower_of(e)),
                    None => "application/octet-stream"@,
                }
            },
        },
    }
}

/// The media type that a lower-case file extension stands for.
pub fn content_type_for_extension(ext: &str) -> (r: String)
    ensures
        r@ == mime_for(ext@),
{
    let e = ext.to_owned();
    if e == "jpg".to_owned() || e == "jpeg".to_owned() {
        "image/jpeg".to_owned()
    } else if e == "png".to_owned() {
        "image/png".to_owned()
    } else if e == "gif".to_owned() {
        "image/gif".to_owned()
    } else if e == "json".to_owned() {
        "application/json".to_owned()
    } else {
        "application/octet-stream".to_owned()
    }
}

impl ArDriveFile {
    /// The file's content type (see `file_content_type`).
    pub fn content_type_or_inferred(&self) -> (r: String)
        ensures
            r@ == file_content_type(*self),
    {
        if let Some(ct) = &self.content_type {
            return ct.clone();
        }
        if let Some(ct) = &self.data_content_type {
            return ct.clone();
        }
        let name = match &self.name {
            Some(n) => n.clone(),
            None => "<unnamed>".to_owned(),
        };
        match path_extension(name.as_str()) {
            Some(e) => content_type_for_extension(lowercase(e.as_str()).as_str()),
            None => "application/octet-stream".to_owned(),
        }
    }
}

/// Whether the record `j` names a file with extension `ext`.
pub open spec fn record_has_extension(j: Json, ext: Seq<char>) -> bool {
    &&& j matches Json::Obj(es)
    &&& text_field(es, "name"@) matches Some(Some(n))
    &&& ends_with(n, seq!['.'] + ext)
}

/// The records of `rs` that name a file with extension `ext`, in order.
pub open spec fn records_with_extension(rs: Seq<Json>, ext: Seq<char>) -> Seq<Json>
    decreases rs.len(),
{
    if rs.len() == 0 {
        Seq::empty()
    } else if record_has_extension(rs.last(), ext) {
        records_with_extension(rs.drop_last(), ext).push(rs.last())
    } else {
        records_with_extension(rs.drop_last(), ext)
    }
}

/// Filtering decoded files by extension is decoding the records that name
/// such files.
pub proof fn lemma_filter_decoded(rs: Seq<Json>, fs: Seq<ArDriveFile>, ext: Seq<char>)
    requires
        files_decode(rs, fs),
    ensures
        files_decode(records_with_extension(rs, ext), with_extension(fs, ext)),
    decreases rs.len(),
{
    if rs.len() > 0 {
        let n = (rs.len() - 1) as int;
        assert(files_decode(rs.drop_last(), fs.drop_last())) by {
            assert forall|i: int| 0 <= i < rs.drop_last().len() implies decodes_file(
                #[trigger] rs.drop_last()[i],
                fs.drop_last()[i],
            ) by {
                assert(decodes_file(rs[i], fs[i]));
            }
        }
        lemma_filter_decoded(rs.drop_last(), fs.drop_last(), ext);
        assert(decodes_file(rs[n], fs[n]));
        let a = records_with_extension(rs.drop_last(), ext);
        let b = with_extension(fs.drop_last(), ext);
        if has_extension(fs.last(), ext) {
            assert forall|i: int| 0 <= i < a.push(rs.last()).len() implies decodes_file(
                #[trigger] a.push(rs.last())[i],
                b.push(fs.last())[i],
            ) by {
                if i < a.len() {
                    assert(decodes_file(a[i], b[i]));
                }
            }
        }
    }
}

} // verus!
