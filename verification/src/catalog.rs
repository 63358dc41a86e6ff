//! Decoding the upstream JSON catalog snapshot into a typed record.
//!
//! The JSON text is parsed by serde_json behind trusted wrappers. The parsed
//! document is modelled by the ghost type `JsonView`: the parse of the bytes
//! is named (`parsed_json`), the contents of a parsed value are named
//! (`json_view_of`), and every accessor wrapper speaks of that model. The
//! walk over the document, the field mapping and the error taxonomy are then
//! verified against the model: `decode_catalog` succeeds exactly when the
//! bytes parse and the document has the catalog shape, and the record's
//! fields equal the document's members. Field names follow the upstream
//! schema (camelCase, with the identifier field spelled `cveID`).

use crate::model::{CatalogResponse, CatalogResponseView, FeedError, Vulnerability,
    VulnerabilityView};
use vstd::prelude::*;
use vstd::string::StringExecFns;

verus! {

/// serde_json's parsed document, carried opaquely between the wrappers.
#[verifier::external_type_specification]
#[verifier::external_body]
pub struct ExJsonValue(serde_json::Value);

/// serde_json's parse error, mapped to the library's decode error.
#[verifier::external_type_specification]
#[verifier::external_body]
pub struct ExJsonError(serde_json::Error);

/// The model of a parsed JSON document, restricted to what the decoder
/// reads: numbers are split into the unsigned integers the schema uses and
/// everything else.
pub ghost enum JsonView {
    Null,
    Bool(bool),
    UInt(u64),
    OtherNum,
    Text(Seq<char>),
    Arr(Seq<JsonView>),
    Obj(Map<Seq<char>, JsonView>),
}

/// The parse of a byte run: the document model when the bytes are one valid
/// JSON document, and nothing otherwise. serde_json::from_slice computes it
/// from the bytes alone.
pub uninterp spec fn parsed_json(bytes: Seq<u8>) -> Option<JsonView>;

/// What a parsed serde_json value holds, as the model above.
pub uninterp spec fn json_view_of(v: serde_json::Value) -> JsonView;

/// Relies on serde_json::from_slice: parses bytes as one JSON document,
/// succeeding exactly when they are one, with the named model as result.
#[verifier::external_body]
fn json_parse(bytes: &[u8]) -> (r: Result<serde_json::Value, serde_json::Error>)
    ensures
        r is Ok <==> parsed_json(bytes@) is Some,
        r matches Ok(v) ==> parsed_json(bytes@) == Some(json_view_of(v)),
{
    serde_json::from_slice(bytes)
}

/// Relies on serde_json::Error's Display impl: renders the parse error.
#[verifier::external_body]
fn json_error_text(e: &serde_json::Error) -> String {
    e.to_string()
}

/// The member of a document under a key: absent on a missing key or on
/// anything but an object.
pub open spec fn member_of(j: JsonView, key: Seq<char>) -> Option<JsonView> {
    match j {
        JsonView::Obj(m) => if m.contains_key(key) {
            Some(m[key])
        } else {
            None
        },
        _ => None,
    }
}

/// Relies on serde_json::Value::get: the member of an object under a key,
/// absent on a missing key or a non-object.
#[verifier::external_body]
fn json_get<'a>(v: &'a serde_json::Value, key: &str) -> (r: Option<&'a serde_json::Value>)
    ensures
        r is Some <==> member_of(json_view_of(*v), key@) is Some,
        r matches Some(m) ==> member_of(json_view_of(*v), key@) == Some(json_view_of(*m)),
{
    v.get(key)
}

/// Relies on serde_json::Value::as_str: the text of a JSON string, absent
/// for any other kind of value.
#[verifier::external_body]
fn json_str(v: &serde_json::Value) -> (r: Option<String>)
    ensures
        r is Some <==> json_view_of(*v) is Text,
        r matches Some(s) ==> json_view_of(*v) == JsonView::Text(s@),
{
    match v.as_str() {
        Some(s) => Some(s.to_owned()),
        None => None,
    }
}

/// Relies on serde_json::Value::as_u64: the value of an unsigned JSON
/// integer, absent for any other kind of value.
#[verifier::external_body]
fn json_u64(v: &serde_json::Value) -> (r: Option<u64>)
    ensures
        r is Some <==> json_view_of(*v) is UInt,
        r matches Some(n) ==> json_view_of(*v) == JsonView::UInt(n),
{
    v.as_u64()
}

/// Relies on serde_json::Value::as_array: the elements of a JSON array,
/// absent for any other kind of value.
#[verifier::external_body]
fn json_array<'a>(v: &'a serde_json::Value) -> (r: Option<&'a Vec<serde_json::Value>>)
    ensures
        r is Some <==> json_view_of(*v) is Arr,
        r matches Some(a) ==> json_view_of(*v) == JsonView::Arr(
            a@.map_values(|x: serde_json::Value| json_view_of(x)),
        ),
{
    v.as_array()
}

/// Relies on serde_json::Value::is_null: whether the value is JSON null.
#[verifier::external_body]
fn json_is_null(v: &serde_json::Value) -> (r: bool)
    ensures
        r == (json_view_of(*v) is Null),
{
    v.is_null()
}

/// A required string member: its text, absent when the member is missing or
/// not a string.
pub open spec fn str_member(j: JsonView, key: Seq<char>) -> Option<Seq<char>> {
    match member_of(j, key) {
        Some(JsonView::Text(t)) => Some(t),
        _ => None,
    }
}

/// The optional identifier member: nothing when the row is malformed, else
/// the identifier's presence. A missing or null member is a row without an
/// identifier; any other non-string member is malformed.
pub open spec fn cve_member(j: JsonView) -> Option<Option<Seq<char>>> {
    match member_of(j, "cveID"@) {
        None => Some(None),
        Some(JsonView::Null) => Some(None),
        Some(JsonView::Text(t)) => Some(Some(t)),
        Some(_) => None,
    }
}

/// The required count member: an unsigned integer within the record's range.
pub open spec fn count_member(j: JsonView) -> Option<u16> {
    match member_of(j, "count"@) {
        Some(JsonView::UInt(n)) => if n <= 65535 {
            Some(n as u16)
        } else {
            None
        },
        _ => None,
    }
}

/// The required rows member: the elements of the vulnerabilities array.
pub open spec fn rows_member(j: JsonView) -> Option<Seq<JsonView>> {
    match member_of(j, "vulnerabilities"@) {
        Some(JsonView::Arr(s)) => Some(s),
        _ => None,
    }
}

/// The view of an optional string, for relating exec rows to the model.
pub open spec fn opt_str_view(c: Option<String>) -> Option<Seq<char>> {
    match c {
        Some(s) => Some(s@),
        None => None,
    }
}

/// One catalog row read off the document model: every required member a
/// string, the identifier as `cve_member` has it.
pub open spec fn vuln_of_json(j: JsonView) -> Option<VulnerabilityView> {
    match (cve_member(j), str_member(j, "vendorProject"@), str_member(j, "product"@),
    str_member(j, "vulnerabilityName"@), str_member(j, "dateAdded"@), str_member(
        j,
        "shortDescription"@,
    ), str_member(j, "requiredAction"@), str_member(j, "dueDate"@), str_member(j, "notes"@)) {
        (
            Some(cve),
            Some(vp),
            Some(p),
            Some(vn),
            Some(da),
            Some(sd),
            Some(ra),
            Some(dd),
            Some(no),
        ) => Some(
            VulnerabilityView {
                cve_id: cve,
                vendor_project: vp,
                product: p,
                vulnerability_name: vn,
                date_added: da,
                short_description: sd,
                required_action: ra,
                due_date: dd,
                notes: no,
            },
        ),
        _ => None,
    }
}

/// All catalog rows read off the array's model, defined exactly when every
/// row is well-formed.
pub open spec fn vulns_of_json(rows: Seq<JsonView>) -> Option<Seq<VulnerabilityView>> {
    if forall|k: int| 0 <= k < rows.len() ==> vuln_of_json(rows[k]) is Some {
        Some(Seq::new(rows.len(), |k: int| vuln_of_json(rows[k])->Some_0))
    } else {
        None
    }
}

/// The catalog read off the document model: defined exactly when the
/// document has the catalog shape.
pub open spec fn catalog_of_json(j: JsonView) -> Option<CatalogResponseView> {
    match (str_member(j, "catalogVersion"@), str_member(j, "dateReleased"@), count_member(j),
    rows_member(j)) {
        (Some(cv), Some(dr), Some(c), Some(rows)) => match vulns_of_json(rows) {
            Some(vs) => Some(
                CatalogResponseView {
                    catalog_version: cv,
                    date_released: dr,
                    count: c,
                    vulnerabilities: vs,
                },
            ),
            None => None,
        },
        _ => None,
    }
}

/// The catalog decoded from a byte run: defined exactly when the bytes parse
/// as JSON and the document has the catalog shape.
pub open spec fn decoded_catalog(bytes: Seq<u8>) -> Option<CatalogResponseView> {
    match parsed_json(bytes) {
        Some(j) => catalog_of_json(j),
        None => None,
    }
}

/// The decode error reported for one offending field.
fn decode_err(field: &str) -> (e: FeedError)
    ensures
        e is Decode,
{
    FeedError::Decode(String::from_str("missing or invalid field ").concat(field))
}

/// Reads a required string member; any absent or non-string member is a
/// decode failure.
fn req_str(obj: &serde_json::Value, key: &str) -> (r: Result<String, FeedError>)
    ensures
        r is Ok <==> str_member(json_view_of(*obj), key@) is Some,
        r matches Ok(s) ==> str_member(json_view_of(*obj), key@) == Some(s@),
        r matches Err(e) ==> e is Decode,
{
    match json_get(obj, key) {
        Some(v) => match json_str(v) {
            Some(s) => Ok(s),
            None => Err(decode_err(key)),
        },
        None => Err(decode_err(key)),
    }
}

/// Reads the optional `cveID` member: an absent or null member means no
/// identifier; a present member must be a string.
fn opt_cve(obj: &serde_json::Value) -> (r: Result<Option<String>, FeedError>)
    ensures
        r is Ok <==> cve_member(json_view_of(*obj)) is Some,
        r matches Ok(c) ==> cve_member(json_view_of(*obj)) == Some(opt_str_view(c)),
        r matches Err(e) ==> e is Decode,
{
    match json_get(obj, "cveID") {
        Some(v) => {
            if json_is_null(v) {
                Ok(None)
            } else {
                match json_str(v) {
                    Some(s) => Ok(Some(s)),
                    None => Err(decode_err("cveID")),
                }
            }
        },
        None => Ok(None),
    }
}

/// Reads the required `count` member, an unsigned integer within the
/// record's range.
fn req_count(obj: &serde_json::Value) -> (r: Result<u16, FeedError>)
    ensures
        r is Ok <==> count_member(json_view_of(*obj)) is Some,
        r matches Ok(c) ==> count_member(json_view_of(*obj)) == Some(c),
        r matches Err(e) ==> e is Decode,
{
    match json_get(obj, "count") {
        Some(v) => match json_u64(v) {
            Some(n) => {
                if n <= 65535 {
                    Ok(n as u16)
                } else {
                    Err(decode_err("count"))
                }
            },
            None => Err(decode_err("count")),
        },
        None => Err(decode_err("count")),
    }
}

/// Decodes one catalog row, succeeding exactly when the row is well-formed,
/// with the fields the model gives it.
fn decode_vuln(v: &serde_json::Value) -> (r: Result<Vulnerability, FeedError>)
    ensures
        r is Ok <==> vuln_of_json(json_view_of(*v)) is Some,
        r matches Ok(vu) ==> vuln_of_json(json_view_of(*v)) == Some(vu@),
        r matches Err(e) ==> e is Decode,
{
    let cve_id = match opt_cve(v) {
        Ok(c) => c,
        Err(e) => return Err(e),
    };
    let vendor_project = match req_str(v, "vendorProject") {
        Ok(s) => s,
        Err(e) => return Err(e),
    };
    let product = match req_str(v, "product") {
        Ok(s) => s,
        Err(e) => return Err(e),
    };
    let vulnerability_name = match req_str(v, "vulnerabilityName") {
        Ok(s) => s,
        Err(e) => return Err(e),
    };
    let date_added = match req_str(v, "dateAdded") {
        Ok(s) => s,
        Err(e) => return Err(e),
    };
    let short_description = match req_str(v, "shortDescription") {
        Ok(s) => s,
        Err(e) => return Err(e),
    };
    let required_action = match req_str(v, "requiredAction") {
        Ok(s) => s,
        Err(e) => return Err(e),
    };
    let due_date = match req_str(v, "dueDate") {
        Ok(s) => s,
        Err(e) => return Err(e),
    };
    let notes = match req_str(v, "notes") {
        Ok(s) => s,
        Err(e) => return Err(e),
    };
    Ok(
        Vulnerability {
            cve_id,
            vendor_project,
            product,
            vulnerability_name,
            date_added,
            short_description,
            required_action,
            due_date,
            notes,
        },
    )
}

/// Decodes a full catalog snapshot from the upstream JSON text. The decode
/// succeeds exactly when the bytes parse as JSON and the document has the
/// catalog shape, and then the record is what the document holds; malformed
/// JSON, a missing or mistyped required field, or a malformed row all fail
/// with a decode error, and nothing else does.
pub fn decode_catalog(bytes: &[u8]) -> (r: Result<CatalogResponse, FeedError>)
    ensures
        r is Ok <==> decoded_catalog(bytes@) is Some,
        r matches Ok(rec) ==> decoded_catalog(bytes@) == Some(rec@),
        r matches Err(e) ==> e is Decode,
{
    let parsed = match json_parse(bytes) {
        Ok(v) => v,
        Err(e) => return Err(FeedError::Decode(json_error_text(&e))),
    };
    let ghost j = json_view_of(parsed);
    let catalog_version = match req_str(&parsed, "catalogVersion") {
        Ok(s) => s,
        Err(e) => return Err(e),
    };
    let date_released = match req_str(&parsed, "dateReleased") {
        Ok(s) => s,
        Err(e) => return Err(e),
    };
    let count = match req_count(&parsed) {
        Ok(c) => c,
        Err(e) => return Err(e),
    };
    let vulns_member = match json_get(&parsed, "vulnerabilities") {
        Some(v) => v,
        None => return Err(decode_err("vulnerabilities")),
    };
    let rows = match json_array(vulns_member) {
        Some(a) => a,
        None => return Err(decode_err("vulnerabilities")),
    };
    let ghost rows_model = rows@.map_values(|x: serde_json::Value| json_view_of(x));
    assert(rows_member(j) == Some(rows_model));
    let mut vulnerabilities: Vec<Vulnerability> = Vec::new();
    let n = rows.len();
    let mut i: usize = 0;
    while i < n
        invariant
            i <= n,
            n == rows@.len(),
            parsed_json(bytes@) == Some(j),
            str_member(j, "catalogVersion"@) is Some,
            str_member(j, "dateReleased"@) is Some,
            count_member(j) is Some,
            rows_member(j) == Some(rows_model),
            rows_model == rows@.map_values(|x: serde_json::Value| json_view_of(x)),
            rows_model.len() == n,
            vulnerabilities@.len() == i,
            forall|k: int|
                0 <= k < i ==> vuln_of_json(rows_model[k]) == Some(#[trigger] vulnerabilities@[k]@),
        decreases n - i,
    {
        match decode_vuln(&rows[i]) {
            Ok(vu) => vulnerabilities.push(vu),
            Err(e) => {
                proof {
                    assert(rows_model[i as int] == json_view_of(rows@[i as int]));
                    assert(vulns_of_json(rows_model) is None);
                }
                return Err(e);
            },
        }
        i = i + 1;
    }
    let rec = CatalogResponse { catalog_version, date_released, count, vulnerabilities };
    proof {
        assert forall|k: int| 0 <= k < n implies vuln_of_json(rows_model[k]) is Some by {
            assert(vuln_of_json(rows_model[k]) == Some(rec.vulnerabilities@[k]@));
        }
        assert(rec@.vulnerabilities =~= Seq::new(
            rows_model.len(),
            |k: int| vuln_of_json(rows_model[k])->Some_0,
        ));
        assert(catalog_of_json(j) == Some(rec@));
    }
    Ok(rec)
}

} // verus!
