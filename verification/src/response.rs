use vstd::prelude::*;
use vstd::string::*;

use crate::doc::{is_oid_hex, Document, ObjectId};
use crate::error::Error;
use crate::json::{
    arr_items, exec_arr_items, exec_obj_fields, is_digit, obj_fields, pairs_view, strs_view,
};
use crate::request::docs_view;

verus! {

/// Whether an HTTP status code reports success.
pub open spec fn is_success_status(s: u16) -> bool {
    200 <= s < 300
}

/// The raw value of the first field named `key`, from index `i` on.
pub open spec fn lookup_from(
    ps: Seq<(Seq<char>, Seq<char>)>,
    key: Seq<char>,
    i: int,
) -> Option<Seq<char>>
    decreases ps.len() - i when 0 <= i <= ps.len()
{
    if i >= ps.len() {
        None
    } else if ps[i].0 == key {
        Some(ps[i].1)
    } else {
        lookup_from(ps, key, i + 1)
    }
}

/// The raw value of the first field named `key`, if any.
pub open spec fn lookup(ps: Seq<(Seq<char>, Seq<char>)>, key: Seq<char>) -> Option<Seq<char>> {
    lookup_from(ps, key, 0)
}

/// The value of an optional field: absent keys and JSON nulls both count
/// as absent, as they do for the remote service.
pub open spec fn opt_field_value(
    ps: Seq<(Seq<char>, Seq<char>)>,
    key: Seq<char>,
) -> Option<Seq<char>> {
    match lookup(ps, key) {
        Some(v) => if v == "null"@ {
            None
        } else {
            Some(v)
        },
        None => None,
    }
}

/// Whether `v` is the text of a JSON object.
pub open spec fn is_object_span(v: Seq<char>) -> bool {
    v.len() > 0 && v[0] == '{'
}

/// The texts of `items` from index `i` on, provided every one is an
/// object.
pub open spec fn docs_of_items(items: Seq<Seq<char>>, i: int) -> Option<Seq<Seq<char>>>
    decreases items.len() - i when 0 <= i <= items.len()
{
    if i >= items.len() {
        Some(Seq::<Seq<char>>::empty())
    } else if is_object_span(items[i]) {
        match docs_of_items(items, i + 1) {
            Some(r) => Some(seq![items[i]] + r),
            None => None,
        }
    } else {
        None
    }
}

/// The object-id hex carried by a JSON value: either a plain string of 24
/// hex digits, or an extended-JSON object with a `$oid` string field.
pub open spec fn oid_of_value(v: Seq<char>) -> Option<Seq<char>> {
    if v.len() >= 2 && v[0] == '"' && v[v.len() - 1] == '"' {
        if is_oid_hex(v.subrange(1, v.len() - 1)) {
            Some(v.subrange(1, v.len() - 1))
        } else {
            None
        }
    } else if is_object_span(v) {
        match obj_fields(v) {
            Some(ps) => match lookup(ps, "$oid"@) {
                Some(sv) => if sv.len() >= 2 && sv[0] == '"' && sv[sv.len() - 1] == '"'
                    && is_oid_hex(sv.subrange(1, sv.len() - 1)) {
                    Some(sv.subrange(1, sv.len() - 1))
                } else {
                    None
                },
                None => None,
            },
            None => None,
        }
    } else {
        None
    }
}

/// An optional object-id field: absent is fine, present must carry an id.
/// The outer `None` is a decode error; `Some(None)` is an absent field.
pub open spec fn decode_opt_oid(ps: Seq<(Seq<char>, Seq<char>)>, key: Seq<char>) -> Option<
    Option<Seq<char>>,
> {
    match opt_field_value(ps, key) {
        None => Some(None),
        Some(v) => match oid_of_value(v) {
            Some(h) => Some(Some(h)),
            None => None,
        },
    }
}

/// The hex texts of `items` from index `i` on, provided every one carries
/// an object id.
pub open spec fn oids_of_items(items: Seq<Seq<char>>, i: int) -> Option<Seq<Seq<char>>>
    decreases items.len() - i when 0 <= i <= items.len()
{
    if i >= items.len() {
        Some(Seq::<Seq<char>>::empty())
    } else {
        match oid_of_value(items[i]) {
            Some(h) => match oids_of_items(items, i + 1) {
                Some(r) => Some(seq![h] + r),
                None => None,
            },
            None => None,
        }
    }
}

/// The value of the decimal digits of `v` from `i` on, folded onto `acc`;
/// `None` when a non-digit appears.
pub open spec fn digits_val_acc(v: Seq<char>, i: int, acc: int) -> Option<int>
    decreases v.len() - i when 0 <= i <= v.len()
{
    if i >= v.len() {
        Some(acc)
    } else if is_digit(v[i]) {
        digits_val_acc(v, i + 1, acc * 10 + (v[i] as int - '0' as int))
    } else {
        None
    }
}

/// The value of a JSON integer token, when it fits an `i32`: an optional
/// minus sign followed by digits only.
pub open spec fn parse_i32_span(v: Seq<char>) -> Option<int> {
    if v.len() >= 2 && v[0] == '-' {
        match digits_val_acc(v, 1, 0) {
            Some(m) => if m <= 0x8000_0000 {
                Some(-m)
            } else {
                None
            },
            None => None,
        }
    } else if v.len() >= 1 {
        match digits_val_acc(v, 0, 0) {
            Some(m) => if m <= 0x7fff_ffff {
                Some(m)
            } else {
                None
            },
            None => None,
        }
    } else {
        None
    }
}

/// A required `i32` field: the key must be present and spell an integer.
pub open spec fn int_field(ps: Seq<(Seq<char>, Seq<char>)>, key: Seq<char>) -> Option<int> {
    match lookup(ps, key) {
        Some(v) => parse_i32_span(v),
        None => None,
    }
}

// ------------------------------------------------------------------
// The decoded shapes, one per response schema.
// ------------------------------------------------------------------

/// Mathematical view of a find response.
pub struct FindResponseView {
    pub document: Option<Seq<char>>,
    pub documents: Option<Seq<Seq<char>>>,
}

/// Mathematical view of an insert response.
pub struct InsertResponseView {
    pub inserted_id: Option<Seq<char>>,
    pub inserted_ids: Option<Seq<Seq<char>>>,
}

/// Mathematical view of an update or replace response.
pub struct WriteResultView {
    pub matched_count: int,
    pub modified_count: int,
    pub upserted_id: Option<Seq<char>>,
}

/// What a find response body decodes to: an optional `document` object and
/// an optional `documents` array of objects; anything else malformed is a
/// decode error.
pub open spec fn decode_find(body: Seq<char>) -> Option<FindResponseView> {
    match obj_fields(body) {
        None => None,
        Some(ps) => {
            let doc_ok = match opt_field_value(ps, "document"@) {
                Some(v) => is_object_span(v),
                None => true,
            };
            if !doc_ok {
                None
            } else {
                match opt_field_value(ps, "documents"@) {
                    None => Some(
                        FindResponseView {
                            document: opt_field_value(ps, "document"@),
                            documents: None,
                        },
                    ),
                    Some(a) => match arr_items(a) {
                        None => None,
                        Some(items) => match docs_of_items(items, 0) {
                            None => None,
                            Some(ds) => Some(
                                FindResponseView {
                                    document: opt_field_value(ps, "document"@),
                                    documents: Some(ds),
                                },
                            ),
                        },
                    },
                }
            }
        },
    }
}

/// What an insert response body decodes to: an optional `insertedId` and an
/// optional `insertedIds` array, each id in plain or extended form.
pub open spec fn decode_insert(body: Seq<char>) -> Option<InsertResponseView> {
    match obj_fields(body) {
        None => None,
        Some(ps) => match decode_opt_oid(ps, "insertedId"@) {
            None => None,
            Some(id) => match opt_field_value(ps, "insertedIds"@) {
                None => Some(InsertResponseView { inserted_id: id, inserted_ids: None }),
                Some(a) => match arr_items(a) {
                    None => None,
                    Some(items) => match oids_of_items(items, 0) {
                        None => None,
                        Some(hs) => Some(
                            InsertResponseView { inserted_id: id, inserted_ids: Some(hs) },
                        ),
                    },
                },
            },
        },
    }
}

/// What an update or replace response body decodes to: required
/// `matchedCount` and `modifiedCount` integers and an optional
/// `upsertedId`.
pub open spec fn decode_write(body: Seq<char>) -> Option<WriteResultView> {
    match obj_fields(body) {
        None => None,
        Some(ps) => match int_field(ps, "matchedCount"@) {
            None => None,
            Some(mc) => match int_field(ps, "modifiedCount"@) {
                None => None,
                Some(mo) => match decode_opt_oid(ps, "upsertedId"@) {
                    None => None,
                    Some(up) => Some(
                        WriteResultView {
                            matched_count: mc,
                            modified_count: mo,
                            upserted_id: up,
                        },
                    ),
                },
            },
        },
    }
}

/// What a delete response body decodes to: the required `deletedCount`
/// integer.
pub open spec fn decode_delete(body: Seq<char>) -> Option<int> {
    match obj_fields(body) {
        None => None,
        Some(ps) => int_field(ps, "deletedCount"@),
    }
}

/// What an aggregate response body decodes to: the required `documents`
/// array of objects.
pub open spec fn decode_aggregate(body: Seq<char>) -> Option<Seq<Seq<char>>> {
    match obj_fields(body) {
        None => None,
        Some(ps) => match lookup(ps, "documents"@) {
            None => None,
            Some(a) => match arr_items(a) {
                None => None,
                Some(items) => docs_of_items(items, 0),
            },
        },
    }
}

// ------------------------------------------------------------------
// Executable decoding, mirrored on the specification functions above.
// ------------------------------------------------------------------

/// Looks the first field named `key` up, from index `i` on.
fn exec_lookup_from(ps: &Vec<(String, String)>, key: &String, i: usize) -> (r: Option<String>)
    requires
        i <= ps@.len(),
    ensures
        match lookup_from(pairs_view(ps@), key@, i as int) {
            Some(v) => r matches Some(x) && x@ == v,
            None => r is None,
        },
    decreases ps@.len() - i,
{
    if i < ps.len() {
        proof {
            assert(pairs_view(ps@)[i as int] == (ps@[i as int].0@, ps@[i as int].1@));
        }
        let p = &ps[i];
        if p.0 == *key {
            Some(p.1.clone())
        } else {
            exec_lookup_from(ps, key, i + 1)
        }
    } else {
        None
    }
}

/// Looks a field up by its literal key.
fn exec_lookup(ps: &Vec<(String, String)>, key: &str) -> (r: Option<String>)
    ensures
        match lookup(pairs_view(ps@), key@) {
            Some(v) => r matches Some(x) && x@ == v,
            None => r is None,
        },
{
    let k = String::from_str(key);
    exec_lookup_from(ps, &k, 0)
}

/// Reads an optional field: an absent key and a JSON null both give
/// `None`.
fn exec_opt_field(ps: &Vec<(String, String)>, key: &str) -> (r: Option<String>)
    ensures
        match opt_field_value(pairs_view(ps@), key@) {
            Some(v) => r matches Some(x) && x@ == v,
            None => r is None,
        },
{
    match exec_lookup(ps, key) {
        Some(v) => {
            let null_text = String::from_str("null");
            if v == null_text {
                None
            } else {
                Some(v)
            }
        },
        None => None,
    }
}

/// Whether the text spells a JSON object.
fn exec_is_object_span(v: &str) -> (r: bool)
    ensures
        r == is_object_span(v@),
{
    v.unicode_len() > 0 && v.get_char(0) == '{'
}

/// Wraps the item texts from `i` on as documents, requiring objects.
fn exec_docs_of_items(items: &Vec<String>, i: usize) -> (r: Option<Vec<Document>>)
    requires
        i <= items@.len(),
    ensures
        match docs_of_items(strs_view(items@), i as int) {
            Some(ds) => r matches Some(v) && docs_view(v@) == ds,
            None => r is None,
        },
    decreases items@.len() - i,
{
    if i < items.len() {
        proof {
            assert(strs_view(items@)[i as int] == items@[i as int]@);
        }
        let it = &items[i];
        if it.unicode_len() > 0 && it.get_char(0) == '{' {
            match exec_docs_of_items(items, i + 1) {
                Some(mut v) => {
                    v.insert(0, Document::new(it.clone()));
                    proof {
                        let ghost ds = docs_of_items(strs_view(items@), i as int)->Some_0;
                        assert(docs_view(v@) =~= ds);
                    }
                    Some(v)
                },
                None => None,
            }
        } else {
            None
        }
    } else {
        let v: Vec<Document> = Vec::new();
        proof {
            assert(docs_view(v@) =~= Seq::<Seq<char>>::empty());
        }
        Some(v)
    }
}

/// Reads an object id out of a JSON value text.
fn exec_oid_of_value(v: &str) -> (r: Option<ObjectId>)
    ensures
        match oid_of_value(v@) {
            Some(h) => r matches Some(o) && o@ == h && o.wf(),
            None => r is None,
        },
{
    let n = v.unicode_len();
    if n >= 2 && v.get_char(0) == '"' && v.get_char(n - 1) == '"' {
        ObjectId::parse(v.substring_char(1, n - 1))
    } else if n > 0 && v.get_char(0) == '{' {
        match exec_obj_fields(v) {
            Some(ps) => match exec_lookup(&ps, "$oid") {
                Some(sv) => {
                    let m = sv.unicode_len();
                    if m >= 2 && sv.as_str().get_char(0) == '"' && sv.as_str().get_char(m - 1)
                        == '"' {
                        ObjectId::parse(sv.as_str().substring_char(1, m - 1))
                    } else {
                        None
                    }
                },
                None => None,
            },
            None => None,
        }
    } else {
        None
    }
}

/// The hex view of an optional id.
pub open spec fn oid_opt_view(x: Option<ObjectId>) -> Option<Seq<char>> {
    match x {
        Some(o) => Some(o@),
        None => None,
    }
}

/// The hex views of a sequence of ids.
pub open spec fn oids_view(v: Seq<ObjectId>) -> Seq<Seq<char>> {
    v.map_values(|o: ObjectId| o@)
}

/// Reads an optional object-id field.
fn exec_decode_opt_oid(ps: &Vec<(String, String)>, key: &str) -> (r: Option<Option<ObjectId>>)
    ensures
        match decode_opt_oid(pairs_view(ps@), key@) {
            Some(opt) => r matches Some(x) && oid_opt_view(x) == opt,
            None => r is None,
        },
{
    match exec_opt_field(ps, key) {
        None => Some(None),
        Some(v) => match exec_oid_of_value(v.as_str()) {
            Some(o) => Some(Some(o)),
            None => None,
        },
    }
}

/// Reads the ids of the item texts from `i` on.
fn exec_oids_of_items(items: &Vec<String>, i: usize) -> (r: Option<Vec<ObjectId>>)
    requires
        i <= items@.len(),
    ensures
        match oids_of_items(strs_view(items@), i as int) {
            Some(hs) => r matches Some(v) && oids_view(v@) == hs,
            None => r is None,
        },
    decreases items@.len() - i,
{
    if i < items.len() {
        proof {
            assert(strs_view(items@)[i as int] == items@[i as int]@);
        }
        match exec_oid_of_value(items[i].as_str()) {
            Some(o) => match exec_oids_of_items(items, i + 1) {
                Some(mut v) => {
                    v.insert(0, o);
                    proof {
                        let ghost hs = oids_of_items(strs_view(items@), i as int)->Some_0;
                        assert(oids_view(v@) =~= hs);
                    }
                    Some(v)
                },
                None => None,
            },
            None => None,
        }
    } else {
        let v: Vec<ObjectId> = Vec::new();
        proof {
            assert(oids_view(v@) =~= Seq::<Seq<char>>::empty());
        }
        Some(v)
    }
}

/// When the digits from `i` on fold to a value, that value is at least the
/// accumulator they started from.
proof fn lemma_digits_val_lower(v: Seq<char>, i: int, acc: int)
    requires
        0 <= i <= v.len(),
        acc >= 0,
    ensures
        digits_val_acc(v, i, acc) matches Some(m) ==> m >= acc,
    decreases v.len() - i,
{
    if i < v.len() && is_digit(v[i]) {
        lemma_digits_val_lower(v, i + 1, acc * 10 + (v[i] as int - '0' as int));
    }
}

/// Folds the decimal digits of `v` from `i` on onto `acc`, giving up as
/// soon as the value cannot fit an `i32` magnitude any more.
fn exec_digits_val(v: &str, i: usize, acc: u64) -> (r: Option<u64>)
    requires
        i <= v@.len(),
    ensures
        match digits_val_acc(v@, i as int, acc as int) {
            None => r is None,
            Some(m) => match r {
                Some(x) => x as int == m,
                None => m > 0x8000_0000,
            },
        },
    decreases v@.len() - i,
{
    if acc > 0x8000_0000 {
        proof {
            lemma_digits_val_lower(v@, i as int, acc as int);
        }
        return None;
    }
    let n = v.unicode_len();
    if i >= n {
        return Some(acc);
    }
    let c = v.get_char(i);
    if '0' <= c && c <= '9' {
        let d = (c as u32) - ('0' as u32);
        exec_digits_val(v, i + 1, acc * 10 + (d as u64))
    } else {
        None
    }
}

/// Parses a JSON integer token into an `i32`.
fn exec_parse_i32(v: &str) -> (r: Option<i32>)
    ensures
        match parse_i32_span(v@) {
            Some(m) => r matches Some(x) && x as int == m,
            None => r is None,
        },
{
    let n = v.unicode_len();
    if n >= 2 && v.get_char(0) == '-' {
        match exec_digits_val(v, 1, 0) {
            Some(m) => if m <= 0x8000_0000 {
                Some((-(m as i64)) as i32)
            } else {
                None
            },
            None => None,
        }
    } else if n >= 1 {
        match exec_digits_val(v, 0, 0) {
            Some(m) => if m <= 0x7fff_ffff {
                Some(m as i32)
            } else {
                None
            },
            None => None,
        }
    } else {
        None
    }
}

/// Reads a required integer field.
fn exec_int_field(ps: &Vec<(String, String)>, key: &str) -> (r: Option<i32>)
    ensures
        match int_field(pairs_view(ps@), key@) {
            Some(m) => r matches Some(x) && x as int == m,
            None => r is None,
        },
{
    match exec_lookup(ps, key) {
        Some(v) => exec_parse_i32(v.as_str()),
        None => None,
    }
}

// ------------------------------------------------------------------
// The typed responses and the interpretation of an HTTP answer.
// ------------------------------------------------------------------

/// The answer to a find action: at most one of the two fields is filled,
/// `document` by find-one, `documents` by find.
#[derive(Clone, Debug)]
pub struct FindResponse {
    pub document: Option<Document>,
    pub documents: Option<Vec<Document>>,
}

impl View for FindResponse {
    type V = FindResponseView;

    open spec fn view(&self) -> FindResponseView {
        FindResponseView {
            document: match self.document {
                Some(ref d) => Some(d@),
                None => None,
            },
            documents: match self.documents {
                Some(ref v) => Some(docs_view(v@)),
                None => None,
            },
        }
    }
}

/// The answer to an insert action: `inserted_id` from insert-one,
/// `inserted_ids` from insert-many, in input order.
#[derive(Clone, Debug)]
pub struct InsertResponse {
    pub inserted_id: Option<ObjectId>,
    pub inserted_ids: Option<Vec<ObjectId>>,
}

impl View for InsertResponse {
    type V = InsertResponseView;

    open spec fn view(&self) -> InsertResponseView {
        InsertResponseView {
            inserted_id: match self.inserted_id {
                Some(ref o) => Some(o@),
                None => None,
            },
            inserted_ids: match self.inserted_ids {
                Some(ref v) => Some(oids_view(v@)),
                None => None,
            },
        }
    }
}

/// The answer to an update action: how many documents matched and were
/// modified, and the id of an upserted document if one was created.
#[derive(Clone, Debug)]
pub struct UpdateResponse {
    pub matched_count: i32,
    pub modified_count: i32,
    pub upserted_id: Option<ObjectId>,
}

impl View for UpdateResponse {
    type V = WriteResultView;

    open spec fn view(&self) -> WriteResultView {
        WriteResultView {
            matched_count: self.matched_count as int,
            modified_count: self.modified_count as int,
            upserted_id: match self.upserted_id {
                Some(ref o) => Some(o@),
                None => None,
            },
        }
    }
}

/// The answer to a replace action: the same shape as an update answer.
#[derive(Clone, Debug)]
pub struct ReplaceResponse {
    pub matched_count: i32,
    pub modified_count: i32,
    pub upserted_id: Option<ObjectId>,
}

impl View for ReplaceResponse {
    type V = WriteResultView;

    open spec fn view(&self) -> WriteResultView {
        WriteResultView {
            matched_count: self.matched_count as int,
            modified_count: self.modified_count as int,
            upserted_id: match self.upserted_id {
                Some(ref o) => Some(o@),
                None => None,
            },
        }
    }
}

/// The answer to a delete action: how many documents were deleted.
#[derive(Clone, Debug)]
pub struct DeleteResponse {
    pub deleted_count: i32,
}

impl View for DeleteResponse {
    type V = int;

    open spec fn view(&self) -> int {
        self.deleted_count as int
    }
}

/// The answer to an aggregate action: the result documents in pipeline
/// order.
#[derive(Clone, Debug)]
pub struct AggregationResponse {
    pub documents: Vec<Document>,
}

impl View for AggregationResponse {
    type V = Seq<Seq<char>>;

    open spec fn view(&self) -> Seq<Seq<char>> {
        docs_view(self.documents@)
    }
}

/// The error for a remote denial: it carries the observed status code and
/// appends the body text to the message.
fn status_error(status: u16, body: &str) -> (e: Error)
    ensures
        e.status_code == Some(status),
        e.error@ == "; content: "@ + body@,
{
    let mut msg = String::from_str("; content: ");
    msg.append(body);
    Error { status_code: Some(status), error: msg }
}

/// The error for a body that does not match the expected response shape.
fn decode_error() -> (e: Error)
    ensures
        e.status_code is None,
        e.error@ == "failed to decode response body"@,
{
    Error { status_code: None, error: String::from_str("failed to decode response body") }
}

/// Whether the status reports success, at run time.
fn exec_is_success(status: u16) -> (r: bool)
    ensures
        r == is_success_status(status),
{
    200 <= status && status <= 299
}

impl FindResponse {
    /// Interprets an HTTP answer to a find or find-one call. A non-success
    /// status is an error carrying exactly that status code, whatever the
    /// body holds; on success the body must decode to the find shape.
    pub fn from_http(status: u16, body: &str) -> (r: Result<FindResponse, Error>)
        ensures
            r matches Ok(resp) ==> is_success_status(status) && decode_find(body@)
                == Some(resp@),
            r matches Err(e) ==> if is_success_status(status) {
                &&& e.status_code is None
                &&& decode_find(body@) is None
                &&& e.error@ == "failed to decode response body"@
            } else {
                &&& e.status_code == Some(status)
                &&& e.error@ == "; content: "@ + body@
            },
    {
        if !exec_is_success(status) {
            return Err(status_error(status, body));
        }
        match exec_obj_fields(body) {
            None => Err(decode_error()),
            Some(ps) => {
                let doc = exec_opt_field(&ps, "document");
                let doc_ok = match &doc {
                    Some(v) => exec_is_object_span(v.as_str()),
                    None => true,
                };
                if !doc_ok {
                    return Err(decode_error());
                }
                let document = match doc {
                    Some(v) => Some(Document::new(v)),
                    None => None,
                };
                match exec_opt_field(&ps, "documents") {
                    None => Ok(FindResponse { document, documents: None }),
                    Some(a) => match exec_arr_items(a.as_str()) {
                        None => Err(decode_error()),
                        Some(items) => match exec_docs_of_items(&items, 0) {
                            None => Err(decode_error()),
                            Some(ds) => Ok(FindResponse { document, documents: Some(ds) }),
                        },
                    },
                }
            },
        }
    }
}

impl InsertResponse {
    /// Interprets an HTTP answer to an insert or insert-many call. A
    /// non-success status is an error carrying exactly that status code;
    /// on success the body must decode to the insert shape.
    pub fn from_http(status: u16, body: &str) -> (r: Result<InsertResponse, Error>)
        ensures
            r matches Ok(resp) ==> is_success_status(status) && decode_insert(body@)
                == Some(resp@),
            r matches Err(e) ==> if is_success_status(status) {
                &&& e.status_code is None
                &&& decode_insert(body@) is None
                &&& e.error@ == "failed to decode response body"@
            } else {
                &&& e.status_code == Some(status)
                &&& e.error@ == "; content: "@ + body@
            },
    {
        if !exec_is_success(status) {
            return Err(status_error(status, body));
        }
        match exec_obj_fields(body) {
            None => Err(decode_error()),
            Some(ps) => match exec_decode_opt_oid(&ps, "insertedId") {
                None => Err(decode_error()),
                Some(id) => match exec_opt_field(&ps, "insertedIds") {
                    None => Ok(InsertResponse { inserted_id: id, inserted_ids: None }),
                    Some(a) => match exec_arr_items(a.as_str()) {
                        None => Err(decode_error()),
                        Some(items) => match exec_oids_of_items(&items, 0) {
                            None => Err(decode_error()),
                            Some(hs) => Ok(
                                InsertResponse { inserted_id: id, inserted_ids: Some(hs) },
                            ),
                        },
                    },
                },
            },
        }
    }
}

/// Reads the shared update/replace shape out of a decoded object.
fn exec_decode_write(ps: &Vec<(String, String)>) -> (r: Option<(i32, i32, Option<ObjectId>)>)
    ensures
        match int_field(pairs_view(ps@), "matchedCount"@) {
            None => r is None,
            Some(mc) => match int_field(pairs_view(ps@), "modifiedCount"@) {
                None => r is None,
                Some(mo) => match decode_opt_oid(pairs_view(ps@), "upsertedId"@) {
                    None => r is None,
                    Some(up) => r matches Some(t) && t.0 as int == mc && t.1 as int == mo
                        && oid_opt_view(t.2) == up,
                },
            },
        },
{
    match exec_int_field(ps, "matchedCount") {
        None => None,
        Some(mc) => match exec_int_field(ps, "modifiedCount") {
            None => None,
            Some(mo) => match exec_decode_opt_oid(ps, "upsertedId") {
                None => None,
                Some(up) => Some((mc, mo, up)),
            },
        },
    }
}

impl UpdateResponse {
    /// Interprets an HTTP answer to an update or update-many call. A
    /// non-success status is an error carrying exactly that status code;
    /// on success the body must decode to the update shape.
    pub fn from_http(status: u16, body: &str) -> (r: Result<UpdateResponse, Error>)
        ensures
            r matches Ok(resp) ==> is_success_status(status) && decode_write(body@)
                == Some(resp@),
            r matches Err(e) ==> if is_success_status(status) {
                &&& e.status_code is None
                &&& decode_write(body@) is None
                &&& e.error@ == "failed to decode response body"@
            } else {
                &&& e.status_code == Some(status)
                &&& e.error@ == "; content: "@ + body@
            },
    {
        if !exec_is_success(status) {
            return Err(status_error(status, body));
        }
        match exec_obj_fields(body) {
            None => Err(decode_error()),
            Some(ps) => match exec_decode_write(&ps) {
                None => Err(decode_error()),
                Some(t) => Ok(
                    UpdateResponse { matched_count: t.0, modified_count: t.1, upserted_id: t.2 },
                ),
            },
        }
    }
}

impl ReplaceResponse {
    /// Interprets an HTTP answer to a replace-one call. A non-success
    /// status is an error carrying exactly that status code; on success
    /// the body must decode to the update shape.
    pub fn from_http(status: u16, body: &str) -> (r: Result<ReplaceResponse, Error>)
        ensures
            r matches Ok(resp) ==> is_success_status(status) && decode_write(body@)
                == Some(resp@),
            r matches Err(e) ==> if is_success_status(status) {
                &&& e.status_code is None
                &&& decode_write(body@) is None
                &&& e.error@ == "failed to decode response body"@
            } else {
                &&& e.status_code == Some(status)
                &&& e.error@ == "; content: "@ + body@
            },
    {
        if !exec_is_success(status) {
            return Err(status_error(status, body));
        }
        match exec_obj_fields(body) {
            None => Err(decode_error()),
            Some(ps) => match exec_decode_write(&ps) {
                None => Err(decode_error()),
                Some(t) => Ok(
                    ReplaceResponse { matched_count: t.0, modified_count: t.1, upserted_id: t.2 },
                ),
            },
        }
    }
}

impl DeleteResponse {
    /// Interprets an HTTP answer to a delete or delete-many call. A
    /// non-success status is an error carrying exactly that status code;
    /// on success the body must decode to the delete shape. A deleted
    /// count of zero is a success, not an error.
    pub fn from_http(status: u16, body: &str) -> (r: Result<DeleteResponse, Error>)
        ensures
            r matches Ok(resp) ==> is_success_status(status) && decode_delete(body@)
                == Some(resp@),
            r matches Err(e) ==> if is_success_status(status) {
                &&& e.status_code is None
                &&& decode_delete(body@) is None
                &&& e.error@ == "failed to decode response body"@
            } else {
                &&& e.status_code == Some(status)
                &&& e.error@ == "; content: "@ + body@
            },
    {
        if !exec_is_success(status) {
            return Err(status_error(status, body));
        }
        match exec_obj_fields(body) {
            None => Err(decode_error()),
            Some(ps) => match exec_int_field(&ps, "deletedCount") {
                None => Err(decode_error()),
                Some(n) => Ok(DeleteResponse { deleted_count: n }),
            },
        }
    }
}

impl AggregationResponse {
    /// Interprets an HTTP answer to an aggregate call. A non-success
    /// status is an error carrying exactly that status code; on success
    /// the body must decode to the aggregation shape.
    pub fn from_http(status: u16, body: &str) -> (r: Result<AggregationResponse, Error>)
        ensures
            r matches Ok(resp) ==> is_success_status(status) && decode_aggregate(body@)
                == Some(resp@),
            r matches Err(e) ==> if is_success_status(status) {
                &&& e.status_code is None
                &&& decode_aggregate(body@) is None
                &&& e.error@ == "failed to decode response body"@
            } else {
                &&& e.status_code == Some(status)
                &&& e.error@ == "; content: "@ + body@
            },
    {
        if !exec_is_success(status) {
            return Err(status_error(status, body));
        }
        match exec_obj_fields(body) {
            None => Err(decode_error()),
            Some(ps) => match exec_lookup(&ps, "documents") {
                None => Err(decode_error()),
                Some(a) => match exec_arr_items(a.as_str()) {
                    None => Err(decode_error()),
                    Some(items) => match exec_docs_of_items(&items, 0) {
                        None => Err(decode_error()),
                        Some(ds) => Ok(AggregationResponse { documents: ds }),
                    },
                },
            },
        }
    }
}

// ------------------------------------------------------------------
// Laws of the decoding.
// ------------------------------------------------------------------

/// A find response body that carries neither a `document` nor a
/// `documents` key decodes successfully, with both typed fields absent: an
/// omitted optional field reads as absent, never as an error.
pub proof fn lemma_find_fields_optional(body: Seq<char>, ps: Seq<(Seq<char>, Seq<char>)>)
    requires
        obj_fields(body) == Some(ps),
        lookup(ps, "document"@) is None,
        lookup(ps, "documents"@) is None,
    ensures
        decode_find(body) == Some(FindResponseView { document: None, documents: None }),
{
}

/// An update response body without an `upsertedId` key decodes
/// successfully when both counts are present and well formed, and leaves
/// the upserted id absent: the optional field never becomes an error by
/// being omitted.
pub proof fn lemma_upserted_id_optional(
    body: Seq<char>,
    ps: Seq<(Seq<char>, Seq<char>)>,
    mc: int,
    mo: int,
)
    requires
        obj_fields(body) == Some(ps),
        int_field(ps, "matchedCount"@) == Some(mc),
        int_field(ps, "modifiedCount"@) == Some(mo),
        lookup(ps, "upsertedId"@) is None,
    ensures
        decode_write(body) == Some(
            WriteResultView { matched_count: mc, modified_count: mo, upserted_id: None },
        ),
{
}

/// A delete response body without the required `deletedCount` key does not
/// decode: a missing required field is a decode error, not a default.
pub proof fn lemma_deleted_count_required(body: Seq<char>, ps: Seq<(Seq<char>, Seq<char>)>)
    requires
        obj_fields(body) == Some(ps),
        lookup(ps, "deletedCount"@) is None,
    ensures
        decode_delete(body) is None,
{
}

/// Inner induction for [`lemma_inserted_ids_preserve_order`], from
/// position `i` on.
proof fn lemma_oids_of_items_from(items: Seq<Seq<char>>, i: int)
    requires
        0 <= i <= items.len(),
    ensures
        oids_of_items(items, i) matches Some(ids) ==> ids.len() == items.len() - i
            && forall|k: int| i <= k < items.len() ==> oid_of_value(items[k]) == Some(ids[k - i]),
    decreases items.len() - i,
{
    if i < items.len() {
        lemma_oids_of_items_from(items, i + 1);
    }
}

/// Decoding an insert-many id array preserves order: there is exactly one
/// id per array item, and the id at each position is the one read from the
/// item at the same position.
pub proof fn lemma_inserted_ids_preserve_order(items: Seq<Seq<char>>, ids: Seq<Seq<char>>)
    requires
        oids_of_items(items, 0) == Some(ids),
    ensures
        ids.len() == items.len(),
        forall|k: int| 0 <= k < items.len() ==> oid_of_value(items[k]) == Some(ids[k]),
{
    lemma_oids_of_items_from(items, 0);
}

} // verus!
