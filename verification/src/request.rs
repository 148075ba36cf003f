use vstd::prelude::*;
use vstd::string::*;

use crate::client::{action_url_spec, Client, Collection, CollectionView};
use crate::doc::Document;
use crate::json::{int_dec, json_string, push_char, push_dec_i32, push_json_string};

verus! {

/// A fully prepared action call: the URL to POST to and the JSON body to
/// send. The fixed headers come from [`Client::get_auth_headers`].
pub struct ApiRequest {
    /// The action URL: the client's base URL plus `/action/{name}`.
    pub url: String,
    /// The serialized JSON request body.
    pub body: String,
}

/// The collection selector as it is merged into the top level of every
/// request body: the three names under their lowerCamelCase keys.
pub open spec fn collection_part(c: CollectionView) -> Seq<char> {
    "\"dataSource\":"@ + json_string(c.data_source) + ",\"database\":"@ + json_string(c.database)
        + ",\"collection\":"@ + json_string(c.collection)
}

/// An optional document field: its key-and-colon prefix and the document
/// text when present, nothing at all when absent.
pub open spec fn opt_doc_field(prefix: Seq<char>, v: Option<Seq<char>>) -> Seq<char> {
    match v {
        Some(d) => prefix + d,
        None => Seq::<char>::empty(),
    }
}

/// An optional integer field: prefix and decimal rendering when present,
/// nothing at all when absent.
pub open spec fn opt_int_field(prefix: Seq<char>, v: Option<int>) -> Seq<char> {
    match v {
        Some(n) => prefix + int_dec(n),
        None => Seq::<char>::empty(),
    }
}

/// An optional boolean field: prefix and `true` or `false` when present,
/// nothing at all when absent.
pub open spec fn opt_bool_field(prefix: Seq<char>, v: Option<bool>) -> Seq<char> {
    match v {
        Some(true) => prefix + "true"@,
        Some(false) => prefix + "false"@,
        None => Seq::<char>::empty(),
    }
}

/// The comma-separated document texts of `docs` from index `i` on.
pub open spec fn doc_list(docs: Seq<Seq<char>>, i: int) -> Seq<char>
    decreases docs.len() - i when 0 <= i <= docs.len()
{
    if i >= docs.len() {
        Seq::<char>::empty()
    } else if i + 1 == docs.len() {
        docs[i]
    } else {
        docs[i] + seq![','] + doc_list(docs, i + 1)
    }
}

/// The text of an optional document parameter.
pub open spec fn opt_doc_view(d: Option<Document>) -> Option<Seq<char>> {
    match d {
        Some(x) => Some(x@),
        None => None,
    }
}

/// The mathematical value of an optional `i32` parameter.
pub open spec fn opt_int_view(v: Option<i32>) -> Option<int> {
    match v {
        Some(n) => Some(n as int),
        None => None,
    }
}

/// The texts of a sequence of documents.
pub open spec fn docs_view(v: Seq<Document>) -> Seq<Seq<char>> {
    v.map_values(|d: Document| d@)
}

/// The body of a find request: the collection selector and every present
/// optional field, each absent one omitted entirely.
pub open spec fn find_body(
    c: CollectionView,
    filter: Option<Seq<char>>,
    projection: Option<Seq<char>>,
    sort: Option<Seq<char>>,
    limit: Option<int>,
    skip: Option<int>,
) -> Seq<char> {
    seq!['{'] + collection_part(c) + opt_doc_field(",\"filter\":"@, filter) + opt_doc_field(
        ",\"projection\":"@,
        projection,
    ) + opt_doc_field(",\"sort\":"@, sort) + opt_int_field(",\"limit\":"@, limit) + opt_int_field(
        ",\"skip\":"@,
        skip,
    ) + seq!['}']
}

/// The body of an insert-one request.
pub open spec fn insert_one_body(c: CollectionView, document: Seq<char>) -> Seq<char> {
    seq!['{'] + collection_part(c) + ",\"document\":"@ + document + seq!['}']
}

/// The body of an insert-many request: the documents as a JSON array, in
/// input order.
pub open spec fn insert_many_body(c: CollectionView, documents: Seq<Seq<char>>) -> Seq<char> {
    seq!['{'] + collection_part(c) + ",\"documents\":["@ + doc_list(documents, 0) + "]}"@
}

/// The body of an update request (one or many).
pub open spec fn update_body(
    c: CollectionView,
    filter: Seq<char>,
    update: Seq<char>,
    upsert: Option<bool>,
) -> Seq<char> {
    seq!['{'] + collection_part(c) + ",\"filter\":"@ + filter + ",\"update\":"@ + update
        + opt_bool_field(",\"upsert\":"@, upsert) + seq!['}']
}

/// The body of a replace-one request.
pub open spec fn replace_body(
    c: CollectionView,
    filter: Seq<char>,
    replacement: Seq<char>,
    upsert: Option<bool>,
) -> Seq<char> {
    seq!['{'] + collection_part(c) + ",\"filter\":"@ + filter + ",\"replacement\":"@ + replacement
        + opt_bool_field(",\"upsert\":"@, upsert) + seq!['}']
}

/// The body of a delete request (one or many).
pub open spec fn delete_body(c: CollectionView, filter: Seq<char>) -> Seq<char> {
    seq!['{'] + collection_part(c) + ",\"filter\":"@ + filter + seq!['}']
}

/// The body of an aggregate request: the pipeline stages as a JSON array,
/// in input order.
pub open spec fn aggregate_body(c: CollectionView, pipeline: Seq<Seq<char>>) -> Seq<char> {
    seq!['{'] + collection_part(c) + ",\"pipeline\":["@ + doc_list(pipeline, 0) + "]}"@
}

/// Appends the collection selector fields.
fn push_collection(c: &Collection, out: &mut String)
    ensures
        final(out)@ == old(out)@ + collection_part(c@),
{
    out.append("\"dataSource\":");
    push_json_string(c.data_source.as_str(), out);
    out.append(",\"database\":");
    push_json_string(c.database.as_str(), out);
    out.append(",\"collection\":");
    push_json_string(c.collection.as_str(), out);
    proof { assert(out@ =~= old(out)@ + collection_part(c@)); }
}

/// Appends an optional document field, or nothing.
fn push_opt_doc(prefix: &str, v: &Option<Document>, out: &mut String)
    ensures
        final(out)@ == old(out)@ + opt_doc_field(prefix@, opt_doc_view(*v)),
{
    match v {
        Some(d) => {
            out.append(prefix);
            out.append(d.as_text());
            proof { assert(out@ =~= old(out)@ + opt_doc_field(prefix@, opt_doc_view(*v))); }
        },
        None => {
            proof { assert(out@ =~= old(out)@ + opt_doc_field(prefix@, opt_doc_view(*v))); }
        },
    }
}

/// Appends an optional integer field, or nothing.
fn push_opt_i32(prefix: &str, v: &Option<i32>, out: &mut String)
    ensures
        final(out)@ == old(out)@ + opt_int_field(prefix@, opt_int_view(*v)),
{
    match v {
        Some(n) => {
            out.append(prefix);
            push_dec_i32(out, *n);
            proof { assert(out@ =~= old(out)@ + opt_int_field(prefix@, opt_int_view(*v))); }
        },
        None => {
            proof { assert(out@ =~= old(out)@ + opt_int_field(prefix@, opt_int_view(*v))); }
        },
    }
}

/// Appends an optional boolean field, or nothing.
fn push_opt_bool(prefix: &str, v: &Option<bool>, out: &mut String)
    ensures
        final(out)@ == old(out)@ + opt_bool_field(prefix@, *v),
{
    match v {
        Some(b) => {
            out.append(prefix);
            if *b {
                out.append("true");
            } else {
                out.append("false");
            }
            proof { assert(out@ =~= old(out)@ + opt_bool_field(prefix@, *v)); }
        },
        None => {
            proof { assert(out@ =~= old(out)@ + opt_bool_field(prefix@, *v)); }
        },
    }
}

/// Appends the comma-separated document texts from index `i` on.
fn push_doc_list(docs: &Vec<Document>, i: usize, out: &mut String)
    requires
        i <= docs@.len(),
    ensures
        final(out)@ == old(out)@ + doc_list(docs_view(docs@), i as int),
    decreases docs@.len() - i,
{
    if i < docs.len() {
        out.append(docs[i].as_text());
        proof { assert(docs_view(docs@)[i as int] == docs@[i as int]@); }
        if i + 1 < docs.len() {
            push_char(out, ',');
            push_doc_list(docs, i + 1, out);
            proof { assert(out@ =~= old(out)@ + doc_list(docs_view(docs@), i as int)); }
        } else {
            proof { assert(out@ =~= old(out)@ + doc_list(docs_view(docs@), i as int)); }
        }
    } else {
        proof { assert(out@ =~= old(out)@ + doc_list(docs_view(docs@), i as int)); }
    }
}

impl Client {
    /// The URL of one action: the base URL plus `/action/` and the name.
    fn action_url(&self, action: &str) -> (r: String)
        ensures
            r@ == action_url_spec(self@, action@),
    {
        let mut u = self.get_url();
        u.append("/action/");
        u.append(action);
        proof { assert(u@ =~= action_url_spec(self@, action@)); }
        u
    }

    /// Find a single document: the first one matching the filter, shaped by
    /// the projection. Absent filter or projection is omitted from the body.
    pub fn find_one(
        &self,
        collection: Collection,
        filter: Option<Document>,
        projection: Option<Document>,
    ) -> (r: ApiRequest)
        ensures
            r.url@ == action_url_spec(self@, "findOne"@),
            r.body@ == find_body(
                collection@,
                opt_doc_view(filter),
                opt_doc_view(projection),
                None,
                None,
                None,
            ),
    {
        let url = self.action_url("findOne");
        let mut body = String::new();
        push_char(&mut body, '{');
        push_collection(&collection, &mut body);
        push_opt_doc(",\"filter\":", &filter, &mut body);
        push_opt_doc(",\"projection\":", &projection, &mut body);
        push_char(&mut body, '}');
        proof {
            assert(body@ =~= find_body(
                collection@,
                opt_doc_view(filter),
                opt_doc_view(projection),
                None,
                None,
                None,
            ));
        }
        ApiRequest { url, body }
    }

    /// Find multiple documents matching the filter, shaped by the
    /// projection, in the sort order, windowed by limit and skip. The
    /// remote service caps each answer at 50,000 documents; skip selects
    /// later windows of the result set. Every absent optional field is
    /// omitted from the body.
    pub fn find(
        &self,
        collection: Collection,
        filter: Option<Document>,
        projection: Option<Document>,
        sort: Option<Document>,
        limit: Option<i32>,
        skip: Option<i32>,
    ) -> (r: ApiRequest)
        ensures
            r.url@ == action_url_spec(self@, "find"@),
            r.body@ == find_body(
                collection@,
                opt_doc_view(filter),
                opt_doc_view(projection),
                opt_doc_view(sort),
                opt_int_view(limit),
                opt_int_view(skip),
            ),
    {
        let url = self.action_url("find");
        let mut body = String::new();
        push_char(&mut body, '{');
        push_collection(&collection, &mut body);
        push_opt_doc(",\"filter\":", &filter, &mut body);
        push_opt_doc(",\"projection\":", &projection, &mut body);
        push_opt_doc(",\"sort\":", &sort, &mut body);
        push_opt_i32(",\"limit\":", &limit, &mut body);
        push_opt_i32(",\"skip\":", &skip, &mut body);
        push_char(&mut body, '}');
        proof {
            assert(body@ =~= find_body(
                collection@,
                opt_doc_view(filter),
                opt_doc_view(projection),
                opt_doc_view(sort),
                opt_int_view(limit),
                opt_int_view(skip),
            ));
        }
        ApiRequest { url, body }
    }

    /// Insert a single document into the collection.
    pub fn insert_one(&self, collection: Collection, document: Document) -> (r: ApiRequest)
        ensures
            r.url@ == action_url_spec(self@, "insertOne"@),
            r.body@ == insert_one_body(collection@, document@),
    {
        let url = self.action_url("insertOne");
        let mut body = String::new();
        push_char(&mut body, '{');
        push_collection(&collection, &mut body);
        body.append(",\"document\":");
        body.append(document.as_text());
        push_char(&mut body, '}');
        proof { assert(body@ =~= insert_one_body(collection@, document@)); }
        ApiRequest { url, body }
    }

    /// Insert one or more documents into the collection, in the given
    /// order.
    pub fn insert(&self, collection: Collection, documents: Vec<Document>) -> (r: ApiRequest)
        requires
            documents@.len() >= 1,
        ensures
            r.url@ == action_url_spec(self@, "insertMany"@),
            r.body@ == insert_many_body(collection@, docs_view(documents@)),
    {
        let url = self.action_url("insertMany");
        let mut body = String::new();
        push_char(&mut body, '{');
        push_collection(&collection, &mut body);
        body.append(",\"documents\":[");
        push_doc_list(&documents, 0, &mut body);
        body.append("]}");
        proof { assert(body@ =~= insert_many_body(collection@, docs_view(documents@))); }
        ApiRequest { url, body }
    }

    /// Update the first document that matches the filter. With the upsert
    /// flag set and no match, a new document is inserted; an absent flag is
    /// omitted from the body.
    pub fn update_one(
        &self,
        collection: Collection,
        filter: Document,
        update: Document,
        upsert: Option<bool>,
    ) -> (r: ApiRequest)
        ensures
            r.url@ == action_url_spec(self@, "updateOne"@),
            r.body@ == update_body(collection@, filter@, update@, upsert),
    {
        let url = self.action_url("updateOne");
        let body = build_update_body(&collection, &filter, &update, &upsert);
        ApiRequest { url, body }
    }

    /// Update every document that matches the filter. With the upsert flag
    /// set and no match, a new document is inserted; an absent flag is
    /// omitted from the body.
    pub fn update(
        &self,
        collection: Collection,
        filter: Document,
        update: Document,
        upsert: Option<bool>,
    ) -> (r: ApiRequest)
        ensures
            r.url@ == action_url_spec(self@, "updateMany"@),
            r.body@ == update_body(collection@, filter@, update@, upsert),
    {
        let url = self.action_url("updateMany");
        let body = build_update_body(&collection, &filter, &update, &upsert);
        ApiRequest { url, body }
    }

    /// Replace the first document that matches the filter with the
    /// replacement document. With the upsert flag set and no match, the
    /// replacement is inserted; an absent flag is omitted from the body.
    pub fn replace_one(
        &self,
        collection: Collection,
        filter: Document,
        replacement: Document,
        upsert: Option<bool>,
    ) -> (r: ApiRequest)
        ensures
            r.url@ == action_url_spec(self@, "replaceOne"@),
            r.body@ == replace_body(collection@, filter@, replacement@, upsert),
    {
        let url = self.action_url("replaceOne");
        let mut body = String::new();
        push_char(&mut body, '{');
        push_collection(&collection, &mut body);
        body.append(",\"filter\":");
        body.append(filter.as_text());
        body.append(",\"replacement\":");
        body.append(replacement.as_text());
        push_opt_bool(",\"upsert\":", &upsert, &mut body);
        push_char(&mut body, '}');
        proof { assert(body@ =~= replace_body(collection@, filter@, replacement@, upsert)); }
        ApiRequest { url, body }
    }

    /// Delete the first document that matches the filter.
    pub fn delete_one(&self, collection: Collection, filter: Document) -> (r: ApiRequest)
        ensures
            r.url@ == action_url_spec(self@, "deleteOne"@),
            r.body@ == delete_body(collection@, filter@),
    {
        let url = self.action_url("deleteOne");
        let body = build_delete_body(&collection, &filter);
        ApiRequest { url, body }
    }

    /// Delete every document that matches the filter.
    pub fn delete(&self, collection: Collection, filter: Document) -> (r: ApiRequest)
        ensures
            r.url@ == action_url_spec(self@, "deleteMany"@),
            r.body@ == delete_body(collection@, filter@),
    {
        let url = self.action_url("deleteMany");
        let body = build_delete_body(&collection, &filter);
        ApiRequest { url, body }
    }

    /// Run an aggregation pipeline: the stage documents are sent as an
    /// array, in the given order.
    pub fn aggregate(&self, collection: Collection, pipeline: Vec<Document>) -> (r: ApiRequest)
        ensures
            r.url@ == action_url_spec(self@, "aggregate"@),
            r.body@ == aggregate_body(collection@, docs_view(pipeline@)),
    {
        let url = self.action_url("aggregate");
        let mut body = String::new();
        push_char(&mut body, '{');
        push_collection(&collection, &mut body);
        body.append(",\"pipeline\":[");
        push_doc_list(&pipeline, 0, &mut body);
        body.append("]}");
        proof { assert(body@ =~= aggregate_body(collection@, docs_view(pipeline@))); }
        ApiRequest { url, body }
    }
}

/// Builds the shared body of the update actions.
fn build_update_body(
    collection: &Collection,
    filter: &Document,
    update: &Document,
    upsert: &Option<bool>,
) -> (r: String)
    ensures
        r@ == update_body(collection@, filter@, update@, *upsert),
{
    let mut body = String::new();
    push_char(&mut body, '{');
    push_collection(collection, &mut body);
    body.append(",\"filter\":");
    body.append(filter.as_text());
    body.append(",\"update\":");
    body.append(update.as_text());
    push_opt_bool(",\"upsert\":", upsert, &mut body);
    push_char(&mut body, '}');
    proof { assert(body@ =~= update_body(collection@, filter@, update@, *upsert)); }
    body
}

/// Builds the shared body of the delete actions.
fn build_delete_body(collection: &Collection, filter: &Document) -> (r: String)
    ensures
        r@ == delete_body(collection@, filter@),
{
    let mut body = String::new();
    push_char(&mut body, '{');
    push_collection(collection, &mut body);
    body.append(",\"filter\":");
    body.append(filter.as_text());
    push_char(&mut body, '}');
    proof { assert(body@ =~= delete_body(collection@, filter@)); }
    body
}

/// An absent optional field contributes nothing at all to a request body:
/// no key, no null, not a single character.
pub proof fn lemma_absent_field_omitted(prefix: Seq<char>)
    ensures
        opt_doc_field(prefix, None) == Seq::<char>::empty(),
        opt_int_field(prefix, None) == Seq::<char>::empty(),
        opt_bool_field(prefix, None) == Seq::<char>::empty(),
{
}

/// A find-one body with neither filter nor projection is exactly the bare
/// collection selector object: the absent fields leave no key behind.
pub proof fn lemma_find_one_minimal_body(c: CollectionView)
    ensures
        find_body(c, None, None, None, None, None) == seq!['{'] + collection_part(c) + seq!['}'],
{
    assert(find_body(c, None, None, None, None, None) =~= seq!['{'] + collection_part(c)
        + seq!['}']);
}

/// An update body without the upsert flag ends right after the update
/// document: the `upsert` key is omitted entirely, and the body equals the
/// one of a request that has no such field at all.
pub proof fn lemma_update_upsert_omitted(c: CollectionView, filter: Seq<char>, update: Seq<char>)
    ensures
        update_body(c, filter, update, None) == seq!['{'] + collection_part(c) + ",\"filter\":"@
            + filter + ",\"update\":"@ + update + seq!['}'],
{
    assert(update_body(c, filter, update, None) =~= seq!['{'] + collection_part(c)
        + ",\"filter\":"@ + filter + ",\"update\":"@ + update + seq!['}']);
}

} // verus!
