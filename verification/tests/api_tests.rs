use atlas_data_api::client::is_valid_header_value;
use atlas_data_api::client::{ApiVersion, Client, Collection};
use atlas_data_api::doc::{Document, ObjectId};
use atlas_data_api::response::{
    AggregationResponse, DeleteResponse, FindResponse, InsertResponse, ReplaceResponse,
    UpdateResponse,
};

fn client_no_region() -> Client {
    Client::new(
        String::from("my-app-id"),
        String::from("SECRET-REDACTED"),
        ApiVersion::v1,
        None,
    )
}

fn client_with_region() -> Client {
    Client::new(
        String::from("my-app-id"),
        String::from("SECRET-REDACTED"),
        ApiVersion::v1,
        Some(String::from("us-east-1.aws")),
    )
}

fn users_collection() -> Collection {
    Collection {
        data_source: String::from("Cluster0"),
        database: String::from("db"),
        collection: String::from("users"),
    }
}

fn doc(text: &str) -> Document {
    Document::new(String::from(text))
}

#[test]
fn base_url_without_region_has_no_region_segment() {
    let url = client_no_region().get_url();
    assert_eq!(url, "https://data.mongodb-api.com/app/my-app-id/endpoint/data/v1");
    assert!(!url.contains("us-east-1"));
}

#[test]
fn base_url_with_region_starts_with_region() {
    let url = client_with_region().get_url();
    assert_eq!(
        url,
        "https://us-east-1.aws.data.mongodb-api.com/app/my-app-id/endpoint/data/v1"
    );
    assert!(url.starts_with("https://us-east-1.aws."));
}

#[test]
fn auth_headers_carry_token_and_json_types() {
    let headers = client_no_region().get_auth_headers();
    assert_eq!(headers.len(), 3);
    assert_eq!(headers[0].0, "apikey");
    assert_eq!(headers[0].1, "SECRET-REDACTED");
    assert_eq!(headers[1].0, "content-type");
    assert_eq!(headers[1].1, "application/json");
    assert_eq!(headers[2].0, "accept");
    assert_eq!(headers[2].1, "application/json");
}

#[test]
fn header_value_check_rejects_control_characters() {
    assert!(is_valid_header_value("plain-token-123"));
    assert!(!is_valid_header_value("bad\ntoken"));
    assert!(!is_valid_header_value("bad\u{7f}token"));
    assert!(is_valid_header_value(""));
}

#[test]
fn find_one_request_url_and_body() {
    let req = client_no_region().find_one(
        users_collection(),
        Some(doc("{\"_id\":\"000000000000000000000001\"}")),
        None,
    );
    assert_eq!(
        req.url,
        "https://data.mongodb-api.com/app/my-app-id/endpoint/data/v1/action/findOne"
    );
    assert_eq!(
        req.body,
        "{\"dataSource\":\"Cluster0\",\"database\":\"db\",\"collection\":\"users\",\
         \"filter\":{\"_id\":\"000000000000000000000001\"}}"
    );
}

#[test]
fn absent_optional_fields_leave_no_key_behind() {
    let req = client_no_region().find_one(users_collection(), None, None);
    assert_eq!(
        req.body,
        "{\"dataSource\":\"Cluster0\",\"database\":\"db\",\"collection\":\"users\"}"
    );
    assert!(!req.body.contains("filter"));
    assert!(!req.body.contains("projection"));
    assert!(!req.body.contains("null"));
}

#[test]
fn find_request_carries_every_present_field() {
    let req = client_no_region().find(
        users_collection(),
        Some(doc("{\"age\":{\"$gt\":21}}")),
        Some(doc("{\"name\":1}")),
        Some(doc("{\"age\":-1}")),
        Some(25),
        Some(-3),
    );
    assert_eq!(
        req.url,
        "https://data.mongodb-api.com/app/my-app-id/endpoint/data/v1/action/find"
    );
    assert_eq!(
        req.body,
        "{\"dataSource\":\"Cluster0\",\"database\":\"db\",\"collection\":\"users\",\
         \"filter\":{\"age\":{\"$gt\":21}},\"projection\":{\"name\":1},\"sort\":{\"age\":-1},\
         \"limit\":25,\"skip\":-3}"
    );
}

#[test]
fn find_request_body_is_valid_json_for_serde() {
    let req = client_no_region().find(
        users_collection(),
        Some(doc("{\"age\":{\"$gt\":21}}")),
        None,
        None,
        Some(50000),
        Some(0),
    );
    let v: serde_json::Value = serde_json::from_str(&req.body).expect("body must parse");
    assert_eq!(v["dataSource"], "Cluster0");
    assert_eq!(v["database"], "db");
    assert_eq!(v["collection"], "users");
    assert_eq!(v["filter"]["age"]["$gt"], 21);
    assert_eq!(v["limit"], 50000);
    assert_eq!(v["skip"], 0);
    assert!(v.get("projection").is_none());
    assert!(v.get("sort").is_none());
}

#[test]
fn collection_names_are_escaped_like_serde_escapes_them() {
    let odd = Collection {
        data_source: String::from("quo\"te\\back"),
        database: String::from("line\nbreak\ttab"),
        collection: String::from("ctl\u{1}end"),
    };
    let req = client_no_region().find_one(odd, None, None);
    let v: serde_json::Value = serde_json::from_str(&req.body).expect("body must parse");
    assert_eq!(v["dataSource"], "quo\"te\\back");
    assert_eq!(v["database"], "line\nbreak\ttab");
    assert_eq!(v["collection"], "ctl\u{1}end");
    let serde_rendering =
        serde_json::to_string(&v).expect("value must serialize");
    let reparsed: serde_json::Value =
        serde_json::from_str(&serde_rendering).expect("must parse again");
    assert_eq!(v, reparsed);
}

#[test]
fn insert_one_request_body() {
    let req = client_no_region().insert_one(users_collection(), doc("{\"name\":\"a\"}"));
    assert!(req.url.ends_with("/action/insertOne"));
    assert_eq!(
        req.body,
        "{\"dataSource\":\"Cluster0\",\"database\":\"db\",\"collection\":\"users\",\
         \"document\":{\"name\":\"a\"}}"
    );
}

#[test]
fn insert_many_request_keeps_document_order() {
    let req = client_no_region().insert(
        users_collection(),
        vec![doc("{\"n\":1}"), doc("{\"n\":2}"), doc("{\"n\":3}")],
    );
    assert!(req.url.ends_with("/action/insertMany"));
    assert_eq!(
        req.body,
        "{\"dataSource\":\"Cluster0\",\"database\":\"db\",\"collection\":\"users\",\
         \"documents\":[{\"n\":1},{\"n\":2},{\"n\":3}]}"
    );
}

#[test]
fn update_one_request_with_upsert_true() {
    let req = client_no_region().update_one(
        users_collection(),
        doc("{\"name\":\"a\"}"),
        doc("{\"$set\":{\"name\":\"b\"}}"),
        Some(true),
    );
    assert!(req.url.ends_with("/action/updateOne"));
    assert_eq!(
        req.body,
        "{\"dataSource\":\"Cluster0\",\"database\":\"db\",\"collection\":\"users\",\
         \"filter\":{\"name\":\"a\"},\"update\":{\"$set\":{\"name\":\"b\"}},\"upsert\":true}"
    );
}

#[test]
fn update_request_omits_absent_upsert_entirely() {
    let req = client_no_region().update(
        users_collection(),
        doc("{\"name\":\"a\"}"),
        doc("{\"$set\":{\"name\":\"b\"}}"),
        None,
    );
    assert!(req.url.ends_with("/action/updateMany"));
    assert!(!req.body.contains("upsert"));
    assert_eq!(
        req.body,
        "{\"dataSource\":\"Cluster0\",\"database\":\"db\",\"collection\":\"users\",\
         \"filter\":{\"name\":\"a\"},\"update\":{\"$set\":{\"name\":\"b\"}}}"
    );
}

#[test]
fn replace_one_request_with_upsert_false() {
    let req = client_no_region().replace_one(
        users_collection(),
        doc("{\"name\":\"a\"}"),
        doc("{\"name\":\"c\"}"),
        Some(false),
    );
    assert!(req.url.ends_with("/action/replaceOne"));
    assert_eq!(
        req.body,
        "{\"dataSource\":\"Cluster0\",\"database\":\"db\",\"collection\":\"users\",\
         \"filter\":{\"name\":\"a\"},\"replacement\":{\"name\":\"c\"},\"upsert\":false}"
    );
}

#[test]
fn delete_requests_urls_and_body() {
    let one = client_no_region().delete_one(users_collection(), doc("{\"name\":\"a\"}"));
    assert!(one.url.ends_with("/action/deleteOne"));
    let many = client_no_region().delete(users_collection(), doc("{}"));
    assert!(many.url.ends_with("/action/deleteMany"));
    assert_eq!(
        many.body,
        "{\"dataSource\":\"Cluster0\",\"database\":\"db\",\"collection\":\"users\",\
         \"filter\":{}}"
    );
}

#[test]
fn aggregate_request_body() {
    let req = client_no_region().aggregate(
        users_collection(),
        vec![doc("{\"$match\":{}}"), doc("{\"$limit\":5}")],
    );
    assert!(req.url.ends_with("/action/aggregate"));
    assert_eq!(
        req.body,
        "{\"dataSource\":\"Cluster0\",\"database\":\"db\",\"collection\":\"users\",\
         \"pipeline\":[{\"$match\":{}},{\"$limit\":5}]}"
    );
}

#[test]
fn non_success_status_yields_error_with_exact_code() {
    let r = FindResponse::from_http(404, "not found at all");
    let e = r.err().expect("must be an error");
    assert_eq!(e.status_code, Some(404));
    assert_eq!(e.error, "; content: not found at all");

    let r = DeleteResponse::from_http(500, "{\"deletedCount\":3}");
    let e = r.err().expect("must be an error");
    assert_eq!(e.status_code, Some(500));

    let r = UpdateResponse::from_http(199, "");
    assert_eq!(r.err().expect("must be an error").status_code, Some(199));

    let r = InsertResponse::from_http(300, "");
    assert_eq!(r.err().expect("must be an error").status_code, Some(300));
}

#[test]
fn find_one_scenario_document_present_documents_absent() {
    let body = "{\"document\":{\"_id\":\"000000000000000000000001\",\"name\":\"a\"}}";
    let r = FindResponse::from_http(200, body).expect("must decode");
    let d = r.document.expect("document must be present");
    assert_eq!(d.as_text(), "{\"_id\":\"000000000000000000000001\",\"name\":\"a\"}");
    assert!(r.documents.is_none());
}

#[test]
fn find_decodes_document_list() {
    let body = "{\"documents\":[{\"n\":1},{\"n\":2}]}";
    let r = FindResponse::from_http(200, body).expect("must decode");
    assert!(r.document.is_none());
    let ds = r.documents.expect("documents must be present");
    assert_eq!(ds.len(), 2);
    assert_eq!(ds[0].as_text(), "{\"n\":1}");
    assert_eq!(ds[1].as_text(), "{\"n\":2}");
}

#[test]
fn find_with_empty_body_object_decodes_with_both_fields_absent() {
    let r = FindResponse::from_http(200, "{}").expect("must decode");
    assert!(r.document.is_none());
    assert!(r.documents.is_none());
}

#[test]
fn find_with_null_document_decodes_as_absent() {
    let r = FindResponse::from_http(200, "{\"document\":null}").expect("must decode");
    assert!(r.document.is_none());
}

#[test]
fn malformed_body_is_a_decode_error_without_status() {
    let r = FindResponse::from_http(200, "{\"document\":");
    let e = r.err().expect("must be an error");
    assert_eq!(e.status_code, None);
    assert_eq!(e.error, "failed to decode response body");

    let r = DeleteResponse::from_http(200, "not json");
    assert_eq!(r.err().expect("must be an error").status_code, None);
}

#[test]
fn delete_many_scenario_zero_count_is_success() {
    let r = DeleteResponse::from_http(200, "{\"deletedCount\":0}").expect("must decode");
    assert_eq!(r.deleted_count, 0);
}

#[test]
fn delete_missing_required_count_is_a_decode_error() {
    let r = DeleteResponse::from_http(200, "{}");
    let e = r.err().expect("must be an error");
    assert_eq!(e.status_code, None);
}

#[test]
fn delete_count_must_be_an_integer() {
    assert!(DeleteResponse::from_http(200, "{\"deletedCount\":\"3\"}").is_err());
    assert!(DeleteResponse::from_http(200, "{\"deletedCount\":null}").is_err());
    assert!(DeleteResponse::from_http(200, "{\"deletedCount\":2147483648}").is_err());
    let r = DeleteResponse::from_http(200, "{\"deletedCount\":2147483647}").expect("fits");
    assert_eq!(r.deleted_count, 2147483647);
}

#[test]
fn update_one_scenario_upserted_id_populated() {
    let body = "{\"matchedCount\":0,\"modifiedCount\":0,\
                \"upsertedId\":\"64d2a1f0aa11bb22cc33dd44\"}";
    let r = UpdateResponse::from_http(200, body).expect("must decode");
    assert_eq!(r.matched_count, 0);
    assert_eq!(r.modified_count, 0);
    let id = r.upserted_id.expect("id must be populated");
    assert_eq!(id.as_hex(), "64d2a1f0aa11bb22cc33dd44");
}

#[test]
fn update_without_upserted_id_decodes_with_absent_id() {
    let body = "{\"matchedCount\":5,\"modifiedCount\":4}";
    let r = UpdateResponse::from_http(200, body).expect("must decode");
    assert_eq!(r.matched_count, 5);
    assert_eq!(r.modified_count, 4);
    assert!(r.upserted_id.is_none());
}

#[test]
fn update_missing_required_count_is_a_decode_error() {
    assert!(UpdateResponse::from_http(200, "{\"matchedCount\":1}").is_err());
    assert!(UpdateResponse::from_http(200, "{\"modifiedCount\":1}").is_err());
}

#[test]
fn replace_decodes_like_update() {
    let body = "{\"matchedCount\":1,\"modifiedCount\":1}";
    let r = ReplaceResponse::from_http(200, body).expect("must decode");
    assert_eq!(r.matched_count, 1);
    assert_eq!(r.modified_count, 1);
    assert!(r.upserted_id.is_none());
}

#[test]
fn insert_one_decodes_plain_and_extended_ids() {
    let r = InsertResponse::from_http(200, "{\"insertedId\":\"64d2a1f0aa11bb22cc33dd44\"}")
        .expect("must decode");
    assert_eq!(r.inserted_id.expect("id").as_hex(), "64d2a1f0aa11bb22cc33dd44");
    assert!(r.inserted_ids.is_none());

    let r = InsertResponse::from_http(
        200,
        "{\"insertedId\":{\"$oid\":\"64d2a1f0aa11bb22cc33dd44\"}}",
    )
    .expect("must decode");
    assert_eq!(r.inserted_id.expect("id").as_hex(), "64d2a1f0aa11bb22cc33dd44");
}

#[test]
fn insert_many_preserves_echoed_id_order() {
    let body = "{\"insertedIds\":[\"000000000000000000000001\",\
                \"000000000000000000000002\",\"000000000000000000000003\"]}";
    let r = InsertResponse::from_http(200, body).expect("must decode");
    let ids = r.inserted_ids.expect("ids must be present");
    assert_eq!(ids.len(), 3);
    assert_eq!(ids[0].as_hex(), "000000000000000000000001");
    assert_eq!(ids[1].as_hex(), "000000000000000000000002");
    assert_eq!(ids[2].as_hex(), "000000000000000000000003");
    assert!(r.inserted_id.is_none());
}

#[test]
fn insert_with_malformed_id_is_a_decode_error() {
    assert!(InsertResponse::from_http(200, "{\"insertedId\":\"too-short\"}").is_err());
    assert!(InsertResponse::from_http(200, "{\"insertedIds\":[\"xyz\"]}").is_err());
    assert!(InsertResponse::from_http(200, "{\"insertedIds\":7}").is_err());
}

#[test]
fn insert_with_no_id_fields_decodes_empty() {
    let r = InsertResponse::from_http(200, "{}").expect("must decode");
    assert!(r.inserted_id.is_none());
    assert!(r.inserted_ids.is_none());
}

#[test]
fn aggregate_decodes_documents_in_order() {
    let body = "{\"documents\":[{\"a\":1},{\"b\":[1,2,{\"c\":true}]},{}]}";
    let r = AggregationResponse::from_http(200, body).expect("must decode");
    assert_eq!(r.documents.len(), 3);
    assert_eq!(r.documents[0].as_text(), "{\"a\":1}");
    assert_eq!(r.documents[1].as_text(), "{\"b\":[1,2,{\"c\":true}]}");
    assert_eq!(r.documents[2].as_text(), "{}");
}

#[test]
fn aggregate_requires_the_documents_field() {
    assert!(AggregationResponse::from_http(200, "{}").is_err());
    assert!(AggregationResponse::from_http(200, "{\"documents\":null}").is_err());
}

#[test]
fn decoder_handles_nested_values_and_escapes() {
    let body = "{\"document\":{\"s\":\"br{ace\\\"and[bracket\",\"deep\":{\"x\":[{},[]]}},\
                \"extra\":-12.5e3}";
    let r = FindResponse::from_http(200, body).expect("must decode");
    let d = r.document.expect("document");
    assert_eq!(
        d.as_text(),
        "{\"s\":\"br{ace\\\"and[bracket\",\"deep\":{\"x\":[{},[]]}}"
    );
}

#[test]
fn update_with_extended_upserted_id() {
    let body = "{\"matchedCount\":0,\"modifiedCount\":0,\
                \"upsertedId\":{\"$oid\":\"ffffffffffffffffffffffff\"}}";
    let r = UpdateResponse::from_http(200, body).expect("must decode");
    assert_eq!(r.upserted_id.expect("id").as_hex(), "ffffffffffffffffffffffff");
}

#[test]
fn counts_may_be_negative_integers() {
    let body = "{\"matchedCount\":-1,\"modifiedCount\":-2147483648}";
    let r = UpdateResponse::from_http(200, body).expect("must decode");
    assert_eq!(r.matched_count, -1);
    assert_eq!(r.modified_count, -2147483648);
}

#[test]
fn escaped_quotes_and_backslashes_inside_documents_are_scanned() {
    let body = "{\"document\":{\"s\":\"ends with backslash \\\\\"}}";
    let r = FindResponse::from_http(200, body).expect("must decode");
    assert_eq!(
        r.document.expect("document").as_text(),
        "{\"s\":\"ends with backslash \\\\\"}"
    );
}

#[test]
fn insert_response_with_both_id_fields() {
    let body = "{\"insertedId\":\"000000000000000000000009\",\
                \"insertedIds\":[\"000000000000000000000009\"]}";
    let r = InsertResponse::from_http(200, body).expect("must decode");
    assert_eq!(r.inserted_id.expect("id").as_hex(), "000000000000000000000009");
    assert_eq!(r.inserted_ids.expect("ids").len(), 1);
}

#[test]
fn trailing_text_after_the_object_is_a_decode_error() {
    assert!(DeleteResponse::from_http(200, "{\"deletedCount\":1} x").is_err());
    assert!(FindResponse::from_http(200, "{}{}").is_err());
    assert!(FindResponse::from_http(200, "").is_err());
}

#[test]
fn decoder_tolerates_whitespace_between_tokens() {
    let r = DeleteResponse::from_http(200, " { \"deletedCount\" : 7 } ").expect("must decode");
    assert_eq!(r.deleted_count, 7);

    let body = "{\n  \"matchedCount\": 1,\n  \"modifiedCount\": 0,\n  \"upsertedId\": null\n}";
    let r = UpdateResponse::from_http(200, body).expect("must decode");
    assert_eq!(r.matched_count, 1);
    assert_eq!(r.modified_count, 0);
    assert!(r.upserted_id.is_none());

    let body = "{ \"documents\" : [ {\"a\": 1} , {} ] }";
    let r = AggregationResponse::from_http(200, body).expect("must decode");
    assert_eq!(r.documents.len(), 2);
    assert_eq!(r.documents[0].as_text(), "{\"a\": 1}");
}

#[test]
fn document_parse_accepts_only_object_text() {
    assert!(Document::parse(String::from("{\"a\":1}")).is_some());
    assert!(Document::parse(String::from(" { } ")).is_some());
    assert!(Document::parse(String::from("[1,2]")).is_none());
    assert!(Document::parse(String::from("{\"a\":}")).is_none());
    assert!(Document::parse(String::from("nope")).is_none());
    assert!(Document::parse(String::from("{} trailing")).is_none());
}

#[test]
fn object_id_parse_accepts_only_24_hex_digits() {
    assert!(ObjectId::parse("64d2a1f0aa11bb22cc33dd44").is_some());
    assert!(ObjectId::parse("64D2A1F0AA11BB22CC33DD44").is_some());
    assert!(ObjectId::parse("64d2a1f0aa11bb22cc33dd4").is_none());
    assert!(ObjectId::parse("64d2a1f0aa11bb22cc33dd445").is_none());
    assert!(ObjectId::parse("64d2a1f0aa11bb22cc33dd4g").is_none());
    assert!(ObjectId::parse("").is_none());
}

#[test]
fn request_body_round_trips_through_serde_json() {
    let req = client_with_region().update_one(
        users_collection(),
        doc("{\"_id\":{\"$oid\":\"64d2a1f0aa11bb22cc33dd44\"}}"),
        doc("{\"$inc\":{\"n\":1}}"),
        Some(true),
    );
    let v: serde_json::Value = serde_json::from_str(&req.body).expect("body must parse");
    assert_eq!(v["upsert"], true);
    assert_eq!(v["filter"]["_id"]["$oid"], "64d2a1f0aa11bb22cc33dd44");
    assert_eq!(v["update"]["$inc"]["n"], 1);
}
