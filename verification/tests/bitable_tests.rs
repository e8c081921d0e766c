use feishu_sdk::bitable::{
    AppTableRecordService, SearchAppTableRecordRequest, SearchCondition, SearchFilterInfo,
    SearchSort,
};
use feishu_sdk::credential::AccessTokenType;
use feishu_sdk::transport::{Config, HttpMethod};

#[test]
fn empty_request_serializes_every_field_as_null() {
    let req = SearchAppTableRecordRequest::builder()
        .app_token("tok".to_string())
        .table_id("tbl".to_string())
        .build();
    let body = String::from_utf8(req.api_request.body.clone()).unwrap();
    assert_eq!(
        body,
        "{\"app_token\":\"tok\",\"table_id\":\"tbl\",\"view_id\":null,\
         \"field_names\":null,\"sort\":null,\"filter\":null,\"automatic\":null}"
    );
}

#[test]
fn full_request_serializes_all_fields() {
    let req = SearchAppTableRecordRequest::builder()
        .app_token("tok".to_string())
        .table_id("tbl".to_string())
        .view_id("vewqhz51lk".to_string())
        .field_names(vec!["字段1".to_string(), "字段2".to_string()])
        .sort(SearchSort { field_name: Some("多行文本".to_string()), desc: Some(true) })
        .filter(SearchFilterInfo {
            conjunction: Some("and".to_string()),
            conditions: Some(vec![SearchCondition {
                field_name: "字段1".to_string(),
                operator: "is".to_string(),
                value: Some(vec!["文本内容".to_string()]),
            }]),
        })
        .automatic(false)
        .build();
    let v: serde_json::Value = serde_json::from_slice(&req.api_request.body).unwrap();
    let expected: serde_json::Value = serde_json::from_str(
        "{\"app_token\":\"tok\",\"table_id\":\"tbl\",\"view_id\":\"vewqhz51lk\",\
         \"field_names\":[\"字段1\",\"字段2\"],\
         \"sort\":{\"field_name\":\"多行文本\",\"desc\":true},\
         \"filter\":{\"conjunction\":\"and\",\"conditions\":[{\"field_name\":\"字段1\",\
         \"operator\":\"is\",\"value\":[\"文本内容\"]}]},\"automatic\":false}",
    )
    .unwrap();
    assert_eq!(v, expected);
}

#[test]
fn query_parameters_are_collected() {
    let b = SearchAppTableRecordRequest::builder()
        .user_id_type("open_id".to_string())
        .page_token("cursor".to_string())
        .page_size(25);
    let params = &b.request.api_request.query_params;
    assert_eq!(params.len(), 3);
    let get = |k: &str| {
        params
            .iter()
            .find(|(key, _)| key == k)
            .map(|(_, v)| v.clone())
            .unwrap()
    };
    assert_eq!(get("user_id_type"), "open_id");
    assert_eq!(get("page_token"), "cursor");
    assert_eq!(get("page_size"), "25");
}

#[test]
fn search_request_targets_the_records_search_path() {
    let service = AppTableRecordService::new(Config::new(
        "app".to_string(),
        "secret".to_string(),
        "https://open.feishu.cn".to_string(),
    ));
    let req = SearchAppTableRecordRequest::builder()
        .app_token("Abc123".to_string())
        .table_id("tblX".to_string())
        .build();
    let api = service.search_request(req);
    assert_eq!(api.http_method, HttpMethod::Post);
    assert_eq!(
        api.api_path,
        "/open-apis/bitable/v1/apps/Abc123/tables/tblX/records/search"
    );
    assert_eq!(
        api.supported_access_token_types,
        vec![AccessTokenType::Tenant, AccessTokenType::User]
    );
}

#[test]
fn string_values_are_escaped_in_the_body() {
    let req = SearchAppTableRecordRequest::builder()
        .app_token("a\"b\\c".to_string())
        .table_id("line\nbreak".to_string())
        .build();
    let v: serde_json::Value = serde_json::from_slice(&req.api_request.body).unwrap();
    assert_eq!(v["app_token"], serde_json::Value::String("a\"b\\c".to_string()));
    assert_eq!(v["table_id"], serde_json::Value::String("line\nbreak".to_string()));
}
