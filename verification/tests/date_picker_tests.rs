use feishu_sdk::date_picker::{DatePicker, InputConfirm, PlainText};

#[test]
fn test_date_picker() {
    let date_picker = DatePicker::new()
        .name("date_picker1")
        .required(false)
        .disabled(false)
        .placeholder(PlainText::new("请选择"))
        .width("default")
        .initial_date("2024-01-01")
        .value(vec![("key_1".to_string(), "value_1".to_string())])
        .confirm(InputConfirm::new("title", "content"));

    let json: serde_json::Value = serde_json::from_slice(&date_picker.to_json()).unwrap();
    let expected: serde_json::Value = serde_json::from_str(
        "{\
          \"tag\": \"date_picker\",\
          \"name\": \"date_picker1\",\
          \"required\": false,\
          \"disabled\": false,\
          \"width\": \"default\",\
          \"initial_date\": \"2024-01-01\",\
          \"placeholder\": {\
            \"tag\": \"plain_text\",\
            \"content\": \"请选择\"\
          },\
          \"value\": {\
            \"key_1\": \"value_1\"\
          },\
          \"confirm\": {\
            \"title\": {\
              \"tag\": \"plain_text\",\
              \"content\": \"title\"\
            },\
            \"text\": {\
              \"tag\": \"plain_text\",\
              \"content\": \"content\"\
            }\
          }\
        }",
    )
    .unwrap();
    assert_eq!(json, expected);
}

#[test]
fn fresh_date_picker_serializes_tag_and_null_value() {
    let bytes = DatePicker::new().to_json();
    assert_eq!(
        String::from_utf8(bytes).unwrap(),
        "{\"tag\":\"date_picker\",\"value\":null}"
    );
}
