use datastar::request::{
    datastar_json_from_query, datastar_param, DatastarJsonRejection, DatastarQueryRejection,
};

#[test]
fn get_query_with_datastar_json() {
    let json = datastar_json_from_query("datastar={\"theme\":\"dark\"}").unwrap();
    let value: serde_json::Value = serde_json::from_str(&json).unwrap();
    assert_eq!(value["theme"], "dark");

    let json = datastar_json_from_query("datastar=%7B%22theme%22%3A%22dark%22%7D").unwrap();
    assert_eq!(json, "{\"theme\":\"dark\"}");
    let value: serde_json::Value = serde_json::from_str(&json).unwrap();
    assert_eq!(value["theme"].as_str(), Some("dark"));
}

#[test]
fn get_query_without_datastar_key() {
    assert_eq!(datastar_json_from_query("foo=1"), Err(DatastarQueryRejection::DatastarQueryNotFound));
    assert_eq!(datastar_json_from_query(""), Err(DatastarQueryRejection::DatastarQueryNotFound));
}

#[test]
fn query_values_are_decoded() {
    assert_eq!(datastar_json_from_query("a=1&datastar=x%20y+z&datastar=2"), Ok("x y z".to_string()));
}

#[test]
fn first_datastar_pair_wins() {
    let pairs = vec![
        ("other".to_string(), "0".to_string()),
        ("datastar".to_string(), "1".to_string()),
        ("datastar".to_string(), "2".to_string()),
    ];
    assert_eq!(datastar_param(&pairs), Ok("1".to_string()));
    assert_eq!(datastar_param(&vec![]), Err(DatastarQueryRejection::DatastarQueryNotFound));
}

#[test]
fn rejection_messages() {
    assert_eq!(
        DatastarQueryRejection::FailedToDeserializeDatastarQueryString.message(),
        "Failed to deserialize datastar query string"
    );
    assert_eq!(
        DatastarQueryRejection::FailedToDeserializeDatastarInnerJson.message(),
        "Failed to deserialize inner json of datastar query string"
    );
    assert_eq!(
        DatastarQueryRejection::DatastarQueryNotFound.message(),
        "Query string with the format `?datastar=<json> was not found`"
    );
    assert_eq!(DatastarQueryRejection::DatastarQueryNotFound.status_code(), 400);
    assert_eq!(DatastarJsonRejection::FailedToDecodeBytes.message(), "Failed to deserialize json body");
    assert_eq!(DatastarJsonRejection::FailedToDeserializeJson.message(), "Failed to deserialize json body");
    assert_eq!(DatastarJsonRejection::FailedToDeserializeJson.status_code(), 400);
}
