use n3rgy_client::client::records_from_response;
use n3rgy_client::domain::FromWire;
use n3rgy_client::fetch::build_request_url;
use n3rgy_client::fetch::decode_records;
use n3rgy_client::json::Json;
use n3rgy_client::records::WireRecord;
use n3rgy_client::timestamp::format_compact_date;
use n3rgy_client::Client;
use n3rgy_client::Date;
use n3rgy_client::ElectricityConsumption;
use n3rgy_client::ElectricityConsumptionDto;
use n3rgy_client::EnergyType;
use n3rgy_client::GasConsumption;
use n3rgy_client::GasConsumptionDto;
use n3rgy_client::GetRecordsError;
use n3rgy_client::N3rgyClientError;
use n3rgy_client::ReadingType;
use n3rgy_client::StaticAuthorizationProvider;

fn consumption_element(timestamp: &str, value: &str) -> Json {
    Json::Obj(vec![
        ("timestamp".to_string(), Json::Str(timestamp.to_string())),
        ("value".to_string(), Json::Num(value.to_string())),
    ])
}

#[test]
fn test_deserialize_electricity_consumption() {
    let json_data = r#"{"timestamp":"2024-08-09 01:00","value":0.038}"#;
    let expected_timestamp = n3rgy_client::parse_n3rgy_timestamp("2024-08-09 01:00").unwrap();

    let body = format!(r#"{{"values":[{json_data}]}}"#);
    let dtos: Vec<ElectricityConsumptionDto> = decode_records(&body).unwrap();
    assert_eq!(dtos.len(), 1);
    assert_eq!(dtos[0].timestamp, "2024-08-09 01:00");
    assert_eq!(dtos[0].value, "0.038");

    let record: ElectricityConsumption = FromWire::try_from_dto(&dtos[0]).unwrap();
    assert_eq!(record.timestamp, expected_timestamp);
    assert_eq!(record.value, "0.038");
}

#[test]
fn test_deserialize_gas_consumption() {
    let json_data = r#"{"timestamp":"2024-08-09 01:00","value":3.5}"#;
    let expected_timestamp = n3rgy_client::parse_n3rgy_timestamp("2024-08-09 01:00").unwrap();

    let body = format!(r#"{{"values":[{json_data}]}}"#);
    let dtos: Vec<GasConsumptionDto> = decode_records(&body).unwrap();
    assert_eq!(dtos.len(), 1);
    let record: GasConsumption = FromWire::try_from_dto(&dtos[0]).unwrap();
    assert_eq!(record.timestamp, expected_timestamp);
    assert_eq!(record.value, "3.5");
}

#[test]
fn test_decode_single_element() {
    let element = consumption_element("2024-08-09 01:00", "0.038");
    let dto = <ElectricityConsumptionDto as WireRecord>::decode(&element).unwrap();
    assert_eq!(dto.timestamp, "2024-08-09 01:00");
    assert_eq!(dto.value, "0.038");

    let no_value = Json::Obj(vec![(
        "timestamp".to_string(),
        Json::Str("2024-08-09 01:00".to_string()),
    )]);
    assert!(<ElectricityConsumptionDto as WireRecord>::decode(&no_value).is_none());

    let wrong_type = Json::Obj(vec![
        ("timestamp".to_string(), Json::Num("42".to_string())),
        ("value".to_string(), Json::Num("0.038".to_string())),
    ]);
    assert!(<ElectricityConsumptionDto as WireRecord>::decode(&wrong_type).is_none());
}

#[test]
fn test_end_to_end_consumption_conversion() {
    let body = r#"{"values":[{"timestamp":"2024-08-09 01:00","value":0.038}]}"#;
    let records: Vec<ElectricityConsumption> =
        records_from_response::<ElectricityConsumptionDto, ElectricityConsumption>(body).unwrap();
    assert_eq!(records.len(), 1);
    assert_eq!(records[0].timestamp.year(), 2024);
    assert_eq!(records[0].timestamp.month(), 8);
    assert_eq!(records[0].timestamp.day(), 9);
    assert_eq!(records[0].timestamp.hour(), 1);
    assert_eq!(records[0].timestamp.minute(), 0);
    assert_eq!(records[0].value, "0.038");
}

#[test]
fn test_malformed_element_is_dropped() {
    let body = r#"{"values":[
        {"timestamp":"2024-08-09 01:00","value":0.038},
        {"timestamp":42}
    ]}"#;
    let dtos: Vec<ElectricityConsumptionDto> = decode_records(body).unwrap();
    assert_eq!(dtos.len(), 1);
    assert_eq!(dtos[0].timestamp, "2024-08-09 01:00");
    assert_eq!(dtos[0].value, "0.038");
}

#[test]
fn test_all_elements_malformed_yields_empty() {
    let body = r#"{"values":[{"value":1.0},{"timestamp":true},[],"x"]}"#;
    let dtos: Vec<ElectricityConsumptionDto> = decode_records(body).unwrap();
    assert_eq!(dtos.len(), 0);
}

#[test]
fn test_surviving_elements_keep_order() {
    let body = r#"{"values":[
        {"timestamp":"2024-08-09 00:00","value":1},
        {"bad":true},
        {"timestamp":"2024-08-09 00:30","value":2},
        17,
        {"timestamp":"2024-08-09 01:00","value":3}
    ]}"#;
    let dtos: Vec<ElectricityConsumptionDto> = decode_records(body).unwrap();
    assert_eq!(dtos.len(), 3);
    assert_eq!(dtos[0].value, "1");
    assert_eq!(dtos[1].value, "2");
    assert_eq!(dtos[2].value, "3");
    assert_eq!(dtos[0].timestamp, "2024-08-09 00:00");
    assert_eq!(dtos[1].timestamp, "2024-08-09 00:30");
    assert_eq!(dtos[2].timestamp, "2024-08-09 01:00");
}

#[test]
fn test_top_level_array_is_missing_property() {
    let result = decode_records::<ElectricityConsumptionDto>("[1,2,3]");
    assert!(matches!(result, Err(N3rgyClientError::MissingProperty(_))));
}

#[test]
fn test_empty_values_array_is_ok_and_empty() {
    let dtos: Vec<ElectricityConsumptionDto> = decode_records(r#"{"values":[]}"#).unwrap();
    assert_eq!(dtos.len(), 0);
}

#[test]
fn test_missing_values_property() {
    let body = r#"{"records":[{"timestamp":"2024-08-09 01:00","value":0.038}]}"#;
    let result = decode_records::<ElectricityConsumptionDto>(body);
    assert!(matches!(result, Err(N3rgyClientError::MissingProperty(_))));
}

#[test]
fn test_values_not_an_array() {
    let body = r#"{"values":{"timestamp":"2024-08-09 01:00"}}"#;
    let result = decode_records::<ElectricityConsumptionDto>(body);
    assert!(matches!(result, Err(N3rgyClientError::MissingProperty(_))));
}

#[test]
fn test_body_not_json() {
    let result = decode_records::<ElectricityConsumptionDto>("not json at all");
    assert!(matches!(result, Err(N3rgyClientError::Serde(_))));
}

#[test]
fn test_unparsable_timestamp_aborts_batch() {
    let provider = StaticAuthorizationProvider::new("test-api-key".to_string());
    let client = Client::new(provider, None);
    let body = r#"{"values":[
        {"timestamp":"2024-08-09 01:00","value":0.038},
        {"timestamp":"2024-99-99 01:00","value":0.040}
    ]}"#;
    let result = client.electricity_consumption_from_response(body);
    assert!(matches!(result, Err(N3rgyClientError::ChronoParse(_))));
}

#[test]
fn test_query_construction() {
    let start = Date::from_ymd_opt(2024, 1, 1).unwrap();
    let end = Date::from_ymd_opt(2024, 1, 31).unwrap();
    let url = build_request_url(
        "https://consumer-api.data.n3rgy.com",
        &EnergyType::Electricity,
        &ReadingType::Consumption,
        &start,
        &end,
    )
    .unwrap();
    assert_eq!(
        url,
        "https://consumer-api.data.n3rgy.com/electricity/consumption/1?start=20240101&end=20240131&output=json"
    );
}

#[test]
fn test_request_url_per_energy_and_reading() {
    let provider = StaticAuthorizationProvider::new("test-api-key".to_string());
    let client = Client::new(provider, None);
    let start = Date::from_ymd_opt(2024, 1, 1).unwrap();
    let end = Date::from_ymd_opt(2024, 1, 31).unwrap();
    let url = client
        .request_url(&EnergyType::Gas, &ReadingType::Tariff, &start, &end)
        .unwrap();
    assert_eq!(
        url,
        "https://consumer-api.data.n3rgy.com/gas/tariff/1?start=20240101&end=20240131&output=json"
    );
}

#[test]
fn test_malformed_base_url() {
    let start = Date::from_ymd_opt(2024, 1, 1).unwrap();
    let end = Date::from_ymd_opt(2024, 1, 31).unwrap();
    let result = build_request_url(
        "not a base url",
        &EnergyType::Electricity,
        &ReadingType::Consumption,
        &start,
        &end,
    );
    assert!(matches!(result, Err(N3rgyClientError::Parse(_))));
}

#[test]
fn test_format_compact_date() {
    let date = Date::from_ymd_opt(2024, 1, 31).unwrap();
    assert_eq!(format_compact_date(&date), "20240131");
    let date = Date::from_ymd_opt(987, 12, 3).unwrap();
    assert_eq!(format_compact_date(&date), "09871203");
}

#[test]
fn test_client_custom_base_url() {
    let provider = StaticAuthorizationProvider::new("test-api-key".to_string());
    let client = Client::new(provider, Some("http://localhost:8080".to_string()));
    assert_eq!(client.base_url, "http://localhost:8080");
    let start = Date::from_ymd_opt(2024, 1, 1).unwrap();
    let end = Date::from_ymd_opt(2024, 1, 2).unwrap();
    let url = client
        .request_url(&EnergyType::Electricity, &ReadingType::Consumption, &start, &end)
        .unwrap();
    assert_eq!(
        url,
        "http://localhost:8080/electricity/consumption/1?start=20240101&end=20240102&output=json"
    );
}

#[test]
fn test_static_authorization_provider() {
    let provider = StaticAuthorizationProvider::new("test-api-key".to_string());
    let client = Client::new(provider, None);
    assert_eq!(client.authorization(), "test-api-key");
}

#[test]
fn test_error_mapping_to_get_records_error() {
    let mapped =
        GetRecordsError::from_client_error(N3rgyClientError::MissingProperty("values".to_string()));
    assert!(matches!(mapped, GetRecordsError::Custom(m) if m == "values"));
    let mapped = GetRecordsError::from_client_error(N3rgyClientError::Serde("bad".to_string()));
    assert!(matches!(mapped, GetRecordsError::Serde(_)));
}
