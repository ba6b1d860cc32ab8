use n3rgy_client::client::records_from_response;
use n3rgy_client::fetch::decode_records;
use n3rgy_client::Client;
use n3rgy_client::ElectricityTariff;
use n3rgy_client::ElectricityTariffDto;
use n3rgy_client::GasTariff;
use n3rgy_client::GasTariffDto;
use n3rgy_client::N3rgyClientError;
use n3rgy_client::StaticAuthorizationProvider;

#[test]
fn test_tariff_decodes_and_converts() {
    let body = r#"{"values":[{
        "standingCharges":[{"startDate":"2024-01-01","value":0.5},
                           {"startDate":"2024-06-01","value":0.55}],
        "prices":[{"timestamp":"2024-08-09 01:00","value":0.038},
                  {"timestamp":"2024-08-09 01:30","value":0.041}]
    }]}"#;
    let tariffs: Vec<ElectricityTariff> =
        records_from_response::<ElectricityTariffDto, ElectricityTariff>(body).unwrap();
    assert_eq!(tariffs.len(), 1);
    assert_eq!(tariffs[0].standing_charges.len(), 2);
    assert_eq!(tariffs[0].prices.len(), 2);
    assert_eq!(tariffs[0].standing_charges[0].start_date.year(), 2024);
    assert_eq!(tariffs[0].standing_charges[0].start_date.month(), 1);
    assert_eq!(tariffs[0].standing_charges[0].start_date.day(), 1);
    assert_eq!(tariffs[0].standing_charges[0].value, "0.5");
    assert_eq!(tariffs[0].standing_charges[1].start_date.month(), 6);
    assert_eq!(tariffs[0].prices[0].timestamp.hour(), 1);
    assert_eq!(tariffs[0].prices[0].timestamp.minute(), 0);
    assert_eq!(tariffs[0].prices[0].value, "0.038");
    assert_eq!(tariffs[0].prices[1].timestamp.minute(), 30);
    assert_eq!(tariffs[0].prices[1].value, "0.041");
}

#[test]
fn test_tariff_with_malformed_inner_element_is_dropped() {
    // One malformed standing charge fails the whole tariff element at the
    // wire-decoding stage, so the element is silently dropped.
    let body = r#"{"values":[{
        "standingCharges":[{"startDate":"2024-01-01"}],
        "prices":[{"timestamp":"2024-08-09 01:00","value":0.038}]
    }]}"#;
    let dtos: Vec<GasTariffDto> = decode_records(body).unwrap();
    assert_eq!(dtos.len(), 0);
}

#[test]
fn test_tariff_missing_prices_is_dropped() {
    let body = r#"{"values":[{
        "standingCharges":[{"startDate":"2024-01-01","value":0.5}]
    }]}"#;
    let dtos: Vec<ElectricityTariffDto> = decode_records(body).unwrap();
    assert_eq!(dtos.len(), 0);
}

#[test]
fn test_tariff_unparsable_start_date_aborts_conversion() {
    // The element decodes structurally, so the bad date is a hard error
    // at the conversion stage, not a dropped element.
    let provider = StaticAuthorizationProvider::new("test-api-key".to_string());
    let client = Client::new(provider, None);
    let body = r#"{"values":[{
        "standingCharges":[{"startDate":"2024-13-01","value":0.5}],
        "prices":[{"timestamp":"2024-08-09 01:00","value":0.038}]
    }]}"#;
    let result = client.gas_tariff_from_response(body);
    assert!(matches!(result, Err(N3rgyClientError::ChronoParse(_))));
}

#[test]
fn test_gas_tariff_decodes() {
    let provider = StaticAuthorizationProvider::new("test-api-key".to_string());
    let client = Client::new(provider, None);
    let body = r#"{"values":[{
        "standingCharges":[{"startDate":"2024-01-01","value":0.31}],
        "prices":[{"timestamp":"2024-02-29 23:30","value":0.07}]
    }]}"#;
    let tariffs: Vec<GasTariff> = client.gas_tariff_from_response(body).unwrap();
    assert_eq!(tariffs.len(), 1);
    assert_eq!(tariffs[0].standing_charges[0].value, "0.31");
    assert_eq!(tariffs[0].prices[0].timestamp.day(), 29);
    assert_eq!(tariffs[0].prices[0].value, "0.07");
}
