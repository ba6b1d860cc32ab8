//! Client library for a smart-meter data provider's REST interface.
//!
//! The library covers the computational core of the client: parsing the
//! provider's date and date-time text formats, building request URLs and
//! query strings, decoding the provider's JSON response envelope, and
//! converting loosely-typed wire records into strongly-typed domain values.
//! The HTTP transport itself is left to the embedding application.

pub mod auth;
pub mod client;
pub mod domain;
pub mod error;
pub mod fetch;
pub mod json;
pub mod records;
pub mod text;
pub mod timestamp;

pub use auth::AuthorizationProvider;
pub use auth::StaticAuthorizationProvider;
pub use client::Client;
pub use domain::ElectricityConsumption;
pub use domain::ElectricityTariff;
pub use domain::GasConsumption;
pub use domain::GasTariff;
pub use domain::StandingCharge;
pub use domain::TimestampedValue;
pub use error::GetRecordsError;
pub use error::N3rgyClientError;
pub use fetch::EnergyType;
pub use fetch::ReadingType;
pub use records::ElectricityConsumptionDto;
pub use records::ElectricityTariffDto;
pub use records::GasConsumptionDto;
pub use records::GasTariffDto;
pub use records::StandingChargeDto;
pub use records::TimestampedValueDto;
pub use timestamp::Date;
pub use timestamp::DateTime;
pub use timestamp::TimestampParseError;
pub use timestamp::parse_date;
pub use timestamp::parse_date_time;
pub use timestamp::parse_n3rgy_timestamp;
