//! The client facade: one operation per energy-type and reading-kind
//! pair, each built from the verified pipeline.
//!
//! The transport is not here: the embedding application asks the client
//! for the request URL, performs the HTTP exchange with the provider's
//! authorization string attached, and hands the response body back to
//! the matching `..._from_response` operation, which decodes the
//! envelope tolerantly and then converts every surviving wire record,
//! stopping at the first unparsable timestamp.

use vstd::prelude::*;

use crate::auth::AuthorizationProvider;
use crate::domain::ElectricityConsumption;
use crate::domain::ElectricityTariff;
use crate::domain::FromWire;
use crate::domain::GasConsumption;
use crate::domain::GasTariff;
use crate::domain::convert_all;
use crate::domain::convert_seq;
use crate::error::N3rgyClientError;
use crate::fetch::EnergyType;
use crate::fetch::ReadingType;
use crate::fetch::build_request_url;
use crate::fetch::decode_records;
use crate::fetch::decoded_seq;
use crate::fetch::envelope_values;
use crate::fetch::parsed_url;
use crate::fetch::request_url_text;
use crate::json::json_of;
use crate::records::ElectricityConsumptionDto;
use crate::records::ElectricityTariffDto;
use crate::records::GasConsumptionDto;
use crate::records::GasTariffDto;
use crate::records::WireRecord;
use crate::timestamp::Date;

verus! {

/// The provider's production endpoint, used when no base URL is given.
pub open spec fn default_base_url_text() -> Seq<char> {
    "https://consumer-api.data.n3rgy.com"@
}

/// What one whole retrieval returns once the response body is in hand:
/// decode failures and a missing envelope surface as their errors, a
/// surviving batch converts all-or-nothing on its timestamps.
pub open spec fn response_outcome<W: WireRecord, T: FromWire<W>>(
    body: Seq<char>,
    r: Result<Vec<T>, N3rgyClientError>,
) -> bool {
    match json_of(body) {
        None => r matches Err(e) && e matches N3rgyClientError::Serde(_),
        Some(doc) => match envelope_values(doc) {
            None => r matches Err(e) && e matches N3rgyClientError::MissingProperty(_),
            Some(els) => match convert_seq::<W, T>(decoded_seq::<W>(els)) {
                Some(recs) => r matches Ok(v) && v@.map_values(|t: T| t@) == recs,
                None => r matches Err(e) && e matches N3rgyClientError::ChronoParse(_),
            },
        },
    }
}

/// Decodes a response body and converts every surviving wire record to
/// its domain type: the generic decode-then-convert pipeline shared by
/// the four public operations.
pub fn records_from_response<W: WireRecord, T: FromWire<W>>(body: &str) -> (r: Result<
    Vec<T>,
    N3rgyClientError,
>)
    ensures
        response_outcome::<W, T>(body@, r),
{
    let dtos: Vec<W> = match decode_records::<W>(body) {
        Ok(d) => d,
        Err(e) => return Err(e),
    };
    match convert_all::<W, T>(&dtos) {
        Ok(v) => Ok(v),
        Err(e) => Err(N3rgyClientError::ChronoParse(e)),
    }
}

/// A client for the provider's interface, holding the injected
/// authorization capability and the base URL of the environment it
/// talks to.
pub struct Client<T: AuthorizationProvider> {
    pub authorization_provider: T,
    pub base_url: String,
}

impl<T: AuthorizationProvider> Client<T> {
    /// Builds a client; without a base URL the provider's production
    /// endpoint is used.
    pub fn new(authorization_provider: T, base_url: Option<String>) -> (r: Self)
        ensures
            r.authorization_provider == authorization_provider,
            r.base_url@ == match base_url {
                Some(u) => u@,
                None => default_base_url_text(),
            },
    {
        Self {
            authorization_provider,
            base_url: match base_url {
                Some(u) => u,
                None => String::from_str("https://consumer-api.data.n3rgy.com"),
            },
        }
    }

    /// The authorization string to attach to a request, exactly as the
    /// injected capability returns it.
    pub fn authorization(&self) -> String {
        self.authorization_provider.get_authorization()
    }

    /// Builds and validates the URL of one request against this
    /// client's base URL.
    pub fn request_url(
        &self,
        energy: &EnergyType,
        reading: &ReadingType,
        start: &Date,
        end: &Date,
    ) -> (r: Result<String, N3rgyClientError>)
        requires
            start.wf(),
            end.wf(),
        ensures
            r is Ok <==> parsed_url(
                request_url_text(self.base_url@, *energy, *reading, *start, *end),
            ) is Some,
            r matches Ok(u) ==> Some(u@) == parsed_url(
                request_url_text(self.base_url@, *energy, *reading, *start, *end),
            ),
            r matches Err(e) ==> e matches N3rgyClientError::Parse(_),
    {
        build_request_url(self.base_url.as_str(), energy, reading, start, end)
    }

    /// Decodes an electricity consumption response.
    pub fn electricity_consumption_from_response(&self, body: &str) -> (r: Result<
        Vec<ElectricityConsumption>,
        N3rgyClientError,
    >)
        ensures
            response_outcome::<ElectricityConsumptionDto, ElectricityConsumption>(body@, r),
    {
        records_from_response::<ElectricityConsumptionDto, ElectricityConsumption>(body)
    }

    /// Decodes a gas consumption response.
    pub fn gas_consumption_from_response(&self, body: &str) -> (r: Result<
        Vec<GasConsumption>,
        N3rgyClientError,
    >)
        ensures
            response_outcome::<GasConsumptionDto, GasConsumption>(body@, r),
    {
        records_from_response::<GasConsumptionDto, GasConsumption>(body)
    }

    /// Decodes an electricity tariff response.
    pub fn electricity_tariff_from_response(&self, body: &str) -> (r: Result<
        Vec<ElectricityTariff>,
        N3rgyClientError,
    >)
        ensures
            response_outcome::<ElectricityTariffDto, ElectricityTariff>(body@, r),
    {
        records_from_response::<ElectricityTariffDto, ElectricityTariff>(body)
    }

    /// Decodes a gas tariff response.
    pub fn gas_tariff_from_response(&self, body: &str) -> (r: Result<
        Vec<GasTariff>,
        N3rgyClientError,
    >)
        ensures
            response_outcome::<GasTariffDto, GasTariff>(body@, r),
    {
        records_from_response::<GasTariffDto, GasTariff>(body)
    }
}

} // verus!
