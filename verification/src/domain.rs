//! Domain records: the caller-facing types with parsed timestamps.
//!
//! A domain record is produced by converting a wire record through the
//! timestamp parser. Conversion is not tolerant: a wire record that
//! decoded structurally but carries an unparsable timestamp is a hard
//! error, and converting a batch stops at the first such record. No
//! domain value exists with an invalid timestamp.

use vstd::prelude::*;

use crate::records::DateValueTextView;
use crate::records::ElectricityConsumptionDto;
use crate::records::ElectricityTariffDto;
use crate::records::GasConsumptionDto;
use crate::records::GasTariffDto;
use crate::records::StandingChargeDto;
use crate::records::TariffTextView;
use crate::records::TimeValueTextView;
use crate::records::TimestampedValueDto;
use crate::timestamp::Date;
use crate::timestamp::DateTime;
use crate::timestamp::TimestampParseError;
use crate::timestamp::date_of_text;
use crate::timestamp::date_text_valid;
use crate::timestamp::datetime_of_text;
use crate::timestamp::datetime_text_valid;
use crate::timestamp::parse_date;
use crate::timestamp::parse_date_time;

verus! {

/// Abstract value of a domain record with a parsed timestamp.
pub struct TimeValueView {
    pub timestamp: DateTime,
    pub value: Seq<char>,
}

/// Abstract value of a domain standing charge.
pub struct DateValueView {
    pub start_date: Date,
    pub value: Seq<char>,
}

/// Abstract value of a domain tariff record.
pub struct TariffView {
    pub standing_charges: Seq<DateValueView>,
    pub prices: Seq<TimeValueView>,
}

/// One electricity consumption sample with a parsed timestamp.
#[derive(Debug, Clone)]
pub struct ElectricityConsumption {
    pub timestamp: DateTime,
    pub value: String,
}

impl View for ElectricityConsumption {
    type V = TimeValueView;

    open spec fn view(&self) -> TimeValueView {
        TimeValueView { timestamp: self.timestamp, value: self.value@ }
    }
}

/// One gas consumption sample with a parsed timestamp.
#[derive(Debug, Clone)]
pub struct GasConsumption {
    pub timestamp: DateTime,
    pub value: String,
}

impl View for GasConsumption {
    type V = TimeValueView;

    open spec fn view(&self) -> TimeValueView {
        TimeValueView { timestamp: self.timestamp, value: self.value@ }
    }
}

/// One price-point sample with a parsed timestamp.
#[derive(Debug, Clone)]
pub struct TimestampedValue {
    pub timestamp: DateTime,
    pub value: String,
}

impl View for TimestampedValue {
    type V = TimeValueView;

    open spec fn view(&self) -> TimeValueView {
        TimeValueView { timestamp: self.timestamp, value: self.value@ }
    }
}

/// A charge effective from its start date until superseded.
#[derive(Debug, Clone)]
pub struct StandingCharge {
    pub start_date: Date,
    pub value: String,
}

impl View for StandingCharge {
    type V = DateValueView;

    open spec fn view(&self) -> DateValueView {
        DateValueView { start_date: self.start_date, value: self.value@ }
    }
}

/// The full electricity tariff schedule for the requested window.
#[derive(Debug, Clone)]
pub struct ElectricityTariff {
    pub standing_charges: Vec<StandingCharge>,
    pub prices: Vec<TimestampedValue>,
}

impl View for ElectricityTariff {
    type V = TariffView;

    open spec fn view(&self) -> TariffView {
        TariffView {
            standing_charges: self.standing_charges@.map_values(|c: StandingCharge| c@),
            prices: self.prices@.map_values(|p: TimestampedValue| p@),
        }
    }
}

/// The full gas tariff schedule for the requested window.
#[derive(Debug, Clone)]
pub struct GasTariff {
    pub standing_charges: Vec<StandingCharge>,
    pub prices: Vec<TimestampedValue>,
}

impl View for GasTariff {
    type V = TariffView;

    open spec fn view(&self) -> TariffView {
        TariffView {
            standing_charges: self.standing_charges@.map_values(|c: StandingCharge| c@),
            prices: self.prices@.map_values(|p: TimestampedValue| p@),
        }
    }
}

/// A domain record family: a type that one wire record converts into.
/// Conversion parses the record's timestamps and fails exactly when one
/// of them is not in the provider's format.
pub trait FromWire<W: View>: View + Sized {
    /// What the wire record converts to, if its timestamps parse.
    spec fn convert_spec(v: W::V) -> Option<Self::V>;

    /// Converts one wire record, failing on an unparsable timestamp.
    fn try_from_dto(dto: &W) -> (r: Result<Self, TimestampParseError>)
        ensures
            r is Ok <==> Self::convert_spec(dto@) is Some,
            r matches Ok(d) ==> Some(d@) == Self::convert_spec(dto@),
    ;
}

/// What a timestamped wire value converts to: its timestamp parsed as
/// `YYYY-MM-DD HH:MM`, its value text kept.
pub open spec fn convert_time_value(v: TimeValueTextView) -> Option<TimeValueView> {
    if datetime_text_valid(v.timestamp) {
        Some(TimeValueView { timestamp: datetime_of_text(v.timestamp), value: v.value })
    } else {
        None
    }
}

/// What a wire standing charge converts to: its start date parsed as
/// `YYYY-MM-DD`, its value text kept.
pub open spec fn convert_date_value(v: DateValueTextView) -> Option<DateValueView> {
    if date_text_valid(v.start_date) {
        Some(DateValueView { start_date: date_of_text(v.start_date), value: v.value })
    } else {
        None
    }
}

/// Every domain timestamp is a well-formed calendar date-time: a
/// conversion that succeeds never yields a record whose timestamp fails
/// [`DateTime::wf`].
pub proof fn lemma_converted_timestamp_wf(v: TimeValueTextView)
    requires
        convert_time_value(v) is Some,
    ensures
        convert_time_value(v)->Some_0.timestamp.wf(),
{
}

/// Every domain start date is a well-formed calendar day: a conversion
/// that succeeds never yields a charge whose date fails [`Date::wf`].
pub proof fn lemma_converted_date_wf(v: DateValueTextView)
    requires
        convert_date_value(v) is Some,
    ensures
        convert_date_value(v)->Some_0.start_date.wf(),
{
}

impl FromWire<ElectricityConsumptionDto> for ElectricityConsumption {
    open spec fn convert_spec(v: TimeValueTextView) -> Option<TimeValueView> {
        convert_time_value(v)
    }

    fn try_from_dto(dto: &ElectricityConsumptionDto) -> (r: Result<Self, TimestampParseError>) {
        match parse_date_time(dto.timestamp.as_str()) {
            Ok(timestamp) => Ok(ElectricityConsumption { timestamp, value: dto.value.clone() }),
            Err(e) => Err(e),
        }
    }
}

impl FromWire<GasConsumptionDto> for GasConsumption {
    open spec fn convert_spec(v: TimeValueTextView) -> Option<TimeValueView> {
        convert_time_value(v)
    }

    fn try_from_dto(dto: &GasConsumptionDto) -> (r: Result<Self, TimestampParseError>) {
        match parse_date_time(dto.timestamp.as_str()) {
            Ok(timestamp) => Ok(GasConsumption { timestamp, value: dto.value.clone() }),
            Err(e) => Err(e),
        }
    }
}

impl FromWire<TimestampedValueDto> for TimestampedValue {
    open spec fn convert_spec(v: TimeValueTextView) -> Option<TimeValueView> {
        convert_time_value(v)
    }

    fn try_from_dto(dto: &TimestampedValueDto) -> (r: Result<Self, TimestampParseError>) {
        match parse_date_time(dto.timestamp.as_str()) {
            Ok(timestamp) => Ok(TimestampedValue { timestamp, value: dto.value.clone() }),
            Err(e) => Err(e),
        }
    }
}

impl FromWire<StandingChargeDto> for StandingCharge {
    open spec fn convert_spec(v: DateValueTextView) -> Option<DateValueView> {
        convert_date_value(v)
    }

    fn try_from_dto(dto: &StandingChargeDto) -> (r: Result<Self, TimestampParseError>) {
        match parse_date(dto.start_date.as_str()) {
            Ok(start_date) => Ok(StandingCharge { start_date, value: dto.value.clone() }),
            Err(e) => Err(e),
        }
    }
}

/// What a batch of wire records converts to: every record must convert,
/// or the whole batch fails on the first record that does not.
pub open spec fn convert_seq<W: View, T: FromWire<W>>(vs: Seq<W::V>) -> Option<Seq<T::V>>
    decreases vs.len(),
{
    if vs.len() == 0 {
        Some(Seq::empty())
    } else {
        match (convert_seq::<W, T>(vs.drop_last()), T::convert_spec(vs.last())) {
            (Some(rest), Some(v)) => Some(rest.push(v)),
            _ => None,
        }
    }
}

/// One record that fails to convert sinks the whole batch.
proof fn lemma_convert_seq_fails<W: View, T: FromWire<W>>(vs: Seq<W::V>, i: int)
    requires
        0 <= i < vs.len(),
        T::convert_spec(vs[i]) is None,
    ensures
        convert_seq::<W, T>(vs) is None,
    decreases vs.len(),
{
    if i < vs.len() - 1 {
        lemma_convert_seq_fails::<W, T>(vs.drop_last(), i);
    }
}

/// Converts every record of a batch, stopping at the first record whose
/// timestamp does not parse.
pub fn convert_all<W: View, T: FromWire<W>>(dtos: &Vec<W>) -> (r: Result<
    Vec<T>,
    TimestampParseError,
>)
    ensures
        r is Ok <==> convert_seq::<W, T>(dtos@.map_values(|d: W| d@)) is Some,
        r matches Ok(v) ==> Some(v@.map_values(|t: T| t@)) == convert_seq::<W, T>(
            dtos@.map_values(|d: W| d@),
        ),
{
    let ghost vs = dtos@.map_values(|d: W| d@);
    let mut out: Vec<T> = Vec::new();
    let n = dtos.len();
    let mut i: usize = 0;
    proof {
        assert(vs.take(0) =~= Seq::<W::V>::empty());
        assert(out@.map_values(|t: T| t@) =~= Seq::<T::V>::empty());
    }
    while i < n
        invariant
            i <= n,
            n == dtos@.len(),
            vs == dtos@.map_values(|d: W| d@),
            convert_seq::<W, T>(vs.take(i as int)) == Some(out@.map_values(|t: T| t@)),
        decreases n - i,
    {
        match T::try_from_dto(&dtos[i]) {
            Ok(t) => {
                out.push(t);
                proof {
                    assert(vs.take(i + 1).drop_last() =~= vs.take(i as int));
                    assert(vs.take(i + 1).last() == vs[i as int]);
                    assert(out@.map_values(|t: T| t@) =~= out@.drop_last().map_values(
                        |t: T| t@,
                    ).push(out@.last()@));
                }
            },
            Err(e) => {
                proof {
                    lemma_convert_seq_fails::<W, T>(vs, i as int);
                }
                return Err(e);
            },
        }
        i += 1;
    }
    proof {
        assert(vs.take(n as int) =~= vs);
    }
    Ok(out)
}

/// What a wire tariff converts to: every standing charge's start date and
/// every price point's timestamp parsed; one failure fails the record.
pub open spec fn convert_tariff(t: TariffTextView) -> Option<TariffView> {
    match (
        convert_seq::<StandingChargeDto, StandingCharge>(t.standing_charges),
        convert_seq::<TimestampedValueDto, TimestampedValue>(t.prices),
    ) {
        (Some(c), Some(p)) => Some(TariffView { standing_charges: c, prices: p }),
        _ => None,
    }
}

impl FromWire<ElectricityTariffDto> for ElectricityTariff {
    open spec fn convert_spec(v: TariffTextView) -> Option<TariffView> {
        convert_tariff(v)
    }

    fn try_from_dto(dto: &ElectricityTariffDto) -> (r: Result<Self, TimestampParseError>) {
        let standing_charges = match convert_all::<StandingChargeDto, StandingCharge>(
            &dto.standing_charges,
        ) {
            Ok(c) => c,
            Err(e) => return Err(e),
        };
        let prices = match convert_all::<TimestampedValueDto, TimestampedValue>(&dto.prices) {
            Ok(p) => p,
            Err(e) => return Err(e),
        };
        Ok(ElectricityTariff { standing_charges, prices })
    }
}

impl FromWire<GasTariffDto> for GasTariff {
    open spec fn convert_spec(v: TariffTextView) -> Option<TariffView> {
        convert_tariff(v)
    }

    fn try_from_dto(dto: &GasTariffDto) -> (r: Result<Self, TimestampParseError>) {
        let standing_charges = match convert_all::<StandingChargeDto, StandingCharge>(
            &dto.standing_charges,
        ) {
            Ok(c) => c,
            Err(e) => return Err(e),
        };
        let prices = match convert_all::<TimestampedValueDto, TimestampedValue>(&dto.prices) {
            Ok(p) => p,
            Err(e) => return Err(e),
        };
        Ok(GasTariff { standing_charges, prices })
    }
}

} // verus!
