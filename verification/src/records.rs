//! Wire records (DTOs) and their decoding from the JSON model.
//!
//! A wire record mirrors one element of the provider's `values` array as
//! directly as possible: timestamps are still raw text, and a reading's
//! numeric value is still the decimal text the response carried. Four
//! record families exist: electricity consumption, gas consumption,
//! electricity tariff and gas tariff; a tariff bundles standing charges
//! and a price series.

use vstd::prelude::*;

use crate::json::Json;
use crate::json::lookup;
use crate::json::obj_get;

verus! {

/// Abstract value of a wire record with a raw timestamp and a value text.
pub struct TimeValueTextView {
    pub timestamp: Seq<char>,
    pub value: Seq<char>,
}

/// Abstract value of a wire standing charge: a raw start date and a value
/// text.
pub struct DateValueTextView {
    pub start_date: Seq<char>,
    pub value: Seq<char>,
}

/// Abstract value of a wire tariff record.
pub struct TariffTextView {
    pub standing_charges: Seq<DateValueTextView>,
    pub prices: Seq<TimeValueTextView>,
}

/// One electricity consumption sample as the provider sends it.
#[derive(Debug, Clone)]
pub struct ElectricityConsumptionDto {
    pub timestamp: String,
    pub value: String,
}

impl View for ElectricityConsumptionDto {
    type V = TimeValueTextView;

    open spec fn view(&self) -> TimeValueTextView {
        TimeValueTextView { timestamp: self.timestamp@, value: self.value@ }
    }
}

/// One gas consumption sample as the provider sends it.
#[derive(Debug, Clone)]
pub struct GasConsumptionDto {
    pub timestamp: String,
    pub value: String,
}

impl View for GasConsumptionDto {
    type V = TimeValueTextView;

    open spec fn view(&self) -> TimeValueTextView {
        TimeValueTextView { timestamp: self.timestamp@, value: self.value@ }
    }
}

/// One price-point sample of a tariff as the provider sends it.
#[derive(Debug, Clone)]
pub struct TimestampedValueDto {
    pub timestamp: String,
    pub value: String,
}

impl View for TimestampedValueDto {
    type V = TimeValueTextView;

    open spec fn view(&self) -> TimeValueTextView {
        TimeValueTextView { timestamp: self.timestamp@, value: self.value@ }
    }
}

/// One standing charge as the provider sends it; the provider writes the
/// field as `startDate`.
#[derive(Debug, Clone)]
pub struct StandingChargeDto {
    pub start_date: String,
    pub value: String,
}

impl View for StandingChargeDto {
    type V = DateValueTextView;

    open spec fn view(&self) -> DateValueTextView {
        DateValueTextView { start_date: self.start_date@, value: self.value@ }
    }
}

/// One electricity tariff record as the provider sends it.
#[derive(Debug, Clone)]
pub struct ElectricityTariffDto {
    pub standing_charges: Vec<StandingChargeDto>,
    pub prices: Vec<TimestampedValueDto>,
}

impl View for ElectricityTariffDto {
    type V = TariffTextView;

    open spec fn view(&self) -> TariffTextView {
        TariffTextView {
            standing_charges: self.standing_charges@.map_values(|c: StandingChargeDto| c@),
            prices: self.prices@.map_values(|p: TimestampedValueDto| p@),
        }
    }
}

/// One gas tariff record as the provider sends it.
#[derive(Debug, Clone)]
pub struct GasTariffDto {
    pub standing_charges: Vec<StandingChargeDto>,
    pub prices: Vec<TimestampedValueDto>,
}

impl View for GasTariffDto {
    type V = TariffTextView;

    open spec fn view(&self) -> TariffTextView {
        TariffTextView {
            standing_charges: self.standing_charges@.map_values(|c: StandingChargeDto| c@),
            prices: self.prices@.map_values(|p: TimestampedValueDto| p@),
        }
    }
}

/// What a `{ "timestamp": ..., "value": ... }` element decodes to: the
/// element must be an object whose `timestamp` is a string and whose
/// `value` is a number; other entries are ignored.
pub open spec fn decode_time_value(j: Json) -> Option<TimeValueTextView> {
    match j {
        Json::Obj(entries) => match (lookup(entries@, "timestamp"@), lookup(entries@, "value"@)) {
            (Some(Json::Str(t)), Some(Json::Num(v))) => Some(
                TimeValueTextView { timestamp: t@, value: v@ },
            ),
            _ => None,
        },
        _ => None,
    }
}

/// What a `{ "startDate": ..., "value": ... }` element decodes to.
pub open spec fn decode_date_value(j: Json) -> Option<DateValueTextView> {
    match j {
        Json::Obj(entries) => match (lookup(entries@, "startDate"@), lookup(entries@, "value"@)) {
            (Some(Json::Str(s)), Some(Json::Num(v))) => Some(
                DateValueTextView { start_date: s@, value: v@ },
            ),
            _ => None,
        },
        _ => None,
    }
}

/// A wire record family: a type that one element of the response's
/// `values` array may decode into. The decoding of each element is a
/// function of the element alone, and an element that does not decode is
/// reported by `None`, never by a fault.
pub trait WireRecord: View + Sized {
    /// What an element decodes to, if anything.
    spec fn decode_spec(j: Json) -> Option<Self::V>;

    /// Decodes one element of the `values` array.
    fn decode(j: &Json) -> (r: Option<Self>)
        ensures
            r is Some <==> Self::decode_spec(*j) is Some,
            r matches Some(d) ==> Some(d@) == Self::decode_spec(*j),
    ;
}

/// Reads the `timestamp` string and `value` number out of an element.
fn get_time_value(j: &Json) -> (r: Option<(String, String)>)
    ensures
        r is Some <==> decode_time_value(*j) is Some,
        r matches Some(p) ==> decode_time_value(*j) == Some(
            TimeValueTextView { timestamp: p.0@, value: p.1@ },
        ),
{
    match j {
        Json::Obj(entries) => {
            let t = obj_get(entries, "timestamp");
            let v = obj_get(entries, "value");
            match (t, v) {
                (Some(Json::Str(ts)), Some(Json::Num(val))) => Some((ts.clone(), val.clone())),
                _ => None,
            }
        },
        _ => None,
    }
}

/// Reads the `startDate` string and `value` number out of an element.
fn get_date_value(j: &Json) -> (r: Option<(String, String)>)
    ensures
        r is Some <==> decode_date_value(*j) is Some,
        r matches Some(p) ==> decode_date_value(*j) == Some(
            DateValueTextView { start_date: p.0@, value: p.1@ },
        ),
{
    match j {
        Json::Obj(entries) => {
            let s = obj_get(entries, "startDate");
            let v = obj_get(entries, "value");
            match (s, v) {
                (Some(Json::Str(sd)), Some(Json::Num(val))) => Some((sd.clone(), val.clone())),
                _ => None,
            }
        },
        _ => None,
    }
}

/// What an array of standing-charge elements decodes to: every element
/// must decode, or the whole array fails.
pub open spec fn decode_charge_seq(els: Seq<Json>) -> Option<Seq<DateValueTextView>>
    decreases els.len(),
{
    if els.len() == 0 {
        Some(Seq::empty())
    } else {
        match (decode_charge_seq(els.drop_last()), decode_date_value(els.last())) {
            (Some(rest), Some(v)) => Some(rest.push(v)),
            _ => None,
        }
    }
}

/// What an array of price-point elements decodes to: every element must
/// decode, or the whole array fails.
pub open spec fn decode_price_seq(els: Seq<Json>) -> Option<Seq<TimeValueTextView>>
    decreases els.len(),
{
    if els.len() == 0 {
        Some(Seq::empty())
    } else {
        match (decode_price_seq(els.drop_last()), decode_time_value(els.last())) {
            (Some(rest), Some(v)) => Some(rest.push(v)),
            _ => None,
        }
    }
}

/// One element that fails sinks the whole standing-charge array.
proof fn lemma_charge_seq_fails(els: Seq<Json>, i: int)
    requires
        0 <= i < els.len(),
        decode_date_value(els[i]) is None,
    ensures
        decode_charge_seq(els) is None,
    decreases els.len(),
{
    if i < els.len() - 1 {
        lemma_charge_seq_fails(els.drop_last(), i);
    }
}

/// One element that fails sinks the whole price array.
proof fn lemma_price_seq_fails(els: Seq<Json>, i: int)
    requires
        0 <= i < els.len(),
        decode_time_value(els[i]) is None,
    ensures
        decode_price_seq(els) is None,
    decreases els.len(),
{
    if i < els.len() - 1 {
        lemma_price_seq_fails(els.drop_last(), i);
    }
}

/// Decodes every element of a standing-charge array, or reports the
/// array malformed.
fn decode_charges(els: &Vec<Json>) -> (r: Option<Vec<StandingChargeDto>>)
    ensures
        r is Some <==> decode_charge_seq(els@) is Some,
        r matches Some(v) ==> Some(v@.map_values(|c: StandingChargeDto| c@)) == decode_charge_seq(
            els@,
        ),
{
    let mut out: Vec<StandingChargeDto> = Vec::new();
    let n = els.len();
    let mut i: usize = 0;
    proof {
        assert(els@.take(0) =~= Seq::<Json>::empty());
        assert(out@.map_values(|c: StandingChargeDto| c@) =~= Seq::<DateValueTextView>::empty());
    }
    while i < n
        invariant
            i <= n,
            n == els@.len(),
            decode_charge_seq(els@.take(i as int)) == Some(
                out@.map_values(|c: StandingChargeDto| c@),
            ),
        decreases n - i,
    {
        match get_date_value(&els[i]) {
            Some((start_date, value)) => {
                out.push(StandingChargeDto { start_date, value });
                proof {
                    assert(els@.take(i + 1).drop_last() =~= els@.take(i as int));
                    assert(els@.take(i + 1).last() == els@[i as int]);
                    assert(out@.map_values(|c: StandingChargeDto| c@) =~= out@.drop_last()
                        .map_values(|c: StandingChargeDto| c@).push(out@.last()@));
                }
            },
            None => {
                proof {
                    lemma_charge_seq_fails(els@, i as int);
                }
                return None;
            },
        }
        i += 1;
    }
    proof {
        assert(els@.take(n as int) =~= els@);
    }
    Some(out)
}

/// Decodes every element of a price array, or reports the array
/// malformed.
fn decode_prices(els: &Vec<Json>) -> (r: Option<Vec<TimestampedValueDto>>)
    ensures
        r is Some <==> decode_price_seq(els@) is Some,
        r matches Some(v) ==> Some(v@.map_values(|p: TimestampedValueDto| p@)) == decode_price_seq(
            els@,
        ),
{
    let mut out: Vec<TimestampedValueDto> = Vec::new();
    let n = els.len();
    let mut i: usize = 0;
    proof {
        assert(els@.take(0) =~= Seq::<Json>::empty());
        assert(out@.map_values(|p: TimestampedValueDto| p@) =~= Seq::<TimeValueTextView>::empty());
    }
    while i < n
        invariant
            i <= n,
            n == els@.len(),
            decode_price_seq(els@.take(i as int)) == Some(
                out@.map_values(|p: TimestampedValueDto| p@),
            ),
        decreases n - i,
    {
        match get_time_value(&els[i]) {
            Some((timestamp, value)) => {
                out.push(TimestampedValueDto { timestamp, value });
                proof {
                    assert(els@.take(i + 1).drop_last() =~= els@.take(i as int));
                    assert(els@.take(i + 1).last() == els@[i as int]);
                    assert(out@.map_values(|p: TimestampedValueDto| p@) =~= out@.drop_last()
                        .map_values(|p: TimestampedValueDto| p@).push(out@.last()@));
                }
            },
            None => {
                proof {
                    lemma_price_seq_fails(els@, i as int);
                }
                return None;
            },
        }
        i += 1;
    }
    proof {
        assert(els@.take(n as int) =~= els@);
    }
    Some(out)
}

/// What a tariff element decodes to: an object whose `standingCharges`
/// and `prices` are arrays of well-formed elements; one malformed inner
/// element fails the whole tariff element.
pub open spec fn decode_tariff(j: Json) -> Option<TariffTextView> {
    match j {
        Json::Obj(entries) => match (
            lookup(entries@, "standingCharges"@),
            lookup(entries@, "prices"@),
        ) {
            (Some(Json::Arr(cs)), Some(Json::Arr(ps))) => match (
                decode_charge_seq(cs@),
                decode_price_seq(ps@),
            ) {
                (Some(c), Some(p)) => Some(TariffTextView { standing_charges: c, prices: p }),
                _ => None,
            },
            _ => None,
        },
        _ => None,
    }
}

/// Decodes one tariff element.
fn get_tariff(j: &Json) -> (r: Option<(Vec<StandingChargeDto>, Vec<TimestampedValueDto>)>)
    ensures
        r is Some <==> decode_tariff(*j) is Some,
        r matches Some(p) ==> decode_tariff(*j) == Some(
            TariffTextView {
                standing_charges: p.0@.map_values(|c: StandingChargeDto| c@),
                prices: p.1@.map_values(|q: TimestampedValueDto| q@),
            },
        ),
{
    match j {
        Json::Obj(entries) => {
            let cs = obj_get(entries, "standingCharges");
            let ps = obj_get(entries, "prices");
            match (cs, ps) {
                (Some(Json::Arr(charge_els)), Some(Json::Arr(price_els))) => {
                    let charges = decode_charges(charge_els);
                    let prices = decode_prices(price_els);
                    match (charges, prices) {
                        (Some(c), Some(p)) => Some((c, p)),
                        _ => None,
                    }
                },
                _ => None,
            }
        },
        _ => None,
    }
}

impl WireRecord for ElectricityTariffDto {
    open spec fn decode_spec(j: Json) -> Option<TariffTextView> {
        decode_tariff(j)
    }

    fn decode(j: &Json) -> (r: Option<Self>) {
        match get_tariff(j) {
            Some((standing_charges, prices)) => Some(
                ElectricityTariffDto { standing_charges, prices },
            ),
            None => None,
        }
    }
}

impl WireRecord for GasTariffDto {
    open spec fn decode_spec(j: Json) -> Option<TariffTextView> {
        decode_tariff(j)
    }

    fn decode(j: &Json) -> (r: Option<Self>) {
        match get_tariff(j) {
            Some((standing_charges, prices)) => Some(GasTariffDto { standing_charges, prices }),
            None => None,
        }
    }
}

impl WireRecord for ElectricityConsumptionDto {
    open spec fn decode_spec(j: Json) -> Option<TimeValueTextView> {
        decode_time_value(j)
    }

    fn decode(j: &Json) -> (r: Option<Self>) {
        match get_time_value(j) {
            Some((timestamp, value)) => Some(ElectricityConsumptionDto { timestamp, value }),
            None => None,
        }
    }
}

impl WireRecord for GasConsumptionDto {
    open spec fn decode_spec(j: Json) -> Option<TimeValueTextView> {
        decode_time_value(j)
    }

    fn decode(j: &Json) -> (r: Option<Self>) {
        match get_time_value(j) {
            Some((timestamp, value)) => Some(GasConsumptionDto { timestamp, value }),
            None => None,
        }
    }
}

} // verus!
