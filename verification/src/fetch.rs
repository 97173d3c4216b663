//! The fetch bridge: a non-blocking hand-off between a background network
//! callback and a polling redraw loop.
//!
//! `submit` validates the search form and, when it is valid, marks a fetch
//! as pending and yields the URL to GET. The caller performs the GET on its
//! own execution context and pushes exactly one message — the decoded
//! readings, or `None` for any failure — into the bridge's channel through
//! a cloned sender. Each redraw tick calls `poll`, which never blocks; when
//! a message has arrived, `apply_fetch_message` stores it, sorted most
//! recent first.

use crate::measurements::{sorted_desc, SensorTempMeasurements};
use crate::numfmt::dec_text;
use crate::timetext::{epoch_of_datetime_text, parse_datetime_text};
use crate::urls::{sensor_latest_url, sensor_range_url};
use vstd::prelude::*;

verus! {

/// The free-text search form: a sensor reference and an optional time
/// range. Leaving both time fields empty asks for the most recent readings;
/// anything else must parse as `YYYY-MM-DD HH:MM:SS`.
pub struct SensorDataSearchForm {
    pub sensor_ref: String,
    pub start_datetime_str: String,
    pub end_datetime_str: String,
}

impl SensorDataSearchForm {
    /// An empty form.
    pub fn new() -> (r: Self)
        ensures
            r.sensor_ref@ == Seq::<char>::empty(),
            r.start_datetime_str@ == Seq::<char>::empty(),
            r.end_datetime_str@ == Seq::<char>::empty(),
    {
        SensorDataSearchForm {
            sensor_ref: String::new(),
            start_datetime_str: String::new(),
            end_datetime_str: String::new(),
        }
    }
}

impl Default for SensorDataSearchForm {
    fn default() -> (r: Self)
        ensures
            r.sensor_ref@ == Seq::<char>::empty(),
            r.start_datetime_str@ == Seq::<char>::empty(),
            r.end_datetime_str@ == Seq::<char>::empty(),
    {
        SensorDataSearchForm::new()
    }
}

/// Both time fields are empty: the form asks for the most recent readings
/// rather than a bounded range.
pub open spec fn no_range_requested(form: SensorDataSearchForm) -> bool {
    form.start_datetime_str@.len() == 0 && form.end_datetime_str@.len() == 0
}

/// Which of the two time fields failed to parse. At least one flag is set
/// whenever this is returned; both fields are always checked, so one bad
/// field does not hide the other.
#[derive(Clone, Copy, PartialEq, Eq, Structural, Debug)]
pub struct DateTimeParseErrors {
    pub start_invalid: bool,
    pub end_invalid: bool,
}

#[verifier::external_type_specification]
#[verifier::external_body]
#[verifier::reject_recursive_types(T)]
pub struct ExSender<T>(std::sync::mpsc::Sender<T>);

#[verifier::external_type_specification]
#[verifier::external_body]
#[verifier::reject_recursive_types(T)]
pub struct ExReceiver<T>(std::sync::mpsc::Receiver<T>);

/// Relies on `std::sync::mpsc::channel`: the returned sender and receiver
/// are the two ends of one asynchronous channel.
#[verifier::external_body]
fn new_result_channel() -> (r: (
    std::sync::mpsc::Sender<Option<SensorTempMeasurements>>,
    std::sync::mpsc::Receiver<Option<SensorTempMeasurements>>,
))
{
    std::sync::mpsc::channel()
}

/// Relies on `std::sync::mpsc::Receiver::try_recv`: it never blocks, and
/// yields a pending message or nothing. What it yields depends on what the
/// sending side has done meanwhile, so nothing is promised of the outcome;
/// every caller must handle both.
#[verifier::external_body]
fn try_recv_result(
    rx: &std::sync::mpsc::Receiver<Option<SensorTempMeasurements>>,
) -> (r: Option<Option<SensorTempMeasurements>>)
{
    rx.try_recv().ok()
}

/// Relies on `std::sync::mpsc::Sender::clone`: a clone feeds the same
/// channel as the original.
#[verifier::external_body]
fn clone_result_sender(
    tx: &std::sync::mpsc::Sender<Option<SensorTempMeasurements>>,
) -> (r: std::sync::mpsc::Sender<Option<SensorTempMeasurements>>)
{
    tx.clone()
}

/// At most one fetch is tracked at a time: a pending flag plus the one
/// channel that carries each fetch's single result message.
pub struct FetchBridge {
    pub sender: std::sync::mpsc::Sender<Option<SensorTempMeasurements>>,
    pub receiver: std::sync::mpsc::Receiver<Option<SensorTempMeasurements>>,
    pub waiting_for_data: bool,
}

impl FetchBridge {
    /// A fresh bridge: its channel lives as long as the bridge, and no
    /// fetch is pending yet.
    pub fn new() -> (r: Self)
        ensures
            !r.waiting_for_data,
    {
        let (tx, rx) = new_result_channel();
        FetchBridge { sender: tx, receiver: rx, waiting_for_data: false }
    }

    /// A sender for the background fetch to deliver its one result through.
    pub fn result_sender(&self) -> (r: std::sync::mpsc::Sender<Option<SensorTempMeasurements>>) {
        clone_result_sender(&self.sender)
    }

    /// Mark a fetch as pending and give the ranged-endpoint URL for the
    /// two epoch bounds.
    pub fn get_temps_in_range(
        &mut self,
        sensor_ref: &str,
        start_epoch: i64,
        end_epoch: i64,
    ) -> (r: String)
        ensures
            r@ == "http://localhost:8080/sensor/temperature/range/"@ + sensor_ref@ + "/"@
                + dec_text(start_epoch as int) + "/"@ + dec_text(end_epoch as int),
            final(self).waiting_for_data,
            final(self).sender == old(self).sender,
            final(self).receiver == old(self).receiver,
    {
        self.waiting_for_data = true;
        sensor_range_url(sensor_ref, start_epoch, end_epoch)
    }

    /// Mark a fetch as pending and give the most-recent-readings URL.
    pub fn get_latest_temps(&mut self, sensor_ref: &str) -> (r: String)
        ensures
            r@ == "http://localhost:8080/sensor/temperature/"@ + sensor_ref@,
            final(self).waiting_for_data,
            final(self).sender == old(self).sender,
            final(self).receiver == old(self).receiver,
    {
        self.waiting_for_data = true;
        sensor_latest_url(sensor_ref)
    }

    /// Validate the form and, when it is valid, mark a fetch as pending and
    /// return the URL to GET. With both time fields empty the most-recent
    /// endpoint is chosen; otherwise both fields must parse as
    /// `YYYY-MM-DD HH:MM:SS`, and a parse failure of either field aborts
    /// the submission — no fetch starts, the bridge is unchanged, and the
    /// error names every field that failed.
    pub fn submit(&mut self, form: &SensorDataSearchForm) -> (r: Result<
        String,
        DateTimeParseErrors,
    >)
        ensures
            r is Ok <==> (no_range_requested(*form) || (epoch_of_datetime_text(
                form.start_datetime_str@,
            ) is Some && epoch_of_datetime_text(form.end_datetime_str@) is Some)),
            no_range_requested(*form) ==> (r matches Ok(url) && url@
                == "http://localhost:8080/sensor/temperature/"@ + form.sensor_ref@),
            !no_range_requested(*form) ==> (epoch_of_datetime_text(
                form.start_datetime_str@,
            ) matches Some(se) ==> (epoch_of_datetime_text(form.end_datetime_str@) matches Some(ee)
                ==> (r matches Ok(url) && url@
                == "http://localhost:8080/sensor/temperature/range/"@ + form.sensor_ref@ + "/"@
                + dec_text(se as int) + "/"@ + dec_text(ee as int)))),
            r is Ok ==> final(self).waiting_for_data,
            r matches Err(e) ==> (e.start_invalid == (epoch_of_datetime_text(
                form.start_datetime_str@,
            ) is None) && e.end_invalid == (epoch_of_datetime_text(form.end_datetime_str@) is None)
                && *final(self) == *old(self)),
            final(self).sender == old(self).sender,
            final(self).receiver == old(self).receiver,
    {
        if form.start_datetime_str.as_str().unicode_len() == 0
            && form.end_datetime_str.as_str().unicode_len() == 0 {
            return Ok(self.get_latest_temps(form.sensor_ref.as_str()));
        }
        let start = parse_datetime_text(form.start_datetime_str.as_str());
        let end = parse_datetime_text(form.end_datetime_str.as_str());
        match (start, end) {
            (Some(se), Some(ee)) => Ok(
                self.get_temps_in_range(form.sensor_ref.as_str(), se, ee),
            ),
            (s, e) => Err(
                (DateTimeParseErrors { start_invalid: s.is_none(), end_invalid: e.is_none() }),
            ),
        }
    }

    /// Poll for a fetch result. Never blocks, and is safe to call on every
    /// redraw tick: with no fetch pending, or a pending fetch whose message
    /// has not arrived yet, it returns `None` and changes nothing — in
    /// particular the pending flag stays set until a message arrives. When
    /// the message is here it is returned and the pending flag clears.
    pub fn poll(&mut self) -> (r: Option<Option<SensorTempMeasurements>>)
        ensures
            !old(self).waiting_for_data ==> r is None,
            r is None ==> *final(self) == *old(self),
            r is Some ==> (old(self).waiting_for_data && !final(self).waiting_for_data
                && final(self).sender == old(self).sender
                && final(self).receiver == old(self).receiver),
    {
        if !self.waiting_for_data {
            return None;
        }
        match try_recv_result(&self.receiver) {
            Some(msg) => {
                self.waiting_for_data = false;
                Some(msg)
            },
            None => None,
        }
    }

    /// One redraw tick's worth of bridge work: poll, and when a message has
    /// arrived store it (sorted) in `sensor_temps`. Returns whether a
    /// message arrived. The exact relation between a message and what is
    /// stored is the contract of `apply_fetch_message`.
    pub fn poll_and_store(&mut self, sensor_temps: &mut Option<SensorTempMeasurements>) -> (r:
        bool)
        ensures
            !old(self).waiting_for_data ==> !r,
            !r ==> (*final(self) == *old(self) && *final(sensor_temps) == *old(sensor_temps)),
            r ==> (old(self).waiting_for_data && !final(self).waiting_for_data
                && final(self).sender == old(self).sender
                && final(self).receiver == old(self).receiver
                && (*final(sensor_temps) is None || (*final(sensor_temps) matches Some(ms)
                && sorted_desc(ms.temp_measurements@)))),
    {
        match self.poll() {
            Some(msg) => {
                apply_fetch_message(sensor_temps, msg);
                true
            },
            None => false,
        }
    }
}

/// Store one fetch result: a failed fetch (`None`) clears the readings, a
/// successful one replaces them wholesale with the delivered readings,
/// sorted most recent first with no entry dropped or duplicated.
pub fn apply_fetch_message(
    current: &mut Option<SensorTempMeasurements>,
    msg: Option<SensorTempMeasurements>,
)
    ensures
        msg is None ==> *final(current) is None,
        msg matches Some(ms) ==> (*final(current) matches Some(stored) && sorted_desc(
            stored.temp_measurements@,
        ) && stored.temp_measurements@.to_multiset() == ms.temp_measurements@.to_multiset()),
{
    match msg {
        None => {
            *current = None;
        },
        Some(mut ms) => {
            ms.sort_descending();
            *current = Some(ms);
        },
    }
}

/// The one message a completed fetch produces: the decoded body on HTTP
/// status 200, and `None` on any other status (a decode failure arrives
/// here as `body == None`).
pub fn message_for_response(status: u16, body: Option<SensorTempMeasurements>) -> (r: Option<
    SensorTempMeasurements,
>)
    ensures
        status == 200 ==> r == body,
        status != 200 ==> r is None,
{
    if status == 200 {
        body
    } else {
        None
    }
}

} // verus!
