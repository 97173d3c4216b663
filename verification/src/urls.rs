//! Request URLs for the sensor-data service. The host is the fixed local
//! development address the service runs on; the two endpoint shapes are
//! "most recent readings" and "readings in a bounded time range".

use crate::numfmt::dec_text;
use vstd::prelude::*;
use vstd::string::*;

verus! {

/// URL of the most-recent-readings endpoint for one sensor.
pub fn sensor_latest_url(sensor_ref: &str) -> (r: String)
    ensures
        r@ == "http://localhost:8080/sensor/temperature/"@ + sensor_ref@,
{
    let mut s = String::from_str("http://localhost:8080/sensor/temperature/");
    s.append(sensor_ref);
    s
}

/// URL of the ranged endpoint for one sensor: the two bounds are UTC epoch
/// seconds, rendered in decimal as path segments.
pub fn sensor_range_url(sensor_ref: &str, start_epoch: i64, end_epoch: i64) -> (r: String)
    ensures
        r@ == "http://localhost:8080/sensor/temperature/range/"@ + sensor_ref@ + "/"@ + dec_text(
            start_epoch as int,
        ) + "/"@ + dec_text(end_epoch as int),
{
    let mut s = String::from_str("http://localhost:8080/sensor/temperature/range/");
    s.append(sensor_ref);
    s.append("/");
    let start_text = crate::numfmt::i64_to_string(start_epoch);
    s.append(start_text.as_str());
    s.append("/");
    let end_text = crate::numfmt::i64_to_string(end_epoch);
    s.append(end_text.as_str());
    s
}

} // verus!
