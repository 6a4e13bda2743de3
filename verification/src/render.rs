use vstd::prelude::*;

use crate::numfmt::{
    centi_str, centi_to_string, dec_str, trimmed_centi_str, trimmed_centi_to_string,
    u64_to_string,
};
use crate::report::WeatherReport;
use crate::timefmt::{local_offset_seconds, readable_time, time_spec};
use crate::units::{kelvin_to_unit, to_display_centi, unit_label, unit_label_spec, UnitSelector};

verus! {

/// The presenter: a report, the chosen unit and the details flag go in,
/// the full human-readable block comes out, character for character. The
/// local offset enters as a parameter so that the block is a function of
/// its inputs; obtaining the machine's offset is the one step apart.

/// The always-rendered part of the report block.
pub open spec fn summary_spec(rep: WeatherReport, unit: UnitSelector, off: int) -> Seq<char> {
    "Weather in "@ + rep.name@ + ", "@ + rep.country@ + ":\n  Condition: "@ + rep.main@ + " ("@
        + rep.description@ + ")\n  Temperature: "@ + centi_str(
        to_display_centi(rep.temp as int, unit),
    ) + " "@ + unit_label_spec(unit) + "\n  Feels like: "@ + centi_str(
        to_display_centi(rep.feels_like as int, unit),
    ) + " "@ + unit_label_spec(unit) + "\n  Humidity: "@ + dec_str(rep.humidity as nat)
        + "%\n  Sunrise: "@ + time_spec(rep.sunrise, off) + "\n  Sunset: "@ + time_spec(
        rep.sunset,
        off,
    ) + "\n"@
}

/// The extra lines the details flag adds.
pub open spec fn details_spec(rep: WeatherReport, unit: UnitSelector) -> Seq<char> {
    "Detailed Weather Information:\n  Visibility: "@ + dec_str(rep.visibility as nat)
        + " meters\n  Wind Speed: "@ + trimmed_centi_str(rep.wind_speed as int)
        + " m/s\n  Wind Direction: "@
        + dec_str(rep.wind_deg as nat) + " degrees\n  Cloudiness: "@ + dec_str(
        rep.cloudiness as nat,
    ) + "%\n  Pressure: "@ + dec_str(rep.pressure as nat) + " hPa\n  Sea Level: "@ + dec_str(
        rep.sea_level as nat,
    ) + " hPa\n  Ground Level: "@ + dec_str(rep.grnd_level as nat)
        + " hPa\n  Minimum Temperature: "@ + centi_str(to_display_centi(rep.temp_min as int, unit))
        + " "@ + unit_label_spec(unit) + "\n  Maximum Temperature: "@ + centi_str(
        to_display_centi(rep.temp_max as int, unit),
    ) + " "@ + unit_label_spec(unit) + "\n"@
}

/// The whole rendered block.
pub open spec fn display_spec(
    rep: WeatherReport,
    unit: UnitSelector,
    details: bool,
    off: int,
) -> Seq<char> {
    if details {
        summary_spec(rep, unit, off) + details_spec(rep, unit)
    } else {
        summary_spec(rep, unit, off)
    }
}

fn detail_block(report: &WeatherReport, unit: UnitSelector) -> (r: String)
    requires
        report.wf(),
    ensures
        r@ == details_spec(*report, unit),
{
    let mut out = String::from_str("Detailed Weather Information:\n  Visibility: ");
    let vis = u64_to_string(report.visibility);
    out.append(vis.as_str());
    out.append(" meters\n  Wind Speed: ");
    let ws = trimmed_centi_to_string(report.wind_speed);
    out.append(ws.as_str());
    out.append(" m/s\n  Wind Direction: ");
    let wd = u64_to_string(report.wind_deg);
    out.append(wd.as_str());
    out.append(" degrees\n  Cloudiness: ");
    let cl = u64_to_string(report.cloudiness);
    out.append(cl.as_str());
    out.append("%\n  Pressure: ");
    let pr = u64_to_string(report.pressure);
    out.append(pr.as_str());
    out.append(" hPa\n  Sea Level: ");
    let sl = u64_to_string(report.sea_level);
    out.append(sl.as_str());
    out.append(" hPa\n  Ground Level: ");
    let gl = u64_to_string(report.grnd_level);
    out.append(gl.as_str());
    out.append(" hPa\n  Minimum Temperature: ");
    let tmin = centi_to_string(kelvin_to_unit(report.temp_min, unit));
    out.append(tmin.as_str());
    out.append(" ");
    let lab_min = unit_label(unit);
    out.append(lab_min.as_str());
    out.append("\n  Maximum Temperature: ");
    let tmax = centi_to_string(kelvin_to_unit(report.temp_max, unit));
    out.append(tmax.as_str());
    out.append(" ");
    let lab_max = unit_label(unit);
    out.append(lab_max.as_str());
    out.append("\n");
    out
}

/// Renders the report block under a given local offset.
pub fn display_weather(
    report: &WeatherReport,
    unit: UnitSelector,
    details: bool,
    offset: i32,
) -> (r: String)
    requires
        report.wf(),
        -86400 < offset < 86400,
    ensures
        r@ == display_spec(*report, unit, details, offset as int),
{
    let mut out = String::from_str("Weather in ");
    out.append(report.name.as_str());
    out.append(", ");
    out.append(report.country.as_str());
    out.append(":\n  Condition: ");
    out.append(report.main.as_str());
    out.append(" (");
    out.append(report.description.as_str());
    out.append(")\n  Temperature: ");
    let temp = centi_to_string(kelvin_to_unit(report.temp, unit));
    out.append(temp.as_str());
    out.append(" ");
    let lab_t = unit_label(unit);
    out.append(lab_t.as_str());
    out.append("\n  Feels like: ");
    let feels = centi_to_string(kelvin_to_unit(report.feels_like, unit));
    out.append(feels.as_str());
    out.append(" ");
    let lab_f = unit_label(unit);
    out.append(lab_f.as_str());
    out.append("\n  Humidity: ");
    let hum = u64_to_string(report.humidity);
    out.append(hum.as_str());
    out.append("%\n  Sunrise: ");
    let sunrise = readable_time(report.sunrise, offset);
    out.append(sunrise.as_str());
    out.append("\n  Sunset: ");
    let sunset = readable_time(report.sunset, offset);
    out.append(sunset.as_str());
    out.append("\n");
    if details {
        let d = detail_block(report, unit);
        out.append(d.as_str());
    }
    out
}

/// Renders the report block in the machine's local time zone.
pub fn display_weather_local(report: &WeatherReport, unit: UnitSelector, details: bool) -> (r:
    String)
    requires
        report.wf(),
    ensures
        exists|off: int|
            -86400 < off < 86400 && r@ == display_spec(*report, unit, details, off),
{
    let offset: i32 = if report.sunrise <= i64::MAX as u64 {
        local_offset_seconds(report.sunrise as i64)
    } else {
        0
    };
    let r = display_weather(report, unit, details, offset);
    proof {
        assert(-86400 < (offset as int) < 86400);
        assert(r@ == display_spec(*report, unit, details, offset as int));
    }
    r
}

/// The one-line notice for a failed city.
pub open spec fn failure_notice_spec(city: Seq<char>, reason: Seq<char>) -> Seq<char> {
    "Error fetching weather for "@ + city + ": "@ + reason
}

pub fn failure_notice(city: &str, reason: &str) -> (r: String)
    ensures
        r@ == failure_notice_spec(city@, reason@),
{
    let mut out = String::from_str("Error fetching weather for ");
    out.append(city);
    out.append(": ");
    out.append(reason);
    out
}

} // verus!
