//! Measure tagger: spoken measurements to written form.
//!
//! "two hundred meters" -> "200 m", "eighteen point five kilometers" ->
//! "18.5 km", "two hundred kilometers per hour" -> "200 km/h",
//! "two square meters" -> "2 m²".

use vstd::prelude::*;

use crate::taggers::cardinal;
use crate::taggers::decimal;
use crate::text;
use crate::text::{
    contains_sub, dec_rep, ends_with, find_sub, lower_seq, rfind_sub, starts_with, trim_seq,
    view_opt_chars, view_opt_str,
};

verus! {

// ---------------------------------------------------------------------------
// The unit lexicon
// ---------------------------------------------------------------------------

/// The longest spoken unit suffix of `s` (checked longest-first, each with a
/// leading space), with the remaining number part and the unit symbol.
pub open spec fn unit_suffix(s: Seq<char>) -> Option<(Seq<char>, Seq<char>)> {
    if ends_with(s, " kilo watt hours"@) {
        Some((s.subrange(0, s.len() - 16), "kWh"@))
    } else if ends_with(s, " giga watt hours"@) {
        Some((s.subrange(0, s.len() - 16), "gWh"@))
    } else if ends_with(s, " mega watt hours"@) {
        Some((s.subrange(0, s.len() - 16), "MWh"@))
    } else if ends_with(s, " watt hours"@) {
        Some((s.subrange(0, s.len() - 11), "Wh"@))
    } else if ends_with(s, " kilograms force"@) {
        Some((s.subrange(0, s.len() - 16), "kgf"@))
    } else if ends_with(s, " astronomical units"@) {
        Some((s.subrange(0, s.len() - 19), "au"@))
    } else if ends_with(s, " miles per hour"@) {
        Some((s.subrange(0, s.len() - 15), "mph"@))
    } else if ends_with(s, " kilometers per hour"@) {
        Some((s.subrange(0, s.len() - 20), "km/h"@))
    } else if ends_with(s, " square kilometers"@) {
        Some((s.subrange(0, s.len() - 18), "km²"@))
    } else if ends_with(s, " square kilometer"@) {
        Some((s.subrange(0, s.len() - 17), "km²"@))
    } else if ends_with(s, " square meters"@) {
        Some((s.subrange(0, s.len() - 14), "m²"@))
    } else if ends_with(s, " square meter"@) {
        Some((s.subrange(0, s.len() - 13), "m²"@))
    } else if ends_with(s, " square feet"@) {
        Some((s.subrange(0, s.len() - 12), "sq ft"@))
    } else if ends_with(s, " square foot"@) {
        Some((s.subrange(0, s.len() - 12), "sq ft"@))
    } else if ends_with(s, " square miles"@) {
        Some((s.subrange(0, s.len() - 13), "sq mi"@))
    } else if ends_with(s, " square mile"@) {
        Some((s.subrange(0, s.len() - 12), "sq mi"@))
    } else if ends_with(s, " cubic meters"@) {
        Some((s.subrange(0, s.len() - 13), "m³"@))
    } else if ends_with(s, " cubic meter"@) {
        Some((s.subrange(0, s.len() - 12), "m³"@))
    } else if ends_with(s, " cubic deci meters"@) {
        Some((s.subrange(0, s.len() - 18), "dm³"@))
    } else if ends_with(s, " cubic decimeters"@) {
        Some((s.subrange(0, s.len() - 17), "dm³"@))
    } else if ends_with(s, " peta bytes"@) {
        Some((s.subrange(0, s.len() - 11), "pb"@))
    } else if ends_with(s, " petabytes"@) {
        Some((s.subrange(0, s.len() - 10), "pb"@))
    } else if ends_with(s, " giga bytes"@) {
        Some((s.subrange(0, s.len() - 11), "gb"@))
    } else if ends_with(s, " gigabytes"@) {
        Some((s.subrange(0, s.len() - 10), "gb"@))
    } else if ends_with(s, " mega bytes"@) {
        Some((s.subrange(0, s.len() - 11), "mb"@))
    } else if ends_with(s, " megabytes"@) {
        Some((s.subrange(0, s.len() - 10), "mb"@))
    } else if ends_with(s, " kilo bytes"@) {
        Some((s.subrange(0, s.len() - 11), "kb"@))
    } else if ends_with(s, " kilobytes"@) {
        Some((s.subrange(0, s.len() - 10), "kb"@))
    } else if ends_with(s, " kilobits"@) {
        Some((s.subrange(0, s.len() - 9), "kb"@))
    } else if ends_with(s, " bytes"@) {
        Some((s.subrange(0, s.len() - 6), "b"@))
    } else if ends_with(s, " megawatts"@) {
        Some((s.subrange(0, s.len() - 10), "mW"@))
    } else if ends_with(s, " megawatt"@) {
        Some((s.subrange(0, s.len() - 9), "mW"@))
    } else if ends_with(s, " kilowatts"@) {
        Some((s.subrange(0, s.len() - 10), "kW"@))
    } else if ends_with(s, " kilowatt"@) {
        Some((s.subrange(0, s.len() - 9), "kW"@))
    } else if ends_with(s, " gigawatts"@) {
        Some((s.subrange(0, s.len() - 10), "gW"@))
    } else if ends_with(s, " watts"@) {
        Some((s.subrange(0, s.len() - 6), "W"@))
    } else if ends_with(s, " watt"@) {
        Some((s.subrange(0, s.len() - 5), "W"@))
    } else if ends_with(s, " horsepower"@) {
        Some((s.subrange(0, s.len() - 11), "hp"@))
    } else if ends_with(s, " gigabits per second"@) {
        Some((s.subrange(0, s.len() - 20), "gbps"@))
    } else if ends_with(s, " gigabit per second"@) {
        Some((s.subrange(0, s.len() - 19), "gbps"@))
    } else if ends_with(s, " megabits per second"@) {
        Some((s.subrange(0, s.len() - 20), "mbps"@))
    } else if ends_with(s, " megabit per second"@) {
        Some((s.subrange(0, s.len() - 19), "mbps"@))
    } else if ends_with(s, " degrees celsius"@) {
        Some((s.subrange(0, s.len() - 16), "°C"@))
    } else if ends_with(s, " degree celsius"@) {
        Some((s.subrange(0, s.len() - 15), "°C"@))
    } else if ends_with(s, " degrees fahrenheit"@) {
        Some((s.subrange(0, s.len() - 19), "°F"@))
    } else if ends_with(s, " degree fahrenheit"@) {
        Some((s.subrange(0, s.len() - 18), "°F"@))
    } else if ends_with(s, " kelvin"@) {
        Some((s.subrange(0, s.len() - 7), "K"@))
    } else if ends_with(s, " megahertz"@) {
        Some((s.subrange(0, s.len() - 10), "mhz"@))
    } else if ends_with(s, " kilohertz"@) {
        Some((s.subrange(0, s.len() - 10), "khz"@))
    } else if ends_with(s, " hertz"@) {
        Some((s.subrange(0, s.len() - 6), "hz"@))
    } else if ends_with(s, " milli volt"@) {
        Some((s.subrange(0, s.len() - 11), "mv"@))
    } else if ends_with(s, " millivolts"@) {
        Some((s.subrange(0, s.len() - 11), "mv"@))
    } else if ends_with(s, " volts"@) {
        Some((s.subrange(0, s.len() - 6), "v"@))
    } else if ends_with(s, " volt"@) {
        Some((s.subrange(0, s.len() - 5), "v"@))
    } else if ends_with(s, " mega siemens"@) {
        Some((s.subrange(0, s.len() - 13), "ms"@))
    } else if ends_with(s, " micrometers"@) {
        Some((s.subrange(0, s.len() - 12), "μm"@))
    } else if ends_with(s, " micrometer"@) {
        Some((s.subrange(0, s.len() - 11), "μm"@))
    } else if ends_with(s, " nanometers"@) {
        Some((s.subrange(0, s.len() - 11), "nm"@))
    } else if ends_with(s, " nanometer"@) {
        Some((s.subrange(0, s.len() - 10), "nm"@))
    } else if ends_with(s, " millimeters"@) {
        Some((s.subrange(0, s.len() - 12), "mm"@))
    } else if ends_with(s, " millimeter"@) {
        Some((s.subrange(0, s.len() - 11), "mm"@))
    } else if ends_with(s, " centimeters"@) {
        Some((s.subrange(0, s.len() - 12), "cm"@))
    } else if ends_with(s, " centimeter"@) {
        Some((s.subrange(0, s.len() - 11), "cm"@))
    } else if ends_with(s, " kilometers"@) {
        Some((s.subrange(0, s.len() - 11), "km"@))
    } else if ends_with(s, " kilometer"@) {
        Some((s.subrange(0, s.len() - 10), "km"@))
    } else if ends_with(s, " meters"@) {
        Some((s.subrange(0, s.len() - 7), "m"@))
    } else if ends_with(s, " meter"@) {
        Some((s.subrange(0, s.len() - 6), "m"@))
    } else if ends_with(s, " feet"@) {
        Some((s.subrange(0, s.len() - 5), "ft"@))
    } else if ends_with(s, " foot"@) {
        Some((s.subrange(0, s.len() - 5), "ft"@))
    } else if ends_with(s, " miles"@) {
        Some((s.subrange(0, s.len() - 6), "mi"@))
    } else if ends_with(s, " mile"@) {
        Some((s.subrange(0, s.len() - 5), "mi"@))
    } else if ends_with(s, " ounces"@) {
        Some((s.subrange(0, s.len() - 7), "oz"@))
    } else if ends_with(s, " ounce"@) {
        Some((s.subrange(0, s.len() - 6), "oz"@))
    } else if ends_with(s, " kilograms"@) {
        Some((s.subrange(0, s.len() - 10), "kg"@))
    } else if ends_with(s, " kilogram"@) {
        Some((s.subrange(0, s.len() - 9), "kg"@))
    } else if ends_with(s, " grams"@) {
        Some((s.subrange(0, s.len() - 6), "g"@))
    } else if ends_with(s, " gram"@) {
        Some((s.subrange(0, s.len() - 5), "g"@))
    } else if ends_with(s, " kilo liters"@) {
        Some((s.subrange(0, s.len() - 12), "kl"@))
    } else if ends_with(s, " milliliters"@) {
        Some((s.subrange(0, s.len() - 12), "ml"@))
    } else if ends_with(s, " milliliter"@) {
        Some((s.subrange(0, s.len() - 11), "ml"@))
    } else if ends_with(s, " liters"@) {
        Some((s.subrange(0, s.len() - 7), "l"@))
    } else if ends_with(s, " liter"@) {
        Some((s.subrange(0, s.len() - 6), "l"@))
    } else if ends_with(s, " c c"@) {
        Some((s.subrange(0, s.len() - 4), "cc"@))
    } else if ends_with(s, " hectares"@) {
        Some((s.subrange(0, s.len() - 9), "ha"@))
    } else if ends_with(s, " hectare"@) {
        Some((s.subrange(0, s.len() - 8), "ha"@))
    } else if ends_with(s, " hours"@) {
        Some((s.subrange(0, s.len() - 6), "h"@))
    } else if ends_with(s, " hour"@) {
        Some((s.subrange(0, s.len() - 5), "h"@))
    } else if ends_with(s, " lumens"@) {
        Some((s.subrange(0, s.len() - 7), "lm"@))
    } else if ends_with(s, " lumen"@) {
        Some((s.subrange(0, s.len() - 6), "lm"@))
    } else if ends_with(s, " percent"@) {
        Some((s.subrange(0, s.len() - 8), "%"@))
    } else {
        None
    }
}

fn unit_suffix_x(s: &Vec<char>) -> (r: Option<(Vec<char>, Vec<char>)>)
    ensures
        match r {
            Some((np, sym)) => unit_suffix(s@) == Some((np@, sym@)),
            None => unit_suffix(s@) is None,
        },
{
    if text::ends_with_str(s, " kilo watt hours") {
        proof {
            reveal_strlit(" kilo watt hours");
        }
        Some((text::copy_range(s, 0, s.len() - 16), text::str_to_chars("kWh")))
    } else if text::ends_with_str(s, " giga watt hours") {
        proof {
            reveal_strlit(" giga watt hours");
        }
        Some((text::copy_range(s, 0, s.len() - 16), text::str_to_chars("gWh")))
    } else if text::ends_with_str(s, " mega watt hours") {
        proof {
            reveal_strlit(" mega watt hours");
        }
        Some((text::copy_range(s, 0, s.len() - 16), text::str_to_chars("MWh")))
    } else if text::ends_with_str(s, " watt hours") {
        proof {
            reveal_strlit(" watt hours");
        }
        Some((text::copy_range(s, 0, s.len() - 11), text::str_to_chars("Wh")))
    } else if text::ends_with_str(s, " kilograms force") {
        proof {
            reveal_strlit(" kilograms force");
        }
        Some((text::copy_range(s, 0, s.len() - 16), text::str_to_chars("kgf")))
    } else if text::ends_with_str(s, " astronomical units") {
        proof {
            reveal_strlit(" astronomical units");
        }
        Some((text::copy_range(s, 0, s.len() - 19), text::str_to_chars("au")))
    } else if text::ends_with_str(s, " miles per hour") {
        proof {
            reveal_strlit(" miles per hour");
        }
        Some((text::copy_range(s, 0, s.len() - 15), text::str_to_chars("mph")))
    } else if text::ends_with_str(s, " kilometers per hour") {
        proof {
            reveal_strlit(" kilometers per hour");
        }
        Some((text::copy_range(s, 0, s.len() - 20), text::str_to_chars("km/h")))
    } else if text::ends_with_str(s, " square kilometers") {
        proof {
            reveal_strlit(" square kilometers");
        }
        Some((text::copy_range(s, 0, s.len() - 18), text::str_to_chars("km²")))
    } else if text::ends_with_str(s, " square kilometer") {
        proof {
            reveal_strlit(" square kilometer");
        }
        Some((text::copy_range(s, 0, s.len() - 17), text::str_to_chars("km²")))
    } else if text::ends_with_str(s, " square meters") {
        proof {
            reveal_strlit(" square meters");
        }
        Some((text::copy_range(s, 0, s.len() - 14), text::str_to_chars("m²")))
    } else if text::ends_with_str(s, " square meter") {
        proof {
            reveal_strlit(" square meter");
        }
        Some((text::copy_range(s, 0, s.len() - 13), text::str_to_chars("m²")))
    } else if text::ends_with_str(s, " square feet") {
        proof {
            reveal_strlit(" square feet");
        }
        Some((text::copy_range(s, 0, s.len() - 12), text::str_to_chars("sq ft")))
    } else if text::ends_with_str(s, " square foot") {
        proof {
            reveal_strlit(" square foot");
        }
        Some((text::copy_range(s, 0, s.len() - 12), text::str_to_chars("sq ft")))
    } else if text::ends_with_str(s, " square miles") {
        proof {
            reveal_strlit(" square miles");
        }
        Some((text::copy_range(s, 0, s.len() - 13), text::str_to_chars("sq mi")))
    } else if text::ends_with_str(s, " square mile") {
        proof {
            reveal_strlit(" square mile");
        }
        Some((text::copy_range(s, 0, s.len() - 12), text::str_to_chars("sq mi")))
    } else if text::ends_with_str(s, " cubic meters") {
        proof {
            reveal_strlit(" cubic meters");
        }
        Some((text::copy_range(s, 0, s.len() - 13), text::str_to_chars("m³")))
    } else if text::ends_with_str(s, " cubic meter") {
        proof {
            reveal_strlit(" cubic meter");
        }
        Some((text::copy_range(s, 0, s.len() - 12), text::str_to_chars("m³")))
    } else if text::ends_with_str(s, " cubic deci meters") {
        proof {
            reveal_strlit(" cubic deci meters");
        }
        Some((text::copy_range(s, 0, s.len() - 18), text::str_to_chars("dm³")))
    } else if text::ends_with_str(s, " cubic decimeters") {
        proof {
            reveal_strlit(" cubic decimeters");
        }
        Some((text::copy_range(s, 0, s.len() - 17), text::str_to_chars("dm³")))
    } else if text::ends_with_str(s, " peta bytes") {
        proof {
            reveal_strlit(" peta bytes");
        }
        Some((text::copy_range(s, 0, s.len() - 11), text::str_to_chars("pb")))
    } else if text::ends_with_str(s, " petabytes") {
        proof {
            reveal_strlit(" petabytes");
        }
        Some((text::copy_range(s, 0, s.len() - 10), text::str_to_chars("pb")))
    } else if text::ends_with_str(s, " giga bytes") {
        proof {
            reveal_strlit(" giga bytes");
        }
        Some((text::copy_range(s, 0, s.len() - 11), text::str_to_chars("gb")))
    } else if text::ends_with_str(s, " gigabytes") {
        proof {
            reveal_strlit(" gigabytes");
        }
        Some((text::copy_range(s, 0, s.len() - 10), text::str_to_chars("gb")))
    } else if text::ends_with_str(s, " mega bytes") {
        proof {
            reveal_strlit(" mega bytes");
        }
        Some((text::copy_range(s, 0, s.len() - 11), text::str_to_chars("mb")))
    } else if text::ends_with_str(s, " megabytes") {
        proof {
            reveal_strlit(" megabytes");
        }
        Some((text::copy_range(s, 0, s.len() - 10), text::str_to_chars("mb")))
    } else if text::ends_with_str(s, " kilo bytes") {
        proof {
            reveal_strlit(" kilo bytes");
        }
        Some((text::copy_range(s, 0, s.len() - 11), text::str_to_chars("kb")))
    } else if text::ends_with_str(s, " kilobytes") {
        proof {
            reveal_strlit(" kilobytes");
        }
        Some((text::copy_range(s, 0, s.len() - 10), text::str_to_chars("kb")))
    } else if text::ends_with_str(s, " kilobits") {
        proof {
            reveal_strlit(" kilobits");
        }
        Some((text::copy_range(s, 0, s.len() - 9), text::str_to_chars("kb")))
    } else if text::ends_with_str(s, " bytes") {
        proof {
            reveal_strlit(" bytes");
        }
        Some((text::copy_range(s, 0, s.len() - 6), text::str_to_chars("b")))
    } else if text::ends_with_str(s, " megawatts") {
        proof {
            reveal_strlit(" megawatts");
        }
        Some((text::copy_range(s, 0, s.len() - 10), text::str_to_chars("mW")))
    } else if text::ends_with_str(s, " megawatt") {
        proof {
            reveal_strlit(" megawatt");
        }
        Some((text::copy_range(s, 0, s.len() - 9), text::str_to_chars("mW")))
    } else if text::ends_with_str(s, " kilowatts") {
        proof {
            reveal_strlit(" kilowatts");
        }
        Some((text::copy_range(s, 0, s.len() - 10), text::str_to_chars("kW")))
    } else if text::ends_with_str(s, " kilowatt") {
        proof {
            reveal_strlit(" kilowatt");
        }
        Some((text::copy_range(s, 0, s.len() - 9), text::str_to_chars("kW")))
    } else if text::ends_with_str(s, " gigawatts") {
        proof {
            reveal_strlit(" gigawatts");
        }
        Some((text::copy_range(s, 0, s.len() - 10), text::str_to_chars("gW")))
    } else if text::ends_with_str(s, " watts") {
        proof {
            reveal_strlit(" watts");
        }
        Some((text::copy_range(s, 0, s.len() - 6), text::str_to_chars("W")))
    } else if text::ends_with_str(s, " watt") {
        proof {
            reveal_strlit(" watt");
        }
        Some((text::copy_range(s, 0, s.len() - 5), text::str_to_chars("W")))
    } else if text::ends_with_str(s, " horsepower") {
        proof {
            reveal_strlit(" horsepower");
        }
        Some((text::copy_range(s, 0, s.len() - 11), text::str_to_chars("hp")))
    } else if text::ends_with_str(s, " gigabits per second") {
        proof {
            reveal_strlit(" gigabits per second");
        }
        Some((text::copy_range(s, 0, s.len() - 20), text::str_to_chars("gbps")))
    } else if text::ends_with_str(s, " gigabit per second") {
        proof {
            reveal_strlit(" gigabit per second");
        }
        Some((text::copy_range(s, 0, s.len() - 19), text::str_to_chars("gbps")))
    } else if text::ends_with_str(s, " megabits per second") {
        proof {
            reveal_strlit(" megabits per second");
        }
        Some((text::copy_range(s, 0, s.len() - 20), text::str_to_chars("mbps")))
    } else if text::ends_with_str(s, " megabit per second") {
        proof {
            reveal_strlit(" megabit per second");
        }
        Some((text::copy_range(s, 0, s.len() - 19), text::str_to_chars("mbps")))
    } else if text::ends_with_str(s, " degrees celsius") {
        proof {
            reveal_strlit(" degrees celsius");
        }
        Some((text::copy_range(s, 0, s.len() - 16), text::str_to_chars("°C")))
    } else if text::ends_with_str(s, " degree celsius") {
        proof {
            reveal_strlit(" degree celsius");
        }
        Some((text::copy_range(s, 0, s.len() - 15), text::str_to_chars("°C")))
    } else if text::ends_with_str(s, " degrees fahrenheit") {
        proof {
            reveal_strlit(" degrees fahrenheit");
        }
        Some((text::copy_range(s, 0, s.len() - 19), text::str_to_chars("°F")))
    } else if text::ends_with_str(s, " degree fahrenheit") {
        proof {
            reveal_strlit(" degree fahrenheit");
        }
        Some((text::copy_range(s, 0, s.len() - 18), text::str_to_chars("°F")))
    } else if text::ends_with_str(s, " kelvin") {
        proof {
            reveal_strlit(" kelvin");
        }
        Some((text::copy_range(s, 0, s.len() - 7), text::str_to_chars("K")))
    } else if text::ends_with_str(s, " megahertz") {
        proof {
            reveal_strlit(" megahertz");
        }
        Some((text::copy_range(s, 0, s.len() - 10), text::str_to_chars("mhz")))
    } else if text::ends_with_str(s, " kilohertz") {
        proof {
            reveal_strlit(" kilohertz");
        }
        Some((text::copy_range(s, 0, s.len() - 10), text::str_to_chars("khz")))
    } else if text::ends_with_str(s, " hertz") {
        proof {
            reveal_strlit(" hertz");
        }
        Some((text::copy_range(s, 0, s.len() - 6), text::str_to_chars("hz")))
    } else if text::ends_with_str(s, " milli volt") {
        proof {
            reveal_strlit(" milli volt");
        }
        Some((text::copy_range(s, 0, s.len() - 11), text::str_to_chars("mv")))
    } else if text::ends_with_str(s, " millivolts") {
        proof {
            reveal_strlit(" millivolts");
        }
        Some((text::copy_range(s, 0, s.len() - 11), text::str_to_chars("mv")))
    } else if text::ends_with_str(s, " volts") {
        proof {
            reveal_strlit(" volts");
        }
        Some((text::copy_range(s, 0, s.len() - 6), text::str_to_chars("v")))
    } else if text::ends_with_str(s, " volt") {
        proof {
            reveal_strlit(" volt");
        }
        Some((text::copy_range(s, 0, s.len() - 5), text::str_to_chars("v")))
    } else if text::ends_with_str(s, " mega siemens") {
        proof {
            reveal_strlit(" mega siemens");
        }
        Some((text::copy_range(s, 0, s.len() - 13), text::str_to_chars("ms")))
    } else if text::ends_with_str(s, " micrometers") {
        proof {
            reveal_strlit(" micrometers");
        }
        Some((text::copy_range(s, 0, s.len() - 12), text::str_to_chars("μm")))
    } else if text::ends_with_str(s, " micrometer") {
        proof {
            reveal_strlit(" micrometer");
        }
        Some((text::copy_range(s, 0, s.len() - 11), text::str_to_chars("μm")))
    } else if text::ends_with_str(s, " nanometers") {
        proof {
            reveal_strlit(" nanometers");
        }
        Some((text::copy_range(s, 0, s.len() - 11), text::str_to_chars("nm")))
    } else if text::ends_with_str(s, " nanometer") {
        proof {
            reveal_strlit(" nanometer");
        }
        Some((text::copy_range(s, 0, s.len() - 10), text::str_to_chars("nm")))
    } else if text::ends_with_str(s, " millimeters") {
        proof {
            reveal_strlit(" millimeters");
        }
        Some((text::copy_range(s, 0, s.len() - 12), text::str_to_chars("mm")))
    } else if text::ends_with_str(s, " millimeter") {
        proof {
            reveal_strlit(" millimeter");
        }
        Some((text::copy_range(s, 0, s.len() - 11), text::str_to_chars("mm")))
    } else if text::ends_with_str(s, " centimeters") {
        proof {
            reveal_strlit(" centimeters");
        }
        Some((text::copy_range(s, 0, s.len() - 12), text::str_to_chars("cm")))
    } else if text::ends_with_str(s, " centimeter") {
        proof {
            reveal_strlit(" centimeter");
        }
        Some((text::copy_range(s, 0, s.len() - 11), text::str_to_chars("cm")))
    } else if text::ends_with_str(s, " kilometers") {
        proof {
            reveal_strlit(" kilometers");
        }
        Some((text::copy_range(s, 0, s.len() - 11), text::str_to_chars("km")))
    } else if text::ends_with_str(s, " kilometer") {
        proof {
            reveal_strlit(" kilometer");
        }
        Some((text::copy_range(s, 0, s.len() - 10), text::str_to_chars("km")))
    } else if text::ends_with_str(s, " meters") {
        proof {
            reveal_strlit(" meters");
        }
        Some((text::copy_range(s, 0, s.len() - 7), text::str_to_chars("m")))
    } else if text::ends_with_str(s, " meter") {
        proof {
            reveal_strlit(" meter");
        }
        Some((text::copy_range(s, 0, s.len() - 6), text::str_to_chars("m")))
    } else if text::ends_with_str(s, " feet") {
        proof {
            reveal_strlit(" feet");
        }
        Some((text::copy_range(s, 0, s.len() - 5), text::str_to_chars("ft")))
    } else if text::ends_with_str(s, " foot") {
        proof {
            reveal_strlit(" foot");
        }
        Some((text::copy_range(s, 0, s.len() - 5), text::str_to_chars("ft")))
    } else if text::ends_with_str(s, " miles") {
        proof {
            reveal_strlit(" miles");
        }
        Some((text::copy_range(s, 0, s.len() - 6), text::str_to_chars("mi")))
    } else if text::ends_with_str(s, " mile") {
        proof {
            reveal_strlit(" mile");
        }
        Some((text::copy_range(s, 0, s.len() - 5), text::str_to_chars("mi")))
    } else if text::ends_with_str(s, " ounces") {
        proof {
            reveal_strlit(" ounces");
        }
        Some((text::copy_range(s, 0, s.len() - 7), text::str_to_chars("oz")))
    } else if text::ends_with_str(s, " ounce") {
        proof {
            reveal_strlit(" ounce");
        }
        Some((text::copy_range(s, 0, s.len() - 6), text::str_to_chars("oz")))
    } else if text::ends_with_str(s, " kilograms") {
        proof {
            reveal_strlit(" kilograms");
        }
        Some((text::copy_range(s, 0, s.len() - 10), text::str_to_chars("kg")))
    } else if text::ends_with_str(s, " kilogram") {
        proof {
            reveal_strlit(" kilogram");
        }
        Some((text::copy_range(s, 0, s.len() - 9), text::str_to_chars("kg")))
    } else if text::ends_with_str(s, " grams") {
        proof {
            reveal_strlit(" grams");
        }
        Some((text::copy_range(s, 0, s.len() - 6), text::str_to_chars("g")))
    } else if text::ends_with_str(s, " gram") {
        proof {
            reveal_strlit(" gram");
        }
        Some((text::copy_range(s, 0, s.len() - 5), text::str_to_chars("g")))
    } else if text::ends_with_str(s, " kilo liters") {
        proof {
            reveal_strlit(" kilo liters");
        }
        Some((text::copy_range(s, 0, s.len() - 12), text::str_to_chars("kl")))
    } else if text::ends_with_str(s, " milliliters") {
        proof {
            reveal_strlit(" milliliters");
        }
        Some((text::copy_range(s, 0, s.len() - 12), text::str_to_chars("ml")))
    } else if text::ends_with_str(s, " milliliter") {
        proof {
            reveal_strlit(" milliliter");
        }
        Some((text::copy_range(s, 0, s.len() - 11), text::str_to_chars("ml")))
    } else if text::ends_with_str(s, " liters") {
        proof {
            reveal_strlit(" liters");
        }
        Some((text::copy_range(s, 0, s.len() - 7), text::str_to_chars("l")))
    } else if text::ends_with_str(s, " liter") {
        proof {
            reveal_strlit(" liter");
        }
        Some((text::copy_range(s, 0, s.len() - 6), text::str_to_chars("l")))
    } else if text::ends_with_str(s, " c c") {
        proof {
            reveal_strlit(" c c");
        }
        Some((text::copy_range(s, 0, s.len() - 4), text::str_to_chars("cc")))
    } else if text::ends_with_str(s, " hectares") {
        proof {
            reveal_strlit(" hectares");
        }
        Some((text::copy_range(s, 0, s.len() - 9), text::str_to_chars("ha")))
    } else if text::ends_with_str(s, " hectare") {
        proof {
            reveal_strlit(" hectare");
        }
        Some((text::copy_range(s, 0, s.len() - 8), text::str_to_chars("ha")))
    } else if text::ends_with_str(s, " hours") {
        proof {
            reveal_strlit(" hours");
        }
        Some((text::copy_range(s, 0, s.len() - 6), text::str_to_chars("h")))
    } else if text::ends_with_str(s, " hour") {
        proof {
            reveal_strlit(" hour");
        }
        Some((text::copy_range(s, 0, s.len() - 5), text::str_to_chars("h")))
    } else if text::ends_with_str(s, " lumens") {
        proof {
            reveal_strlit(" lumens");
        }
        Some((text::copy_range(s, 0, s.len() - 7), text::str_to_chars("lm")))
    } else if text::ends_with_str(s, " lumen") {
        proof {
            reveal_strlit(" lumen");
        }
        Some((text::copy_range(s, 0, s.len() - 6), text::str_to_chars("lm")))
    } else if text::ends_with_str(s, " percent") {
        proof {
            reveal_strlit(" percent");
        }
        Some((text::copy_range(s, 0, s.len() - 8), text::str_to_chars("%")))
    } else {
        None
    }
}

/// The unit symbol of a spoken unit name: the lexicon entries are tried in
/// order, each matched exactly or with its trailing 's' letters dropped, and
/// a singular/plural fallback list closes the chain.
pub open spec fn unit_symbol_of(name0: Seq<char>) -> Option<Seq<char>> {
    let name = trim_seq(name0);
    if name == "kilo watt hours"@ || name == "kilo watt hour"@ {
        Some("kWh"@)
    } else if name == "giga watt hours"@ || name == "giga watt hour"@ {
        Some("gWh"@)
    } else if name == "mega watt hours"@ || name == "mega watt hour"@ {
        Some("MWh"@)
    } else if name == "watt hours"@ || name == "watt hour"@ {
        Some("Wh"@)
    } else if name == "kilograms force"@ {
        Some("kgf"@)
    } else if name == "astronomical units"@ || name == "astronomical unit"@ {
        Some("au"@)
    } else if name == "miles per hour"@ {
        Some("mph"@)
    } else if name == "kilometers per hour"@ {
        Some("km/h"@)
    } else if name == "square kilometers"@ || name == "square kilometer"@ {
        Some("km²"@)
    } else if name == "square kilometer"@ {
        Some("km²"@)
    } else if name == "square meters"@ || name == "square meter"@ {
        Some("m²"@)
    } else if name == "square meter"@ {
        Some("m²"@)
    } else if name == "square feet"@ {
        Some("sq ft"@)
    } else if name == "square foot"@ {
        Some("sq ft"@)
    } else if name == "square miles"@ || name == "square mile"@ {
        Some("sq mi"@)
    } else if name == "square mile"@ {
        Some("sq mi"@)
    } else if name == "cubic meters"@ || name == "cubic meter"@ {
        Some("m³"@)
    } else if name == "cubic meter"@ {
        Some("m³"@)
    } else if name == "cubic deci meters"@ || name == "cubic deci meter"@ {
        Some("dm³"@)
    } else if name == "cubic decimeters"@ || name == "cubic decimeter"@ {
        Some("dm³"@)
    } else if name == "peta bytes"@ || name == "peta byte"@ {
        Some("pb"@)
    } else if name == "petabytes"@ || name == "petabyte"@ {
        Some("pb"@)
    } else if name == "giga bytes"@ || name == "giga byte"@ {
        Some("gb"@)
    } else if name == "gigabytes"@ || name == "gigabyte"@ {
        Some("gb"@)
    } else if name == "mega bytes"@ || name == "mega byte"@ {
        Some("mb"@)
    } else if name == "megabytes"@ || name == "megabyte"@ {
        Some("mb"@)
    } else if name == "kilo bytes"@ || name == "kilo byte"@ {
        Some("kb"@)
    } else if name == "kilobytes"@ || name == "kilobyte"@ {
        Some("kb"@)
    } else if name == "kilobits"@ || name == "kilobit"@ {
        Some("kb"@)
    } else if name == "bytes"@ || name == "byte"@ {
        Some("b"@)
    } else if name == "megawatts"@ || name == "megawatt"@ {
        Some("mW"@)
    } else if name == "megawatt"@ {
        Some("mW"@)
    } else if name == "kilowatts"@ || name == "kilowatt"@ {
        Some("kW"@)
    } else if name == "kilowatt"@ {
        Some("kW"@)
    } else if name == "gigawatts"@ || name == "gigawatt"@ {
        Some("gW"@)
    } else if name == "watts"@ || name == "watt"@ {
        Some("W"@)
    } else if name == "watt"@ {
        Some("W"@)
    } else if name == "horsepower"@ {
        Some("hp"@)
    } else if name == "gigabits per second"@ {
        Some("gbps"@)
    } else if name == "gigabit per second"@ {
        Some("gbps"@)
    } else if name == "megabits per second"@ {
        Some("mbps"@)
    } else if name == "megabit per second"@ {
        Some("mbps"@)
    } else if name == "degrees celsius"@ || name == "degrees celsiu"@ {
        Some("°C"@)
    } else if name == "degree celsius"@ || name == "degree celsiu"@ {
        Some("°C"@)
    } else if name == "degrees fahrenheit"@ {
        Some("°F"@)
    } else if name == "degree fahrenheit"@ {
        Some("°F"@)
    } else if name == "kelvin"@ {
        Some("K"@)
    } else if name == "megahertz"@ {
        Some("mhz"@)
    } else if name == "kilohertz"@ {
        Some("khz"@)
    } else if name == "hertz"@ {
        Some("hz"@)
    } else if name == "milli volt"@ {
        Some("mv"@)
    } else if name == "millivolts"@ || name == "millivolt"@ {
        Some("mv"@)
    } else if name == "volts"@ || name == "volt"@ {
        Some("v"@)
    } else if name == "volt"@ {
        Some("v"@)
    } else if name == "mega siemens"@ || name == "mega siemen"@ {
        Some("ms"@)
    } else if name == "micrometers"@ || name == "micrometer"@ {
        Some("μm"@)
    } else if name == "micrometer"@ {
        Some("μm"@)
    } else if name == "nanometers"@ || name == "nanometer"@ {
        Some("nm"@)
    } else if name == "nanometer"@ {
        Some("nm"@)
    } else if name == "millimeters"@ || name == "millimeter"@ {
        Some("mm"@)
    } else if name == "millimeter"@ {
        Some("mm"@)
    } else if name == "centimeters"@ || name == "centimeter"@ {
        Some("cm"@)
    } else if name == "centimeter"@ {
        Some("cm"@)
    } else if name == "kilometers"@ || name == "kilometer"@ {
        Some("km"@)
    } else if name == "kilometer"@ {
        Some("km"@)
    } else if name == "meters"@ || name == "meter"@ {
        Some("m"@)
    } else if name == "meter"@ {
        Some("m"@)
    } else if name == "feet"@ {
        Some("ft"@)
    } else if name == "foot"@ {
        Some("ft"@)
    } else if name == "miles"@ || name == "mile"@ {
        Some("mi"@)
    } else if name == "mile"@ {
        Some("mi"@)
    } else if name == "ounces"@ || name == "ounce"@ {
        Some("oz"@)
    } else if name == "ounce"@ {
        Some("oz"@)
    } else if name == "kilograms"@ || name == "kilogram"@ {
        Some("kg"@)
    } else if name == "kilogram"@ {
        Some("kg"@)
    } else if name == "grams"@ || name == "gram"@ {
        Some("g"@)
    } else if name == "gram"@ {
        Some("g"@)
    } else if name == "kilo liters"@ || name == "kilo liter"@ {
        Some("kl"@)
    } else if name == "milliliters"@ || name == "milliliter"@ {
        Some("ml"@)
    } else if name == "milliliter"@ {
        Some("ml"@)
    } else if name == "liters"@ || name == "liter"@ {
        Some("l"@)
    } else if name == "liter"@ {
        Some("l"@)
    } else if name == "c c"@ {
        Some("cc"@)
    } else if name == "hectares"@ || name == "hectare"@ {
        Some("ha"@)
    } else if name == "hectare"@ {
        Some("ha"@)
    } else if name == "hours"@ || name == "hour"@ {
        Some("h"@)
    } else if name == "hour"@ {
        Some("h"@)
    } else if name == "lumens"@ || name == "lumen"@ {
        Some("lm"@)
    } else if name == "lumen"@ {
        Some("lm"@)
    } else if name == "percent"@ {
        Some("%"@)
    } else if name == "meter"@ || name == "meters"@ {
        Some("m"@)
    } else if name == "kilometer"@ || name == "kilometers"@ {
        Some("km"@)
    } else if name == "centimeter"@ || name == "centimeters"@ {
        Some("cm"@)
    } else if name == "decimeter"@ || name == "decimeters"@ || name == "deci meter"@ || name == "deci meters"@ {
        Some("dm"@)
    } else if name == "millimeter"@ || name == "millimeters"@ {
        Some("mm"@)
    } else if name == "micrometer"@ || name == "micrometers"@ {
        Some("μm"@)
    } else if name == "nanometer"@ || name == "nanometers"@ {
        Some("nm"@)
    } else if name == "foot"@ || name == "feet"@ {
        Some("ft"@)
    } else if name == "mile"@ || name == "miles"@ {
        Some("mi"@)
    } else if name == "hour"@ || name == "hours"@ {
        Some("h"@)
    } else if name == "second"@ || name == "seconds"@ {
        Some("s"@)
    } else if name == "minute"@ || name == "minutes"@ {
        Some("min"@)
    } else if name == "gram"@ || name == "grams"@ {
        Some("g"@)
    } else if name == "kilogram"@ || name == "kilograms"@ {
        Some("kg"@)
    } else if name == "hectare"@ || name == "hectares"@ {
        Some("ha"@)
    } else if name == "liter"@ || name == "liters"@ || name == "litre"@ || name == "litres"@ {
        Some("l"@)
    } else if name == "milliliter"@ || name == "milliliters"@ {
        Some("ml"@)
    } else {
        None
    }
}

fn unit_symbol_x(name0: &Vec<char>) -> (r: Option<Vec<char>>)
    ensures
        view_opt_chars(r) == unit_symbol_of(name0@),
{
    let name = text::trim_chars(name0);
    if text::eq_str(&name, "kilo watt hours") || text::eq_str(&name, "kilo watt hour") {
        Some(text::str_to_chars("kWh"))
    } else if text::eq_str(&name, "giga watt hours") || text::eq_str(&name, "giga watt hour") {
        Some(text::str_to_chars("gWh"))
    } else if text::eq_str(&name, "mega watt hours") || text::eq_str(&name, "mega watt hour") {
        Some(text::str_to_chars("MWh"))
    } else if text::eq_str(&name, "watt hours") || text::eq_str(&name, "watt hour") {
        Some(text::str_to_chars("Wh"))
    } else if text::eq_str(&name, "kilograms force") {
        Some(text::str_to_chars("kgf"))
    } else if text::eq_str(&name, "astronomical units") || text::eq_str(&name, "astronomical unit") {
        Some(text::str_to_chars("au"))
    } else if text::eq_str(&name, "miles per hour") {
        Some(text::str_to_chars("mph"))
    } else if text::eq_str(&name, "kilometers per hour") {
        Some(text::str_to_chars("km/h"))
    } else if text::eq_str(&name, "square kilometers") || text::eq_str(&name, "square kilometer") {
        Some(text::str_to_chars("km²"))
    } else if text::eq_str(&name, "square kilometer") {
        Some(text::str_to_chars("km²"))
    } else if text::eq_str(&name, "square meters") || text::eq_str(&name, "square meter") {
        Some(text::str_to_chars("m²"))
    } else if text::eq_str(&name, "square meter") {
        Some(text::str_to_chars("m²"))
    } else if text::eq_str(&name, "square feet") {
        Some(text::str_to_chars("sq ft"))
    } else if text::eq_str(&name, "square foot") {
        Some(text::str_to_chars("sq ft"))
    } else if text::eq_str(&name, "square miles") || text::eq_str(&name, "square mile") {
        Some(text::str_to_chars("sq mi"))
    } else if text::eq_str(&name, "square mile") {
        Some(text::str_to_chars("sq mi"))
    } else if text::eq_str(&name, "cubic meters") || text::eq_str(&name, "cubic meter") {
        Some(text::str_to_chars("m³"))
    } else if text::eq_str(&name, "cubic meter") {
        Some(text::str_to_chars("m³"))
    } else if text::eq_str(&name, "cubic deci meters") || text::eq_str(&name, "cubic deci meter") {
        Some(text::str_to_chars("dm³"))
    } else if text::eq_str(&name, "cubic decimeters") || text::eq_str(&name, "cubic decimeter") {
        Some(text::str_to_chars("dm³"))
    } else if text::eq_str(&name, "peta bytes") || text::eq_str(&name, "peta byte") {
        Some(text::str_to_chars("pb"))
    } else if text::eq_str(&name, "petabytes") || text::eq_str(&name, "petabyte") {
        Some(text::str_to_chars("pb"))
    } else if text::eq_str(&name, "giga bytes") || text::eq_str(&name, "giga byte") {
        Some(text::str_to_chars("gb"))
    } else if text::eq_str(&name, "gigabytes") || text::eq_str(&name, "gigabyte") {
        Some(text::str_to_chars("gb"))
    } else if text::eq_str(&name, "mega bytes") || text::eq_str(&name, "mega byte") {
        Some(text::str_to_chars("mb"))
    } else if text::eq_str(&name, "megabytes") || text::eq_str(&name, "megabyte") {
        Some(text::str_to_chars("mb"))
    } else if text::eq_str(&name, "kilo bytes") || text::eq_str(&name, "kilo byte") {
        Some(text::str_to_chars("kb"))
    } else if text::eq_str(&name, "kilobytes") || text::eq_str(&name, "kilobyte") {
        Some(text::str_to_chars("kb"))
    } else if text::eq_str(&name, "kilobits") || text::eq_str(&name, "kilobit") {
        Some(text::str_to_chars("kb"))
    } else if text::eq_str(&name, "bytes") || text::eq_str(&name, "byte") {
        Some(text::str_to_chars("b"))
    } else if text::eq_str(&name, "megawatts") || text::eq_str(&name, "megawatt") {
        Some(text::str_to_chars("mW"))
    } else if text::eq_str(&name, "megawatt") {
        Some(text::str_to_chars("mW"))
    } else if text::eq_str(&name, "kilowatts") || text::eq_str(&name, "kilowatt") {
        Some(text::str_to_chars("kW"))
    } else if text::eq_str(&name, "kilowatt") {
        Some(text::str_to_chars("kW"))
    } else if text::eq_str(&name, "gigawatts") || text::eq_str(&name, "gigawatt") {
        Some(text::str_to_chars("gW"))
    } else if text::eq_str(&name, "watts") || text::eq_str(&name, "watt") {
        Some(text::str_to_chars("W"))
    } else if text::eq_str(&name, "watt") {
        Some(text::str_to_chars("W"))
    } else if text::eq_str(&name, "horsepower") {
        Some(text::str_to_chars("hp"))
    } else if text::eq_str(&name, "gigabits per second") {
        Some(text::str_to_chars("gbps"))
    } else if text::eq_str(&name, "gigabit per second") {
        Some(text::str_to_chars("gbps"))
    } else if text::eq_str(&name, "megabits per second") {
        Some(text::str_to_chars("mbps"))
    } else if text::eq_str(&name, "megabit per second") {
        Some(text::str_to_chars("mbps"))
    } else if text::eq_str(&name, "degrees celsius") || text::eq_str(&name, "degrees celsiu") {
        Some(text::str_to_chars("°C"))
    } else if text::eq_str(&name, "degree celsius") || text::eq_str(&name, "degree celsiu") {
        Some(text::str_to_chars("°C"))
    } else if text::eq_str(&name, "degrees fahrenheit") {
        Some(text::str_to_chars("°F"))
    } else if text::eq_str(&name, "degree fahrenheit") {
        Some(text::str_to_chars("°F"))
    } else if text::eq_str(&name, "kelvin") {
        Some(text::str_to_chars("K"))
    } else if text::eq_str(&name, "megahertz") {
        Some(text::str_to_chars("mhz"))
    } else if text::eq_str(&name, "kilohertz") {
        Some(text::str_to_chars("khz"))
    } else if text::eq_str(&name, "hertz") {
        Some(text::str_to_chars("hz"))
    } else if text::eq_str(&name, "milli volt") {
        Some(text::str_to_chars("mv"))
    } else if text::eq_str(&name, "millivolts") || text::eq_str(&name, "millivolt") {
        Some(text::str_to_chars("mv"))
    } else if text::eq_str(&name, "volts") || text::eq_str(&name, "volt") {
        Some(text::str_to_chars("v"))
    } else if text::eq_str(&name, "volt") {
        Some(text::str_to_chars("v"))
    } else if text::eq_str(&name, "mega siemens") || text::eq_str(&name, "mega siemen") {
        Some(text::str_to_chars("ms"))
    } else if text::eq_str(&name, "micrometers") || text::eq_str(&name, "micrometer") {
        Some(text::str_to_chars("μm"))
    } else if text::eq_str(&name, "micrometer") {
        Some(text::str_to_chars("μm"))
    } else if text::eq_str(&name, "nanometers") || text::eq_str(&name, "nanometer") {
        Some(text::str_to_chars("nm"))
    } else if text::eq_str(&name, "nanometer") {
        Some(text::str_to_chars("nm"))
    } else if text::eq_str(&name, "millimeters") || text::eq_str(&name, "millimeter") {
        Some(text::str_to_chars("mm"))
    } else if text::eq_str(&name, "millimeter") {
        Some(text::str_to_chars("mm"))
    } else if text::eq_str(&name, "centimeters") || text::eq_str(&name, "centimeter") {
        Some(text::str_to_chars("cm"))
    } else if text::eq_str(&name, "centimeter") {
        Some(text::str_to_chars("cm"))
    } else if text::eq_str(&name, "kilometers") || text::eq_str(&name, "kilometer") {
        Some(text::str_to_chars("km"))
    } else if text::eq_str(&name, "kilometer") {
        Some(text::str_to_chars("km"))
    } else if text::eq_str(&name, "meters") || text::eq_str(&name, "meter") {
        Some(text::str_to_chars("m"))
    } else if text::eq_str(&name, "meter") {
        Some(text::str_to_chars("m"))
    } else if text::eq_str(&name, "feet") {
        Some(text::str_to_chars("ft"))
    } else if text::eq_str(&name, "foot") {
        Some(text::str_to_chars("ft"))
    } else if text::eq_str(&name, "miles") || text::eq_str(&name, "mile") {
        Some(text::str_to_chars("mi"))
    } else if text::eq_str(&name, "mile") {
        Some(text::str_to_chars("mi"))
    } else if text::eq_str(&name, "ounces") || text::eq_str(&name, "ounce") {
        Some(text::str_to_chars("oz"))
    } else if text::eq_str(&name, "ounce") {
        Some(text::str_to_chars("oz"))
    } else if text::eq_str(&name, "kilograms") || text::eq_str(&name, "kilogram") {
        Some(text::str_to_chars("kg"))
    } else if text::eq_str(&name, "kilogram") {
        Some(text::str_to_chars("kg"))
    } else if text::eq_str(&name, "grams") || text::eq_str(&name, "gram") {
        Some(text::str_to_chars("g"))
    } else if text::eq_str(&name, "gram") {
        Some(text::str_to_chars("g"))
    } else if text::eq_str(&name, "kilo liters") || text::eq_str(&name, "kilo liter") {
        Some(text::str_to_chars("kl"))
    } else if text::eq_str(&name, "milliliters") || text::eq_str(&name, "milliliter") {
        Some(text::str_to_chars("ml"))
    } else if text::eq_str(&name, "milliliter") {
        Some(text::str_to_chars("ml"))
    } else if text::eq_str(&name, "liters") || text::eq_str(&name, "liter") {
        Some(text::str_to_chars("l"))
    } else if text::eq_str(&name, "liter") {
        Some(text::str_to_chars("l"))
    } else if text::eq_str(&name, "c c") {
        Some(text::str_to_chars("cc"))
    } else if text::eq_str(&name, "hectares") || text::eq_str(&name, "hectare") {
        Some(text::str_to_chars("ha"))
    } else if text::eq_str(&name, "hectare") {
        Some(text::str_to_chars("ha"))
    } else if text::eq_str(&name, "hours") || text::eq_str(&name, "hour") {
        Some(text::str_to_chars("h"))
    } else if text::eq_str(&name, "hour") {
        Some(text::str_to_chars("h"))
    } else if text::eq_str(&name, "lumens") || text::eq_str(&name, "lumen") {
        Some(text::str_to_chars("lm"))
    } else if text::eq_str(&name, "lumen") {
        Some(text::str_to_chars("lm"))
    } else if text::eq_str(&name, "percent") {
        Some(text::str_to_chars("%"))
    } else if text::eq_str(&name, "meter") || text::eq_str(&name, "meters") {
        Some(text::str_to_chars("m"))
    } else if text::eq_str(&name, "kilometer") || text::eq_str(&name, "kilometers") {
        Some(text::str_to_chars("km"))
    } else if text::eq_str(&name, "centimeter") || text::eq_str(&name, "centimeters") {
        Some(text::str_to_chars("cm"))
    } else if text::eq_str(&name, "decimeter") || text::eq_str(&name, "decimeters") || text::eq_str(&name, "deci meter") || text::eq_str(&name, "deci meters") {
        Some(text::str_to_chars("dm"))
    } else if text::eq_str(&name, "millimeter") || text::eq_str(&name, "millimeters") {
        Some(text::str_to_chars("mm"))
    } else if text::eq_str(&name, "micrometer") || text::eq_str(&name, "micrometers") {
        Some(text::str_to_chars("μm"))
    } else if text::eq_str(&name, "nanometer") || text::eq_str(&name, "nanometers") {
        Some(text::str_to_chars("nm"))
    } else if text::eq_str(&name, "foot") || text::eq_str(&name, "feet") {
        Some(text::str_to_chars("ft"))
    } else if text::eq_str(&name, "mile") || text::eq_str(&name, "miles") {
        Some(text::str_to_chars("mi"))
    } else if text::eq_str(&name, "hour") || text::eq_str(&name, "hours") {
        Some(text::str_to_chars("h"))
    } else if text::eq_str(&name, "second") || text::eq_str(&name, "seconds") {
        Some(text::str_to_chars("s"))
    } else if text::eq_str(&name, "minute") || text::eq_str(&name, "minutes") {
        Some(text::str_to_chars("min"))
    } else if text::eq_str(&name, "gram") || text::eq_str(&name, "grams") {
        Some(text::str_to_chars("g"))
    } else if text::eq_str(&name, "kilogram") || text::eq_str(&name, "kilograms") {
        Some(text::str_to_chars("kg"))
    } else if text::eq_str(&name, "hectare") || text::eq_str(&name, "hectares") {
        Some(text::str_to_chars("ha"))
    } else if text::eq_str(&name, "liter") || text::eq_str(&name, "liters") || text::eq_str(&name, "litre") || text::eq_str(&name, "litres") {
        Some(text::str_to_chars("l"))
    } else if text::eq_str(&name, "milliliter") || text::eq_str(&name, "milliliters") {
        Some(text::str_to_chars("ml"))
    } else {
        None
    }
}

// ---------------------------------------------------------------------------
// Number values
// ---------------------------------------------------------------------------

/// The written number of a measurement value: the decimal tagger for
/// "point" forms, otherwise the cardinal value's digits.
pub open spec fn number_value_spec(s: Seq<char>) -> Option<Seq<char>> {
    if contains_sub(s, " point "@) || starts_with(s, "point "@) {
        decimal::decimal_spec(s)
    } else {
        match cardinal::words_value_i128(s) {
            Some(n) => Some(dec_rep(n)),
            None => None,
        }
    }
}

fn number_value_x(s: &Vec<char>) -> (r: Option<Vec<char>>)
    ensures
        view_opt_chars(r) == number_value_spec(s@),
{
    proof {
        reveal_strlit(" point ");
        reveal_strlit("point ");
    }
    if text::contains_str(s, " point ") || text::starts_with_str(s, "point ") {
        decimal::parse_chars(s)
    } else {
        match cardinal::words_value_chars(s) {
            Some(n) => if n <= i128::MAX as u128 {
                Some(text::dec_u128(n))
            } else {
                None
            },
            None => None,
        }
    }
}

// ---------------------------------------------------------------------------
// Unit extraction
// ---------------------------------------------------------------------------

/// Split off the unit at the end: "miles per hour" first, then a
/// square/cubic modifier around the last such marker, then the plain
/// suffix lexicon. Returns the number part and the formatted unit.
pub open spec fn extract_unit_spec(s: Seq<char>) -> Option<(Seq<char>, Seq<char>)> {
    if ends_with(s, " miles per hour"@) {
        Some((s.subrange(0, s.len() - 15), "mph"@))
    } else if contains_sub(s, " square "@) {
        match rfind_sub(s, " square "@) {
            Some(idx) => {
                let prefix = s.subrange(0, idx);
                let after = s.subrange(idx + 8, s.len() as int);
                match unit_symbol_of(after) {
                    Some(u) => {
                        let formatted = if u == "ft"@ {
                            "sq ft"@
                        } else if u == "mi"@ {
                            "sq mi"@
                        } else {
                            u + "²"@
                        };
                        Some((prefix, formatted))
                    },
                    None => None,
                }
            },
            None => None,
        }
    } else if contains_sub(s, " cubic "@) {
        match rfind_sub(s, " cubic "@) {
            Some(idx) => {
                let prefix = s.subrange(0, idx);
                let after = s.subrange(idx + 7, s.len() as int);
                match unit_symbol_of(after) {
                    Some(u) => Some((prefix, u + "³"@)),
                    None => None,
                }
            },
            None => None,
        }
    } else {
        match unit_suffix(s) {
            Some((np, sym)) => Some((trim_seq(np), sym)),
            None => None,
        }
    }
}

fn extract_unit_x(s: &Vec<char>) -> (r: Option<(Vec<char>, Vec<char>)>)
    ensures
        match r {
            Some((np, u)) => extract_unit_spec(s@) == Some((np@, u@)),
            None => extract_unit_spec(s@) is None,
        },
{
    proof {
        reveal_strlit(" miles per hour");
        reveal_strlit(" square ");
        reveal_strlit(" cubic ");
        reveal_strlit("ft");
        reveal_strlit("mi");
    }
    if text::ends_with_str(s, " miles per hour") {
        return Some((text::copy_range(s, 0, s.len() - 15), text::str_to_chars("mph")));
    }
    if text::contains_str(s, " square ") {
        match text::rfind_str(s, " square ") {
            Some(idx) => {
                proof {
                    text::lemma_rfind_at_occurs(s@, " square "@, s@.len() - 8);
                }
                let prefix = text::copy_range(s, 0, idx);
                let after = text::copy_range(s, idx + 8, s.len());
                match unit_symbol_x(&after) {
                    Some(u) => {
                        let formatted: Vec<char> = if text::eq_str(&u, "ft") {
                            text::str_to_chars("sq ft")
                        } else if text::eq_str(&u, "mi") {
                            text::str_to_chars("sq mi")
                        } else {
                            let mut f = u;
                            text::push_str_chars(&mut f, "²");
                            f
                        };
                        return Some((prefix, formatted));
                    },
                    None => {
                        return None;
                    },
                }
            },
            None => {
                return None;
            },
        }
    }
    if text::contains_str(s, " cubic ") {
        match text::rfind_str(s, " cubic ") {
            Some(idx) => {
                proof {
                    text::lemma_rfind_at_occurs(s@, " cubic "@, s@.len() - 7);
                }
                let prefix = text::copy_range(s, 0, idx);
                let after = text::copy_range(s, idx + 7, s.len());
                match unit_symbol_x(&after) {
                    Some(u) => {
                        let mut f = u;
                        text::push_str_chars(&mut f, "³");
                        return Some((prefix, f));
                    },
                    None => {
                        return None;
                    },
                }
            },
            None => {
                return None;
            },
        }
    }
    match unit_suffix_x(s) {
        Some((np, sym)) => Some((text::trim_chars(&np), sym)),
        None => None,
    }
}

/// The signed number and unit of a simple measurement.
pub open spec fn number_and_unit_spec(s: Seq<char>) -> Option<(Seq<char>, Seq<char>)> {
    let neg = starts_with(s, "minus "@);
    let rest = if neg {
        s.subrange(6, s.len() as int)
    } else {
        s
    };
    match extract_unit_spec(rest) {
        Some((np, u)) => match number_value_spec(trim_seq(np)) {
            Some(nv) => {
                let sign: Seq<char> = if neg {
                    seq!['-']
                } else {
                    Seq::empty()
                };
                Some((sign + nv, u))
            },
            None => None,
        },
        None => None,
    }
}

fn number_and_unit_x(s: &Vec<char>) -> (r: Option<(Vec<char>, Vec<char>)>)
    ensures
        match r {
            Some((nv, u)) => number_and_unit_spec(s@) == Some((nv@, u@)),
            None => number_and_unit_spec(s@) is None,
        },
{
    proof {
        reveal_strlit("minus ");
    }
    let (neg, rest) = if text::starts_with_str(s, "minus ") {
        (true, text::copy_range(s, 6, s.len()))
    } else {
        (false, text::dup_chars(s))
    };
    match extract_unit_x(&rest) {
        Some((np, u)) => {
            let npt = text::trim_chars(&np);
            match number_value_x(&npt) {
                Some(nv) => {
                    let mut out: Vec<char> = Vec::new();
                    if neg {
                        out.push('-');
                    }
                    text::push_all(&mut out, &nv);
                    proof {
                        let sign: Seq<char> = if neg {
                            seq!['-']
                        } else {
                            Seq::empty()
                        };
                        assert(out@ =~= sign + nv@);
                    }
                    Some((out, u))
                },
                None => None,
            }
        },
        None => None,
    }
}

// ---------------------------------------------------------------------------
// Compound units
// ---------------------------------------------------------------------------

/// Compound forms: "miles per hour", "kilograms force per square
/// centimeter", "per square Y", "per cubic Y", and "X unit per Y".
pub open spec fn compound_spec(low: Seq<char>) -> Option<Seq<char>> {
    if ends_with(low, " miles per hour"@) {
        match number_value_spec(trim_seq(low.subrange(0, low.len() - 15))) {
            Some(nv) => Some(nv + " mph"@),
            None => None,
        }
    } else if ends_with(low, " kilograms force per square centimeter"@) {
        match number_value_spec(trim_seq(low.subrange(0, low.len() - 38))) {
            Some(nv) => Some(nv + " kgf/cm²"@),
            None => None,
        }
    } else if find_sub(low, " per square "@) is Some {
        let idx = find_sub(low, " per square "@)->Some_0;
        match number_value_spec(trim_seq(low.subrange(0, idx))) {
            Some(nv) => match unit_symbol_of(low.subrange(idx + 12, low.len() as int)) {
                Some(u) => Some(nv + " /"@ + u + "²"@),
                None => None,
            },
            None => None,
        }
    } else if find_sub(low, " per cubic "@) is Some {
        let idx = find_sub(low, " per cubic "@)->Some_0;
        match number_value_spec(trim_seq(low.subrange(0, idx))) {
            Some(nv) => match unit_symbol_of(low.subrange(idx + 11, low.len() as int)) {
                Some(u) => Some(nv + " /"@ + u + "³"@),
                None => None,
            },
            None => None,
        }
    } else if find_sub(low, " per "@) is Some {
        let idx = find_sub(low, " per "@)->Some_0;
        match number_and_unit_spec(low.subrange(0, idx)) {
            Some((nv, nu)) => match unit_symbol_of(low.subrange(idx + 5, low.len() as int)) {
                Some(du) => Some(nv + seq![' '] + nu + seq!['/'] + du),
                None => None,
            },
            None => None,
        }
    } else {
        None
    }
}

fn compound_x(low: &Vec<char>) -> (r: Option<Vec<char>>)
    ensures
        view_opt_chars(r) == compound_spec(low@),
{
    proof {
        reveal_strlit(" miles per hour");
        reveal_strlit(" kilograms force per square centimeter");
        reveal_strlit(" per square ");
        reveal_strlit(" per cubic ");
        reveal_strlit(" per ");
    }
    if text::ends_with_str(low, " miles per hour") {
        let cut = text::copy_range(low, 0, low.len() - 15);
        let np = text::trim_chars(&cut);
        return match number_value_x(&np) {
            Some(nv) => {
                let mut out = nv;
                text::push_str_chars(&mut out, " mph");
                Some(out)
            },
            None => None,
        };
    }
    if text::ends_with_str(low, " kilograms force per square centimeter") {
        let cut = text::copy_range(low, 0, low.len() - 38);
        let np = text::trim_chars(&cut);
        return match number_value_x(&np) {
            Some(nv) => {
                let mut out = nv;
                text::push_str_chars(&mut out, " kgf/cm²");
                Some(out)
            },
            None => None,
        };
    }
    if let Some(idx) = text::find_str(low, " per square ") {
        proof {
            text::lemma_find_from_occurs(low@, " per square "@, 0);
        }
        let cut = text::copy_range(low, 0, idx);
        let np = text::trim_chars(&cut);
        let denom = text::copy_range(low, idx + 12, low.len());
        return match number_value_x(&np) {
            Some(nv) => match unit_symbol_x(&denom) {
                Some(u) => {
                    let mut out = nv;
                    text::push_str_chars(&mut out, " /");
                    text::push_all(&mut out, &u);
                    text::push_str_chars(&mut out, "²");
                    Some(out)
                },
                None => None,
            },
            None => None,
        };
    }
    if let Some(idx) = text::find_str(low, " per cubic ") {
        proof {
            text::lemma_find_from_occurs(low@, " per cubic "@, 0);
        }
        let cut = text::copy_range(low, 0, idx);
        let np = text::trim_chars(&cut);
        let denom = text::copy_range(low, idx + 11, low.len());
        return match number_value_x(&np) {
            Some(nv) => match unit_symbol_x(&denom) {
                Some(u) => {
                    let mut out = nv;
                    text::push_str_chars(&mut out, " /");
                    text::push_all(&mut out, &u);
                    text::push_str_chars(&mut out, "³");
                    Some(out)
                },
                None => None,
            },
            None => None,
        };
    }
    if let Some(idx) = text::find_str(low, " per ") {
        proof {
            text::lemma_find_from_occurs(low@, " per "@, 0);
        }
        let head = text::copy_range(low, 0, idx);
        let denom = text::copy_range(low, idx + 5, low.len());
        return match number_and_unit_x(&head) {
            Some((nv, nu)) => match unit_symbol_x(&denom) {
                Some(du) => {
                    let mut out = nv;
                    out.push(' ');
                    text::push_all(&mut out, &nu);
                    out.push('/');
                    text::push_all(&mut out, &du);
                    proof {
                        let sp = compound_spec(low@);
                        assert(out@ =~= sp->Some_0);
                    }
                    Some(out)
                },
                None => None,
            },
            None => None,
        };
    }
    None
}

// ---------------------------------------------------------------------------
// The tagger
// ---------------------------------------------------------------------------

/// The written form of a spoken measurement.
pub open spec fn measure_spec(s: Seq<char>) -> Option<Seq<char>> {
    let low = trim_seq(lower_seq(s));
    match compound_spec(low) {
        Some(r) => Some(r),
        None => match number_and_unit_spec(low) {
            Some((nv, u)) => Some(nv + seq![' '] + u),
            None => None,
        },
    }
}

/// Character-vector form of [`parse`].
pub fn parse_chars(cv: &Vec<char>) -> (r: Option<Vec<char>>)
    ensures
        view_opt_chars(r) == measure_spec(cv@),
{
    let lowv = text::lower_chars(cv);
    let low = text::trim_chars(&lowv);
    if let Some(r) = compound_x(&low) {
        return Some(r);
    }
    match number_and_unit_x(&low) {
        Some((nv, u)) => {
            let mut out = nv;
            out.push(' ');
            text::push_all(&mut out, &u);
            proof {
                let sp = measure_spec(cv@);
                assert(out@ =~= sp->Some_0);
            }
            Some(out)
        },
        None => None,
    }
}

/// Parse a spoken measurement to its written form.
pub fn parse(input: &str) -> (r: Option<String>)
    ensures
        view_opt_str(r) == measure_spec(input@),
{
    let cv = text::str_to_chars(input);
    match parse_chars(&cv) {
        Some(out) => Some(text::chars_to_string(&out)),
        None => None,
    }
}

} // verus!
