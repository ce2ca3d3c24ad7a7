//! Per-tagger tests: each category's recognizer on its own inputs.

use nemo_text_processing::custom_rules::{
    add_rule, clear_rules, parse, remove_rule, rule_count, CustomRules,
};
use nemo_text_processing::taggers::cardinal;
use nemo_text_processing::taggers::date;
use nemo_text_processing::taggers::decimal;
use nemo_text_processing::taggers::electronic;
use nemo_text_processing::taggers::measure;
use nemo_text_processing::taggers::money;
use nemo_text_processing::taggers::ordinal;
use nemo_text_processing::taggers::punctuation;
use nemo_text_processing::taggers::telephone;
use nemo_text_processing::taggers::time;
use nemo_text_processing::taggers::whitelist;
use nemo_text_processing::taggers::word;

// ---------------------------------------------------------------------------
// cardinal
// ---------------------------------------------------------------------------

#[test]
fn cardinal_test_ones() {
    assert_eq!(cardinal::parse("one"), Some("1".to_string()));
    assert_eq!(cardinal::parse("two"), Some("2".to_string()));
    assert_eq!(cardinal::parse("nine"), Some("9".to_string()));
    assert_eq!(cardinal::parse("ten"), Some("10".to_string()));
    assert_eq!(cardinal::parse("fifteen"), Some("15".to_string()));
    assert_eq!(cardinal::parse("nineteen"), Some("19".to_string()));
}

#[test]
fn cardinal_test_tens() {
    assert_eq!(cardinal::parse("twenty"), Some("20".to_string()));
    assert_eq!(cardinal::parse("twenty one"), Some("21".to_string()));
    assert_eq!(cardinal::parse("forty two"), Some("42".to_string()));
    assert_eq!(cardinal::parse("ninety nine"), Some("99".to_string()));
}

#[test]
fn cardinal_test_hundreds() {
    assert_eq!(cardinal::parse("one hundred"), Some("100".to_string()));
    assert_eq!(cardinal::parse("one hundred one"), Some("101".to_string()));
    assert_eq!(cardinal::parse("one hundred and one"), Some("101".to_string()));
    assert_eq!(cardinal::parse("two hundred twenty two"), Some("222".to_string()));
}

#[test]
fn test_eleven_hundred() {
    assert_eq!(cardinal::parse("eleven hundred"), Some("1100".to_string()));
    assert_eq!(cardinal::parse("twenty one hundred"), Some("2100".to_string()));
    assert_eq!(cardinal::parse("eleven hundred twenty one"), Some("1121".to_string()));
}

#[test]
fn cardinal_test_thousands() {
    assert_eq!(cardinal::parse("one thousand"), Some("1000".to_string()));
    assert_eq!(cardinal::parse("one thousand one"), Some("1001".to_string()));
    assert_eq!(cardinal::parse("one thousand one hundred"), Some("1100".to_string()));
    assert_eq!(
        cardinal::parse("one thousand two hundred thirty four"),
        Some("1234".to_string())
    );
}

#[test]
fn test_millions() {
    assert_eq!(cardinal::parse("one million"), Some("1000000".to_string()));
    assert_eq!(cardinal::parse("two million three"), Some("2000003".to_string()));
}

#[test]
fn cardinal_test_negative() {
    assert_eq!(cardinal::parse("minus sixty"), Some("-60".to_string()));
    assert_eq!(
        cardinal::parse("minus twenty five thousand thirty seven"),
        Some("-25037".to_string())
    );
}

#[test]
fn test_zero() {
    assert_eq!(cardinal::parse("zero"), Some("zero".to_string()));
}

#[test]
fn test_invalid() {
    assert_eq!(cardinal::parse("hello"), None);
    assert_eq!(cardinal::parse("one hello"), None);
}

// ---------------------------------------------------------------------------
// ordinal
// ---------------------------------------------------------------------------

#[test]
fn ordinal_test_ones() {
    assert_eq!(ordinal::parse("first"), Some("1st".to_string()));
    assert_eq!(ordinal::parse("second"), Some("2nd".to_string()));
    assert_eq!(ordinal::parse("third"), Some("3rd".to_string()));
    assert_eq!(ordinal::parse("fourth"), Some("4th".to_string()));
    assert_eq!(ordinal::parse("fifth"), Some("5th".to_string()));
}

#[test]
fn test_teens() {
    assert_eq!(ordinal::parse("eleventh"), Some("11th".to_string()));
    assert_eq!(ordinal::parse("twelfth"), Some("12th".to_string()));
    assert_eq!(ordinal::parse("thirteenth"), Some("13th".to_string()));
}

#[test]
fn ordinal_test_tens() {
    assert_eq!(ordinal::parse("twentieth"), Some("20th".to_string()));
    assert_eq!(ordinal::parse("twenty first"), Some("21st".to_string()));
    assert_eq!(ordinal::parse("twenty second"), Some("22nd".to_string()));
    assert_eq!(ordinal::parse("twenty third"), Some("23rd".to_string()));
    assert_eq!(ordinal::parse("forty second"), Some("42nd".to_string()));
}

#[test]
fn ordinal_test_hundreds() {
    assert_eq!(ordinal::parse("one hundredth"), Some("100th".to_string()));
    assert_eq!(ordinal::parse("one hundred first"), Some("101st".to_string()));
    assert_eq!(ordinal::parse("one hundred eleventh"), Some("111th".to_string()));
    assert_eq!(ordinal::parse("one hundred twenty first"), Some("121st".to_string()));
}

#[test]
fn ordinal_test_thousands() {
    assert_eq!(ordinal::parse("one thousandth"), Some("1000th".to_string()));
    assert_eq!(ordinal::parse("eleven hundred twenty first"), Some("1121st".to_string()));
}

#[test]
fn test_zeroth() {
    assert_eq!(ordinal::parse("zeroth"), Some("0th".to_string()));
}

// ---------------------------------------------------------------------------
// decimal
// ---------------------------------------------------------------------------

#[test]
fn test_simple_decimal() {
    assert_eq!(decimal::parse("three point one four"), Some("3.14".to_string()));
    assert_eq!(decimal::parse("zero point five"), Some("0.5".to_string()));
    assert_eq!(decimal::parse("zero point two six"), Some("0.26".to_string()));
}

#[test]
fn test_point_only() {
    assert_eq!(decimal::parse("point five"), Some(".5".to_string()));
    assert_eq!(decimal::parse("point zero two"), Some(".02".to_string()));
}

#[test]
fn test_with_oh() {
    assert_eq!(decimal::parse("eighteen point o five"), Some("18.05".to_string()));
    assert_eq!(decimal::parse("eighteen point o o o"), Some("18.000".to_string()));
}

#[test]
fn decimal_test_negative() {
    assert_eq!(
        decimal::parse("minus sixty point two four zero zero"),
        Some("-60.2400".to_string())
    );
}

#[test]
fn test_with_scale() {
    assert_eq!(decimal::parse("five point two million"), Some("5.2 million".to_string()));
    assert_eq!(decimal::parse("fifty billion"), Some("50 billion".to_string()));
    assert_eq!(decimal::parse("four point eight five billion"), Some("4.85 billion".to_string()));
}

// ---------------------------------------------------------------------------
// punctuation
// ---------------------------------------------------------------------------

#[test]
fn test_basic_punctuation() {
    assert_eq!(punctuation::parse("period"), Some(".".to_string()));
    assert_eq!(punctuation::parse("comma"), Some(",".to_string()));
    assert_eq!(punctuation::parse("colon"), Some(":".to_string()));
    assert_eq!(punctuation::parse("semicolon"), Some(";".to_string()));
}

#[test]
fn test_multi_word() {
    assert_eq!(punctuation::parse("question mark"), Some("?".to_string()));
    assert_eq!(punctuation::parse("exclamation point"), Some("!".to_string()));
    assert_eq!(punctuation::parse("exclamation mark"), Some("!".to_string()));
    assert_eq!(punctuation::parse("open parenthesis"), Some("(".to_string()));
    assert_eq!(punctuation::parse("close parenthesis"), Some(")".to_string()));
    assert_eq!(punctuation::parse("double quote"), Some("\"".to_string()));
    assert_eq!(punctuation::parse("forward slash"), Some("/".to_string()));
}

#[test]
fn test_case_insensitive() {
    assert_eq!(punctuation::parse("Period"), Some(".".to_string()));
    assert_eq!(punctuation::parse("COMMA"), Some(",".to_string()));
    assert_eq!(punctuation::parse("Question Mark"), Some("?".to_string()));
}

#[test]
fn test_symbols() {
    assert_eq!(punctuation::parse("hyphen"), Some("-".to_string()));
    assert_eq!(punctuation::parse("dash"), Some("-".to_string()));
    assert_eq!(punctuation::parse("ampersand"), Some("&".to_string()));
    assert_eq!(punctuation::parse("asterisk"), Some("*".to_string()));
    assert_eq!(punctuation::parse("hash"), Some("#".to_string()));
    assert_eq!(punctuation::parse("percent"), Some("%".to_string()));
    assert_eq!(punctuation::parse("at sign"), Some("@".to_string()));
    assert_eq!(punctuation::parse("ellipsis"), Some("...".to_string()));
}

#[test]
fn punctuation_test_no_match() {
    assert_eq!(punctuation::parse("hello"), None);
    assert_eq!(punctuation::parse("the period was great"), None);
    assert_eq!(punctuation::parse(""), None);
}

// ---------------------------------------------------------------------------
// whitelist
// ---------------------------------------------------------------------------

#[test]
fn test_titles() {
    assert_eq!(whitelist::parse("doctor dao"), Some("dr. dao".to_string()));
    assert_eq!(whitelist::parse("misses smith"), Some("mrs. smith".to_string()));
    assert_eq!(whitelist::parse("mister dao"), Some("mr. dao".to_string()));
    assert_eq!(whitelist::parse("saint george"), Some("st. george".to_string()));
}

#[test]
fn test_phrases() {
    assert_eq!(
        whitelist::parse("i like for example ice cream"),
        Some("i like e.g. ice cream".to_string())
    );
}

#[test]
fn test_tech_terms() {
    assert_eq!(whitelist::parse("r t x"), Some("RTX".to_string()));
    assert_eq!(whitelist::parse("s and p five hundred"), Some("S&P 500".to_string()));
    assert_eq!(whitelist::parse("seven eleven stores"), Some("7-eleven stores".to_string()));
    assert_eq!(whitelist::parse("cat five e"), Some("CAT5e".to_string()));
    assert_eq!(whitelist::parse("c u d n n"), Some("cuDNN".to_string()));
    assert_eq!(whitelist::parse("p c i e x eight"), Some("PCIe x8".to_string()));
    assert_eq!(whitelist::parse("l g a eleven fifty"), Some("LGA 1150".to_string()));
}

#[test]
fn whitelist_test_no_match() {
    assert_eq!(whitelist::parse("hello world"), None);
}

// ---------------------------------------------------------------------------
// word
// ---------------------------------------------------------------------------

#[test]
fn test_spelled_with_number() {
    assert_eq!(word::parse("e s three"), Some("es3".to_string()));
}

#[test]
fn test_number_with_punctuation() {
    assert_eq!(word::parse("twenty!"), Some("20 !".to_string()));
}

#[test]
fn word_test_no_match() {
    assert_eq!(word::parse("hello"), None);
    assert_eq!(word::parse("twenty"), None);
}

// ---------------------------------------------------------------------------
// money
// ---------------------------------------------------------------------------

#[test]
fn test_dollars() {
    assert_eq!(money::parse("one dollar"), Some("$1".to_string()));
    assert_eq!(money::parse("five dollars"), Some("$5".to_string()));
    assert_eq!(money::parse("twenty dollars"), Some("$20".to_string()));
    assert_eq!(money::parse("one hundred dollars"), Some("$100".to_string()));
    assert_eq!(money::parse("fifteen thousand dollars"), Some("$15000".to_string()));
}

#[test]
fn test_dollars_and_cents() {
    assert_eq!(money::parse("one dollar and fifty cents"), Some("$1.50".to_string()));
    assert_eq!(money::parse("five dollars and twenty five cents"), Some("$5.25".to_string()));
    assert_eq!(money::parse("eleven dollars and fifty one cents"), Some("$11.51".to_string()));
}

#[test]
fn test_dollars_implied_cents() {
    assert_eq!(money::parse("seventy five dollars sixty three"), Some("$75.63".to_string()));
    assert_eq!(money::parse("twenty nine dollars fifty"), Some("$29.50".to_string()));
}

#[test]
fn test_cents() {
    assert_eq!(money::parse("one cent"), Some("$0.01".to_string()));
    assert_eq!(money::parse("fifty cents"), Some("$0.50".to_string()));
    assert_eq!(money::parse("ninety nine cents"), Some("$0.99".to_string()));
}

#[test]
fn test_large_amounts() {
    assert_eq!(money::parse("fifty million dollars"), Some("$50 million".to_string()));
    assert_eq!(money::parse("fifty billion dollars"), Some("$50 billion".to_string()));
    assert_eq!(money::parse("two point five billion dollars"), Some("$2.5 billion".to_string()));
}

#[test]
fn test_not_money() {
    assert_eq!(money::parse("hello"), None);
    assert_eq!(money::parse("five"), None);
}

// ---------------------------------------------------------------------------
// measure
// ---------------------------------------------------------------------------

#[test]
fn test_simple_units() {
    assert_eq!(measure::parse("two hundred meters"), Some("200 m".to_string()));
    assert_eq!(measure::parse("ninety grams"), Some("90 g".to_string()));
    assert_eq!(measure::parse("three hours"), Some("3 h".to_string()));
}

#[test]
fn test_decimal_units() {
    assert_eq!(measure::parse("eighteen point five kilometers"), Some("18.5 km".to_string()));
}

#[test]
fn measure_test_negative() {
    assert_eq!(measure::parse("minus sixty six kilograms"), Some("-66 kg".to_string()));
}

#[test]
fn test_square_units() {
    assert_eq!(measure::parse("two square meters"), Some("2 m²".to_string()));
    assert_eq!(
        measure::parse("sixty five thousand square kilometers"),
        Some("65000 km²".to_string())
    );
}

#[test]
fn test_compound_units() {
    assert_eq!(measure::parse("two hundred kilometers per hour"), Some("200 km/h".to_string()));
}

#[test]
fn test_special_units() {
    assert_eq!(measure::parse("two kilo watt hours"), Some("2 kWh".to_string()));
    assert_eq!(measure::parse("one hundred fifty c c"), Some("150 cc".to_string()));
}

#[test]
fn test_percent() {
    assert_eq!(measure::parse("eighteen point one four percent"), Some("18.14 %".to_string()));
}

// ---------------------------------------------------------------------------
// time
// ---------------------------------------------------------------------------

#[test]
fn test_standard_time() {
    assert_eq!(time::parse("two thirty"), Some("02:30".to_string()));
    assert_eq!(time::parse("eight fifty one"), Some("08:51".to_string()));
    assert_eq!(time::parse("eleven forty five"), None);
    assert_eq!(time::parse("eleven forty five a m"), Some("11:45 a.m.".to_string()));
}

#[test]
fn test_with_period() {
    assert_eq!(time::parse("two p m"), Some("02:00 p.m.".to_string()));
    assert_eq!(time::parse("eleven fifty five p m"), Some("11:55 p.m.".to_string()));
    assert_eq!(time::parse("seven a m"), Some("07:00 a.m.".to_string()));
}

#[test]
fn test_quarter_half() {
    assert_eq!(time::parse("quarter past one"), Some("01:15".to_string()));
    assert_eq!(time::parse("half past three"), Some("03:30".to_string()));
    assert_eq!(time::parse("half past twelve"), Some("12:30".to_string()));
}

#[test]
fn test_quarter_to() {
    assert_eq!(time::parse("quarter to one"), Some("12:45".to_string()));
    assert_eq!(time::parse("quarter to twelve"), Some("11:45".to_string()));
}

#[test]
fn test_oclock() {
    assert_eq!(time::parse("three o'clock"), Some("03:00".to_string()));
}

#[test]
fn test_oh_minutes() {
    assert_eq!(time::parse("eight o six"), Some("08:06".to_string()));
    assert_eq!(time::parse("twelve oh five"), Some("12:05".to_string()));
}

#[test]
fn test_with_timezone() {
    assert_eq!(time::parse("eight oclock g m t"), Some("08:00 gmt".to_string()));
    assert_eq!(time::parse("seven a m e s t"), Some("07:00 a.m. est".to_string()));
}

#[test]
fn test_rejects_phone_like_input() {
    assert_eq!(time::parse("one two three one two three five six seven eight"), None);
    assert_eq!(time::parse("seven nine nine"), None);
}

// ---------------------------------------------------------------------------
// date
// ---------------------------------------------------------------------------

#[test]
fn test_decades() {
    assert_eq!(date::parse("nineteen eighties"), Some("1980s".to_string()));
    assert_eq!(date::parse("nineteen nineties"), Some("1990s".to_string()));
}

#[test]
fn test_years() {
    assert_eq!(date::parse("two thousand and twenty"), Some("2020".to_string()));
    assert_eq!(date::parse("nineteen ninety four"), Some("1994".to_string()));
    assert_eq!(date::parse("twenty twelve"), Some("2012".to_string()));
}

#[test]
fn test_month_day() {
    assert_eq!(date::parse("january first"), Some("january 1".to_string()));
    assert_eq!(date::parse("june thirty"), Some("june 30".to_string()));
}

#[test]
fn test_month_day_year() {
    assert_eq!(
        date::parse("july twenty fifth two thousand twelve"),
        Some("july 25 2012".to_string())
    );
}

#[test]
fn test_day_of_month() {
    assert_eq!(date::parse("the fifteenth of january"), Some("15 january".to_string()));
}

#[test]
fn test_quarter() {
    assert_eq!(date::parse("second quarter of twenty twenty two"), Some("Q2 2022".to_string()));
}

#[test]
fn test_bc() {
    assert_eq!(date::parse("seven fifty b c"), Some("750BC".to_string()));
}

// ---------------------------------------------------------------------------
// telephone
// ---------------------------------------------------------------------------

#[test]
fn test_basic_phone() {
    assert_eq!(
        telephone::parse("one two three one two three five six seven eight"),
        Some("123-123-5678".to_string())
    );
}

#[test]
fn test_with_country_code() {
    assert_eq!(
        telephone::parse("plus nine one one two three one two three five six seven eight"),
        Some("+91 123-123-5678".to_string())
    );
}

#[test]
fn test_double_pattern() {
    assert_eq!(
        telephone::parse("double oh three one two three five six seven eight"),
        Some("003-123-5678".to_string())
    );
}

#[test]
fn test_three_digits() {
    assert_eq!(telephone::parse("seven nine nine"), Some("799".to_string()));
}

#[test]
fn test_ip_address() {
    assert_eq!(
        telephone::parse("one two three dot one two three dot o dot four o"),
        Some("123.123.0.40".to_string())
    );
}

// ---------------------------------------------------------------------------
// electronic
// ---------------------------------------------------------------------------

#[test]
fn test_simple_email() {
    assert_eq!(electronic::parse("a at gmail dot com"), Some("a@gmail.com".to_string()));
}

#[test]
fn test_email_with_dots() {
    assert_eq!(electronic::parse("a dot b c at gmail dot com"), Some("a.bc@gmail.com".to_string()));
}

#[test]
fn test_email_with_numbers() {
    assert_eq!(
        electronic::parse("a one b two at a b c dot com"),
        Some("a1b2@abc.com".to_string())
    );
}

#[test]
fn test_url_with_protocol() {
    assert_eq!(
        electronic::parse("h t t p colon slash slash w w w dot example dot com"),
        Some("http://www.example.com".to_string())
    );
}

#[test]
fn test_www_domain() {
    assert_eq!(
        electronic::parse("w w w dot example dot com"),
        Some("www.example.com".to_string())
    );
}

#[test]
fn test_simple_domain() {
    assert_eq!(electronic::parse("nvidia dot com"), Some("nvidia.com".to_string()));
}

// ---------------------------------------------------------------------------
// custom rules
// ---------------------------------------------------------------------------

#[test]
fn test_custom_rules() {
    let mut rules = CustomRules::new();
    clear_rules(&mut rules);

    add_rule(&mut rules, "gee pee tee", "GPT");
    assert_eq!(parse(&rules, "gee pee tee"), Some("GPT".to_string()));
    assert_eq!(parse(&rules, "Gee Pee Tee"), Some("GPT".to_string()));
    assert_eq!(parse(&rules, "unknown"), None);

    add_rule(&mut rules, "gee pee tee", "GPT-4");
    assert_eq!(parse(&rules, "gee pee tee"), Some("GPT-4".to_string()));
    assert_eq!(rule_count(&rules), 1);

    assert!(remove_rule(&mut rules, "gee pee tee"));
    assert_eq!(parse(&rules, "gee pee tee"), None);
    assert!(!remove_rule(&mut rules, "gee pee tee"));

    add_rule(&mut rules, "alpha", "A");
    add_rule(&mut rules, "bravo", "B");
    assert_eq!(rule_count(&rules), 2);
    assert_eq!(parse(&rules, "alpha"), Some("A".to_string()));
    assert_eq!(parse(&rules, "bravo"), Some("B".to_string()));
    clear_rules(&mut rules);
    assert_eq!(rule_count(&rules), 0);
    assert_eq!(parse(&rules, "alpha"), None);
}
