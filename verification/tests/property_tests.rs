//! Scenario tests for the library-wide properties and additional edge
//! cases the specification calls out.

use nemo_text_processing::custom_rules::{add_rule, parse, remove_rule, CustomRules};
use nemo_text_processing::taggers::cardinal::words_to_number;
use nemo_text_processing::taggers::punctuation;
use nemo_text_processing::taggers::electronic;
use nemo_text_processing::taggers::telephone;
use nemo_text_processing::{normalize, normalize_sentence, version};

#[test]
fn scenario_cardinal_basic() {
    assert_eq!(normalize("two hundred thirty two"), "232");
}

#[test]
fn scenario_cardinal_negative() {
    assert_eq!(normalize("minus twenty five thousand thirty seven"), "-25037");
}

#[test]
fn scenario_ordinals() {
    assert_eq!(normalize("first"), "1st");
    assert_eq!(normalize("twenty first"), "21st");
}

#[test]
fn scenario_date() {
    assert_eq!(normalize("january fifth twenty twenty five"), "january 5 2025");
}

#[test]
fn scenario_time() {
    assert_eq!(normalize("two thirty p m"), "02:30 p.m.");
}

#[test]
fn scenario_money() {
    assert_eq!(normalize("five dollars and fifty cents"), "$5.50");
}

#[test]
fn scenario_measure() {
    assert_eq!(normalize("two hundred kilometers per hour"), "200 km/h");
}

#[test]
fn scenario_email() {
    assert_eq!(normalize("a at gmail dot com"), "a@gmail.com");
}

#[test]
fn scenario_ip() {
    assert_eq!(normalize("one two three dot one two three dot o dot four o"), "123.123.0.40");
}

#[test]
fn scenario_sentence_cardinal() {
    assert_eq!(normalize_sentence("I have twenty one apples"), "I have 21 apples");
}

#[test]
fn scenario_sentence_passthrough() {
    assert_eq!(normalize_sentence("hello world"), "hello world");
}

#[test]
fn scenario_sentence_punctuation() {
    assert_eq!(normalize_sentence("yes comma I agree"), "yes , I agree");
}

#[test]
fn scenario_no_partial_word_match() {
    assert_eq!(normalize_sentence("the periodic table"), "the periodic table");
}

#[test]
fn scenario_sentence_empty_inputs() {
    assert_eq!(normalize_sentence(""), "");
    assert_eq!(normalize_sentence("   "), "");
}

#[test]
fn scenario_rule_store_round_trip() {
    let mut rules = CustomRules::new();
    add_rule(&mut rules, "kay", "K");
    assert_eq!(parse(&rules, "kay"), Some("K".to_string()));
    assert!(remove_rule(&mut rules, "kay"));
    assert_eq!(parse(&rules, "kay"), None);
}

#[test]
fn scenario_punctuation_exact_only() {
    assert_eq!(punctuation::parse("a period here"), None);
    assert_ne!(normalize("the period was great"), ".");
}

#[test]
fn words_to_number_values() {
    assert_eq!(words_to_number("twenty one"), Some(21));
    assert_eq!(words_to_number("one thousand two hundred thirty four"), Some(1234));
    assert_eq!(words_to_number("one sextillion"), Some(1_000_000_000_000_000_000_000));
    assert_eq!(words_to_number("two lakh"), Some(200_000));
    assert_eq!(words_to_number("three crore"), Some(30_000_000));
    assert_eq!(words_to_number("blorf"), None);
    assert_eq!(words_to_number(""), None);
}

#[test]
fn telephone_codes() {
    assert_eq!(telephone::parse("x eighty six"), Some("x86".to_string()));
    assert_eq!(telephone::parse("r t x forty fifty"), Some("RTX 4050".to_string()));
    assert_eq!(telephone::parse("five hundred"), None);
}

#[test]
fn telephone_ssn() {
    assert_eq!(
        telephone::parse("ssn is seven double nine one two three double one three"),
        Some("ssn is 799-12-3113".to_string())
    );
}

#[test]
fn time_in_the_evening() {
    assert_eq!(normalize("two thirty in the evening"), "02:30 p.m.");
}

#[test]
fn decade_without_century() {
    assert_eq!(normalize("eighties"), "80s");
}

#[test]
fn yen_and_won_amounts() {
    assert_eq!(normalize("five billion yen"), "¥5 billion");
    assert_eq!(normalize("two trillion won"), "₩2 trillion");
    assert_eq!(normalize("three billion yuan"), "3 billion yuan");
}

#[test]
fn percent_has_space() {
    assert_eq!(normalize("eighteen percent"), "18 %");
}

#[test]
fn zero_stays_spelled() {
    assert_eq!(normalize("zero"), "zero");
}

#[test]
fn one_dollars_is_rejected() {
    assert_eq!(normalize("one dollars"), "one dollars");
}

#[test]
fn version_string() {
    assert_eq!(version(), "0.1.0");
}

#[test]
fn quarter_year() {
    assert_eq!(normalize("first quarter of twenty twenty"), "Q1 2020");
}

#[test]
fn era_years() {
    assert_eq!(normalize("seven fifty b c"), "750BC");
    assert_eq!(normalize("twelve thirty four a d"), "1234AD");
}

#[test]
fn spelled_code_word() {
    assert_eq!(normalize("e s three"), "es3");
}

#[test]
fn historic_year_not_time() {
    assert_eq!(normalize("eleven fifty five"), "1155");
}

#[test]
fn month_keeps_source_casing() {
    assert_eq!(normalize("January fifth twenty twenty five"), "January 5 2025");
    assert_eq!(normalize("the fifteenth of March"), "15 March");
}

#[test]
fn email_single_letters_keep_casing() {
    assert_eq!(normalize("A b at gmail dot com"), "Ab@gmail.com");
}

#[test]
fn domain_labels_keep_casing() {
    assert_eq!(electronic::parse("a at GMail dot Com"), Some("a@GMail.Com".to_string()));
    assert_eq!(electronic::parse("NVIDIA dot com"), Some("NVIDIA.com".to_string()));
    assert_eq!(normalize("w w w dot Example dot com"), "www.Example.com");
}

#[test]
fn whitelist_keeps_leading_case() {
    assert_eq!(normalize("Doctor smith"), "Dr. smith");
}

#[test]
fn uppercase_period_marker() {
    assert_eq!(normalize("two thirty P M"), "02:30 P.M.");
}
