//! English end-to-end tests: sentence mode, punctuation behavior, custom
//! rules in context, and dictation-style inputs.

use nemo_text_processing::custom_rules::{add_rule, clear_rules, CustomRules};
use nemo_text_processing::{
    normalize, normalize_sentence, normalize_sentence_with_max_span, normalize_sentence_with_rules,
    normalize_with_rules,
};

#[test]
fn test_sentence_cardinal_in_context() {
    assert_eq!(normalize_sentence("I have twenty one apples"), "I have 21 apples");
    assert_eq!(
        normalize_sentence("there are three hundred people here"),
        "there are 300 people here"
    );
    assert_eq!(normalize_sentence("she is forty two years old"), "she is 42 years old");
}

#[test]
fn test_sentence_money_in_context() {
    assert_eq!(
        normalize_sentence("five dollars and fifty cents for the coffee"),
        "$5.50 for the coffee"
    );
    assert_eq!(normalize_sentence("I paid five dollars for lunch"), "I paid $5 for lunch");
}

#[test]
fn en_tests_test_sentence_passthrough() {
    assert_eq!(normalize_sentence("hello world"), "hello world");
    assert_eq!(
        normalize_sentence("the quick brown fox jumps over the lazy dog"),
        "the quick brown fox jumps over the lazy dog"
    );
    assert_eq!(normalize_sentence(""), "");
}

#[test]
fn test_sentence_time_in_context() {
    assert_eq!(
        normalize_sentence("call me at two thirty pm tomorrow"),
        "call me at 02:30 p.m. tomorrow"
    );
}

#[test]
fn test_sentence_mixed_types() {
    assert_eq!(
        normalize_sentence("I paid five dollars for twenty three items"),
        "I paid $5 for 23 items"
    );
}

#[test]
fn test_sentence_ordinal_in_context() {
    assert_eq!(normalize_sentence("she finished in twenty first place"), "she finished in 21st place");
}

#[test]
fn test_punctuation_single_expression() {
    assert_eq!(normalize("period"), ".");
    assert_eq!(normalize("comma"), ",");
    assert_eq!(normalize("question mark"), "?");
    assert_eq!(normalize("exclamation point"), "!");
    assert_eq!(normalize("exclamation mark"), "!");
    assert_eq!(normalize("semicolon"), ";");
    assert_eq!(normalize("colon"), ":");
    assert_eq!(normalize("hyphen"), "-");
    assert_eq!(normalize("dash"), "-");
    assert_eq!(normalize("ellipsis"), "...");
    assert_eq!(normalize("open parenthesis"), "(");
    assert_eq!(normalize("close parenthesis"), ")");
    assert_eq!(normalize("double quote"), "\"");
    assert_eq!(normalize("forward slash"), "/");
    assert_eq!(normalize("ampersand"), "&");
    assert_eq!(normalize("asterisk"), "*");
    assert_eq!(normalize("at sign"), "@");
    assert_eq!(normalize("hash"), "#");
    assert_eq!(normalize("percent"), "%");
    assert_eq!(normalize("underscore"), "_");
    assert_eq!(normalize("pipe"), "|");
    assert_eq!(normalize("tilde"), "~");
}

#[test]
fn test_punctuation_case_insensitive() {
    assert_eq!(normalize("Period"), ".");
    assert_eq!(normalize("COMMA"), ",");
    assert_eq!(normalize("Question Mark"), "?");
    assert_eq!(normalize("EXCLAMATION POINT"), "!");
}

#[test]
fn test_sentence_punctuation_inline() {
    assert_eq!(normalize_sentence("he said period and left"), "he said . and left");
    assert_eq!(normalize_sentence("yes comma I agree"), "yes , I agree");
    assert_eq!(normalize_sentence("really question mark"), "really ?");
    assert_eq!(
        normalize_sentence("hello exclamation point how are you question mark"),
        "hello ! how are you ?"
    );
}

#[test]
fn test_sentence_no_false_positives() {
    assert_eq!(normalize_sentence("the cat sat"), "the cat sat");
    assert_eq!(normalize_sentence("I went to the store"), "I went to the store");
    assert_eq!(normalize_sentence("meet me at the park"), "meet me at the park");
    assert_eq!(normalize_sentence("a big house"), "a big house");
    assert_eq!(
        normalize_sentence("the quick brown fox jumps over the lazy dog every morning"),
        "the quick brown fox jumps over the lazy dog every morning"
    );
}

#[test]
fn test_period_word_in_rust() {
    assert_eq!(normalize("period"), ".");
    assert_eq!(normalize_sentence("end of the period"), "end of the .");
    assert_eq!(normalize("period"), ".");
}

#[test]
fn test_sentence_mixed_punctuation_and_numbers() {
    assert_eq!(
        normalize_sentence("I bought twenty three items comma and paid five dollars"),
        "I bought 23 items , and paid $5"
    );
    assert_eq!(
        normalize_sentence("the score was forty two to thirty seven period"),
        "the score was 36:18 ."
    );
    assert_eq!(
        normalize_sentence("question mark did you say one hundred"),
        "? did you say 100"
    );
}

#[test]
fn test_punctuation_no_partial_match() {
    assert_eq!(normalize("periodic"), "periodic");
    assert_eq!(normalize("commander"), "commander");
    assert_eq!(normalize("dashboard"), "dashboard");
    assert_eq!(normalize_sentence("the periodic table"), "the periodic table");
    assert_eq!(normalize_sentence("the commander arrived"), "the commander arrived");
}

#[test]
fn test_custom_rules_all() {
    let mut rules = CustomRules::new();
    clear_rules(&mut rules);

    add_rule(&mut rules, "gee pee tee", "GPT");
    add_rule(&mut rules, "ay eye", "AI");
    assert_eq!(normalize_with_rules(&rules, "gee pee tee"), "GPT");
    assert_eq!(
        normalize_sentence_with_rules(&rules, "I use gee pee tee for ay eye tasks"),
        "I use GPT for AI tasks"
    );

    add_rule(&mut rules, "five", "FIVE_OVERRIDE");
    assert_eq!(normalize_with_rules(&rules, "five"), "FIVE_OVERRIDE");

    add_rule(&mut rules, "acme corp", "ACME Corp.");
    assert_eq!(
        normalize_sentence_with_rules(&rules, "I work at acme corp and use gee pee tee"),
        "I work at ACME Corp. and use GPT"
    );

    clear_rules(&mut rules);
    assert_eq!(normalize_with_rules(&rules, "five"), "5");
}

#[test]
fn test_max_span_tokens() {
    assert_eq!(
        normalize_sentence("five dollars and fifty cents for lunch"),
        "$5.50 for lunch"
    );

    let result = normalize_sentence_with_max_span("five dollars and fifty cents for lunch", 2);
    println!("narrow window: {}", result);
    assert_ne!(result, "$5.50 for lunch");

    let result_1 = normalize_sentence_with_max_span("I have twenty one apples", 1);
    println!("single-token window: {}", result_1);
}

#[test]
fn test_sentence_adjacent_spans() {
    assert_eq!(normalize_sentence("twenty one forty two"), "2043");
    assert_eq!(normalize_sentence("twenty one and forty two"), "2043");
    assert_eq!(normalize_sentence("twenty one versus forty two"), "21 versus 42");
    assert_eq!(normalize_sentence("twenty one five dollars"), "$26");
    assert_eq!(normalize_sentence("twenty one then five dollars"), "21 then $5");
}

#[test]
fn test_sentence_single_token() {
    assert_eq!(normalize_sentence("hello"), "hello");
    assert_eq!(normalize_sentence("five"), "5");
    assert_eq!(normalize_sentence("period"), ".");
    assert_eq!(normalize_sentence("first"), "1st");
}

#[test]
fn test_sentence_whitespace() {
    assert_eq!(normalize_sentence("  twenty  one  "), "21");
    assert_eq!(normalize_sentence("  hello   world  "), "hello world");
    assert_eq!(normalize_sentence(""), "");
    assert_eq!(normalize_sentence("   "), "");
}

#[test]
fn test_sentence_date_in_context() {
    assert_eq!(
        normalize_sentence("the meeting is january fifth twenty twenty five"),
        "the meeting is january 5 2025"
    );
}

#[test]
fn test_sentence_ordinal_positions() {
    assert_eq!(normalize_sentence("first place winner"), "1st place winner");
    assert_eq!(normalize_sentence("the twenty first century"), "the 21st century");
    assert_eq!(normalize_sentence("she came in third"), "she came in 3rd");
}

#[test]
fn test_sentence_measure_in_context() {
    assert_eq!(normalize_sentence("it weighs five kilograms exactly"), "it weighs 5 kg exactly");
}

#[test]
fn test_sentence_whitelist_in_context() {
    assert_eq!(normalize_sentence("I saw doctor smith yesterday"), "I saw dr. smith yesterday");
}

#[test]
fn test_asr_realistic_dictation() {
    assert_eq!(
        normalize_sentence("she said we need to leave by two thirty pm"),
        "she said we need to leave by 02:30 p.m."
    );
    assert_eq!(
        normalize_sentence("the total comes to ninety nine dollars and ninety nine cents"),
        "the total comes to $99.99"
    );
    assert_eq!(
        normalize_sentence(
            "i owe you twenty five dollars and thirty cents for the pizza we ordered last tuesday",
        ),
        "i owe you $25.30 for the pizza we ordered last tuesday"
    );
}

#[test]
fn test_sentence_large_numbers() {
    let result = normalize_sentence("one billion");
    println!("one billion => {}", result);
    assert_eq!(normalize_sentence("three point five million"), "3.5 million");
}

#[test]
fn test_sentence_negative_numbers() {
    assert_eq!(
        normalize_sentence("the temperature dropped to minus twenty degrees"),
        "the temperature dropped to -20 degrees"
    );
}

#[test]
fn test_sentence_multi_type_complex() {
    assert_eq!(
        normalize_sentence(
            "on january first twenty twenty five I paid fifty dollars for three point five kilograms",
        ),
        "on january 1 2025 I paid $50 for 3.5 kg"
    );
}

#[test]
fn test_sentence_punctuation_dictation() {
    assert_eq!(normalize_sentence("he said hello period then left"), "he said hello . then left");
    assert_eq!(normalize_sentence("is that right question mark"), "is that right ?");
    assert_eq!(normalize_sentence("wow exclamation point that is amazing"), "wow ! that is amazing");
    assert_eq!(
        normalize_sentence("item one comma item two comma item three"),
        "item 1 , item 2 , item 3"
    );
    assert_eq!(normalize_sentence("wait ellipsis what happened"), "wait ... what happened");
}

#[test]
fn test_sentence_ordinal_as_adjective() {
    assert_eq!(
        normalize_sentence("the first time I saw one hundred people"),
        "the 1st time I saw 100 people"
    );
    assert_eq!(
        normalize_sentence("she was the second person to arrive"),
        "she was the 2nd person to arrive"
    );
    assert_eq!(normalize_sentence("he lives on the third floor"), "he lives on the 3rd floor");
}

#[test]
fn test_sentence_quarter_as_noun() {
    assert_eq!(
        normalize_sentence("we had a quarter of the pizza left"),
        "we had a quarter of the pizza left"
    );
}

#[test]
fn test_sentence_money_edge_cases() {
    assert_eq!(normalize_sentence("five hundred dollars and fifty cents"), "$500.50");
    assert_eq!(normalize_sentence("twelve dollars and no cents"), "$12 and no cents");
}

#[test]
fn test_sentence_time_edge_cases() {
    assert_eq!(normalize_sentence("half past two"), "02:30");
    assert_eq!(normalize_sentence("the meeting is at noon"), "the meeting is at noon");
}

#[test]
fn test_sentence_special_values() {
    assert_eq!(normalize_sentence("zero point five"), "0.5");
    assert_eq!(normalize_sentence("one"), "1");
    assert_eq!(normalize_sentence("no"), "no");
    assert_eq!(normalize_sentence("a"), "a");
}

#[test]
fn test_sentence_passthrough_complex() {
    assert_eq!(normalize_sentence("please respond a s a p"), "please respond a s a p");
    assert_eq!(normalize_sentence("the meeting is at noon"), "the meeting is at noon");
    assert_eq!(
        normalize_sentence("I went to the store and bought some groceries for dinner tonight"),
        "I went to the store and bought some groceries for dinner tonight"
    );
}

#[test]
fn test_sentence_decimal_in_context() {
    assert_eq!(normalize_sentence("the value is three point one four"), "the value is 3.14");
}
