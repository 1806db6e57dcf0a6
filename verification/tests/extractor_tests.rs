use what_server::collect::StringSet;
use what_server::extractors::{
    CompileError, CompiledExtractor, ERegex, Extractor, ExtractorType, JsonPath, Part,
};

fn regex_extractor(patterns: Vec<&str>, group: Option<usize>, case_insensitive: bool) -> Extractor {
    Extractor {
        name: None,
        part: Part::default(),
        extractor_type: ExtractorType::Regex(ERegex {
            regex: patterns.into_iter().map(|s| s.to_string()).collect(),
            group,
        }),
        internal: false,
        case_insensitive,
    }
}

fn compiled(patterns: Vec<&str>, group: Option<usize>, ci: bool) -> (CompiledExtractor, ERegex) {
    let regexps = ERegex {
        regex: patterns.iter().map(|s| s.to_string()).collect(),
        group,
    };
    let c = regex_extractor(patterns, group, ci).compile().expect("patterns must compile");
    (c, regexps)
}

#[test]
fn regex_group_one_extracts_version() {
    let (c, er) = compiled(vec![r"version=(\d+\.\d+)"], Some(1), false);
    let (set, versions) = c.extract_regex(&er, &"version=3.2;ok".to_string());
    assert!(set.contains(&"3.2".to_string()));
    assert!(!set.contains(&"version=3.2".to_string()));
    assert!(versions.is_empty());
}

#[test]
fn regex_group_zero_extracts_whole_match() {
    let (c, er) = compiled(vec![r"version=(\d+\.\d+)"], None, false);
    let (set, _) = c.extract_regex(&er, &"version=3.2;ok".to_string());
    assert!(set.contains(&"version=3.2".to_string()));
    assert!(!set.contains(&"3.2".to_string()));
}

#[test]
fn regex_collects_all_matches_deduplicated() {
    let (c, er) = compiled(vec![r"(\d+)"], Some(1), false);
    let (set, _) = c.extract_regex(&er, &"7 and 8 and 7".to_string());
    assert!(set.contains(&"7".to_string()));
    assert!(set.contains(&"8".to_string()));
    assert!(!set.contains(&"9".to_string()));
}

#[test]
fn regex_group_not_participating_is_skipped() {
    // Group 2 never takes part; group 1 always does.
    let (c, er) = compiled(vec![r"(a)|(zzz)"], Some(2), false);
    let (set, _) = c.extract_regex(&er, &"a a a".to_string());
    assert!(set.is_empty());
}

#[test]
fn regex_two_patterns_union() {
    let (c, er) = compiled(vec![r"alpha-(\d)", r"beta-(\d)"], Some(1), false);
    let (set, _) = c.extract_regex(&er, &"alpha-1 beta-2".to_string());
    assert!(set.contains(&"1".to_string()));
    assert!(set.contains(&"2".to_string()));
}

#[test]
fn case_insensitive_flag_is_honored() {
    let (c, er) = compiled(vec!["openssh"], None, true);
    let (set, _) = c.extract_regex(&er, &"OpenSSH_8.9".to_string());
    assert!(set.contains(&"OpenSSH".to_string()));

    let (c2, er2) = compiled(vec!["openssh"], None, false);
    let (set2, _) = c2.extract_regex(&er2, &"OpenSSH_8.9".to_string());
    assert!(set2.is_empty());
}

#[test]
fn compile_invalid_pattern_fails_with_offending_pattern() {
    let e = regex_extractor(vec![r"ok(\d)", r"(unclosed"], Some(1), false);
    let err: CompileError = e.compile().err().expect("must fail to compile");
    assert_eq!(err.pattern, "(unclosed".to_string());
}

#[test]
fn compile_non_regex_variant_succeeds() {
    let e = Extractor {
        name: Some("j".to_string()),
        part: Part::Body,
        extractor_type: ExtractorType::JSON(JsonPath { group: None, json: vec![] }),
        internal: false,
        case_insensitive: false,
    };
    assert!(e.compile().is_ok());
}

#[test]
fn match_texts_in_match_order() {
    let (c, _) = compiled(vec![r"\d+"], None, false);
    let texts = c.match_texts(&"10 then 20 then 30".to_string());
    assert_eq!(texts, vec!["10".to_string(), "20".to_string(), "30".to_string()]);
}

fn json_extractor(paths: Vec<&str>) -> (Extractor, JsonPath) {
    let jp = JsonPath {
        group: None,
        json: paths.iter().map(|s| s.to_string()).collect(),
    };
    let e = Extractor {
        name: None,
        part: Part::default(),
        extractor_type: ExtractorType::JSON(JsonPath {
            group: None,
            json: paths.into_iter().map(|s| s.to_string()).collect(),
        }),
        internal: false,
        case_insensitive: false,
    };
    (e, jp)
}

#[test]
fn json_path_extracts_serialized_nodes() {
    let (e, jp) = json_extractor(vec!["$.items[*].name"]);
    let corpus = r#"{"items":[{"name":"a"},{"name":"b"}]}"#.to_string();
    let (set, versions) = e.extrat_json(&jp, corpus);
    assert!(set.contains(&"\"a\"".to_string()));
    assert!(set.contains(&"\"b\"".to_string()));
    assert!(versions.is_empty());
}

#[test]
fn json_non_json_corpus_yields_empty_without_error() {
    let (e, jp) = json_extractor(vec!["$.items[*].name"]);
    let (set, versions) = e.extrat_json(&jp, "this is : not json".to_string());
    assert!(set.is_empty());
    assert!(versions.is_empty());
}

#[test]
fn json_malformed_path_is_skipped_silently() {
    let (e, jp) = json_extractor(vec!["$[[[", "$.a"]);
    let (set, _) = e.extrat_json(&jp, r#"{"a":1}"#.to_string());
    assert!(set.contains(&"1".to_string()));
}

#[test]
fn extractor_equality_ignores_nothing_declared() {
    let a = regex_extractor(vec!["x"], Some(1), false);
    let b = regex_extractor(vec!["x"], Some(1), false);
    assert!(a == b);
    let c = regex_extractor(vec!["x"], Some(1), true);
    assert!(a != c);
    let d = regex_extractor(vec!["y"], Some(1), false);
    assert!(a != d);
}

#[test]
fn part_default_is_all() {
    assert!(Part::default() == Part::All);
}

#[test]
fn string_set_deduplicates() {
    let mut s = StringSet::new();
    assert!(s.is_empty());
    s.insert("a".to_string());
    s.insert("a".to_string());
    s.insert("b".to_string());
    assert!(s.contains(&"a".to_string()));
    assert!(s.contains(&"b".to_string()));
    assert!(!s.contains(&"c".to_string()));
    assert!(!s.is_empty());
}
