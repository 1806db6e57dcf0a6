//! The extraction engine: pattern definitions, compilation, and extraction.
//!
//! An `Extractor` is an immutable declarative definition with exactly one
//! active pattern strategy. A Regex-variant extractor must be compiled into a
//! `CompiledExtractor` before its first extraction; compilation fails on the
//! first invalid pattern and then yields no compiled value at all, so no
//! partial pattern cache can ever be observed. Extraction produces a
//! deduplicated set of extracted values and a version-component map.
//!
//! Version components themselves come from an external collaborator that
//! derives a component list from a match; its results merge into a
//! `VersionMap` with `VersionMap::insert_all`, later matches overwriting
//! earlier values for the same key.

use vstd::prelude::*;
use crate::collect::{seq_set, views_of, StringSet, VersionMap};

verus! {

/// Which region of a response an extractor targets.
#[derive(Clone, Copy, PartialEq, Eq, Structural)]
pub enum Part {
    All,
    Header,
    Body,
}

impl Default for Part {
    fn default() -> (r: Part)
        ensures
            r == Part::All,
    {
        Part::All
    }
}

/// Regex strategy: ordered pattern strings and an optional capture index
/// (whole match if absent or zero).
pub struct ERegex {
    pub regex: Vec<String>,
    pub group: Option<usize>,
}

/// Key-value strategy: an optional signed index and the key names to match.
pub struct KVal {
    pub group: Option<i32>,
    pub kval: Vec<String>,
}

/// JSONPath strategy: an optional signed index and the path expressions to
/// evaluate.
pub struct JsonPath {
    pub group: Option<i32>,
    pub json: Vec<String>,
}

/// XPath strategy: the expressions to evaluate and an optional attribute to
/// read instead of node text.
pub struct XPath {
    pub xpath: Vec<String>,
    pub attribute: Option<String>,
}

/// DSL strategy: the expressions to evaluate against a structured document.
pub struct DSL {
    pub dsl: Vec<String>,
}

/// The closed set of pattern strategies, one active at a time.
pub enum ExtractorType {
    Regex(ERegex),
    KVal(KVal),
    XPath(XPath),
    JSON(JsonPath),
    DSL(DSL),
}

/// One extractor definition: optional name, target region, one strategy, and
/// the `internal` and `case_insensitive` flags. `internal` changes no
/// extraction logic; the calling workflow excludes internal extractors'
/// results from externally reported output.
pub struct Extractor {
    pub name: Option<String>,
    pub part: Part,
    pub extractor_type: ExtractorType,
    pub internal: bool,
    pub case_insensitive: bool,
}

/// The error of compiling an invalid pattern, carrying the offending pattern
/// string.
#[derive(Debug)]
pub struct CompileError {
    pub pattern: String,
}

pub open spec fn same_opt_string(a: Option<String>, b: Option<String>) -> bool {
    match (a, b) {
        (Some(x), Some(y)) => x@ == y@,
        (None, None) => true,
        _ => false,
    }
}

pub open spec fn same_opt_usize(a: Option<usize>, b: Option<usize>) -> bool {
    match (a, b) {
        (Some(x), Some(y)) => x == y,
        (None, None) => true,
        _ => false,
    }
}

pub open spec fn same_opt_i32(a: Option<i32>, b: Option<i32>) -> bool {
    match (a, b) {
        (Some(x), Some(y)) => x == y,
        (None, None) => true,
        _ => false,
    }
}

pub open spec fn same_extractor_type(a: ExtractorType, b: ExtractorType) -> bool {
    match (a, b) {
        (ExtractorType::Regex(x), ExtractorType::Regex(y)) => views_of(x.regex@) == views_of(
            y.regex@,
        ) && same_opt_usize(x.group, y.group),
        (ExtractorType::KVal(x), ExtractorType::KVal(y)) => views_of(x.kval@) == views_of(y.kval@)
            && same_opt_i32(x.group, y.group),
        (ExtractorType::XPath(x), ExtractorType::XPath(y)) => views_of(x.xpath@) == views_of(
            y.xpath@,
        ) && same_opt_string(x.attribute, y.attribute),
        (ExtractorType::JSON(x), ExtractorType::JSON(y)) => views_of(x.json@) == views_of(y.json@)
            && same_opt_i32(x.group, y.group),
        (ExtractorType::DSL(x), ExtractorType::DSL(y)) => views_of(x.dsl@) == views_of(y.dsl@),
        _ => false,
    }
}

/// Extractor equality: definitions are equal when every declared field is;
/// a compiled pattern cache never takes part in comparisons.
pub open spec fn same_extractor(a: Extractor, b: Extractor) -> bool {
    &&& same_opt_string(a.name, b.name)
    &&& a.part == b.part
    &&& same_extractor_type(a.extractor_type, b.extractor_type)
    &&& a.internal == b.internal
    &&& a.case_insensitive == b.case_insensitive
}

fn eq_string_vec(a: &Vec<String>, b: &Vec<String>) -> (r: bool)
    ensures
        r == (views_of(a@) == views_of(b@)),
{
    if a.len() != b.len() {
        proof {
            assert(views_of(a@).len() != views_of(b@).len());
        }
        return false;
    }
    let mut i: usize = 0;
    while i < a.len()
        invariant
            a@.len() == b@.len(),
            0 <= i <= a@.len(),
            forall|j: int| 0 <= j < i ==> views_of(a@)[j] == views_of(b@)[j],
        decreases a@.len() - i,
    {
        if a[i] != b[i] {
            proof {
                assert(views_of(a@)[i as int] != views_of(b@)[i as int]);
            }
            return false;
        }
        i += 1;
    }
    proof {
        assert(views_of(a@) =~= views_of(b@));
    }
    true
}

fn eq_opt_string(a: &Option<String>, b: &Option<String>) -> (r: bool)
    ensures
        r == same_opt_string(*a, *b),
{
    match (a, b) {
        (Some(x), Some(y)) => *x == *y,
        (None, None) => true,
        _ => false,
    }
}

fn eq_opt_usize(a: &Option<usize>, b: &Option<usize>) -> (r: bool)
    ensures
        r == same_opt_usize(*a, *b),
{
    match (a, b) {
        (Some(x), Some(y)) => x == y,
        (None, None) => true,
        _ => false,
    }
}

fn eq_opt_i32(a: &Option<i32>, b: &Option<i32>) -> (r: bool)
    ensures
        r == same_opt_i32(*a, *b),
{
    match (a, b) {
        (Some(x), Some(y)) => x == y,
        (None, None) => true,
        _ => false,
    }
}

fn eq_extractor_type(a: &ExtractorType, b: &ExtractorType) -> (r: bool)
    ensures
        r == same_extractor_type(*a, *b),
{
    match (a, b) {
        (ExtractorType::Regex(x), ExtractorType::Regex(y)) => eq_string_vec(&x.regex, &y.regex)
            && eq_opt_usize(&x.group, &y.group),
        (ExtractorType::KVal(x), ExtractorType::KVal(y)) => eq_string_vec(&x.kval, &y.kval)
            && eq_opt_i32(&x.group, &y.group),
        (ExtractorType::XPath(x), ExtractorType::XPath(y)) => eq_string_vec(&x.xpath, &y.xpath)
            && eq_opt_string(&x.attribute, &y.attribute),
        (ExtractorType::JSON(x), ExtractorType::JSON(y)) => eq_string_vec(&x.json, &y.json)
            && eq_opt_i32(&x.group, &y.group),
        (ExtractorType::DSL(x), ExtractorType::DSL(y)) => eq_string_vec(&x.dsl, &y.dsl),
        _ => false,
    }
}

impl PartialEq for Extractor {
    fn eq(&self, other: &Self) -> (r: bool) {
        eq_opt_string(&self.name, &other.name) && self.part == other.part && eq_extractor_type(
            &self.extractor_type,
            &other.extractor_type,
        ) && self.internal == other.internal && self.case_insensitive == other.case_insensitive
    }
}

impl vstd::std_specs::cmp::PartialEqSpecImpl for Extractor {
    open spec fn obeys_eq_spec() -> bool {
        true
    }

    open spec fn eq_spec(&self, other: &Self) -> bool {
        same_extractor(*self, *other)
    }
}

#[verifier::external_type_specification]
#[verifier::external_body]
pub struct ExFancyRegex(fancy_regex::Regex);

/// Whether fancy_regex accepts `pattern` when built with case flag
/// `fold_case`.
pub uninterp spec fn fancy_ok(pattern: Seq<char>, fold_case: bool) -> bool;

/// The pattern a compiled regex was built from.
pub uninterp spec fn fancy_source(re: fancy_regex::Regex) -> Seq<char>;

/// Whether a compiled regex was built case-insensitive.
pub uninterp spec fn fancy_fold_case(re: fancy_regex::Regex) -> bool;

/// Over all non-overlapping matches of `pattern` in `corpus`, in match order:
/// the text of capture group `group`, absent where the group did not take
/// part in that match.
pub uninterp spec fn fancy_group_hits(
    pattern: Seq<char>,
    fold_case: bool,
    group: int,
    corpus: Seq<char>,
) -> Seq<Option<Seq<char>>>;

/// Relies on fancy_regex::RegexBuilder: `build` returns `Ok` exactly when the
/// pattern parses, and the built regex holds that pattern and case flag.
#[verifier::external_body]
fn fancy_compile(pattern: &String, fold_case: bool) -> (r: Option<fancy_regex::Regex>)
    ensures
        r is Some <==> fancy_ok(pattern@, fold_case),
        r matches Some(re) ==> fancy_source(re) == pattern@ && fancy_fold_case(re) == fold_case,
{
    let mut builder = fancy_regex::RegexBuilder::new(pattern.as_str());
    builder.case_insensitive(fold_case);
    builder.build().ok()
}

/// The views of a sequence of optional strings.
pub open spec fn opt_views_of(items: Seq<Option<String>>) -> Seq<Option<Seq<char>>> {
    items.map_values(
        |o: Option<String>|
            match o {
                Some(s) => Some(s@),
                None => None,
            },
    )
}

/// Relies on fancy_regex::Regex::captures_iter and Captures::get: the group
/// texts over all non-overlapping matches depend on the pattern, its case
/// flag and the corpus alone. A match attempt the engine gives up on counts
/// as a group that did not take part.
#[verifier::external_body]
fn fancy_group_texts(re: &fancy_regex::Regex, corpus: &String, group: usize) -> (r: Vec<
    Option<String>,
>)
    ensures
        opt_views_of(r@) == fancy_group_hits(
            fancy_source(*re),
            fancy_fold_case(*re),
            group as int,
            corpus@,
        ),
{
    re.captures_iter(corpus.as_str()).map(
        |c: Result<fancy_regex::Captures<str>, fancy_regex::Error>|
            match c {
                Ok(caps) => caps.get(group).map(|m| m.as_str().to_string()),
                Err(_) => None,
            },
    ).collect()
}

/// Whether serde_json accepts `corpus` as a JSON document.
pub uninterp spec fn is_json(corpus: Seq<char>) -> bool;

/// The serialized forms of the nodes the JSONPath `path` selects from the
/// JSON text `corpus`, in selection order.
pub uninterp spec fn json_selected(path: Seq<char>, corpus: Seq<char>) -> Seq<Seq<char>>;

/// Relies on serde_json::from_str and jsonpath_rust::query::js_path_vals:
/// parsing succeeds exactly on well-formed JSON, and which nodes a JSONPath
/// selects from a JSON text, and their serialized forms, depend on the path
/// and the text alone. A path that does not parse as a path expression
/// selects nothing.
#[verifier::external_body]
fn jsonpath_eval(path: &String, corpus: &String) -> (r: Option<Vec<String>>)
    ensures
        r is Some <==> is_json(corpus@),
        r matches Some(v) ==> views_of(v@) == json_selected(path@, corpus@),
{
    let doc: serde_json::Value = match serde_json::from_str(corpus) {
        Ok(d) => d,
        Err(_) => return None,
    };
    let found: Vec<&serde_json::Value> = match jsonpath_rust::query::js_path_vals(path, &doc) {
        Ok(v) => v,
        Err(_) => Vec::new(),
    };
    Some(found.into_iter().map(|v| v.to_string()).collect())
}

/// The union of the values the first `n` paths select from `corpus`.
pub open spec fn json_paths_set(paths: Seq<String>, corpus: Seq<char>, n: int) -> Set<Seq<char>>
    decreases n,
{
    if n <= 0 {
        Set::empty()
    } else {
        json_paths_set(paths, corpus, n - 1).union(seq_set(json_selected(paths[n - 1]@, corpus)))
    }
}

/// The capture index an `ERegex` extracts: its group, whole match if absent.
pub open spec fn group_of(group: Option<usize>) -> int {
    match group {
        Some(g) => g as int,
        None => 0,
    }
}

/// The set of the present texts among the first `n` group hits.
pub open spec fn somes_set_upto(hits: Seq<Option<Seq<char>>>, n: int) -> Set<Seq<char>>
    decreases n,
{
    if n <= 0 {
        Set::empty()
    } else {
        match hits[n - 1] {
            Some(t) => somes_set_upto(hits, n - 1).insert(t),
            None => somes_set_upto(hits, n - 1),
        }
    }
}

/// Every group-`group` text of `pattern` over `corpus`, as a set.
pub open spec fn pattern_hit_set(
    pattern: Seq<char>,
    fold_case: bool,
    group: int,
    corpus: Seq<char>,
) -> Set<Seq<char>> {
    let hits = fancy_group_hits(pattern, fold_case, group, corpus);
    somes_set_upto(hits, hits.len() as int)
}

/// The union of the group-`group` texts of the first `n` patterns over
/// `corpus`.
pub open spec fn patterns_hit_set(
    patterns: Seq<String>,
    fold_case: bool,
    group: int,
    corpus: Seq<char>,
    n: int,
) -> Set<Seq<char>>
    decreases n,
{
    if n <= 0 {
        Set::empty()
    } else {
        patterns_hit_set(patterns, fold_case, group, corpus, n - 1).union(
            pattern_hit_set(patterns[n - 1]@, fold_case, group, corpus),
        )
    }
}

/// The present texts among the first `n` group hits, in match order.
pub open spec fn somes_of(hits: Seq<Option<Seq<char>>>, n: int) -> Seq<Seq<char>>
    decreases n,
{
    if n <= 0 {
        Seq::empty()
    } else {
        match hits[n - 1] {
            Some(t) => somes_of(hits, n - 1).push(t),
            None => somes_of(hits, n - 1),
        }
    }
}

/// The pattern strings of a definition; empty for a non-regex strategy.
pub open spec fn def_patterns(e: Extractor) -> Seq<String> {
    match e.extractor_type {
        ExtractorType::Regex(er) => er.regex@,
        _ => Seq::empty(),
    }
}

/// The whole-match texts of the first `n` patterns over `corpus`, in pattern
/// order and, within a pattern, in match order.
pub open spec fn all_match_texts(
    patterns: Seq<String>,
    fold_case: bool,
    corpus: Seq<char>,
    n: int,
) -> Seq<Seq<char>>
    decreases n,
{
    if n <= 0 {
        Seq::empty()
    } else {
        let hits = fancy_group_hits(patterns[n - 1]@, fold_case, 0, corpus);
        all_match_texts(patterns, fold_case, corpus, n - 1) + somes_of(hits, hits.len() as int)
    }
}

/// Whether every pattern of a definition compiles; a non-regex strategy needs
/// no compilation step.
pub open spec fn compilable(e: Extractor) -> bool {
    match e.extractor_type {
        ExtractorType::Regex(er) => forall|i: int|
            0 <= i < er.regex@.len() ==> fancy_ok(#[trigger] er.regex@[i]@, e.case_insensitive),
        _ => true,
    }
}

/// A compiled extractor: the definition together with its compiled regex
/// objects, one per pattern string, same order, honoring the definition's
/// case flag. Only `Extractor::compile` builds one, so extraction can never
/// see a partially compiled cache.
pub struct CompiledExtractor {
    def: Extractor,
    regex: Vec<fancy_regex::Regex>,
}

impl CompiledExtractor {
    /// The definition this compiled extractor was built from.
    pub closed spec fn spec_def(&self) -> Extractor {
        self.def
    }

    /// The definition this compiled extractor was built from.
    pub fn def(&self) -> (r: &Extractor)
        ensures
            *r == self.spec_def(),
    {
        &self.def
    }

    /// The compiled cache matches the definition: one compiled regex per
    /// pattern string, in order, each honoring the case flag.
    pub closed spec fn wf(&self) -> bool {
        match self.def.extractor_type {
            ExtractorType::Regex(er) => {
                &&& self.regex@.len() == er.regex@.len()
                &&& forall|i: int|
                    0 <= i < self.regex@.len() ==> fancy_source(#[trigger] self.regex@[i])
                        == er.regex@[i]@ && fancy_fold_case(self.regex@[i])
                        == self.def.case_insensitive
            },
            _ => self.regex@.len() == 0,
        }
    }

    /// Regex-path extraction: for each compiled pattern, every non-overlapping
    /// match contributes the text of capture group `group` (the whole match
    /// for index zero; nothing where the group did not take part), into one
    /// deduplicated set. Version components come from the external version
    /// collaborator and merge through `VersionMap::insert_all`; without it the
    /// version map is empty.
    pub fn extract_regex(&self, regexps: &ERegex, corpus: &String) -> (r: (StringSet, VersionMap))
        requires
            self.wf(),
            self.spec_def().extractor_type matches ExtractorType::Regex(er) && er == *regexps,
        ensures
            r.0@ == patterns_hit_set(
                regexps.regex@,
                self.spec_def().case_insensitive,
                group_of(regexps.group),
                corpus@,
                regexps.regex@.len() as int,
            ),
            r.1@ == Map::<Seq<char>, Seq<char>>::empty(),
    {
        let ghost fold_case = self.def.case_insensitive;
        let ghost patterns = regexps.regex@;
        let mut extract_result = StringSet::new();
        let group = match regexps.group {
            Some(g) => g,
            None => 0,
        };
        let mut i: usize = 0;
        while i < self.regex.len()
            invariant
                self.wf(),
                self.def.extractor_type matches ExtractorType::Regex(er) && er == *regexps,
                fold_case == self.def.case_insensitive,
                patterns == regexps.regex@,
                group_of(regexps.group) == group as int,
                0 <= i <= self.regex@.len(),
                self.regex@.len() == patterns.len(),
                extract_result@ == patterns_hit_set(
                    patterns,
                    fold_case,
                    group as int,
                    corpus@,
                    i as int,
                ),
            decreases self.regex@.len() - i,
        {
            let ghost entry_set = extract_result@;
            let hits = fancy_group_texts(&self.regex[i], corpus, group);
            let ghost hv = opt_views_of(hits@);
            proof {
                assert(hv == fancy_group_hits(patterns[i as int]@, fold_case, group as int, corpus@));
            }
            let mut j: usize = 0;
            while j < hits.len()
                invariant
                    0 <= j <= hits@.len(),
                    hv == opt_views_of(hits@),
                    extract_result@ == entry_set.union(somes_set_upto(hv, j as int)),
                decreases hits@.len() - j,
            {
                match &hits[j] {
                    Some(text) => {
                        let ghost tv = text@;
                        proof {
                            assert(hv[j as int] == Some(tv));
                        }
                        extract_result.insert(text.clone());
                        proof {
                            assert(extract_result@ =~= entry_set.union(
                                somes_set_upto(hv, j as int + 1),
                            ));
                        }
                    },
                    None => {
                        proof {
                            assert(hv[j as int] is None);
                        }
                    },
                }
                j += 1;
            }
            proof {
                assert(hv.len() == hits@.len());
                assert(extract_result@ == entry_set.union(
                    pattern_hit_set(patterns[i as int]@, fold_case, group as int, corpus@),
                ));
            }
            i += 1;
        }
        (extract_result, VersionMap::new())
    }

    /// The full text of every match of every compiled pattern in `corpus`, in
    /// pattern order and, within a pattern, in match order: the input the
    /// external version collaborator derives components from, one component
    /// list per match, merged with `VersionMap::insert_all` so that later
    /// matches overwrite earlier values.
    pub fn match_texts(&self, corpus: &String) -> (r: Vec<String>)
        requires
            self.wf(),
            self.spec_def().extractor_type matches ExtractorType::Regex(_),
        ensures
            views_of(r@) == all_match_texts(
                def_patterns(self.spec_def()),
                self.spec_def().case_insensitive,
                corpus@,
                def_patterns(self.spec_def()).len() as int,
            ),
    {
        let ghost patterns = def_patterns(self.def);
        let ghost fold_case = self.def.case_insensitive;
        let mut texts: Vec<String> = Vec::new();
        let mut i: usize = 0;
        while i < self.regex.len()
            invariant
                self.wf(),
                self.spec_def().extractor_type matches ExtractorType::Regex(_),
                patterns == def_patterns(self.spec_def()),
                fold_case == self.spec_def().case_insensitive,
                0 <= i <= self.regex@.len(),
                self.regex@.len() == patterns.len(),
                views_of(texts@) == all_match_texts(patterns, fold_case, corpus@, i as int),
            decreases self.regex@.len() - i,
        {
            let ghost entry = views_of(texts@);
            let hits = fancy_group_texts(&self.regex[i], corpus, 0);
            let ghost hv = opt_views_of(hits@);
            proof {
                assert(hv == fancy_group_hits(patterns[i as int]@, fold_case, 0, corpus@));
            }
            let mut j: usize = 0;
            while j < hits.len()
                invariant
                    0 <= j <= hits@.len(),
                    hv == opt_views_of(hits@),
                    views_of(texts@) == entry + somes_of(hv, j as int),
                decreases hits@.len() - j,
            {
                match &hits[j] {
                    Some(text) => {
                        let ghost tv = text@;
                        proof {
                            assert(hv[j as int] == Some(tv));
                            assert(entry + somes_of(hv, j as int + 1) =~= (entry + somes_of(
                                hv,
                                j as int,
                            )).push(tv));
                        }
                        texts.push(text.clone());
                        proof {
                            assert(views_of(texts@) =~= (entry + somes_of(hv, j as int)).push(tv));
                        }
                    },
                    None => {
                        proof {
                            assert(hv[j as int] is None);
                        }
                    },
                }
                j += 1;
            }
            proof {
                assert(hv.len() == hits@.len());
                assert(views_of(texts@) == all_match_texts(patterns, fold_case, corpus@, i as int
                    + 1));
            }
            i += 1;
        }
        texts
    }
}

impl Extractor {
    /// JSON-path extraction: parses the corpus as JSON — a corpus that is not
    /// JSON yields an empty result and empty version map, never an error —
    /// then evaluates every path expression and collects the serialized form
    /// of every selected node into one deduplicated set. A malformed path
    /// expression is skipped silently.
    pub fn extrat_json(&self, json_path: &JsonPath, corpus: String) -> (r: (StringSet, VersionMap))
        ensures
            r.1@ == Map::<Seq<char>, Seq<char>>::empty(),
            !is_json(corpus@) ==> r.0@ == Set::<Seq<char>>::empty(),
            is_json(corpus@) ==> r.0@ == json_paths_set(
                json_path.json@,
                corpus@,
                json_path.json@.len() as int,
            ),
    {
        let mut extract_result = StringSet::new();
        let mut i: usize = 0;
        while i < json_path.json.len()
            invariant
                0 <= i <= json_path.json@.len(),
                i > 0 ==> is_json(corpus@),
                extract_result@ == json_paths_set(json_path.json@, corpus@, i as int),
            decreases json_path.json@.len() - i,
        {
            match jsonpath_eval(&json_path.json[i], &corpus) {
                Some(values) => {
                    extract_result.insert_all(&values);
                },
                None => {
                    return (StringSet::new(), VersionMap::new());
                },
            }
            i += 1;
        }
        (extract_result, VersionMap::new())
    }

    /// Compiles every pattern string of a Regex-variant definition, honoring
    /// the `case_insensitive` flag; fails with `CompileError` on the first
    /// invalid pattern, in which case no compiled value exists at all.
    /// Non-regex strategies need no compilation and get an empty cache.
    pub fn compile(self) -> (r: Result<CompiledExtractor, CompileError>)
        ensures
            r is Ok <==> compilable(self),
            r matches Ok(c) ==> c.wf() && c.spec_def() == self,
            r matches Err(err) ==> self.extractor_type matches ExtractorType::Regex(er)
                && exists|i: int|
                0 <= i < er.regex@.len() && !fancy_ok(#[trigger] er.regex@[i]@, self.case_insensitive)
                    && err.pattern@ == er.regex@[i]@ && (forall|j: int|
                    0 <= j < i ==> fancy_ok(#[trigger] er.regex@[j]@, self.case_insensitive)),
    {
        let mut compiled: Vec<fancy_regex::Regex> = Vec::new();
        match &self.extractor_type {
            ExtractorType::Regex(regexps) => {
                let mut i: usize = 0;
                while i < regexps.regex.len()
                    invariant
                        self.extractor_type matches ExtractorType::Regex(er) && er == *regexps,
                        0 <= i <= regexps.regex@.len(),
                        compiled@.len() == i,
                        forall|k: int|
                            0 <= k < i ==> fancy_source(#[trigger] compiled@[k])
                                == regexps.regex@[k]@ && fancy_fold_case(compiled@[k])
                                == self.case_insensitive,
                        forall|k: int| 0 <= k < i ==> fancy_ok(#[trigger] regexps.regex@[k]@, self.case_insensitive),
                    decreases regexps.regex@.len() - i,
                {
                    let pattern = &regexps.regex[i];
                    match fancy_compile(pattern, self.case_insensitive) {
                        Some(re) => {
                            compiled.push(re);
                        },
                        None => {
                            proof {
                                assert(!fancy_ok(regexps.regex@[i as int]@, self.case_insensitive));
                            }
                            return Err(CompileError { pattern: pattern.clone() });
                        },
                    }
                    i += 1;
                }
            },
            _ => {},
        }
        Ok(CompiledExtractor { def: self, regex: compiled })
    }
}

} // verus!

