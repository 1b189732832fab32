//! Scanning the processor's listing for known failure signatures.
//!
//! The processor does not reliably signal failure by its exit status, so
//! every line of its listing is tested against a fixed, ordered catalogue of
//! regular expressions covering the diagnostics of all supported languages.
//! A line is reported with the first signature that matches it, and any
//! reported line fails the build.

use vstd::prelude::*;
use crate::plan::{BuildError, string_views};

verus! {

#[verifier::external_type_specification]
#[verifier::external_body]
pub struct ExRegex(regex::Regex);

#[verifier::external_type_specification]
#[verifier::external_body]
pub struct ExRegexError(regex::Error);

/// Whether `regex::Regex::is_match` finds the regular expression `pattern`
/// somewhere in `text`.
pub uninterp spec fn pattern_matches(pattern: Seq<char>, text: Seq<char>) -> bool;

/// Whether `regex::Regex::new` accepts `pattern`: it is valid and its
/// compiled form stays within the default size limit.
pub uninterp spec fn regex_compiles(pattern: Seq<char>) -> bool;

/// The failure signatures, in the order in which they are tried.
pub open spec fn catalogue() -> Seq<Seq<char>> {
    seq![
        "БЫЛИ OШИБKИ ПPИ BBOДE ИЛИ TPAHCЛЯЦИИ"@,
        "HET ′EOP′"@,
        "OTCYTCTBYET ИMЯ ПPOГPAMMЫ"@,
        "OTCYTCTBYET ИMЯ ПOДПPOГPAMMЫ"@,
        "OTCYTCTBYET ЗAГOЛOBOK ПOДПPOГPAMMЫ"@,
        "OTCYTCTBYET  PROGRAM"@,
        "ЗHAЧEH.* HE OПPEДEЛEHO"@,
        "INCORRECT ALGOL PROGRAM"@,
        "\\*\\*\\*\\*\\*\\*HEOПИCAHHЫЙ ИДEHTИФИKATOP"@,
        "\\*\\*\\*\\*\\*\\* HEOПИCAHHЫЙ ИДEHTИФИKATOP:"@,
        "^ \\*\\*\\*\\*\\*\\*\\d+ "@,
        "^HEOП MET "@,
        "^ERROR \\d+"@,
        "^ ERROR \\d+"@,
        "OTCYTCTBYET"@,
        "HEДOПYCTИMЫЙ OПEPATOP:"@,
        "ДЛИHHЫЙ AДPEC B"@,
    ]
}

/// Relies on `regex::Regex::new`: compiles `pattern`, or reports it invalid
/// or too large; which of the two depends on the pattern alone.
#[verifier::external_body]
fn compile_regex(pattern: &str) -> (r: Result<regex::Regex, regex::Error>)
    ensures
        r is Ok <==> regex_compiles(pattern@),
{
    regex::Regex::new(pattern)
}

/// Relies on `regex::Regex::is_match`, on the expression that
/// `Signature::compile` (the only maker of a `Signature`) compiled from
/// `sig.pattern`.
#[verifier::external_body]
fn signature_is_match(sig: &Signature, line: &str) -> (r: bool)
    ensures
        r == pattern_matches(sig.pattern@, line@),
{
    sig.regex.is_match(line)
}

/// A failure signature: a regular expression and its source text.
pub struct Signature {
    pattern: String,
    regex: regex::Regex,
}

impl Signature {
    /// The source text of the signature.
    pub closed spec fn pattern(&self) -> Seq<char> {
        self.pattern@
    }

    /// Compiles a signature from its source text.
    pub fn compile(pattern: &str) -> (r: Result<Signature, regex::Error>)
        ensures
            r is Ok <==> regex_compiles(pattern@),
            r matches Ok(s) ==> s.pattern() == pattern@,
    {
        match compile_regex(pattern) {
            Ok(regex) => Ok(Signature { pattern: pattern.to_string(), regex }),
            Err(e) => Err(e),
        }
    }

    /// The source text of the signature.
    pub fn pattern_text(&self) -> (r: &str)
        ensures
            r@ == self.pattern(),
    {
        self.pattern.as_str()
    }

    /// Tells whether the signature matches somewhere in `line`.
    pub fn matches(&self, line: &str) -> (r: bool)
        ensures
            r == pattern_matches(self.pattern(), line@),
    {
        signature_is_match(self, line)
    }
}

/// The source texts of a sequence of signatures.
pub open spec fn patterns_of(sigs: Seq<Signature>) -> Seq<Seq<char>> {
    sigs.map_values(|s: Signature| s.pattern())
}

/// Every signature of the catalogue compiles.
pub open spec fn catalogue_compiles() -> bool {
    forall|k: int| 0 <= k < catalogue().len() ==> #[trigger] regex_compiles(catalogue()[k])
}

/// `e` names a signature of the catalogue that does not compile.
pub open spec fn bad_signature(e: BuildError) -> bool {
    e matches BuildError::BadSignature { pattern } && exists|k: int|
        0 <= k < catalogue().len() && catalogue()[k] == pattern@ && !#[trigger] regex_compiles(
            catalogue()[k],
        )
}

/// The source texts of the catalogue, in order.
pub fn catalogue_patterns() -> (r: Vec<&'static str>)
    ensures
        r@.map_values(|p: &str| p@) == catalogue(),
{
    let mut p: Vec<&'static str> = Vec::new();
    p.push("БЫЛИ OШИБKИ ПPИ BBOДE ИЛИ TPAHCЛЯЦИИ");
    p.push("HET ′EOP′");
    p.push("OTCYTCTBYET ИMЯ ПPOГPAMMЫ");
    p.push("OTCYTCTBYET ИMЯ ПOДПPOГPAMMЫ");
    p.push("OTCYTCTBYET ЗAГOЛOBOK ПOДПPOГPAMMЫ");
    p.push("OTCYTCTBYET  PROGRAM");
    p.push("ЗHAЧEH.* HE OПPEДEЛEHO");
    p.push("INCORRECT ALGOL PROGRAM");
    p.push("\\*\\*\\*\\*\\*\\*HEOПИCAHHЫЙ ИДEHTИФИKATOP");
    p.push("\\*\\*\\*\\*\\*\\* HEOПИCAHHЫЙ ИДEHTИФИKATOP:");
    p.push("^ \\*\\*\\*\\*\\*\\*\\d+ ");
    p.push("^HEOП MET ");
    p.push("^ERROR \\d+");
    p.push("^ ERROR \\d+");
    p.push("OTCYTCTBYET");
    p.push("HEДOПYCTИMЫЙ OПEPATOP:");
    p.push("ДЛИHHЫЙ AДPEC B");
    assert(p@.map_values(|p: &str| p@) =~= catalogue());
    p
}

/// Compiles the catalogue, in order.
pub fn failure_signatures() -> (r: Result<Vec<Signature>, BuildError>)
    ensures
        r is Ok <==> catalogue_compiles(),
        match r {
            Ok(sigs) => patterns_of(sigs@) == catalogue(),
            Err(e) => bad_signature(e),
        },
{
    let texts = catalogue_patterns();
    let ghost views = texts@.map_values(|p: &str| p@);
    let mut sigs: Vec<Signature> = Vec::new();
    let mut k: usize = 0;
    while k < texts.len()
        invariant
            k <= texts.len(),
            views == texts@.map_values(|p: &str| p@),
            views == catalogue(),
            patterns_of(sigs@) =~= views.take(k as int),
            forall|j: int| 0 <= j < k ==> #[trigger] regex_compiles(views[j]),
        decreases texts.len() - k,
    {
        match Signature::compile(texts[k]) {
            Ok(s) => {
                let ghost before = sigs@;
                sigs.push(s);
                assert(patterns_of(sigs@) =~= patterns_of(before).push(views[k as int]));
                assert(views.take(k + 1) =~= views.take(k as int).push(views[k as int]));
            },
            Err(_) => {
                let pattern = texts[k].to_string();
                assert(!regex_compiles(catalogue()[k as int]));
                return Err(BuildError::BadSignature { pattern });
            },
        }
        k += 1;
    }
    assert(views.take(k as int) =~= views);
    Ok(sigs)
}

/// The first of the first `n` patterns that matches `line`.
pub open spec fn first_match_below(patterns: Seq<Seq<char>>, line: Seq<char>, n: int) -> Option<int>
    decreases n,
{
    if n <= 0 {
        None
    } else {
        match first_match_below(patterns, line, n - 1) {
            Some(k) => Some(k),
            None => if pattern_matches(patterns[n - 1], line) {
                Some(n - 1)
            } else {
                None
            },
        }
    }
}

/// The first pattern that matches `line`.
pub open spec fn first_match(patterns: Seq<Seq<char>>, line: Seq<char>) -> Option<int> {
    first_match_below(patterns, line, patterns.len() as int)
}

/// A line of the listing that matched a signature.
#[derive(PartialEq, Eq, Structural, Clone, Copy, Debug)]
pub struct Finding {
    /// Index of the line in the listing.
    pub line: usize,
    /// Index of the first signature that matched it.
    pub signature: usize,
}

/// The findings among the first `n` lines, in listing order.
pub open spec fn findings_below(patterns: Seq<Seq<char>>, lines: Seq<Seq<char>>, n: int) -> Seq<
    Finding,
>
    decreases n,
{
    if n <= 0 {
        seq![]
    } else {
        findings_below(patterns, lines, n - 1) + match first_match(patterns, lines[n - 1]) {
            Some(k) => seq![Finding { line: (n - 1) as usize, signature: k as usize }],
            None => seq![],
        }
    }
}

/// The findings of a whole listing.
pub open spec fn findings(patterns: Seq<Seq<char>>, lines: Seq<Seq<char>>) -> Seq<Finding> {
    findings_below(patterns, lines, lines.len() as int)
}

/// Once a first match is found among some patterns, more patterns do not change it.
pub proof fn lemma_first_match_stable(patterns: Seq<Seq<char>>, line: Seq<char>, n: int, m: int)
    requires
        n <= m,
        first_match_below(patterns, line, n) is Some,
    ensures
        first_match_below(patterns, line, m) == first_match_below(patterns, line, n),
    decreases m - n,
{
    if n < m {
        lemma_first_match_stable(patterns, line, n, m - 1);
    }
}

/// There is a first match exactly when some pattern matches; it matches,
/// and none before it does.
pub proof fn lemma_first_match_exists(patterns: Seq<Seq<char>>, line: Seq<char>, n: int)
    requires
        0 <= n <= patterns.len(),
    ensures
        first_match_below(patterns, line, n) is Some <==> exists|k: int|
            0 <= k < n && #[trigger] pattern_matches(patterns[k], line),
        first_match_below(patterns, line, n) matches Some(k) ==> 0 <= k < n && pattern_matches(
            patterns[k],
            line,
        ) && forall|j: int| 0 <= j < k ==> !#[trigger] pattern_matches(patterns[j], line),
    decreases n,
{
    if n > 0 {
        lemma_first_match_exists(patterns, line, n - 1);
    }
}

/// The listing yields a finding exactly when one of its lines matches one
/// of the patterns.
pub proof fn lemma_findings_nonempty(patterns: Seq<Seq<char>>, lines: Seq<Seq<char>>, n: int)
    requires
        0 <= n <= lines.len(),
    ensures
        findings_below(patterns, lines, n).len() > 0 <==> exists|i: int, k: int|
            0 <= i < n && 0 <= k < patterns.len() && #[trigger] pattern_matches(
                patterns[k],
                lines[i],
            ),
    decreases n,
{
    if n > 0 {
        lemma_findings_nonempty(patterns, lines, n - 1);
        lemma_first_match_exists(patterns, lines[n - 1], patterns.len() as int);
        if exists|i: int, k: int|
            0 <= i < n && 0 <= k < patterns.len() && #[trigger] pattern_matches(
                patterns[k],
                lines[i],
            ) {
            let (i, k) = choose|i: int, k: int|
                0 <= i < n && 0 <= k < patterns.len() && #[trigger] pattern_matches(
                    patterns[k],
                    lines[i],
                );
            if i < n - 1 {
                assert(findings_below(patterns, lines, n - 1).len() > 0);
            } else {
                assert(first_match(patterns, lines[n - 1]) is Some);
            }
        }
    }
}

/// The first signature that matches `line`.
fn first_matching(sigs: &Vec<Signature>, line: &str) -> (r: Option<usize>)
    ensures
        match r {
            Some(k) => first_match(patterns_of(sigs@), line@) == Some(k as int),
            None => first_match(patterns_of(sigs@), line@) is None,
        },
{
    let ghost pats = patterns_of(sigs@);
    let mut k: usize = 0;
    while k < sigs.len()
        invariant
            k <= sigs.len(),
            pats == patterns_of(sigs@),
            first_match_below(pats, line@, k as int) is None,
        decreases sigs.len() - k,
    {
        if sigs[k].matches(line) {
            proof {
                assert(first_match_below(pats, line@, k + 1) == Some(k as int));
                lemma_first_match_stable(pats, line@, k + 1, sigs.len() as int);
            }
            return Some(k);
        }
        k += 1;
    }
    None
}

/// Tests every line against the signatures, in order, and reports each line
/// that matches with the first signature that matches it.
pub fn scan_lines(sigs: &Vec<Signature>, lines: &Vec<String>) -> (r: Vec<Finding>)
    ensures
        r@ == findings(patterns_of(sigs@), string_views(lines@)),
{
    let ghost pats = patterns_of(sigs@);
    let ghost views = string_views(lines@);
    let mut out: Vec<Finding> = Vec::new();
    let mut i: usize = 0;
    while i < lines.len()
        invariant
            i <= lines.len(),
            pats == patterns_of(sigs@),
            views == string_views(lines@),
            out@ == findings_below(pats, views, i as int),
        decreases lines.len() - i,
    {
        assert(views[i as int] == lines@[i as int]@);
        match first_matching(sigs, lines[i].as_str()) {
            Some(k) => {
                out.push(Finding { line: i, signature: k });
                assert(out@ =~= findings_below(pats, views, i + 1));
            },
            None => {
                assert(out@ =~= findings_below(pats, views, i + 1));
            },
        }
        i += 1;
    }
    out
}

/// Scans a listing against the catalogue of failure signatures.
pub fn scan_listing(lines: &Vec<String>) -> (r: Result<Vec<Finding>, BuildError>)
    ensures
        r is Ok <==> catalogue_compiles(),
        match r {
            Ok(found) => found@ == findings(catalogue(), string_views(lines@)),
            Err(e) => bad_signature(e),
        },
{
    let sigs = match failure_signatures() {
        Ok(s) => s,
        Err(e) => {
            return Err(e);
        },
    };
    Ok(scan_lines(&sigs, lines))
}

} // verus!
