//! Format vocabularies and token normalization.
//!
//! Callers name the output representations they want with free-form string
//! tokens. Each call kind recognizes a fixed vocabulary, matched without
//! regard to ASCII case; unrecognized tokens are dropped silently, and an
//! absent or fully dropped list falls back to the single default format,
//! Markdown.

use vstd::prelude::*;
use vstd::string::StrSliceExecFns;

verus! {

/// Output representations a scrape call can request.
#[derive(Clone, Copy, Debug, PartialEq, Eq, Structural)]
pub enum ScrapeFormat {
    Markdown,
    Html,
    Extract,
}

/// Output representations a crawl call can request.
#[derive(Clone, Copy, Debug, PartialEq, Eq, Structural)]
pub enum CrawlFormat {
    Markdown,
    Html,
}

/// A character matches a vocabulary character (an ASCII capital letter)
/// when it is that character or its ASCII lowercase counterpart.
pub open spec fn char_matches_upper(c: char, t: char) -> bool {
    c == t || c as u32 == t as u32 + 32
}

/// A token matches a vocabulary word (spelled in ASCII capitals) when the
/// lengths agree and every character matches; this is exactly a lookup of
/// the token's uppercased spelling.
pub open spec fn token_matches(s: Seq<char>, t: Seq<char>) -> bool {
    s.len() == t.len() && forall|i: int| 0 <= i < s.len() ==> char_matches_upper(s[i], t[i])
}

fn char_matches(c: char, t: char) -> (r: bool)
    ensures
        r == char_matches_upper(c, t),
{
    c == t || c as u32 == t as u32 + 32
}

fn str_matches(s: &str, t: &str) -> (r: bool)
    ensures
        r == token_matches(s@, t@),
{
    let sn = s.unicode_len();
    let tn = t.unicode_len();
    if sn != tn {
        return false;
    }
    for i in 0..sn
        invariant
            sn == s@.len(),
            tn == t@.len(),
            sn == tn,
            forall|j: int| 0 <= j < i ==> char_matches_upper(s@[j], t@[j]),
    {
        if !char_matches(s.get_char(i), t.get_char(i)) {
            return false;
        }
    }
    true
}

/// The scrape vocabulary: which format, if any, a token names.
pub open spec fn scrape_format_of(s: Seq<char>) -> Option<ScrapeFormat> {
    if token_matches(s, "MARKDOWN"@) {
        Some(ScrapeFormat::Markdown)
    } else if token_matches(s, "HTML"@) {
        Some(ScrapeFormat::Html)
    } else if token_matches(s, "EXTRACT"@) {
        Some(ScrapeFormat::Extract)
    } else {
        None
    }
}

/// The crawl vocabulary: narrower, with no structured-extraction format.
pub open spec fn crawl_format_of(s: Seq<char>) -> Option<CrawlFormat> {
    if token_matches(s, "MARKDOWN"@) {
        Some(CrawlFormat::Markdown)
    } else if token_matches(s, "HTML"@) {
        Some(CrawlFormat::Html)
    } else {
        None
    }
}

/// Looks one token up in the scrape vocabulary.
pub fn classify_scrape_token(token: &str) -> (r: Option<ScrapeFormat>)
    ensures
        r == scrape_format_of(token@),
{
    if str_matches(token, "MARKDOWN") {
        Some(ScrapeFormat::Markdown)
    } else if str_matches(token, "HTML") {
        Some(ScrapeFormat::Html)
    } else if str_matches(token, "EXTRACT") {
        Some(ScrapeFormat::Extract)
    } else {
        None
    }
}

/// Looks one token up in the crawl vocabulary.
pub fn classify_crawl_token(token: &str) -> (r: Option<CrawlFormat>)
    ensures
        r == crawl_format_of(token@),
{
    if str_matches(token, "MARKDOWN") {
        Some(CrawlFormat::Markdown)
    } else if str_matches(token, "HTML") {
        Some(CrawlFormat::Html)
    } else {
        None
    }
}

/// The formats a list of tokens selects for a scrape call: each recognized
/// token mapped into the vocabulary, order and multiplicity preserved,
/// unrecognized tokens dropped.
pub open spec fn parse_formats_spec(tokens: Seq<Seq<char>>) -> Seq<ScrapeFormat> {
    tokens.filter_map(|t: Seq<char>| scrape_format_of(t))
}

/// The formats a list of tokens selects for a crawl call.
pub open spec fn parse_crawl_formats_spec(tokens: Seq<Seq<char>>) -> Seq<CrawlFormat> {
    tokens.filter_map(|t: Seq<char>| crawl_format_of(t))
}

/// Maps caller-supplied tokens into the scrape vocabulary; a token that
/// names no format is dropped silently, never an error.
pub fn parse_formats(formats: &Vec<String>) -> (r: Vec<ScrapeFormat>)
    ensures
        r@ == parse_formats_spec(formats.deep_view()),
{
    let ghost dv = formats.deep_view();
    let mut out: Vec<ScrapeFormat> = Vec::new();
    for i in 0..formats.len()
        invariant
            dv == formats.deep_view(),
            dv.len() == formats@.len(),
            out@ == parse_formats_spec(dv.take(i as int)),
    {
        match classify_scrape_token(formats[i].as_str()) {
            Some(f) => out.push(f),
            None => {},
        }
        proof {
            dv.lemma_filter_map_take_succ(|t: Seq<char>| scrape_format_of(t), i as int);
        }
    }
    proof {
        assert(dv.take(formats@.len() as int) =~= dv);
    }
    out
}

/// Maps caller-supplied tokens into the crawl vocabulary; a token that
/// names no format is dropped silently, never an error.
pub fn parse_crawl_formats(formats: &Vec<String>) -> (r: Vec<CrawlFormat>)
    ensures
        r@ == parse_crawl_formats_spec(formats.deep_view()),
{
    let ghost dv = formats.deep_view();
    let mut out: Vec<CrawlFormat> = Vec::new();
    for i in 0..formats.len()
        invariant
            dv == formats.deep_view(),
            dv.len() == formats@.len(),
            out@ == parse_crawl_formats_spec(dv.take(i as int)),
    {
        match classify_crawl_token(formats[i].as_str()) {
            Some(f) => out.push(f),
            None => {},
        }
        proof {
            dv.lemma_filter_map_take_succ(|t: Seq<char>| crawl_format_of(t), i as int);
        }
    }
    proof {
        assert(dv.take(formats@.len() as int) =~= dv);
    }
    out
}

/// What normalization yields for a scrape call: the parsed tokens, or the
/// single default format when the list is absent or nothing was recognized.
pub open spec fn normalize_formats_spec(tokens: Option<Seq<Seq<char>>>) -> Seq<ScrapeFormat> {
    match tokens {
        Some(ts) => {
            if parse_formats_spec(ts).len() == 0 {
                seq![ScrapeFormat::Markdown]
            } else {
                parse_formats_spec(ts)
            }
        },
        None => seq![ScrapeFormat::Markdown],
    }
}

/// What normalization yields for a crawl call.
pub open spec fn normalize_crawl_formats_spec(tokens: Option<Seq<Seq<char>>>) -> Seq<CrawlFormat> {
    match tokens {
        Some(ts) => {
            if parse_crawl_formats_spec(ts).len() == 0 {
                seq![CrawlFormat::Markdown]
            } else {
                parse_crawl_formats_spec(ts)
            }
        },
        None => seq![CrawlFormat::Markdown],
    }
}

/// Normalizes an optional token list for a scrape call: recognized tokens
/// in caller order, or the single default format, Markdown. The result is
/// never empty.
pub fn normalize_formats(formats: &Option<Vec<String>>) -> (r: Vec<ScrapeFormat>)
    ensures
        r@ == normalize_formats_spec(formats.deep_view()),
        r@.len() > 0,
{
    match formats {
        Some(fs) => {
            let parsed = parse_formats(fs);
            if parsed.len() == 0 {
                default_scrape_formats()
            } else {
                parsed
            }
        },
        None => default_scrape_formats(),
    }
}

/// Normalizes an optional token list for a crawl call: recognized tokens
/// in caller order, or the single default format, Markdown. The result is
/// never empty.
pub fn normalize_crawl_formats(formats: &Option<Vec<String>>) -> (r: Vec<CrawlFormat>)
    ensures
        r@ == normalize_crawl_formats_spec(formats.deep_view()),
        r@.len() > 0,
{
    match formats {
        Some(fs) => {
            let parsed = parse_crawl_formats(fs);
            if parsed.len() == 0 {
                default_crawl_formats()
            } else {
                parsed
            }
        },
        None => default_crawl_formats(),
    }
}

fn default_scrape_formats() -> (r: Vec<ScrapeFormat>)
    ensures
        r@ =~= seq![ScrapeFormat::Markdown],
{
    let mut r: Vec<ScrapeFormat> = Vec::new();
    r.push(ScrapeFormat::Markdown);
    r
}

fn default_crawl_formats() -> (r: Vec<CrawlFormat>)
    ensures
        r@ =~= seq![CrawlFormat::Markdown],
{
    let mut r: Vec<CrawlFormat> = Vec::new();
    r.push(CrawlFormat::Markdown);
    r
}

proof fn lemma_filter_map_recognized_nonempty<A, B>(s: Seq<A>, f: spec_fn(A) -> Option<B>, i: int)
    requires
        0 <= i < s.len(),
        f(s[i]) is Some,
    ensures
        s.filter_map(f).len() > 0,
    decreases s.len(),
{
    if i < s.len() - 1 {
        lemma_filter_map_recognized_nonempty(s.drop_last(), f, i);
    }
}

proof fn lemma_filter_map_all_dropped_empty<A, B>(s: Seq<A>, f: spec_fn(A) -> Option<B>)
    requires
        forall|i: int| 0 <= i < s.len() ==> f(s[i]) is None,
    ensures
        s.filter_map(f) =~= Seq::<B>::empty(),
    decreases s.len(),
{
    if s.len() > 0 {
        lemma_filter_map_all_dropped_empty(s.drop_last(), f);
    }
}

/// Law: when at least one token is recognized, normalization returns exactly
/// the parsed sequence — the recognized tokens in caller order, duplicates
/// kept, unrecognized tokens dropped — and the default is not taken.
pub proof fn lemma_normalize_keeps_recognized(tokens: Seq<Seq<char>>)
    requires
        exists|i: int| 0 <= i < tokens.len() && scrape_format_of(tokens[i]) is Some,
    ensures
        parse_formats_spec(tokens).len() > 0,
        normalize_formats_spec(Some(tokens)) == parse_formats_spec(tokens),
{
    let i = choose|i: int| 0 <= i < tokens.len() && scrape_format_of(tokens[i]) is Some;
    lemma_filter_map_recognized_nonempty(tokens, |t: Seq<char>| scrape_format_of(t), i);
}

/// Law: the crawl-side counterpart of `lemma_normalize_keeps_recognized`.
pub proof fn lemma_normalize_crawl_keeps_recognized(tokens: Seq<Seq<char>>)
    requires
        exists|i: int| 0 <= i < tokens.len() && crawl_format_of(tokens[i]) is Some,
    ensures
        parse_crawl_formats_spec(tokens).len() > 0,
        normalize_crawl_formats_spec(Some(tokens)) == parse_crawl_formats_spec(tokens),
{
    let i = choose|i: int| 0 <= i < tokens.len() && crawl_format_of(tokens[i]) is Some;
    lemma_filter_map_recognized_nonempty(tokens, |t: Seq<char>| crawl_format_of(t), i);
}

/// Law: an absent token list, or one in which no token is recognized,
/// normalizes to exactly the single default format, Markdown.
pub proof fn lemma_normalize_defaults(tokens: Option<Seq<Seq<char>>>)
    requires
        tokens matches Some(ts) ==> forall|i: int| 0 <= i < ts.len() ==> scrape_format_of(
            ts[i],
        ) is None,
    ensures
        normalize_formats_spec(tokens) == seq![ScrapeFormat::Markdown],
{
    if let Some(ts) = tokens {
        lemma_filter_map_all_dropped_empty(ts, |t: Seq<char>| scrape_format_of(t));
    }
}

/// Law: the crawl-side counterpart of `lemma_normalize_defaults`.
pub proof fn lemma_normalize_crawl_defaults(tokens: Option<Seq<Seq<char>>>)
    requires
        tokens matches Some(ts) ==> forall|i: int| 0 <= i < ts.len() ==> crawl_format_of(
            ts[i],
        ) is None,
    ensures
        normalize_crawl_formats_spec(tokens) == seq![CrawlFormat::Markdown],
{
    if let Some(ts) = tokens {
        lemma_filter_map_all_dropped_empty(ts, |t: Seq<char>| crawl_format_of(t));
    }
}

} // verus!
