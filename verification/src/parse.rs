//! Helpers and utilities for extracting structured data from LLM output.

use vstd::prelude::*;
use vstd::string::StrSliceExecFns;

use crate::strutil::{chars_eq, chars_of};

verus! {

/// Describes how to extract an answer between HTML/XML tags.
///
/// Expects the LLM to output in the form `<key>answer</key>` towards the end
/// of its output.
#[derive(Debug, PartialEq)]
pub struct TagOptions {
    /// The tag name an answer is wrapped in.
    pub key: String,
}

impl Clone for TagOptions {
    fn clone(&self) -> (r: Self)
        ensures
            r.key@ == self.key@,
    {
        TagOptions { key: self.key.clone() }
    }
}

impl Default for TagOptions {
    /// The default configuration looks for `<answer>...</answer>` spans.
    fn default() -> (r: Self)
        ensures
            r.key@ == "answer"@,
    {
        TagOptions { key: String::from_str("answer") }
    }
}

/// Holds when `s` carries the opening tag `<key>` starting at position `i`.
pub open spec fn is_open_at(s: Seq<char>, key: Seq<char>, i: int) -> bool {
    &&& 0 <= i
    &&& i + key.len() + 2 <= s.len()
    &&& s[i] == '<'
    &&& s.subrange(i + 1, i + 1 + key.len()) == key
    &&& s[i + 1 + key.len()] == '>'
}

/// Holds when `s` carries the closing tag `</key>` starting at position `j`.
pub open spec fn is_close_at(s: Seq<char>, key: Seq<char>, j: int) -> bool {
    &&& 0 <= j
    &&& j + key.len() + 3 <= s.len()
    &&& s[j] == '<'
    &&& s[j + 1] == '/'
    &&& s.subrange(j + 2, j + 2 + key.len()) == key
    &&& s[j + 2 + key.len()] == '>'
}

/// Holds when a closing tag for `key` starts at or after position `b`.
pub open spec fn has_close_from(s: Seq<char>, key: Seq<char>, b: int) -> bool {
    exists|j: int| b <= j && is_close_at(s, key, j)
}

/// Holds when `s` carries a resolvable tagged span: an opening `<key>` with
/// a closing `</key>` somewhere after its body begins.
pub open spec fn has_tagged_span(s: Seq<char>, key: Seq<char>) -> bool {
    exists|i: int| is_open_at(s, key, i) && has_close_from(s, key, i + key.len() + 2)
}

/// Checks for the opening tag `<k>` at position `i` of `t`.
fn open_tag_at(t: &Vec<char>, k: &Vec<char>, i: usize) -> (b: bool)
    ensures
        b == is_open_at(t@, k@, i as int),
{
    let n = t.len();
    if i >= n {
        return false;
    }
    let rem = n - i;
    if rem < 2 || k.len() > rem - 2 {
        return false;
    }
    if t[i] != '<' {
        return false;
    }
    let klen = k.len();
    let mut m: usize = 0;
    while m < klen
        invariant
            m <= klen,
            klen == k@.len(),
            n == t@.len(),
            i + klen + 2 <= n,
            t@[i as int] == '<',
            forall|j: int| 0 <= j < m ==> t@[i + 1 + j] == k@[j],
        decreases klen - m,
    {
        if t[i + 1 + m] != k[m] {
            proof {
                assert(t@.subrange(i + 1, i + 1 + k@.len())[m as int] != k@[m as int]);
            }
            return false;
        }
        m = m + 1;
    }
    if t[i + 1 + k.len()] != '>' {
        return false;
    }
    proof {
        assert(t@.subrange(i + 1, i + 1 + k@.len()) =~= k@);
    }
    true
}

/// Checks for the closing tag `</k>` at position `j` of `t`.
fn close_tag_at(t: &Vec<char>, k: &Vec<char>, j: usize) -> (b: bool)
    ensures
        b == is_close_at(t@, k@, j as int),
{
    let n = t.len();
    if j >= n {
        return false;
    }
    let rem = n - j;
    if rem < 3 || k.len() > rem - 3 {
        return false;
    }
    if t[j] != '<' || t[j + 1] != '/' {
        return false;
    }
    let klen = k.len();
    let mut m: usize = 0;
    while m < klen
        invariant
            m <= klen,
            klen == k@.len(),
            n == t@.len(),
            j + klen + 3 <= n,
            t@[j as int] == '<',
            t@[j + 1] == '/',
            forall|jj: int| 0 <= jj < m ==> t@[j + 2 + jj] == k@[jj],
        decreases klen - m,
    {
        if t[j + 2 + m] != k[m] {
            proof {
                assert(t@.subrange(j + 2, j + 2 + k@.len())[m as int] != k@[m as int]);
            }
            return false;
        }
        m = m + 1;
    }
    if t[j + 2 + k.len()] != '>' {
        return false;
    }
    proof {
        assert(t@.subrange(j + 2, j + 2 + k@.len()) =~= k@);
    }
    true
}

/// Repeated extraction walks tagged sections in order: the remaining text
/// that [`tagged`] hands back is a suffix of the input, and a tag stands in
/// a suffix exactly where the input has one after the cut. So a second
/// span, untouched by the first extraction, is found by re-applying the
/// extractor to the remainder.
pub proof fn lemma_span_shift(s: Seq<char>, key: Seq<char>, cut: int, i: int)
    requires
        0 <= cut <= s.len(),
    ensures
        is_open_at(s.skip(cut), key, i) <==> (0 <= i && is_open_at(s, key, i + cut)),
        is_close_at(s.skip(cut), key, i) <==> (0 <= i && is_close_at(s, key, i + cut)),
{
    let t = s.skip(cut);
    if 0 <= i && i + key.len() + 2 <= t.len() {
        assert(t.subrange(i + 1, i + 1 + key.len()) =~= s.subrange(
            cut + i + 1,
            cut + i + 1 + key.len(),
        ));
    }
    if 0 <= i && i + key.len() + 3 <= t.len() {
        assert(t.subrange(i + 2, i + 2 + key.len()) =~= s.subrange(
            cut + i + 2,
            cut + i + 2 + key.len(),
        ));
    }
}

/// Extracts an answer between tags, using the given opts as configuration.
///
/// Scans for the next `<key>` opening tag and the nearest `</key>` closing
/// tag after it. If both are found, returns the text strictly between them
/// together with the remaining text after the closing tag, so that repeated
/// calls walk every tagged section in order. An opening bracket that does not
/// begin a resolvable span is skipped. Returns `None` once no resolvable tag
/// pair is left.
pub fn tagged<'a>(text: &'a str, opts: &TagOptions) -> (r: Option<(&'a str, &'a str)>)
    ensures
        r is Some <==> has_tagged_span(text@, opts.key@),
        match r {
            Some((body, rest)) => exists|i: int, j: int|
                {
                    &&& #[trigger] is_open_at(text@, opts.key@, i)
                    &&& forall|i2: int|
                        0 <= i2 < i ==> !(#[trigger] is_open_at(text@, opts.key@, i2)
                            && has_close_from(text@, opts.key@, i2 + opts.key@.len() + 2))
                    &&& #[trigger] is_close_at(text@, opts.key@, j)
                    &&& i + opts.key@.len() + 2 <= j
                    &&& forall|j2: int|
                        i + opts.key@.len() + 2 <= j2 < j ==> !is_close_at(text@, opts.key@, j2)
                    &&& body@ == text@.subrange(i + opts.key@.len() + 2, j)
                    &&& rest@ == text@.subrange(j + opts.key@.len() + 3, text@.len() as int)
                },
            None => true,
        },
{
    let t = chars_of(text);
    let k = chars_of(opts.key.as_str());
    let n = t.len();
    let klen = k.len();
    let mut i: usize = 0;
    while i < n
        invariant
            t@ == text@,
            k@ == opts.key@,
            n == t@.len(),
            klen == k@.len(),
            i <= n,
            forall|i2: int|
                0 <= i2 < i ==> !(#[trigger] is_open_at(t@, k@, i2) && has_close_from(
                    t@,
                    k@,
                    i2 + k@.len() + 2,
                )),
        decreases n - i,
    {
        if open_tag_at(&t, &k, i) {
            // `is_open_at` bounds the body start within the text.
            let b = i + klen + 2;
            let mut j: usize = b;
            while j < n
                invariant
                    t@ == text@,
                    k@ == opts.key@,
                    n == t@.len(),
                    klen == k@.len(),
                    is_open_at(t@, k@, i as int),
                    b == i + klen + 2,
                    b <= j,
                    forall|i2: int|
                        0 <= i2 < i ==> !(#[trigger] is_open_at(t@, k@, i2) && has_close_from(
                            t@,
                            k@,
                            i2 + k@.len() + 2,
                        )),
                    forall|j2: int| b <= j2 < j ==> !is_close_at(t@, k@, j2),
                decreases n - j,
            {
                if close_tag_at(&t, &k, j) {
                    let body = text.substring_char(b, j);
                    let rest = text.substring_char(j + klen + 3, n);
                    proof {
                        let gi = i as int;
                        let gj = j as int;
                        assert(is_open_at(text@, opts.key@, gi) && has_close_from(
                            text@,
                            opts.key@,
                            gi + opts.key@.len() + 2,
                        ));
                        assert(has_tagged_span(text@, opts.key@));
                        assert({
                            &&& is_open_at(text@, opts.key@, gi)
                            &&& forall|i2: int|
                                0 <= i2 < gi ==> !(#[trigger] is_open_at(text@, opts.key@, i2)
                                    && has_close_from(text@, opts.key@, i2 + opts.key@.len() + 2))
                            &&& is_close_at(text@, opts.key@, gj)
                            &&& gi + opts.key@.len() + 2 <= gj
                            &&& forall|j2: int|
                                gi + opts.key@.len() + 2 <= j2 < gj ==> !is_close_at(
                                    text@,
                                    opts.key@,
                                    j2,
                                )
                            &&& body@ == text@.subrange(gi + opts.key@.len() + 2, gj)
                            &&& rest@ == text@.subrange(
                                gj + opts.key@.len() + 3,
                                text@.len() as int,
                            )
                        });
                    }
                    return Some((body, rest));
                }
                j = j + 1;
            }
            // No closing tag starts at or after this body; no opening tag at
            // or after this one can begin a resolvable span either.
            proof {
                assert forall|i2: int| #[trigger]
                    is_open_at(t@, k@, i2) implies !has_close_from(
                    t@,
                    k@,
                    i2 + k@.len() + 2,
                ) by {
                    if has_close_from(t@, k@, i2 + k@.len() + 2) {
                        let j2 = choose|j2: int|
                            i2 + k@.len() + 2 <= j2 && is_close_at(t@, k@, j2);
                        if i2 >= i {
                            assert(b <= j2 < n);
                            assert(!is_close_at(t@, k@, j2));
                        } else {
                            assert(!(is_open_at(t@, k@, i2) && has_close_from(
                                t@,
                                k@,
                                i2 + k@.len() + 2,
                            )));
                        }
                    }
                }
                assert(!has_tagged_span(text@, opts.key@));
            }
            return None;
        }
        i = i + 1;
    }
    proof {
        assert forall|i2: int| #[trigger] is_open_at(t@, k@, i2) implies !has_close_from(
            t@,
            k@,
            i2 + k@.len() + 2,
        ) by {
            assert(0 <= i2 < n);
            assert(!(is_open_at(t@, k@, i2) && has_close_from(t@, k@, i2 + k@.len() + 2)));
        }
        assert(!has_tagged_span(text@, opts.key@));
    }
    None
}

/// What `str::to_lowercase` returns; the result depends on the characters
/// alone.
pub uninterp spec fn lower_of(s: Seq<char>) -> Seq<char>;

/// What `str::trim` returns; the result depends on the characters alone.
pub uninterp spec fn trim_of(s: Seq<char>) -> Seq<char>;

/// Relies on str::to_lowercase: Unicode lowercasing of every character, a
/// function of the input characters alone.
#[verifier::external_body]
fn str_lower(s: &str) -> (r: String)
    ensures
        r@ == lower_of(s@),
{
    s.to_lowercase()
}

/// Relies on str::trim: removes leading and trailing whitespace, a function
/// of the input characters alone.
#[verifier::external_body]
fn str_trim(s: &str) -> (r: &str)
    ensures
        r@ == trim_of(s@),
{
    s.trim()
}

/// The position of the first newline in `s`, or `s.len()` when there is
/// none.
pub open spec fn first_nl(s: Seq<char>) -> int
    decreases s.len(),
{
    if s.len() == 0 {
        0
    } else if s[0] == '\n' {
        0
    } else {
        1 + first_nl(s.drop_first())
    }
}

/// Fixes the first newline position from what a scan saw: no newline before
/// `k`, and a newline at `k` itself unless `k` is the length.
proof fn lemma_first_nl_is(s: Seq<char>, k: int)
    requires
        0 <= k <= s.len(),
        forall|j: int| 0 <= j < k ==> s[j] != '\n',
        k < s.len() ==> s[k] == '\n',
    ensures
        first_nl(s) == k,
    decreases s.len(),
{
    if s.len() == 0 {
    } else if s[0] == '\n' {
    } else {
        lemma_first_nl_is(s.drop_first(), k - 1);
    }
}

/// The lines of `s`, split on newline characters; a text without newlines is
/// one line, and every newline ends a line, so `n` newlines give `n + 1`
/// lines.
pub open spec fn split_lines(s: Seq<char>) -> Seq<Seq<char>>
    decreases s.len(),
{
    let i = first_nl(s);
    if 0 <= i < s.len() {
        seq![s.take(i)] + split_lines(s.skip(i + 1))
    } else {
        seq![s]
    }
}

/// Splits a text into its lines.
fn split_lines_exec(text: &str) -> (lines: Vec<String>)
    ensures
        lines@.map_values(|l: String| l@) == split_lines(text@),
{
    let t = chars_of(text);
    let n = t.len();
    let mut lines: Vec<String> = Vec::new();
    let mut start: usize = 0;
    let mut i: usize = 0;
    proof {
        assert(text@.skip(0) =~= text@);
        assert(lines@.map_values(|l: String| l@) + split_lines(text@) =~= split_lines(text@));
    }
    while i < n
        invariant
            t@ == text@,
            n == t@.len(),
            start <= i <= n,
            forall|j: int| start <= j < i ==> t@[j] != '\n',
            split_lines(text@) =~= lines@.map_values(|l: String| l@) + split_lines(
                text@.skip(start as int),
            ),
        decreases n - i,
    {
        if t[i] == '\n' {
            let piece = String::from_str(text.substring_char(start, i));
            proof {
                let rest = text@.skip(start as int);
                lemma_first_nl_is(rest, i - start);
                assert(rest.take(i - start) =~= text@.subrange(start as int, i as int));
                assert(rest.skip(i - start + 1) =~= text@.skip(i + 1));
                assert((lines@.map_values(|l: String| l@) + split_lines(rest))
                    =~= (lines@.push(piece).map_values(|l: String| l@) + split_lines(
                    text@.skip(i + 1),
                )));
            }
            lines.push(piece);
            start = i + 1;
        }
        i = i + 1;
    }
    let piece = String::from_str(text.substring_char(start, n));
    proof {
        let rest = text@.skip(start as int);
        lemma_first_nl_is(rest, n - start);
        assert(rest =~= text@.subrange(start as int, n as int));
        assert(split_lines(rest) =~= seq![rest]);
        assert((lines@.map_values(|l: String| l@) + split_lines(rest))
            =~= lines@.push(piece).map_values(|l: String| l@));
    }
    lines.push(piece);
    lines
}

/// One code block found in a markdown document: its language tag, if any,
/// and its contents.
#[derive(Debug, PartialEq)]
pub struct CodeBlock {
    /// The language tag of the block, when it carries one.
    pub lang: Option<String>,
    /// The text inside the block.
    pub text: String,
}

impl View for CodeBlock {
    type V = (Option<Seq<char>>, Seq<char>);

    open spec fn view(&self) -> (Option<Seq<char>>, Seq<char>) {
        (
            match self.lang {
                Some(ref l) => Some(l@),
                None => None,
            },
            self.text@,
        )
    }
}

/// What parsing a markdown text yields: its code blocks in document order,
/// each as a (language tag, contents) pair.
pub uninterp spec fn md_code_blocks(text: Seq<char>) -> Seq<(Option<Seq<char>>, Seq<char>)>;

/// Relies on markdown::to_mdast: parses the text into a syntax tree, a
/// function of the text alone; with default options the parse never fails.
/// The walk collects the tree's code nodes in document order.
#[verifier::external_body]
fn parse_code_blocks(text: &str) -> (r: Vec<CodeBlock>)
    ensures
        r@.map_values(|b: CodeBlock| b@) == md_code_blocks(text@),
        text@.len() == 0 ==> r@.len() == 0,
{
    let opts = markdown::ParseOptions::default();
    let mut stack: Vec<markdown::mdast::Node> = markdown::to_mdast(text, &opts)
        .into_iter()
        .collect();
    let mut out = Vec::new();
    while let Some(node) = stack.pop() {
        if let Some(children) = node.children() {
            stack.extend(children.iter().rev().cloned());
        }
        if let markdown::mdast::Node::Code(code) = node {
            out.push(CodeBlock { lang: code.lang, text: code.value });
        }
    }
    out
}

/// Describes how to extract a code section from a block of text.
#[derive(Debug, PartialEq)]
pub struct MarkdownOptions {
    /// Whether the blocks are searched from the back of the document.
    pub from_back: bool,
    /// Whether a block without a language tag is refused when no language is
    /// requested.
    pub require_lang: bool,
    /// The language tag a block must carry, if one is requested.
    pub lang: Option<String>,
}

impl MarkdownOptions {
    /// The requested language as a sequence of characters.
    pub open spec fn lang_view(&self) -> Option<Seq<char>> {
        match self.lang {
            Some(ref l) => Some(l@),
            None => None,
        }
    }

    /// Looks for the trailing `json` code block.
    pub fn json() -> (r: Self)
        ensures
            r.from_back == true,
            r.require_lang == false,
            r.lang_view() == Some("json"@),
    {
        MarkdownOptions { from_back: true, require_lang: false, lang: Some(
            String::from_str("json"),
        ) }
    }

    /// Looks for the trailing `python` code block.
    pub fn python() -> (r: Self)
        ensures
            r.from_back == true,
            r.require_lang == false,
            r.lang_view() == Some("python"@),
    {
        MarkdownOptions { from_back: true, require_lang: false, lang: Some(
            String::from_str("python"),
        ) }
    }

    /// Switches the search to the leading matching block.
    pub fn leading(self) -> (r: Self)
        ensures
            r.from_back == false,
            r.require_lang == self.require_lang,
            r.lang_view() == self.lang_view(),
    {
        MarkdownOptions { from_back: false, ..self }
    }
}

/// Holds when a code block satisfies the request: the requested language
/// exactly equals its tag, or — when no language is requested and none is
/// required — the block carries no tag at all. A block with a different tag
/// is never treated as untagged.
pub open spec fn block_matches(
    b: (Option<Seq<char>>, Seq<char>),
    lang: Option<Seq<char>>,
    require_lang: bool,
) -> bool {
    match lang {
        Some(l) => b.0 == Some(l),
        None => b.0 is None && !require_lang,
    }
}

/// The contents of the first matching block, in document order.
pub open spec fn first_block(
    blocks: Seq<(Option<Seq<char>>, Seq<char>)>,
    lang: Option<Seq<char>>,
    require_lang: bool,
) -> Option<Seq<char>>
    decreases blocks.len(),
{
    if blocks.len() == 0 {
        None
    } else if block_matches(blocks[0], lang, require_lang) {
        Some(blocks[0].1)
    } else {
        first_block(blocks.drop_first(), lang, require_lang)
    }
}

/// The contents of the last matching block, in document order.
pub open spec fn last_block(
    blocks: Seq<(Option<Seq<char>>, Seq<char>)>,
    lang: Option<Seq<char>>,
    require_lang: bool,
) -> Option<Seq<char>>
    decreases blocks.len(),
{
    if blocks.len() == 0 {
        None
    } else if block_matches(blocks.last(), lang, require_lang) {
        Some(blocks.last().1)
    } else {
        last_block(blocks.drop_last(), lang, require_lang)
    }
}

/// The block the options pick out of a document's code blocks.
pub open spec fn selected_block(
    blocks: Seq<(Option<Seq<char>>, Seq<char>)>,
    lang: Option<Seq<char>>,
    require_lang: bool,
    from_back: bool,
) -> Option<Seq<char>> {
    if from_back {
        last_block(blocks, lang, require_lang)
    } else {
        first_block(blocks, lang, require_lang)
    }
}

/// Checks a block against the requested language.
fn block_matches_exec(b: &CodeBlock, lang: &Option<String>, require_lang: bool) -> (r: bool)
    ensures
        r == block_matches(
            b@,
            match lang {
                Some(l) => Some(l@),
                None => None,
            },
            require_lang,
        ),
{
    match (&b.lang, lang) {
        (Some(bl), Some(ol)) => {
            let blc = chars_of(bl.as_str());
            let olc = chars_of(ol.as_str());
            chars_eq(&blc, &olc)
        },
        (None, None) => !require_lang,
        _ => false,
    }
}

/// Picks the first (or, from the back, the last) matching block out of a
/// document's code blocks, per the options.
pub fn select_code_block(blocks: &Vec<CodeBlock>, opts: &MarkdownOptions) -> (r: Option<String>)
    ensures
        match r {
            Some(s) => selected_block(
                blocks@.map_values(|b: CodeBlock| b@),
                opts.lang_view(),
                opts.require_lang,
                opts.from_back,
            ) == Some(s@),
            None => selected_block(
                blocks@.map_values(|b: CodeBlock| b@),
                opts.lang_view(),
                opts.require_lang,
                opts.from_back,
            ) is None,
        },
{
    let ghost bs = blocks@.map_values(|b: CodeBlock| b@);
    if opts.from_back {
        let mut i: usize = blocks.len();
        proof {
            assert(bs.take(i as int) =~= bs);
        }
        while i > 0
            invariant
                bs == blocks@.map_values(|b: CodeBlock| b@),
                opts.from_back == true,
                i <= blocks@.len(),
                last_block(bs, opts.lang_view(), opts.require_lang) == last_block(
                    bs.take(i as int),
                    opts.lang_view(),
                    opts.require_lang,
                ),
            decreases i,
        {
            i = i - 1;
            proof {
                assert(bs[i as int] == blocks@[i as int]@);
                assert(bs.take(i + 1 as int).last() == bs[i as int]);
            }
            if block_matches_exec(&blocks[i], &opts.lang, opts.require_lang) {
                proof {
                    assert(last_block(bs.take(i + 1 as int), opts.lang_view(), opts.require_lang)
                        == Some(bs[i as int].1));
                    assert(last_block(bs, opts.lang_view(), opts.require_lang) == Some(
                        bs[i as int].1,
                    ));
                    assert(selected_block(bs, opts.lang_view(), opts.require_lang, opts.from_back)
                        == Some(bs[i as int].1));
                    assert(bs[i as int].1 == blocks@[i as int].text@);
                }
                return Some(blocks[i].text.clone());
            }
            proof {
                assert(bs.take(i + 1 as int).drop_last() =~= bs.take(i as int));
            }
        }
        proof {
            assert(bs.take(0) =~= Seq::<(Option<Seq<char>>, Seq<char>)>::empty());
        }
        None
    } else {
        let mut i: usize = 0;
        proof {
            assert(bs.skip(0) =~= bs);
        }
        while i < blocks.len()
            invariant
                bs == blocks@.map_values(|b: CodeBlock| b@),
                opts.from_back == false,
                i <= blocks@.len(),
                first_block(bs, opts.lang_view(), opts.require_lang) == first_block(
                    bs.skip(i as int),
                    opts.lang_view(),
                    opts.require_lang,
                ),
            decreases blocks.len() - i,
        {
            proof {
                assert(bs[i as int] == blocks@[i as int]@);
                assert(bs.skip(i as int)[0] == bs[i as int]);
            }
            if block_matches_exec(&blocks[i], &opts.lang, opts.require_lang) {
                proof {
                    assert(first_block(bs.skip(i as int), opts.lang_view(), opts.require_lang)
                        == Some(bs[i as int].1));
                    assert(first_block(bs, opts.lang_view(), opts.require_lang) == Some(
                        bs[i as int].1,
                    ));
                    assert(selected_block(bs, opts.lang_view(), opts.require_lang, opts.from_back)
                        == Some(bs[i as int].1));
                    assert(bs[i as int].1 == blocks@[i as int].text@);
                }
                return Some(blocks[i].text.clone());
            }
            proof {
                assert(bs.skip(i as int).drop_first() =~= bs.skip(i + 1 as int));
            }
            i = i + 1;
        }
        proof {
            assert(bs.skip(blocks@.len() as int) =~= Seq::<(Option<Seq<char>>, Seq<char>)>::empty());
        }
        None
    }
}

/// Extracts a leading or trailing markdown code block using the given opts
/// as configuration.
pub fn markdown_codeblock(text: &str, opts: &MarkdownOptions) -> (r: Option<String>)
    ensures
        match r {
            Some(s) => selected_block(
                md_code_blocks(text@),
                opts.lang_view(),
                opts.require_lang,
                opts.from_back,
            ) == Some(s@),
            None => selected_block(
                md_code_blocks(text@),
                opts.lang_view(),
                opts.require_lang,
                opts.from_back,
            ) is None,
        },
        text@.len() == 0 ==> r is None,
{
    let blocks = parse_code_blocks(text);
    proof {
        if text@.len() == 0 {
            assert(md_code_blocks(text@) =~= Seq::<(Option<Seq<char>>, Seq<char>)>::empty());
            assert(selected_block(
                md_code_blocks(text@),
                opts.lang_view(),
                opts.require_lang,
                opts.from_back,
            ) is None);
        }
    }
    select_code_block(&blocks, opts)
}

/// When a language is requested, the selected block always carries exactly
/// that tag: an untagged block or one with a different tag is never
/// returned, whichever direction the search runs.
pub proof fn lemma_selected_has_requested_lang(
    blocks: Seq<(Option<Seq<char>>, Seq<char>)>,
    lang: Seq<char>,
    require_lang: bool,
    from_back: bool,
)
    ensures
        selected_block(blocks, Some(lang), require_lang, from_back) matches Some(t)
            ==> exists|i: int|
            0 <= i < blocks.len() && #[trigger] blocks[i].0 == Some(lang) && blocks[i].1 == t,
    decreases blocks.len(),
{
    if blocks.len() == 0 {
    } else if from_back {
        if block_matches(blocks.last(), Some(lang), require_lang) {
            assert(blocks[blocks.len() - 1].0 == Some(lang));
        } else {
            lemma_selected_has_requested_lang(blocks.drop_last(), lang, require_lang, from_back);
            if selected_block(blocks, Some(lang), require_lang, from_back) is Some {
                let t = selected_block(blocks, Some(lang), require_lang, from_back)->0;
                let i = choose|i: int|
                    0 <= i < blocks.drop_last().len() && #[trigger] blocks.drop_last()[i].0
                        == Some(lang) && blocks.drop_last()[i].1 == t;
                assert(blocks[i].0 == Some(lang));
            }
        }
    } else {
        if block_matches(blocks[0], Some(lang), require_lang) {
            assert(blocks[0].0 == Some(lang));
        } else {
            lemma_selected_has_requested_lang(blocks.drop_first(), lang, require_lang, from_back);
            if selected_block(blocks, Some(lang), require_lang, from_back) is Some {
                let t = selected_block(blocks, Some(lang), require_lang, from_back)->0;
                let i = choose|i: int|
                    0 <= i < blocks.drop_first().len() && #[trigger] blocks.drop_first()[i].0
                        == Some(lang) && blocks.drop_first()[i].1 == t;
                assert(blocks[i + 1].0 == Some(lang));
            }
        }
    }
}

/// The direction flag decides which of several matching blocks is returned:
/// searching from the back picks the last matching block in document order,
/// a leading search picks the first, and either direction finds a block
/// exactly when some block matches.
pub proof fn lemma_selected_direction(
    blocks: Seq<(Option<Seq<char>>, Seq<char>)>,
    lang: Option<Seq<char>>,
    require_lang: bool,
    from_back: bool,
)
    ensures
        selected_block(blocks, lang, require_lang, from_back) is Some <==> exists|i: int|
            0 <= i < blocks.len() && #[trigger] block_matches(blocks[i], lang, require_lang),
        selected_block(blocks, lang, require_lang, from_back) matches Some(t) ==> exists|i: int|
            {
                &&& 0 <= i < blocks.len()
                &&& #[trigger] block_matches(blocks[i], lang, require_lang)
                &&& blocks[i].1 == t
                &&& if from_back {
                    forall|i2: int|
                        i < i2 < blocks.len() ==> !#[trigger] block_matches(
                            blocks[i2],
                            lang,
                            require_lang,
                        )
                } else {
                    forall|i2: int|
                        0 <= i2 < i ==> !#[trigger] block_matches(blocks[i2], lang, require_lang)
                }
            },
    decreases blocks.len(),
{
    if blocks.len() == 0 {
    } else if from_back {
        if block_matches(blocks.last(), lang, require_lang) {
            let gi = blocks.len() - 1;
            assert(block_matches(blocks[gi], lang, require_lang));
            assert forall|i2: int|
                gi < i2 < blocks.len() implies !#[trigger] block_matches(
                blocks[i2],
                lang,
                require_lang,
            ) by {
                assert(false);
            }
        } else {
            lemma_selected_direction(blocks.drop_last(), lang, require_lang, from_back);
            assert forall|i: int|
                0 <= i < blocks.len() && #[trigger] block_matches(
                    blocks[i],
                    lang,
                    require_lang,
                ) implies 0 <= i < blocks.drop_last().len() && block_matches(
                blocks.drop_last()[i],
                lang,
                require_lang,
            ) by {
                assert(i != blocks.len() - 1);
                assert(blocks.drop_last()[i] == blocks[i]);
            }
            if selected_block(blocks, lang, require_lang, from_back) is Some {
                let t = selected_block(blocks, lang, require_lang, from_back)->0;
                let i = choose|i: int|
                    {
                        &&& 0 <= i < blocks.drop_last().len()
                        &&& #[trigger] block_matches(blocks.drop_last()[i], lang, require_lang)
                        &&& blocks.drop_last()[i].1 == t
                        &&& forall|i2: int|
                            i < i2 < blocks.drop_last().len() ==> !#[trigger] block_matches(
                                blocks.drop_last()[i2],
                                lang,
                                require_lang,
                            )
                    };
                assert(block_matches(blocks[i], lang, require_lang));
                assert(blocks[i].1 == t);
                assert forall|i2: int|
                    i < i2 < blocks.len() implies !#[trigger] block_matches(
                    blocks[i2],
                    lang,
                    require_lang,
                ) by {
                    if i2 < blocks.len() - 1 {
                        assert(blocks.drop_last()[i2] == blocks[i2]);
                    }
                }
            }
        }
    } else {
        if block_matches(blocks[0], lang, require_lang) {
            assert forall|i2: int|
                0 <= i2 < 0 implies !#[trigger] block_matches(blocks[i2], lang, require_lang) by {
                assert(false);
            }
        } else {
            lemma_selected_direction(blocks.drop_first(), lang, require_lang, from_back);
            assert forall|i: int|
                0 <= i < blocks.len() && #[trigger] block_matches(
                    blocks[i],
                    lang,
                    require_lang,
                ) implies 1 <= i && block_matches(
                blocks.drop_first()[i - 1],
                lang,
                require_lang,
            ) by {
                assert(i != 0);
                assert(blocks.drop_first()[i - 1] == blocks[i]);
            }
            if selected_block(blocks, lang, require_lang, from_back) is Some {
                let t = selected_block(blocks, lang, require_lang, from_back)->0;
                let i = choose|i: int|
                    {
                        &&& 0 <= i < blocks.drop_first().len()
                        &&& #[trigger] block_matches(blocks.drop_first()[i], lang, require_lang)
                        &&& blocks.drop_first()[i].1 == t
                        &&& forall|i2: int|
                            0 <= i2 < i ==> !#[trigger] block_matches(
                                blocks.drop_first()[i2],
                                lang,
                                require_lang,
                            )
                    };
                assert(block_matches(blocks[i + 1], lang, require_lang));
                assert(blocks[i + 1].1 == t);
                assert forall|i2: int|
                    0 <= i2 < i + 1 implies !#[trigger] block_matches(
                    blocks[i2],
                    lang,
                    require_lang,
                ) by {
                    if i2 >= 1 {
                        assert(blocks.drop_first()[i2 - 1] == blocks[i2]);
                    }
                }
            }
        }
    }
}

/// Describes how to extract a multiclass/classification answer.
///
/// Expects the LLM to output in the form `<key>: <chosen class>` towards the
/// end of its output.
#[derive(Debug, PartialEq)]
pub struct EnumOptions {
    /// The marker an answer line starts with.
    pub key: String,
    /// The closed set of allowed class labels.
    pub classes: Vec<String>,
}

impl EnumOptions {
    /// Builds options over the given class labels, with the default key
    /// `answer`.
    pub fn from(classes: Vec<String>) -> (r: Self)
        ensures
            r.key@ == "answer"@,
            r.classes@ == classes@,
    {
        EnumOptions { key: String::from_str("answer"), classes }
    }
}

/// The trimmed remainder of an answer line: what stands after `<key>:` once
/// the line is trimmed and lowercased, or nothing if the line does not start
/// that way. `lkey` is the lowercased key.
pub open spec fn candidate_rem(line: Seq<char>, lkey: Seq<char>) -> Option<Seq<char>> {
    let t = lower_of(trim_of(line));
    if t.len() > lkey.len() && t.take(lkey.len() as int) == lkey && t[lkey.len() as int] == ':' {
        Some(trim_of(t.skip(lkey.len() + 1 as int)))
    } else {
        None
    }
}

/// Holds when an answer line names the given class: its trimmed remainder is
/// the lowercased class label.
pub open spec fn line_hits(line: Seq<char>, lkey: Seq<char>, cls: Seq<char>) -> bool {
    candidate_rem(line, lkey) == Some(lower_of(cls))
}

/// Extracts a trailing multiclass answer using the given opts as
/// configuration.
///
/// Splits the text into lines and scans from the last line toward the first;
/// a line is a candidate when, after trimming and lowercasing, it begins
/// with the key followed immediately by `:`; its trimmed remainder is
/// compared case-insensitively against the allowed classes. Returns the
/// first candidate's matched class — so the last such line in the text wins
/// — or `None` when no line matches.
pub fn multiclass(text: &str, opts: &EnumOptions) -> (r: Option<String>)
    ensures
        ({
            let lines = split_lines(text@);
            let lkey = lower_of(opts.key@);
            &&& (r is Some <==> exists|j: int, k: int|
                0 <= j < lines.len() && 0 <= k < opts.classes@.len() && #[trigger] line_hits(
                    lines[j],
                    lkey,
                    opts.classes@[k]@,
                ))
            &&& match r {
                Some(s) => exists|j: int, k: int|
                    {
                        &&& 0 <= j < lines.len()
                        &&& 0 <= k < opts.classes@.len()
                        &&& #[trigger] line_hits(lines[j], lkey, opts.classes@[k]@)
                        &&& s@ == opts.classes@[k]@
                        &&& forall|j2: int, k2: int|
                            j < j2 < lines.len() && 0 <= k2 < opts.classes@.len()
                                ==> !#[trigger] line_hits(lines[j2], lkey, opts.classes@[k2]@)
                        &&& forall|k2: int|
                            0 <= k2 < k ==> !#[trigger] line_hits(
                                lines[j],
                                lkey,
                                opts.classes@[k2]@,
                            )
                    },
                None => true,
            }
        }),
{
    let lines = split_lines_exec(text);
    let lkey = str_lower(opts.key.as_str());
    let keyc = chars_of(lkey.as_str());
    let mut j: usize = lines.len();
    while j > 0
        invariant
            lines@.map_values(|l: String| l@) == split_lines(text@),
            lkey@ == lower_of(opts.key@),
            keyc@ == lkey@,
            j <= lines@.len(),
            forall|j2: int, k2: int|
                j <= j2 < lines@.len() && 0 <= k2 < opts.classes@.len() ==> !#[trigger] line_hits(
                    split_lines(text@)[j2],
                    lower_of(opts.key@),
                    opts.classes@[k2]@,
                ),
        decreases j,
    {
        j = j - 1;
        let low = str_lower(str_trim(lines[j].as_str()));
        let lowc = chars_of(low.as_str());
        let mut cand: bool = lowc.len() > keyc.len();
        if cand {
            let mut m: usize = 0;
            while m < keyc.len()
                invariant
                    m <= keyc@.len(),
                    keyc@.len() < lowc@.len(),
                    cand ==> forall|p: int| 0 <= p < m ==> lowc@[p] == keyc@[p],
                    !cand ==> lowc@.take(keyc@.len() as int) != keyc@,
                decreases keyc.len() - m,
            {
                if lowc[m] != keyc[m] {
                    proof {
                        assert(lowc@.take(keyc@.len() as int)[m as int] != keyc@[m as int]);
                    }
                    cand = false;
                    m = keyc.len();
                } else {
                    m = m + 1;
                }
            }
            proof {
                if cand {
                    assert(lowc@.take(keyc@.len() as int) =~= keyc@);
                }
            }
            if cand && lowc[keyc.len()] == ':' {
                // The line is a candidate; compare its trimmed remainder
                // against each class in order.
                let rem = str_trim(low.as_str().substring_char(keyc.len() + 1, lowc.len()));
                let remc = chars_of(rem);
                proof {
                    assert(low@.subrange(keyc@.len() + 1 as int, lowc@.len() as int) =~= lower_of(
                        trim_of(lines@[j as int]@),
                    ).skip(keyc@.len() + 1 as int));
                    assert(candidate_rem(lines@[j as int]@, lower_of(opts.key@)) == Some(remc@));
                }
                let mut k: usize = 0;
                while k < opts.classes.len()
                    invariant
                        remc@ == trim_of(lower_of(trim_of(lines@[j as int]@)).skip(
                            lower_of(opts.key@).len() + 1 as int,
                        )),
                        candidate_rem(lines@[j as int]@, lower_of(opts.key@)) == Some(remc@),
                        j < lines@.len(),
                        lines@.map_values(|l: String| l@) == split_lines(text@),
                        k <= opts.classes@.len(),
                        forall|j2: int, k2: int|
                            j < j2 < lines@.len() && 0 <= k2 < opts.classes@.len()
                                ==> !#[trigger] line_hits(
                                split_lines(text@)[j2],
                                lower_of(opts.key@),
                                opts.classes@[k2]@,
                            ),
                        forall|k2: int|
                            0 <= k2 < k ==> !#[trigger] line_hits(
                                split_lines(text@)[j as int],
                                lower_of(opts.key@),
                                opts.classes@[k2]@,
                            ),
                    decreases opts.classes.len() - k,
                {
                    let lc = str_lower(opts.classes[k].as_str());
                    let lcc = chars_of(lc.as_str());
                    if chars_eq(&lcc, &remc) {
                        proof {
                            let gj = j as int;
                            let gk = k as int;
                            assert(split_lines(text@)[gj] == lines@[gj]@);
                            assert(line_hits(
                                split_lines(text@)[gj],
                                lower_of(opts.key@),
                                opts.classes@[gk]@,
                            ));
                        }
                        return Some(opts.classes[k].clone());
                    }
                    k = k + 1;
                }
                proof {
                    assert(forall|k2: int|
                        0 <= k2 < opts.classes@.len() ==> !#[trigger] line_hits(
                            split_lines(text@)[j as int],
                            lower_of(opts.key@),
                            opts.classes@[k2]@,
                        ));
                }
            } else {
                proof {
                    assert(candidate_rem(lines@[j as int]@, lower_of(opts.key@)) is None);
                }
            }
        } else {
            proof {
                assert(candidate_rem(lines@[j as int]@, lower_of(opts.key@)) is None);
            }
        }
    }
    None
}

} // verus!

