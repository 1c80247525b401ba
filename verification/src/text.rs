//! From a fetched page to readable text: the documentation is taken out of
//! the page, converted to Markdown, and its runs of blank lines are cut
//! down to one blank line.

use vstd::prelude::*;
use crate::error::DocError;
use crate::extract::{extract, extract_spec};
use crate::markdown::{converted_to, html_to_md};

verus! {

/// Configuration options for fetching Rust documentation.
#[derive(PartialEq, Eq, Debug)]
pub struct Config {
    /// The name of the crate to fetch documentation for.
    pub crate_name: String,
    /// Optional path to a specific item within the crate.
    pub item_path: Option<String>,
    /// Whether to fetch documentation from docs.rs instead of building locally.
    pub online: bool,
}

/// Whether position `i` of `s` holds a line break that follows two others.
pub open spec fn is_excess_newline(s: Seq<char>, i: int) -> bool {
    2 <= i < s.len() && s[i] == '\n' && s[i - 1] == '\n' && s[i - 2] == '\n'
}

/// The text without its excess line breaks: every character stays, in its
/// place, but a line break that follows two line breaks.
pub open spec fn normalize(s: Seq<char>) -> Seq<char>
    decreases s.len(),
{
    if s.len() == 0 {
        s
    } else if is_excess_newline(s, s.len() - 1) {
        normalize(s.drop_last())
    } else {
        normalize(s.drop_last()).push(s.last())
    }
}

/// How many line breaks end `s`, counted up to two.
pub open spec fn tail_run(s: Seq<char>) -> int {
    if s.len() >= 1 && s.last() == '\n' {
        if s.len() >= 2 && s[s.len() - 2] == '\n' {
            2
        } else {
            1
        }
    } else {
        0
    }
}

/// `n` line breaks.
pub open spec fn newlines(n: nat) -> Seq<char> {
    Seq::new(n, |i: int| '\n')
}

/// How often `c` occurs in `s`.
pub open spec fn occurrences(s: Seq<char>, c: char) -> nat
    decreases s.len(),
{
    if s.len() == 0 {
        0
    } else {
        occurrences(s.drop_last(), c) + if s.last() == c {
            1nat
        } else {
            0nat
        }
    }
}

/// Clean up the markdown output to make it more readable in terminal: of
/// three or more line breaks in a row the first two stay, and nothing else
/// changes.
pub fn clean_markdown(markdown: &str) -> (cleaned: String)
    ensures
        cleaned@ == normalize(markdown@),
        cleaned@.len() <= markdown@.len(),
{
    let mut result = String::new();
    let mut run: u8 = 0;
    for c in it: markdown.chars()
        invariant
            it.seq() == markdown@,
            result@ == normalize(markdown@.take(it.index())),
            run == tail_run(markdown@.take(it.index())),
    {
        proof {
            let i = it.index();
            assert(markdown@.take(i + 1).drop_last() == markdown@.take(i));
            assert(markdown@.take(i + 1).last() == c);
        }
        if c == '\n' {
            if run < 2 {
                result.push(c);
                run += 1;
            }
        } else {
            run = 0;
            result.push(c);
        }
    }
    proof {
        assert(markdown@.take(markdown@.len() as int) == markdown@);
        lemma_normalize_counts(markdown@, '\n');
    }
    result
}

/// What processing the page `html` gives: the documentation region is
/// extracted, converted and cleaned, and the first stage to fail decides
/// the error.
pub open spec fn processed(html: Seq<char>, result: Result<String, DocError>) -> bool {
    match extract_spec(html) {
        Ok(region) => converted_to(region, result),
        Err(error) => result matches Err(e) && e@ == error,
    }
}

/// Process HTML content to extract and convert relevant documentation parts
/// to Markdown.
pub fn process_html_content(html: &str) -> (result: Result<String, DocError>)
    ensures
        processed(html@, result),
{
    match extract(html) {
        Ok(region) => html_to_md(region.as_str()),
        Err(error) => Err(error),
    }
}

/// The cleaned text ends in as many line breaks as the text did, up to two.
pub proof fn lemma_normalize_tail_run(s: Seq<char>)
    ensures
        tail_run(normalize(s)) == tail_run(s),
    decreases s.len(),
{
    if s.len() > 0 {
        let t = s.drop_last();
        lemma_normalize_tail_run(t);
        if t.len() > 0 {
            lemma_normalize_tail_run(t.drop_last());
        }
    }
}

/// The cleaned text never holds three line breaks in a row.
pub proof fn lemma_normalize_no_long_run(s: Seq<char>)
    ensures
        forall|i: int| !is_excess_newline(normalize(s), i),
    decreases s.len(),
{
    if s.len() > 0 {
        let t = s.drop_last();
        lemma_normalize_no_long_run(t);
        lemma_normalize_tail_run(t);
        let nt = normalize(t);
        if !is_excess_newline(s, s.len() - 1) {
            assert forall|i: int| !is_excess_newline(nt.push(s.last()), i) by {
                if is_excess_newline(nt.push(s.last()), i) {
                    if i < nt.len() {
                        assert(is_excess_newline(nt, i));
                    } else {
                        assert(tail_run(nt) == 2);
                    }
                }
            }
        }
    }
}

/// A text without three line breaks in a row is left as it is: runs of one
/// and of two line breaks do not change.
pub proof fn lemma_normalize_keeps_short_runs(s: Seq<char>)
    requires
        forall|i: int| !is_excess_newline(s, i),
    ensures
        normalize(s) == s,
    decreases s.len(),
{
    if s.len() > 0 {
        let t = s.drop_last();
        assert forall|i: int| !is_excess_newline(t, i) by {
            if is_excess_newline(t, i) {
                assert(is_excess_newline(s, i));
            }
        }
        lemma_normalize_keeps_short_runs(t);
        assert(!is_excess_newline(s, s.len() - 1));
        assert(t.push(s.last()) == s);
    }
}

/// Cleaning twice is cleaning once.
pub proof fn lemma_normalize_idempotent(s: Seq<char>)
    ensures
        normalize(normalize(s)) == normalize(s),
{
    lemma_normalize_no_long_run(s);
    lemma_normalize_keeps_short_runs(normalize(s));
}

/// What begins with no line break is cleaned on its own, whatever text
/// stands before it.
pub proof fn lemma_normalize_append(a: Seq<char>, b: Seq<char>)
    requires
        b.len() == 0 || b.first() != '\n',
    ensures
        normalize(a + b) == normalize(a) + normalize(b),
    decreases b.len(),
{
    if b.len() == 0 {
        assert(a + b == a);
        assert(normalize(a) + normalize(b) == normalize(a));
    } else {
        let s = a + b;
        let t = b.drop_last();
        assert(s.drop_last() == a + t);
        assert(s.last() == b.last());
        lemma_normalize_append(a, t);
        let j = b.len() - 1;
        assert(is_excess_newline(s, s.len() - 1) == is_excess_newline(b, j)) by {
            if j >= 1 {
                assert(s[a.len() + j - 1] == b[j - 1]);
            }
            if j >= 2 {
                assert(s[a.len() + j - 2] == b[j - 2]);
            }
            assert(s[a.len() + j] == b[j]);
            assert(s[a.len() as int] == b[0]);
        }
        if !is_excess_newline(b, j) {
            assert((normalize(a) + normalize(t)).push(b.last()) == normalize(a) + normalize(
                t,
            ).push(b.last()));
        }
    }
}

/// A run of `n` line breaks after a text that ends in none is cut to two
/// where it is longer, and kept whole where it is not.
pub proof fn lemma_normalize_run_after(a: Seq<char>, n: nat)
    requires
        a.len() == 0 || a.last() != '\n',
    ensures
        normalize(a + newlines(n)) == normalize(a) + newlines(
            if n >= 2 {
                2
            } else {
                n
            },
        ),
    decreases n,
{
    if n == 0 {
        assert(a + newlines(0) == a);
        assert(normalize(a) + newlines(0) == normalize(a));
    } else {
        let m = (n - 1) as nat;
        let s = a + newlines(n);
        assert(s.drop_last() == a + newlines(m));
        assert(s.last() == '\n');
        lemma_normalize_run_after(a, m);
        let i = s.len() - 1;
        if m >= 2 {
            assert(s[i - 1] == newlines(n)[m - 1]);
            assert(s[i - 2] == newlines(n)[m - 2]);
            assert(is_excess_newline(s, i));
        } else if m == 1 {
            assert(!is_excess_newline(s, i)) by {
                if a.len() > 0 {
                    assert(s[i - 2] == a.last());
                }
            }
            assert((normalize(a) + newlines(1)).push('\n') == normalize(a) + newlines(2));
        } else {
            assert(!is_excess_newline(s, i)) by {
                if a.len() > 0 {
                    assert(s[i - 1] == a.last());
                }
            }
            assert((normalize(a) + newlines(0)).push('\n') == normalize(a) + newlines(1));
        }
    }
}

/// A run of line breaks between two texts, the first ending and the second
/// beginning with another character, comes out as two line breaks where it
/// was three or more, and unchanged where it was shorter; what stands on
/// either side is cleaned on its own.
pub proof fn lemma_normalize_run(a: Seq<char>, n: nat, b: Seq<char>)
    requires
        a.len() == 0 || a.last() != '\n',
        b.len() == 0 || b.first() != '\n',
    ensures
        n >= 3 ==> normalize(a + newlines(n) + b) == normalize(a) + newlines(2) + normalize(b),
        n <= 2 ==> normalize(a + newlines(n) + b) == normalize(a) + newlines(n) + normalize(b),
{
    lemma_normalize_append(a + newlines(n), b);
    lemma_normalize_run_after(a, n);
}

/// Cleaning adds no character: every character but the line break occurs
/// as often as before, and the line break no more often than before.
pub proof fn lemma_normalize_counts(s: Seq<char>, c: char)
    ensures
        c != '\n' ==> occurrences(normalize(s), c) == occurrences(s, c),
        occurrences(normalize(s), c) <= occurrences(s, c),
        normalize(s).len() <= s.len(),
    decreases s.len(),
{
    if s.len() > 0 {
        let t = s.drop_last();
        lemma_normalize_counts(t, c);
        if !is_excess_newline(s, s.len() - 1) {
            assert(normalize(t).push(s.last()).drop_last() == normalize(t));
        }
    }
}

} // verus!
