//! Prompt-template substitution.
//!
//! A prompt template contains the literal placeholder `{{PROMPT}}`; building
//! the final prompt replaces every occurrence of the placeholder with the
//! resolved text, scanning left to right without overlap, and alters no
//! other character.

use vstd::prelude::*;
use vstd::string::*;

use crate::command::PromptMode;

verus! {

/// The literal placeholder that prompt templates mark the resolved text with.
pub open spec fn placeholder() -> Seq<char> {
    "{{PROMPT}}"@
}

/// `text` with every occurrence of `pat` replaced by `rep`: the leftmost
/// occurrence is replaced first and scanning resumes after the replacement,
/// so occurrences never overlap. With no occurrence, `text` is unchanged.
pub open spec fn replace_all(text: Seq<char>, pat: Seq<char>, rep: Seq<char>) -> Seq<char>
    decreases text.len(),
{
    if pat.len() == 0 || text.len() == 0 {
        text
    } else if text.len() >= pat.len() && text.subrange(0, pat.len() as int) == pat {
        rep + replace_all(text.skip(pat.len() as int), pat, rep)
    } else {
        seq![text[0]] + replace_all(text.skip(1), pat, rep)
    }
}

/// The final prompt for a generation: the resolved text verbatim when
/// autocompleting, otherwise the template with every placeholder occurrence
/// replaced by the resolved text.
pub open spec fn final_prompt(mode: PromptMode, resolved: Seq<char>) -> Seq<char> {
    match mode {
        PromptMode::Autocomplete => resolved,
        PromptMode::Prompt(t) => replace_all(t@, placeholder(), resolved),
    }
}

/// Whether the placeholder occurs in `template` at character position `i`.
fn placeholder_at(template: &str, i: usize) -> (r: bool)
    requires
        i + 10 <= template@.len(),
        template@.len() <= usize::MAX,
    ensures
        r == (template@.subrange(i as int, i as int + 10) == placeholder()),
{
    let pat: &str = "{{PROMPT}}";
    proof {
        reveal_strlit("{{PROMPT}}");
    }
    let mut j: usize = 0;
    while j < 10
        invariant
            j <= 10,
            i + 10 <= template@.len(),
            template@.len() <= usize::MAX,
            pat@ == placeholder(),
            pat@.len() == 10,
            forall|m: int| 0 <= m < j ==> template@[i + m] == placeholder()[m],
        decreases 10 - j,
    {
        if template.get_char(i + j) != pat.get_char(j) {
            proof {
                assert(template@.subrange(i as int, i as int + 10)[j as int] != placeholder()[j as int]);
            }
            return false;
        }
        j = j + 1;
    }
    proof {
        assert(template@.subrange(i as int, i as int + 10) =~= placeholder());
    }
    true
}

/// Replaces every occurrence of the literal placeholder `{{PROMPT}}` in
/// `template` by `resolved`, leftmost first, altering no other character.
pub fn replace_placeholder(template: &str, resolved: &str) -> (out: String)
    ensures
        out@ == replace_all(template@, placeholder(), resolved@),
{
    proof {
        reveal_strlit("{{PROMPT}}");
    }
    let n: usize = template.unicode_len();
    let mut out = String::new();
    let mut i: usize = 0;
    proof {
        assert(template@.skip(0) =~= template@);
        assert(out@ + replace_all(template@, placeholder(), resolved@) =~= replace_all(
            template@,
            placeholder(),
            resolved@,
        ));
    }
    while i < n
        invariant
            i <= n,
            n == template@.len(),
            placeholder().len() == 10,
            replace_all(template@, placeholder(), resolved@) == out@ + replace_all(
                template@.skip(i as int),
                placeholder(),
                resolved@,
            ),
        decreases n - i,
    {
        let ghost rest = template@.skip(i as int);
        if n - i >= 10 && placeholder_at(template, i) {
            proof {
                assert(rest.subrange(0, 10) =~= template@.subrange(i as int, i as int + 10));
                assert(rest.skip(10) =~= template@.skip(i + 10));
            }
            out.append(resolved);
            i = i + 10;
        } else {
            proof {
                if rest.len() >= 10 {
                    assert(rest.subrange(0, 10) =~= template@.subrange(i as int, i as int + 10));
                }
                assert(rest.skip(1) =~= template@.skip(i + 1));
                assert(seq![rest[0]] =~= template@.subrange(i as int, i as int + 1));
            }
            let piece = template.substring_char(i, i + 1);
            out.append(piece);
            i = i + 1;
        }
    }
    proof {
        assert(template@.skip(n as int) =~= Seq::<char>::empty());
    }
    out
}

/// Builds the final prompt for a generation from the prompt mode and the
/// resolved text, exactly as `final_prompt` prescribes.
pub fn build_prompt(mode: &PromptMode, resolved: &str) -> (p: String)
    ensures
        p@ == final_prompt(*mode, resolved@),
{
    match mode {
        PromptMode::Autocomplete => String::from_str(resolved),
        PromptMode::Prompt(t) => replace_placeholder(t.as_str(), resolved),
    }
}

} // verus!
