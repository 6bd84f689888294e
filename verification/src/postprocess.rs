//! The post-processor: removes the end-of-turn marker that a dialect leaves
//! in a complete output, then trims whitespace.
//!
//! There is one rule per dialect:
//!
//! | Dialect | What is removed before trimming |
//! |---|---|
//! | Baichuan2 | every trailing `用户:` |
//! | OpenChat | every trailing `<|end_of_turn|>` |
//! | DeepseekChat | every trailing `<|end_of_sentence|>` |
//! | BelleLlama2Chat | every trailing `Human:` |
//! | Zephyr, MistralLite | every trailing `</s><` where the output holds a `</s><` anywhere, else the trailing `</s>` |
//! | ChatML | all from the first `<|im_start|>` or `<|im_end|>` on |
//! | any other | nothing |
//!
//! A marker counts as trailing only where the output ends with it:
//! whitespace after a marker shields it. ChatML is cut at the first marker
//! rather than cleaned of markers in place, so that nothing of a turn that
//! the model went on to invent survives.
use vstd::prelude::*;
use crate::template::TemplateKind;
use crate::text::{
    chars_of, contains, find, find_in, leading_spaces, lemma_find_from, lemma_find_none,
    lemma_leading_spaces_bounds, lemma_trailing_spaces_bounds, lemma_trim_end_matches,
    lemma_trim_idempotent, lemma_trim_is_no_longer, occurs_at, string_of, trailing_spaces, trim,
    trim_bounds, trim_end_matches, trim_end_matches_len,
};

verus! {

/// `s` up to the first occurrence of `a` or of `b`, whichever comes first;
/// all of `s` where neither occurs.
pub open spec fn before_first(s: Seq<char>, a: Seq<char>, b: Seq<char>) -> Seq<char> {
    match (find(s, a), find(s, b)) {
        (Some(i), Some(j)) => if i <= j {
            s.take(i)
        } else {
            s.take(j)
        },
        (Some(i), None) => s.take(i),
        (None, Some(j)) => s.take(j),
        (None, None) => s,
    }
}

/// The marker that the rule of `kind` removes from the end of `output`;
/// `None` for ChatML and for the dialects without a rule of their own.
pub open spec fn trailing_marker(output: Seq<char>, kind: TemplateKind) -> Option<Seq<char>> {
    match kind {
        TemplateKind::Baichuan2 => Some("用户:"@),
        TemplateKind::OpenChat => Some("<|end_of_turn|>"@),
        TemplateKind::DeepseekChat => Some("<|end_of_sentence|>"@),
        TemplateKind::BelleLlama2Chat => Some("Human:"@),
        TemplateKind::Zephyr | TemplateKind::MistralLite => if contains(output, "</s><"@) {
            Some("</s><"@)
        } else {
            Some("</s>"@)
        },
        _ => None,
    }
}

/// `output` without the marker that the rule of `kind` removes.
pub open spec fn unmarked(output: Seq<char>, kind: TemplateKind) -> Seq<char> {
    if kind == TemplateKind::ChatML {
        before_first(output, "<|im_start|>"@, "<|im_end|>"@)
    } else {
        match trailing_marker(output, kind) {
            Some(marker) => trim_end_matches(output, marker),
            None => output,
        }
    }
}

/// What `strip` returns: `output` without the marker of `kind`, trimmed.
pub open spec fn stripped(output: Seq<char>, kind: TemplateKind) -> Seq<char> {
    trim(unmarked(output, kind))
}

/// `text` ends with the marker that the rule of `kind` removes from it.
pub open spec fn ends_with_marker(text: Seq<char>, kind: TemplateKind) -> bool {
    match trailing_marker(text, kind) {
        Some(marker) => marker.is_suffix_of(text),
        None => false,
    }
}

/// The rule of `kind` finds nothing to remove from what `strip` returned
/// for `output`.
pub open spec fn settled(output: Seq<char>, kind: TemplateKind) -> bool {
    unmarked(stripped(output, kind), kind) == stripped(output, kind)
}

/// No marker is empty.
proof fn lemma_markers_are_not_empty(text: Seq<char>, kind: TemplateKind)
    ensures
        trailing_marker(text, kind) matches Some(marker) ==> marker.len() > 0,
        "<|im_start|>"@.len() > 0,
        "<|im_end|>"@.len() > 0,
{
    reveal_strlit("用户:");
    reveal_strlit("<|end_of_turn|>");
    reveal_strlit("<|end_of_sentence|>");
    reveal_strlit("Human:");
    reveal_strlit("</s><");
    reveal_strlit("</s>");
    reveal_strlit("<|im_start|>");
    reveal_strlit("<|im_end|>");
}

/// A text in which `needle` does not occur holds it in no part either.
proof fn lemma_absent_in_part(s: Seq<char>, needle: Seq<char>, from: int, to: int)
    requires
        0 <= from <= to <= s.len(),
        forall|j: int| 0 <= j ==> !occurs_at(s, needle, j),
    ensures
        find(s.subrange(from, to), needle) is None,
{
    let part = s.subrange(from, to);
    assert forall|j: int| 0 <= j implies !occurs_at(part, needle, j) by {
        if occurs_at(part, needle, j) {
            assert(s.subrange(from + j, from + j + needle.len()) =~= part.subrange(
                j,
                j + needle.len(),
            ));
            assert(occurs_at(s, needle, from + j));
        }
    }
    lemma_find_none(part, needle);
}

/// Neither `a` nor `b` occurs in `before_first(s, a, b)`.
proof fn lemma_before_first_is_clear(s: Seq<char>, a: Seq<char>, b: Seq<char>)
    requires
        a.len() > 0,
        b.len() > 0,
    ensures
        before_first(s, a, b).is_prefix_of(s),
        forall|j: int| 0 <= j ==> !occurs_at(before_first(s, a, b), a, j),
        forall|j: int| 0 <= j ==> !occurs_at(before_first(s, a, b), b, j),
{
    let cut = before_first(s, a, b);
    lemma_find_from(s, a, 0);
    lemma_find_from(s, b, 0);
    assert(cut =~= s.subrange(0, cut.len() as int));
    assert forall|j: int| 0 <= j implies !occurs_at(cut, a, j) by {
        if occurs_at(cut, a, j) {
            assert(s.subrange(j, j + a.len()) =~= cut.subrange(j, j + a.len()));
            assert(occurs_at(s, a, j));
        }
    }
    assert forall|j: int| 0 <= j implies !occurs_at(cut, b, j) by {
        if occurs_at(cut, b, j) {
            assert(s.subrange(j, j + b.len()) =~= cut.subrange(j, j + b.len()));
            assert(occurs_at(s, b, j));
        }
    }
}

/// What a rule keeps of a text is a beginning of that text.
pub proof fn lemma_unmarked_is_prefix(text: Seq<char>, kind: TemplateKind)
    ensures
        unmarked(text, kind).is_prefix_of(text),
{
    lemma_markers_are_not_empty(text, kind);
    if kind == TemplateKind::ChatML {
        lemma_before_first_is_clear(text, "<|im_start|>"@, "<|im_end|>"@);
    } else {
        match trailing_marker(text, kind) {
            Some(marker) => {
                lemma_trim_end_matches(text, marker);
            },
            None => {
                assert(text =~= text.subrange(0, text.len() as int));
            },
        }
    }
}

/// A rule leaves a stripped text as it is exactly where that text does not
/// end with the marker of the rule. ChatML and the dialects without a rule
/// of their own leave every stripped text as it is.
pub proof fn lemma_settled_iff_no_marker_is_left(output: Seq<char>, kind: TemplateKind)
    ensures
        settled(output, kind) <==> !ends_with_marker(stripped(output, kind), kind),
{
    let text = stripped(output, kind);
    lemma_markers_are_not_empty(text, kind);
    if kind == TemplateKind::ChatML {
        let a = "<|im_start|>"@;
        let b = "<|im_end|>"@;
        let cut = before_first(output, a, b);
        lemma_before_first_is_clear(output, a, b);
        let lead = leading_spaces(cut) as int;
        let rest = cut.skip(lead);
        let keep = rest.len() - trailing_spaces(rest);
        lemma_leading_spaces_bounds(cut);
        lemma_trailing_spaces_bounds(rest);
        assert(text =~= cut.subrange(lead, lead + keep));
        lemma_absent_in_part(cut, a, lead, lead + keep);
        lemma_absent_in_part(cut, b, lead, lead + keep);
    } else {
        match trailing_marker(text, kind) {
            Some(marker) => {
                lemma_trim_end_matches(text, marker);
                if marker.is_suffix_of(text) {
                    lemma_trim_end_matches(text.take(text.len() - marker.len()), marker);
                }
            },
            None => {},
        }
    }
}

/// Stripping is idempotent exactly where the first pass left no marker for
/// the second to remove: stripping the stripped text gives it back
/// unchanged if and only if that text does not end with the marker of its
/// dialect.
///
/// The condition can fail. Whitespace after a marker shields it from the
/// first pass and is then trimmed away, so the second pass finds the marker
/// at the end.
pub proof fn lemma_strip_idempotent(output: Seq<char>, kind: TemplateKind)
    ensures
        stripped(stripped(output, kind), kind) == stripped(output, kind) <==> !ends_with_marker(
            stripped(output, kind),
            kind,
        ),
{
    let text = stripped(output, kind);
    lemma_settled_iff_no_marker_is_left(output, kind);
    lemma_trim_idempotent(unmarked(output, kind));
    if !settled(output, kind) {
        lemma_unmarked_is_prefix(text, kind);
        lemma_trim_is_no_longer(unmarked(text, kind));
        let kept = unmarked(text, kind);
        if kept.len() == text.len() {
            assert(kept =~= text);
        }
    }
}

/// For ChatML and for every dialect without a rule of its own, stripping is
/// idempotent on every output.
pub proof fn lemma_strip_idempotent_without_trailing_rule(output: Seq<char>, kind: TemplateKind)
    requires
        trailing_marker(stripped(output, kind), kind) is None,
    ensures
        stripped(stripped(output, kind), kind) == stripped(output, kind),
{
    lemma_strip_idempotent(output, kind);
}

/// The length of what the rule of `kind` keeps of `chars`.
fn unmarked_len(chars: &Vec<char>, kind: TemplateKind) -> (len: usize)
    ensures
        len <= chars@.len(),
        chars@.take(len as int) == unmarked(chars@, kind),
{
    let n: usize = chars.len();
    assert(chars@.take(n as int) =~= chars@);
    match kind {
        TemplateKind::Baichuan2 => trim_end_matches_len(chars, n, &chars_of("用户:")),
        TemplateKind::OpenChat => trim_end_matches_len(chars, n, &chars_of("<|end_of_turn|>")),
        TemplateKind::DeepseekChat => trim_end_matches_len(
            chars,
            n,
            &chars_of("<|end_of_sentence|>"),
        ),
        TemplateKind::BelleLlama2Chat => trim_end_matches_len(chars, n, &chars_of("Human:")),
        TemplateKind::Zephyr | TemplateKind::MistralLite => {
            match find_in(chars, n, &chars_of("</s><")) {
                Some(_) => trim_end_matches_len(chars, n, &chars_of("</s><")),
                None => trim_end_matches_len(chars, n, &chars_of("</s>")),
            }
        },
        TemplateKind::ChatML => {
            let start = find_in(chars, n, &chars_of("<|im_start|>"));
            let end = find_in(chars, n, &chars_of("<|im_end|>"));
            proof {
                lemma_find_from(chars@, "<|im_start|>"@, 0);
                lemma_find_from(chars@, "<|im_end|>"@, 0);
            }
            match (start, end) {
                (Some(i), Some(j)) => if i <= j {
                    i
                } else {
                    j
                },
                (Some(i), None) => i,
                (None, Some(j)) => j,
                (None, None) => n,
            }
        },
        _ => n,
    }
}

/// Removes from a complete output the end-of-turn marker of its dialect,
/// then the whitespace around what is left.
pub fn strip(output: &str, kind: TemplateKind) -> (text: String)
    ensures
        text@ == stripped(output@, kind),
{
    let mut chars = chars_of(output);
    let len = unmarked_len(&chars, kind);
    chars.truncate(len);
    let (from, to) = trim_bounds(&chars);
    string_of(&chars, from, to)
}

} // verus!
