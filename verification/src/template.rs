use vstd::prelude::*;
use vstd::string::*;

use crate::error::AdapterError;
use crate::text::chars_of;

verus! {

/// The placeholder that stands for the container id in the template of a
/// bundle directory.
pub open spec fn placeholder() -> Seq<char> {
    "{container-id}"@
}

/// Whether `pattern` stands in `text` at index `at`.
pub open spec fn occurs_at(text: Seq<char>, pattern: Seq<char>, at: int) -> bool {
    &&& 0 <= at
    &&& at + pattern.len() <= text.len()
    &&& text.subrange(at, at + pattern.len()) == pattern
}

/// Whether `pattern` stands somewhere in `text`.
pub open spec fn occurs(text: Seq<char>, pattern: Seq<char>) -> bool {
    exists|at: int| occurs_at(text, pattern, at)
}

/// `text` with every occurrence of `pattern` replaced by `with`, found from
/// left to right, each search going on behind the occurrence before it. An
/// empty pattern occurs nowhere.
pub open spec fn substitute(text: Seq<char>, pattern: Seq<char>, with: Seq<char>) -> Seq<char>
    decreases text.len(),
{
    if pattern.len() == 0 || text.len() < pattern.len() {
        text
    } else if occurs_at(text, pattern, 0) {
        with + substitute(text.skip(pattern.len() as int), pattern, with)
    } else {
        text.take(1) + substitute(text.skip(1), pattern, with)
    }
}

/// `parts` put one after the other, with `separator` between neighbours.
pub open spec fn join(parts: Seq<Seq<char>>, separator: Seq<char>) -> Seq<char>
    decreases parts.len(),
{
    if parts.len() == 0 {
        Seq::empty()
    } else if parts.len() == 1 {
        parts[0]
    } else {
        parts[0] + separator + join(parts.drop_first(), separator)
    }
}

/// Whether `pattern` stands in `text` at index `at`.
fn stands_at(text: &Vec<char>, pattern: &Vec<char>, at: usize) -> (found: bool)
    requires
        at + pattern.len() <= text.len(),
    ensures
        found == occurs_at(text@, pattern@, at as int),
{
    let mut k: usize = 0;
    while k < pattern.len()
        invariant
            k <= pattern.len(),
            at + pattern.len() <= text.len(),
            forall|j: int| 0 <= j < k ==> text@[at + j] == pattern@[j],
        decreases pattern.len() - k,
    {
        if text[at + k] != pattern[k] {
            assert(text@.subrange(at as int, at + pattern.len())[k as int] != pattern@[k as int]);
            return false;
        }
        k += 1;
    }
    assert(text@.subrange(at as int, at + pattern.len()) =~= pattern@);
    true
}

/// The bundle directory of a container: the template with the container id
/// in place of each placeholder. A template without a placeholder is
/// rejected.
pub fn resolve(template: &str, container_id: &str) -> (path: Result<String, AdapterError>)
    ensures
        !occurs(template@, placeholder()) ==> path == Err::<String, AdapterError>(
            AdapterError::MissingPlaceholder,
        ),
        occurs(template@, placeholder()) ==> path is Ok && path->Ok_0@ == substitute(
            template@,
            placeholder(),
            container_id@,
        ),
{
    let text = chars_of(template);
    let pattern = chars_of("{container-id}");
    proof {
        reveal_strlit("{container-id}");
    }
    let mut out = String::new();
    let mut found = false;
    let mut copied: usize = 0;
    let mut at: usize = 0;
    assert(out@ + text@.subrange(0, 0) + text@.skip(0) =~= text@);
    assert(text@.skip(0) =~= text@);
    while pattern.len() <= text.len() - at
        invariant
            text@ == template@,
            pattern@ == placeholder(),
            pattern@.len() == 14,
            copied <= at <= text.len(),
            found ==> occurs(text@, pattern@),
            !found ==> forall|j: int| 0 <= j < at ==> !occurs_at(text@, pattern@, j),
            substitute(text@, pattern@, container_id@) == out@ + text@.subrange(
                copied as int,
                at as int,
            ) + substitute(text@.skip(at as int), pattern@, container_id@),
        decreases text.len() - at,
    {
        let ghost rest = text@.skip(at as int);
        if stands_at(&text, &pattern, at) {
            assert(occurs_at(rest, pattern@, 0)) by {
                assert(rest.subrange(0, pattern@.len() as int) =~= text@.subrange(
                    at as int,
                    at + pattern@.len(),
                ));
            }
            assert(rest.skip(pattern@.len() as int) =~= text@.skip(at + pattern@.len()));
            out.append(template.substring_char(copied, at));
            out.append(container_id);
            at += pattern.len();
            copied = at;
            found = true;
            assert(text@.subrange(copied as int, at as int) =~= Seq::<char>::empty());
        } else {
            assert(!occurs_at(rest, pattern@, 0)) by {
                assert(rest.subrange(0, pattern@.len() as int) =~= text@.subrange(
                    at as int,
                    at + pattern@.len(),
                ));
            }
            assert(rest.skip(1) =~= text@.skip(at + 1));
            assert(text@.subrange(copied as int, at as int) + rest.take(1) =~= text@.subrange(
                copied as int,
                at + 1,
            ));
            at += 1;
        }
    }
    out.append(template.substring_char(copied, text.len()));
    proof {
        assert(text@.subrange(copied as int, at as int) + text@.skip(at as int) =~= text@.subrange(
            copied as int,
            text@.len() as int,
        ));
        if !found {
            assert forall|j: int| !occurs_at(text@, pattern@, j) by {}
        }
    }
    if found {
        Ok(out)
    } else {
        Err(AdapterError::MissingPlaceholder)
    }
}

/// The placeholder is fourteen characters long and opens with a brace that
/// it holds nowhere else, so no two occurrences of it can overlap.
pub proof fn lemma_placeholder_shape()
    ensures
        placeholder().len() == 14,
        placeholder()[0] == '{',
        forall|k: int| 1 <= k < 14 ==> placeholder()[k] != '{',
{
    reveal_strlit("{container-id}");
}

/// What stands before the first occurrence of the pattern is kept as it
/// is.
proof fn lemma_prefix_is_kept(
    prefix: Seq<char>,
    rest: Seq<char>,
    pattern: Seq<char>,
    with: Seq<char>,
)
    requires
        pattern.len() > 0,
        forall|j: int| 0 <= j < prefix.len() ==> !occurs_at(prefix + rest, pattern, j),
    ensures
        substitute(prefix + rest, pattern, with) == prefix + substitute(rest, pattern, with),
    decreases prefix.len(),
{
    let text = prefix + rest;
    if prefix.len() == 0 {
        assert(text =~= rest);
        assert(prefix + substitute(rest, pattern, with) =~= substitute(rest, pattern, with));
    } else if text.len() < pattern.len() {
        assert(text =~= prefix + rest);
    } else {
        let shorter = prefix.skip(1);
        assert(text.skip(1) =~= shorter + rest);
        assert forall|j: int| 0 <= j < shorter.len() implies !occurs_at(
            shorter + rest,
            pattern,
            j,
        ) by {
            if occurs_at(shorter + rest, pattern, j) {
                assert(text.subrange(j + 1, j + 1 + pattern.len()) =~= (shorter + rest).subrange(
                    j,
                    j + pattern.len(),
                ));
                assert(occurs_at(text, pattern, j + 1));
            }
        }
        lemma_prefix_is_kept(shorter, rest, pattern, with);
        assert(!occurs_at(text, pattern, 0));
        assert(text.take(1) + (shorter + substitute(rest, pattern, with)) =~= prefix + substitute(
            rest,
            pattern,
            with,
        ));
    }
}

/// In a part that is free of the placeholder, followed by a placeholder, no
/// occurrence begins before that placeholder.
proof fn lemma_no_early_occurrence(part: Seq<char>, tail: Seq<char>, j: int)
    requires
        !occurs(part, placeholder()),
        0 <= j < part.len(),
    ensures
        !occurs_at(part + (placeholder() + tail), placeholder(), j),
{
    lemma_placeholder_shape();
    let text = part + (placeholder() + tail);
    if occurs_at(text, placeholder(), j) {
        if j + 14 <= part.len() {
            assert(part.subrange(j, j + 14) =~= text.subrange(j, j + 14));
            assert(occurs_at(part, placeholder(), j));
        } else {
            let k = part.len() - j;
            assert(text.subrange(j, j + 14)[k] == text[part.len() as int]);
            assert(text[part.len() as int] == placeholder()[0]);
        }
    }
}

/// Resolving changes the placeholders and nothing else. Whatever parts a
/// template is made of, with a placeholder between each two neighbours and
/// none inside a part, the resolved path is made of the same parts with the
/// container id between them; and the template holds a placeholder exactly
/// when it has more than one part.
pub proof fn law_only_placeholders_change(parts: Seq<Seq<char>>, container_id: Seq<char>)
    requires
        parts.len() >= 1,
        forall|k: int| 0 <= k < parts.len() ==> !occurs(#[trigger] parts[k], placeholder()),
    ensures
        substitute(join(parts, placeholder()), placeholder(), container_id) == join(
            parts,
            container_id,
        ),
        occurs(join(parts, placeholder()), placeholder()) <==> parts.len() >= 2,
    decreases parts.len(),
{
    lemma_placeholder_shape();
    let first = parts[0];
    if parts.len() == 1 {
        assert(first + Seq::<char>::empty() =~= first);
        lemma_prefix_is_kept(first, Seq::empty(), placeholder(), container_id);
        assert(first + substitute(Seq::empty(), placeholder(), container_id) =~= first);
    } else {
        let others = parts.drop_first();
        let tail = join(others, placeholder());
        let text = join(parts, placeholder());
        assert(text =~= first + (placeholder() + tail));
        assert forall|k: int| 0 <= k < others.len() implies !occurs(
            #[trigger] others[k],
            placeholder(),
        ) by {
            assert(others[k] == parts[k + 1]);
        }
        law_only_placeholders_change(others, container_id);
        assert forall|j: int| 0 <= j < first.len() implies !occurs_at(
            first + (placeholder() + tail),
            placeholder(),
            j,
        ) by {
            lemma_no_early_occurrence(first, tail, j);
        }
        lemma_prefix_is_kept(first, placeholder() + tail, placeholder(), container_id);
        let behind = placeholder() + tail;
        assert(behind.subrange(0, 14) =~= placeholder());
        assert(occurs_at(behind, placeholder(), 0));
        assert(behind.skip(14) =~= tail);
        assert(text.subrange(first.len() as int, first.len() as int + 14) =~= placeholder());
        assert(occurs_at(text, placeholder(), first.len() as int));
        assert(first + (container_id + join(others, container_id)) =~= join(parts, container_id));
    }
}

/// Where the pattern first occurs in a text; the length of the text where
/// it occurs nowhere.
pub open spec fn first_occurrence(text: Seq<char>, pattern: Seq<char>) -> int
    decreases text.len(),
{
    if text.len() < pattern.len() {
        text.len() as int
    } else if occurs_at(text, pattern, 0) {
        0
    } else if text.len() == 0 {
        0
    } else {
        1 + first_occurrence(text.skip(1), pattern)
    }
}

/// The parts of a text that lie between the occurrences of the pattern,
/// found from left to right.
pub open spec fn split(text: Seq<char>, pattern: Seq<char>) -> Seq<Seq<char>>
    decreases text.len(),
{
    let at = first_occurrence(text, pattern);
    if pattern.len() > 0 && 0 <= at && at + pattern.len() <= text.len() {
        seq![text.take(at)] + split(text.skip(at + pattern.len()), pattern)
    } else {
        seq![text]
    }
}

/// The first occurrence is an occurrence, and there is none before it.
proof fn lemma_first_occurrence(text: Seq<char>, pattern: Seq<char>)
    requires
        pattern.len() > 0,
    ensures
        0 <= first_occurrence(text, pattern) <= text.len(),
        forall|j: int|
            0 <= j < first_occurrence(text, pattern) ==> !occurs_at(text, pattern, j),
        first_occurrence(text, pattern) + pattern.len() <= text.len() ==> occurs_at(
            text,
            pattern,
            first_occurrence(text, pattern),
        ),
        first_occurrence(text, pattern) + pattern.len() > text.len() ==> !occurs(text, pattern),
    decreases text.len(),
{
    if text.len() < pattern.len() {
    } else if occurs_at(text, pattern, 0) {
    } else {
        let rest = text.skip(1);
        lemma_first_occurrence(rest, pattern);
        let at = first_occurrence(rest, pattern);
        assert forall|j: int| 0 <= j < 1 + at implies !occurs_at(text, pattern, j) by {
            if j > 0 && occurs_at(text, pattern, j) {
                assert(rest.subrange(j - 1, j - 1 + pattern.len()) =~= text.subrange(
                    j,
                    j + pattern.len(),
                ));
                assert(occurs_at(rest, pattern, j - 1));
            }
        }
        if at + pattern.len() <= rest.len() {
            assert(text.subrange(1 + at, 1 + at + pattern.len()) =~= rest.subrange(
                at,
                at + pattern.len(),
            ));
        } else {
            assert forall|j: int| !occurs_at(text, pattern, j) by {
                if occurs_at(text, pattern, j) {
                    assert(j >= 1 + at);
                }
            }
        }
    }
}

/// A text is its parts with the pattern between them, and no part holds
/// the pattern.
pub proof fn lemma_split_joins(text: Seq<char>, pattern: Seq<char>)
    requires
        pattern.len() > 0,
    ensures
        split(text, pattern).len() >= 1,
        join(split(text, pattern), pattern) == text,
        forall|k: int|
            0 <= k < split(text, pattern).len() ==> !occurs(
                #[trigger] split(text, pattern)[k],
                pattern,
            ),
    decreases text.len(),
{
    lemma_first_occurrence(text, pattern);
    let at = first_occurrence(text, pattern);
    if at + pattern.len() <= text.len() {
        let head = text.take(at);
        let rest = text.skip(at + pattern.len());
        let parts = split(text, pattern);
        lemma_split_joins(rest, pattern);
        assert(parts.drop_first() =~= split(rest, pattern));
        assert(parts[0] == head);
        assert(head + pattern + rest =~= text) by {
            assert(text.subrange(at, at + pattern.len()) == pattern);
        }
        assert(!occurs(head, pattern)) by {
            assert forall|j: int| !occurs_at(head, pattern, j) by {
                if occurs_at(head, pattern, j) {
                    assert(text.subrange(j, j + pattern.len()) =~= head.subrange(
                        j,
                        j + pattern.len(),
                    ));
                    assert(occurs_at(text, pattern, j));
                }
            }
        }
        assert forall|k: int| 0 <= k < parts.len() implies !occurs(#[trigger] parts[k], pattern) by {
            if k > 0 {
                assert(parts[k] == split(rest, pattern)[k - 1]);
            }
        }
    }
}

/// Resolving changes the placeholders and nothing else, whatever the
/// template and the container id. The template is its parts with a
/// placeholder between each two neighbours, no part holds a placeholder,
/// and the resolved path is the same parts with the container id between
/// them.
pub proof fn law_resolve_keeps_the_parts(template: Seq<char>, container_id: Seq<char>)
    ensures
        join(split(template, placeholder()), placeholder()) == template,
        forall|k: int|
            0 <= k < split(template, placeholder()).len() ==> !occurs(
                #[trigger] split(template, placeholder())[k],
                placeholder(),
            ),
        substitute(template, placeholder(), container_id) == join(
            split(template, placeholder()),
            container_id,
        ),
        occurs(template, placeholder()) <==> split(template, placeholder()).len() >= 2,
{
    lemma_placeholder_shape();
    lemma_split_joins(template, placeholder());
    law_only_placeholders_change(split(template, placeholder()), container_id);
}

} // verus!
