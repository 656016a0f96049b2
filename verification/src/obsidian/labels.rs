//! The labels of a configured field, for display.

use vstd::prelude::*;
use vstd::string::*;
use crate::obsidian::builtin::{are_builtin_matchers, get_matchers};
use crate::obsidian::markdown::{class_of, skip_class, CharClass};
use crate::obsidian::sections::{find_matcher, matcher_index, SectionMatcher};
use crate::text::{chars_of, leading_count, string_of_range, trim, trim_range};
use crate::text::lines::texts;

verus! {

/// `a` comes before `b` in the order of strings: at the first place where
/// they differ `a` has the smaller character, or `a` ends there and `b` does
/// not.
pub open spec fn comes_before(a: Seq<char>, b: Seq<char>) -> bool
    decreases a.len(),
{
    if b.len() == 0 {
        false
    } else if a.len() == 0 {
        true
    } else if a[0] != b[0] {
        a[0] < b[0]
    } else {
        comes_before(a.drop_first(), b.drop_first())
    }
}

/// The order is transitive.
pub proof fn lemma_comes_before_transitive(a: Seq<char>, b: Seq<char>, c: Seq<char>)
    requires
        comes_before(a, b),
        comes_before(b, c),
    ensures
        comes_before(a, c),
    decreases a.len(),
{
    if a.len() > 0 && a[0] == b[0] && b[0] == c[0] {
        lemma_comes_before_transitive(a.drop_first(), b.drop_first(), c.drop_first());
    }
}

/// Of two different strings exactly one comes before the other.
pub proof fn lemma_comes_before_total(a: Seq<char>, b: Seq<char>)
    ensures
        a == b || comes_before(a, b) || comes_before(b, a),
        !(comes_before(a, b) && comes_before(b, a)),
    decreases a.len(),
{
    if a.len() == 0 || b.len() == 0 {
        if a.len() == 0 && b.len() == 0 {
            assert(a =~= b);
        }
    } else if a[0] == b[0] {
        lemma_comes_before_total(a.drop_first(), b.drop_first());
        if a.drop_first() == b.drop_first() {
            assert(a =~= seq![a[0]] + a.drop_first());
            assert(b =~= seq![b[0]] + b.drop_first());
        }
    }
}

/// No string comes before itself.
pub proof fn lemma_comes_before_irreflexive(a: Seq<char>)
    ensures
        !comes_before(a, a),
    decreases a.len(),
{
    if a.len() > 0 {
        lemma_comes_before_irreflexive(a.drop_first());
    }
}

/// The strings are in strictly ascending order, so none occurs twice.
pub open spec fn strictly_ascending(items: Seq<Seq<char>>) -> bool {
    forall|i: int, j: int| 0 <= i < j < items.len() ==> comes_before(items[i], items[j])
}

/// The display form of a pattern: without its heading marks, trimmed.
pub open spec fn pattern_label(pattern: Seq<char>) -> Seq<char> {
    trim(pattern.skip(leading_count(pattern, class_of(CharClass::Hash)) as int))
}

/// `labels` are the display forms of `patterns`: in strictly ascending
/// order, each the form of some pattern, and the form of each pattern among
/// them.
pub open spec fn are_labels_of(labels: Seq<Seq<char>>, patterns: Seq<Seq<char>>) -> bool {
    &&& strictly_ascending(labels)
    &&& forall|i: int| 0 <= i < labels.len() ==> exists|k: int| 0 <= k < patterns.len() && #[trigger] labels[i] == pattern_label(#[trigger] patterns[k])
    &&& forall|k: int| 0 <= k < patterns.len() ==> labels.contains(#[trigger] pattern_label(patterns[k]))
}

fn is_before(a: &Vec<char>, b: &Vec<char>) -> (r: bool)
    ensures
        r == comes_before(a@, b@),
{
    let mut k: usize = 0;
    proof {
        assert(a@.skip(0) =~= a@);
        assert(b@.skip(0) =~= b@);
    }
    while k < a.len() && k < b.len()
        invariant
            k <= a.len(),
            k <= b.len(),
            comes_before(a@, b@) == comes_before(a@.skip(k as int), b@.skip(k as int)),
        decreases a.len() - k,
    {
        proof {
            let x = a@.skip(k as int);
            let y = b@.skip(k as int);
            assert(x[0] == a@[k as int]);
            assert(y[0] == b@[k as int]);
            assert(x.drop_first() =~= a@.skip(k + 1));
            assert(y.drop_first() =~= b@.skip(k + 1));
        }
        if a[k] != b[k] {
            return a[k] < b[k];
        }
        k += 1;
    }
    k < b.len()
}

fn same_chars(a: &Vec<char>, b: &Vec<char>) -> (r: bool)
    ensures
        r == (a@ == b@),
{
    if a.len() != b.len() {
        return false;
    }
    let mut k: usize = 0;
    while k < a.len()
        invariant
            a.len() == b.len(),
            k <= a.len(),
            forall|j: int| 0 <= j < k ==> a@[j] == b@[j],
        decreases a.len() - k,
    {
        if a[k] != b[k] {
            return false;
        }
        k += 1;
    }
    proof {
        assert(a@ =~= b@);
    }
    true
}

fn label_of_pattern(pattern: &str) -> (label: String)
    ensures
        label@ == pattern_label(pattern@),
{
    let v = chars_of(pattern);
    let i = skip_class(&v, 0, v.len(), CharClass::Hash);
    let (a, b) = trim_range(&v, i, v.len());
    proof {
        assert(v@.subrange(0, v@.len() as int) =~= v@);
        assert(v@.skip(i as int) =~= v@.subrange(i as int, v@.len() as int));
    }
    string_of_range(&v, a, b)
}

/// Puts `label` into the ascending list, unless it is there already.
fn insert_label(labels: &mut Vec<String>, label: String)
    requires
        strictly_ascending(texts(old(labels)@)),
    ensures
        strictly_ascending(texts(final(labels)@)),
        texts(final(labels)@).contains(label@),
        forall|s: Seq<char>| #[trigger]
            texts(final(labels)@).contains(s) <==> (texts(old(labels)@).contains(s) || s
                == label@),
{
    let ghost before = texts(labels@);
    let x = chars_of(label.as_str());
    let mut i: usize = 0;
    let mut placed = false;
    while i < labels.len() && !placed
        invariant
            i <= labels.len(),
            labels@ == old(labels)@,
            x@ == label@,
            strictly_ascending(before),
            forall|j: int| 0 <= j < i ==> comes_before(#[trigger] before[j], x@),
            before == texts(labels@),
            placed ==> i < labels.len() && comes_before(x@, before[i as int]),
        decreases labels.len() - i + (if placed {
            0int
        } else {
            1int
        }),
    {
        let y = chars_of(labels[i].as_str());
        proof {
            assert(before[i as int] == y@);
        }
        if same_chars(&y, &x) {
            proof {
                assert(before.contains(label@));
            }
            return ;
        }
        if is_before(&y, &x) {
            i += 1;
        } else {
            proof {
                lemma_comes_before_total(y@, x@);
            }
            placed = true;
        }
    }
    labels.insert(i, label);
    proof {
        let after = texts(labels@);
        assert(after =~= before.take(i as int).push(label@) + before.skip(i as int));
        assert forall|p: int, q: int| 0 <= p < q < after.len() implies comes_before(
            after[p],
            after[q],
        ) by {
            if q < i {
                assert(after[p] == before[p] && after[q] == before[q]);
            } else if q == i {
                assert(after[p] == before[p]);
            } else if p == i {
                assert(after[q] == before[q - 1]);
                if q - 1 > i {
                    lemma_comes_before_transitive(x@, before[i as int], before[q - 1]);
                }
            } else if p < i {
                assert(after[p] == before[p] && after[q] == before[q - 1]);
                if p == q - 1 {
                } else {
                }
            } else {
                assert(after[p] == before[p - 1] && after[q] == before[q - 1]);
            }
        }
        assert(after[i as int] == label@);
        assert forall|s: Seq<char>| #[trigger] after.contains(s) <==> (before.contains(s) || s
            == label@) by {
            if after.contains(s) {
                let k = choose|k: int| 0 <= k < after.len() && after[k] == s;
                if k < i {
                    assert(before[k] == s);
                } else if k > i {
                    assert(before[k - 1] == s);
                }
            }
            if before.contains(s) {
                let k = choose|k: int| 0 <= k < before.len() && before[k] == s;
                if k < i {
                    assert(after[k] == s);
                } else {
                    assert(after[k + 1] == s);
                }
            }
        }
    }
}

/// The labels of the patterns, sorted, each once.
pub fn labels_of_patterns(patterns: &Vec<String>) -> (labels: Vec<String>)
    ensures
        are_labels_of(texts(labels@), texts(patterns@)),
{
    let ghost ps = texts(patterns@);
    let mut labels: Vec<String> = Vec::new();
    let mut k: usize = 0;
    while k < patterns.len()
        invariant
            k <= patterns.len(),
            ps == texts(patterns@),
            are_labels_of(texts(labels@), ps.take(k as int)),
        decreases patterns.len() - k,
    {
        let ghost before = texts(labels@);
        let label = label_of_pattern(patterns[k].as_str());
        insert_label(&mut labels, label);
        proof {
            let after = texts(labels@);
            let prev = ps.take(k as int);
            let next = ps.take(k + 1);
            assert(next[k as int] == patterns@[k as int]@);
            assert forall|i: int| 0 <= i < after.len() implies exists|j: int|
                0 <= j < next.len() && #[trigger] after[i] == pattern_label(#[trigger] next[j]) by {
                assert(after.contains(after[i]));
                if before.contains(after[i]) {
                    let b = choose|b: int| 0 <= b < before.len() && before[b] == after[i];
                    let j = choose|j: int|
                        0 <= j < prev.len() && #[trigger] before[b] == pattern_label(
                            #[trigger] prev[j],
                        );
                    assert(next[j] == prev[j]);
                } else {
                    assert(after[i] == pattern_label(next[k as int]));
                }
            }
            assert forall|j: int| 0 <= j < next.len() implies after.contains(
                #[trigger] pattern_label(next[j]),
            ) by {
                if j < k {
                    assert(next[j] == prev[j]);
                    assert(before.contains(pattern_label(prev[j])));
                }
            }
        }
        k += 1;
    }
    proof {
        assert(ps.take(patterns@.len() as int) =~= ps);
    }
    labels
}

/// The labels of a configured field, in lowercase, sorted, each once; none
/// for a field that is not configured.
pub fn get_labels_for_field(field: &str) -> (labels: Vec<String>)
    ensures
        exists|matchers: Seq<SectionMatcher>| #[trigger]
            are_builtin_matchers(matchers) && match matcher_index(matchers, field@) {
                Some(i) => are_labels_of(texts(labels@), texts(matchers[i].patterns@)),
                None => labels@.len() == 0,
            },
{
    let matchers = get_matchers();
    match find_matcher(&matchers, field) {
        Some(matcher) => labels_of_patterns(&matcher.patterns),
        None => Vec::new(),
    }
}

} // verus!
