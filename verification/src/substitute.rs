//! Ordered byte-pattern substitution over HTML bodies.
//!
//! Each rule performs a global replacement of all non-overlapping
//! occurrences, scanned left to right, and later rules operate on the output
//! of earlier ones. A rule with an empty pattern is treated as a no-op.

use vstd::prelude::*;

verus! {

/// `h` with every non-overlapping occurrence of `n`, scanned left to right,
/// replaced by `r`.
pub open spec fn replace_all(h: Seq<u8>, n: Seq<u8>, r: Seq<u8>) -> Seq<u8>
    recommends
        n.len() > 0,
    decreases h.len(),
{
    if n.len() == 0 || h.len() < n.len() {
        h
    } else if h.subrange(0, n.len() as int) == n {
        r + replace_all(h.skip(n.len() as int), n, r)
    } else {
        seq![h[0]] + replace_all(h.skip(1), n, r)
    }
}

/// The rules applied in order: rule `k + 1` operates on the output of rule
/// `k`. Rules with an empty pattern leave the body unchanged.
pub open spec fn apply_replacements(body: Seq<u8>, rules: Seq<(Seq<u8>, Seq<u8>)>) -> Seq<u8>
    decreases rules.len(),
{
    if rules.len() == 0 {
        body
    } else {
        let stepped = if rules[0].0.len() == 0 {
            body
        } else {
            replace_all(body, rules[0].0, rules[0].1)
        };
        apply_replacements(stepped, rules.skip(1))
    }
}

/// The view of an executable rule list.
pub open spec fn rules_view(rules: Seq<(Vec<u8>, Vec<u8>)>) -> Seq<(Seq<u8>, Seq<u8>)> {
    rules.map_values(|p: (Vec<u8>, Vec<u8>)| (p.0@, p.1@))
}

/// Relies on bstr's `ByteSlice::replace`: it replaces every non-overlapping
/// occurrence of `needle` in `haystack`, scanned left to right, with `rep`.
#[verifier::external_body]
fn bstr_replace(haystack: &Vec<u8>, needle: &Vec<u8>, rep: &Vec<u8>) -> (r: Vec<u8>)
    requires
        needle@.len() > 0,
    ensures
        r@ == replace_all(haystack@, needle@, rep@),
{
    bstr::ByteSlice::replace(haystack.as_slice(), needle.as_slice(), rep.as_slice())
}

/// Applies the policy's ordered substitution rules to a buffered body.
pub fn apply_html_replaces(body: Vec<u8>, rules: &Vec<(Vec<u8>, Vec<u8>)>) -> (r: Vec<u8>)
    ensures
        r@ == apply_replacements(body@, rules_view(rules@)),
{
    let ghost all_rules = rules_view(rules@);
    let mut acc = body;
    let mut i: usize = 0;
    proof {
        assert(all_rules.skip(0) =~= all_rules);
    }
    while i < rules.len()
        invariant
            0 <= i <= rules.len(),
            all_rules == rules_view(rules@),
            apply_replacements(acc@, all_rules.skip(i as int)) == apply_replacements(
                body@,
                all_rules,
            ),
        decreases rules.len() - i,
    {
        let ghost acc_pre = acc@;
        let needle = &rules[i].0;
        if needle.len() > 0 {
            acc = bstr_replace(&acc, needle, &rules[i].1);
        }
        proof {
            assert(all_rules.skip(i as int).skip(1) =~= all_rules.skip(i + 1));
            assert(apply_replacements(acc_pre, all_rules.skip(i as int))
                == apply_replacements(acc@, all_rules.skip(i + 1)));
        }
        i = i + 1;
    }
    proof {
        assert(all_rules.skip(rules@.len() as int).len() == 0);
    }
    acc
}

/// An empty substitution list leaves a body untouched, so resolving with a
/// no-op rule list never alters bytes.
pub proof fn lemma_replacements_noop(body: Seq<u8>, rules: Seq<(Seq<u8>, Seq<u8>)>)
    requires
        rules.len() == 0,
    ensures
        apply_replacements(body, rules) == body,
{
}

/// Substitution is order-sensitive: the rule list is applied head first, and
/// the remaining rules operate on the head rule's output.
pub proof fn lemma_replacement_order(body: Seq<u8>, rules: Seq<(Seq<u8>, Seq<u8>)>)
    requires
        rules.len() > 0,
        rules[0].0.len() > 0,
    ensures
        apply_replacements(body, rules) == apply_replacements(
            replace_all(body, rules[0].0, rules[0].1),
            rules.skip(1),
        ),
{
}

} // verus!
