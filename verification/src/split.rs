//! The field separator of the authentication message, and a spec-level model
//! of splitting a character sequence on it, with the lemmas that relate
//! splitting to concatenation.

use vstd::prelude::*;

verus! {

/// The field separator of the authentication message.
pub open spec fn sep() -> char {
    '|'
}

/// How many separator characters `s` holds.
pub open spec fn count_sep(s: Seq<char>) -> nat
    decreases s.len(),
{
    if s.len() == 0 {
        0
    } else {
        count_sep(s.drop_last()) + if s.last() == sep() {
            1nat
        } else {
            0nat
        }
    }
}

/// The fields of `s`, split on the separator. A sequence with no separator
/// is one field; each separator ends the field before it.
pub open spec fn split_fields(s: Seq<char>) -> Seq<Seq<char>>
    decreases s.len(),
{
    if s.len() == 0 {
        seq![Seq::<char>::empty()]
    } else {
        let prev = split_fields(s.drop_last());
        if s.last() == sep() {
            prev.push(Seq::<char>::empty())
        } else {
            prev.update(prev.len() - 1, prev.last().push(s.last()))
        }
    }
}

/// Splitting yields one field more than there are separators.
pub proof fn lemma_split_len(s: Seq<char>)
    ensures
        split_fields(s).len() == count_sep(s) + 1,
    decreases s.len(),
{
    if s.len() > 0 {
        lemma_split_len(s.drop_last());
    }
}

/// A sequence without separators has no separator at any position.
pub proof fn lemma_count_sep_zero(s: Seq<char>)
    ensures
        count_sep(s) == 0 <==> (forall|i: int| 0 <= i < s.len() ==> #[trigger] s[i] != sep()),
    decreases s.len(),
{
    if s.len() > 0 {
        lemma_count_sep_zero(s.drop_last());
        assert(forall|i: int|
            0 <= i < s.len() - 1 ==> #[trigger] s.drop_last()[i] == s[i]);
        if count_sep(s) == 0 {
            assert(forall|i: int| 0 <= i < s.len() ==> #[trigger] s[i] != sep()) by {
                assert(s.last() != sep());
                assert(forall|i: int|
                    0 <= i < s.len() - 1 ==> #[trigger] s[i] == s.drop_last()[i]);
            }
        }
    }
}

/// Counting separators distributes over concatenation.
pub proof fn lemma_count_sep_append(a: Seq<char>, b: Seq<char>)
    ensures
        count_sep(a + b) == count_sep(a) + count_sep(b),
    decreases b.len(),
{
    if b.len() == 0 {
        assert(a + b =~= a);
    } else {
        lemma_count_sep_append(a, b.drop_last());
        assert((a + b).drop_last() =~= a + b.drop_last());
        assert((a + b).last() == b.last());
    }
}

/// A sequence without separators splits into the single field it is.
pub proof fn lemma_split_no_sep(s: Seq<char>)
    requires
        count_sep(s) == 0,
    ensures
        split_fields(s) == seq![s],
    decreases s.len(),
{
    if s.len() == 0 {
        assert(split_fields(s) =~~= seq![s]);
    } else {
        lemma_split_no_sep(s.drop_last());
        assert(s.last() != sep());
        assert(split_fields(s) =~~= seq![s]) by {
            assert(s.drop_last().push(s.last()) =~= s);
        }
    }
}

/// Appending a separator and then a separator-free field appends exactly
/// that field to the split.
pub proof fn lemma_split_append(a: Seq<char>, b: Seq<char>)
    requires
        count_sep(b) == 0,
    ensures
        split_fields(a + seq![sep()] + b) == split_fields(a).push(b),
    decreases b.len(),
{
    if b.len() == 0 {
        let s = a + seq![sep()] + b;
        assert(s =~= a.push(sep()));
        assert(s.drop_last() =~= a);
        assert(s.last() == sep());
        assert(split_fields(s) =~~= split_fields(a).push(b));
    } else {
        lemma_split_append(a, b.drop_last());
        let s = a + seq![sep()] + b;
        assert(s.drop_last() =~= a + seq![sep()] + b.drop_last());
        assert(s.last() == b.last());
        assert(b.last() != sep());
        let prev = split_fields(a).push(b.drop_last());
        assert(split_fields(s) == prev.update(prev.len() - 1, prev.last().push(b.last())));
        assert(prev.last() == b.drop_last());
        assert(b.drop_last().push(b.last()) =~= b);
        assert(split_fields(s) =~~= split_fields(a).push(b));
    }
}

} // verus!
