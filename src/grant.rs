use vstd::prelude::*;
use vstd::string::*;

use crate::scope::{Scope, ScopeList};

verus! {

/// The pieces of `s` between single spaces, as `str::split(' ')` gives them:
/// two spaces in a row give an empty piece, and there is always one piece.
pub open spec fn split_spaces(s: Seq<char>) -> Seq<Seq<char>>
    decreases s.len(),
{
    if s.len() == 0 {
        seq![Seq::empty()]
    } else {
        let before = split_spaces(s.drop_last());
        if s.last() == ' ' {
            before.push(Seq::empty())
        } else {
            before.update(before.len() - 1, before.last().push(s.last()))
        }
    }
}

/// The words of `words` written one after the other, one space between two.
pub open spec fn joined_words(words: Seq<Seq<char>>) -> Seq<char>
    decreases words.len(),
{
    if words.len() <= 1 {
        if words.len() == 1 {
            words[0]
        } else {
            Seq::empty()
        }
    } else {
        joined_words(words.drop_last()) + " "@ + words.last()
    }
}

/// Whether every scope of `required` has its name among `words`.
pub open spec fn grants(words: Seq<Seq<char>>, required: Seq<Scope>) -> bool {
    forall|i: int| 0 <= i < required.len() ==> words.contains(#[trigger] required[i].spec_name())
}

/// Relies on `str::split` with a `char` pattern: the substrings of `s` that
/// lie between the occurrences of `' '`, in order, empty ones included.
#[verifier::external_body]
fn split_on_space(s: &str) -> (r: Vec<&str>)
    ensures
        r@.len() == split_spaces(s@).len(),
        forall|i: int| 0 <= i < r@.len() ==> #[trigger] r@[i]@ == split_spaces(s@)[i],
{
    s.split(' ').collect()
}

/// Whether two texts hold the same characters.
pub fn same_text(a: &str, b: &str) -> (r: bool)
    ensures
        r == (a@ == b@),
{
    a.to_owned() == b.to_owned()
}

proof fn lemma_push_contains<A>(s: Seq<A>, e: A, x: A)
    ensures
        s.push(e).contains(x) <==> (s.contains(x) || e == x),
{
    let t = s.push(e);
    if s.contains(x) {
        let i = choose|i: int| 0 <= i < s.len() && s[i] == x;
        assert(t[i] == x);
    }
    if e == x {
        assert(t[s.len() as int] == x);
    }
    if t.contains(x) {
        let i = choose|i: int| 0 <= i < t.len() && t[i] == x;
        if i < s.len() {
            assert(s[i] == x);
        }
    }
}

/// Whether the space-separated scope names in `granted` include the name of
/// every scope of `required`. Names that match no required scope are ignored.
pub fn granted_covers(granted: &str, required: &ScopeList) -> (r: bool)
    ensures
        r == grants(split_spaces(granted@), required@),
{
    let words = split_on_space(granted);
    let ghost ws = split_spaces(granted@);
    let n = required.len();
    let mut present: Vec<bool> = Vec::new();
    let mut j: usize = 0;
    while j < n
        invariant
            n == required@.len(),
            j <= n,
            present@.len() == j,
            forall|m: int| 0 <= m < j ==> !present@[m],
        decreases n - j,
    {
        present.push(false);
        j += 1;
    }
    let mut k: usize = 0;
    while k < words.len()
        invariant
            n == required@.len(),
            ws == split_spaces(granted@),
            words@.len() == ws.len(),
            forall|i: int| 0 <= i < words@.len() ==> #[trigger] words@[i]@ == ws[i],
            k <= words@.len(),
            present@.len() == n,
            forall|m: int|
                0 <= m < n ==> present@[m] == ws.take(k as int).contains(
                    #[trigger] required@[m].spec_name(),
                ),
        decreases words@.len() - k,
    {
        let word = words[k];
        proof {
            assert(ws.take(k + 1) =~= ws.take(k as int).push(ws[k as int]));
        }
        let mut j: usize = 0;
        while j < n
            invariant
                n == required@.len(),
                words@.len() == ws.len(),
                k < words@.len(),
                word@ == ws[k as int],
                ws.take(k + 1) == ws.take(k as int).push(ws[k as int]),
                j <= n,
                present@.len() == n,
                forall|m: int|
                    0 <= m < j ==> present@[m] == ws.take(k + 1).contains(
                        #[trigger] required@[m].spec_name(),
                    ),
                forall|m: int|
                    j <= m < n ==> present@[m] == ws.take(k as int).contains(
                        #[trigger] required@[m].spec_name(),
                    ),
            decreases n - j,
        {
            let scope = required.get(j);
            proof {
                lemma_push_contains(ws.take(k as int), ws[k as int], scope.spec_name());
            }
            if !present[j] && same_text(word, scope.name()) {
                present.set(j, true);
            }
            j += 1;
        }
        k += 1;
    }
    assert(ws.take(k as int) =~= ws);
    let mut j: usize = 0;
    while j < n
        invariant
            n == required@.len(),
            ws == split_spaces(granted@),
            present@.len() == n,
            j <= n,
            forall|m: int|
                0 <= m < n ==> present@[m] == ws.contains(#[trigger] required@[m].spec_name()),
            forall|m: int| 0 <= m < j ==> ws.contains(#[trigger] required@[m].spec_name()),
        decreases n - j,
    {
        if !present[j] {
            assert(!ws.contains(required@[j as int].spec_name()));
            return false;
        }
        j += 1;
    }
    true
}

/// Whether no word of `words` holds a space.
pub open spec fn spaceless(words: Seq<Seq<char>>) -> bool {
    forall|i: int| 0 <= i < words.len() ==> !(#[trigger] words[i]).contains(' ')
}

proof fn lemma_split_after_space(front: Seq<char>, word: Seq<char>)
    requires
        !word.contains(' '),
    ensures
        split_spaces(front + " "@ + word) == split_spaces(front).push(word),
    decreases word.len(),
{
    reveal_strlit(" ");
    let s = front + " "@ + word;
    if word.len() == 0 {
        assert(s.drop_last() =~= front);
        assert(s.last() == ' ');
        assert(Seq::<char>::empty() =~= word);
    } else {
        let shorter = word.drop_last();
        assert forall|i: int| 0 <= i < shorter.len() implies shorter[i] != ' ' by {
            assert(word[i] == shorter[i]);
        }
        lemma_split_after_space(front, shorter);
        assert(s.drop_last() =~= front + " "@ + shorter);
        assert(s.last() == word.last());
        assert(word.last() != ' ') by {
            assert(word[word.len() - 1] == word.last());
        }
        assert(shorter.push(word.last()) =~= word);
        assert(split_spaces(front).push(shorter).update(
            split_spaces(front).len() as int,
            shorter.push(word.last()),
        ) =~= split_spaces(front).push(word));
    }
}

proof fn lemma_split_single(word: Seq<char>)
    requires
        !word.contains(' '),
    ensures
        split_spaces(word) == seq![word],
    decreases word.len(),
{
    if word.len() == 0 {
        assert(word =~= Seq::<char>::empty());
    } else {
        let shorter = word.drop_last();
        assert forall|i: int| 0 <= i < shorter.len() implies shorter[i] != ' ' by {
            assert(word[i] == shorter[i]);
        }
        lemma_split_single(shorter);
        assert(word.last() != ' ') by {
            assert(word[word.len() - 1] == word.last());
        }
        assert(shorter.push(word.last()) =~= word);
        assert(seq![shorter].update(0, shorter.push(word.last())) =~= seq![word]);
    }
}

/// Splitting words joined by single spaces gives the words back, when none
/// of them holds a space.
pub proof fn lemma_split_joined(words: Seq<Seq<char>>)
    requires
        words.len() >= 1,
        spaceless(words),
    ensures
        split_spaces(joined_words(words)) == words,
    decreases words.len(),
{
    if words.len() == 1 {
        assert(!words[0].contains(' '));
        lemma_split_single(words[0]);
        assert(seq![words[0]] =~= words);
    } else {
        let init = words.drop_last();
        assert forall|i: int| 0 <= i < init.len() implies !(#[trigger] init[i]).contains(' ') by {
            assert(init[i] == words[i]);
        }
        lemma_split_joined(init);
        assert(!words[words.len() - 1].contains(' '));
        lemma_split_after_space(joined_words(init), words.last());
        assert(init.push(words.last()) =~= words);
    }
}

/// A granted string made of words that include the name of every required
/// scope passes validation, whatever other words it holds.
pub proof fn lemma_validation_accepts_superset(required: ScopeList, granted: Seq<Seq<char>>)
    requires
        granted.len() >= 1,
        spaceless(granted),
        forall|s: Scope| required@.contains(s) ==> granted.contains(s.spec_name()),
    ensures
        grants(split_spaces(joined_words(granted)), required@),
{
    lemma_split_joined(granted);
    assert forall|i: int| 0 <= i < required@.len() implies granted.contains(
        #[trigger] required@[i].spec_name(),
    ) by {
        assert(required@.contains(required@[i]));
    }
}

/// A granted string whose words lack the name of one required scope fails
/// validation, whatever other words it holds.
pub proof fn lemma_validation_rejects_missing(
    required: ScopeList,
    granted: Seq<Seq<char>>,
    missing: Scope,
)
    requires
        granted.len() >= 1,
        spaceless(granted),
        required@.contains(missing),
        !granted.contains(missing.spec_name()),
    ensures
        !grants(split_spaces(joined_words(granted)), required@),
{
    lemma_split_joined(granted);
    let i = choose|i: int| 0 <= i < required@.len() && required@[i] == missing;
    assert(!granted.contains(required@[i].spec_name()));
}

} // verus!
