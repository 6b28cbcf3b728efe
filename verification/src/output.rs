use vstd::prelude::*;

use crate::fetcher::{spec_names, SearchResult};

verus! {

/// The newline-joined text of a list of names: the names in order, one
/// `'\n'` between each neighbouring pair, nothing before the first or
/// after the last.
pub open spec fn joined_lines(names: Seq<Seq<char>>) -> Seq<char>
    decreases names.len(),
{
    if names.len() == 0 {
        Seq::empty()
    } else if names.len() == 1 {
        names[0]
    } else {
        names[0] + seq!['\n'] + joined_lines(names.drop_first())
    }
}

proof fn lemma_joined_snoc(names: Seq<Seq<char>>, last: Seq<char>)
    ensures
        joined_lines(names.push(last)) == if names.len() == 0 {
            last
        } else {
            joined_lines(names) + seq!['\n'] + last
        },
    decreases names.len(),
{
    let p = names.push(last);
    if names.len() == 0 {
        assert(p.len() == 1);
        assert(p[0] == last);
    } else if names.len() == 1 {
        assert(p[0] == names[0]);
        assert(p.drop_first() =~= seq![last]);
        assert(joined_lines(p.drop_first()) == last);
    } else {
        assert(p[0] == names[0]);
        assert(p.drop_first() =~= names.drop_first().push(last));
        lemma_joined_snoc(names.drop_first(), last);
        assert(joined_lines(p) =~= joined_lines(names) + seq!['\n'] + last);
    }
}

/// Renders the accumulated full names as newline-joined text, in the
/// order they stand.
pub fn render_lines(items: &Vec<SearchResult>) -> (r: String)
    ensures
        r@ == joined_lines(spec_names(items@)),
{
    let ghost names = spec_names(items@);
    let mut r = String::new();
    let n = items.len();
    let mut idx: usize = 0;
    while idx < n
        invariant
            n == items@.len(),
            idx <= n,
            names == spec_names(items@),
            r@ == joined_lines(names.take(idx as int)),
        decreases n - idx,
    {
        if idx > 0 {
            r.append("\n");
        }
        r.append(items[idx].full_name.as_str());
        proof {
            reveal_strlit("\n");
            assert("\n"@ =~= seq!['\n']);
            assert(names[idx as int] == items@[idx as int].full_name@);
            assert(names.take(idx as int + 1) =~= names.take(idx as int).push(names[idx as int]));
            lemma_joined_snoc(names.take(idx as int), names[idx as int]);
            assert(r@ =~= joined_lines(names.take(idx as int + 1)));
        }
        idx = idx + 1;
    }
    proof {
        assert(names.take(n as int) =~= names);
    }
    r
}

} // verus!
