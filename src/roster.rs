use vstd::prelude::*;
use crate::input::same_text;

verus! {

/// The names held by a list of strings.
pub open spec fn names_of(v: Seq<String>) -> Seq<Seq<char>> {
    v.map_values(|s: String| s@)
}

/// No name occurs twice.
pub open spec fn distinct_names(s: Seq<Seq<char>>) -> bool {
    forall|i: int, j: int| 0 <= i < j < s.len() ==> s[i] != s[j]
}

/// The names of `s` in order of arrival, each kept where it first occurs.
pub open spec fn first_occurrences(s: Seq<Seq<char>>) -> Seq<Seq<char>>
    decreases s.len(),
{
    if s.len() == 0 {
        Seq::empty()
    } else {
        let d = first_occurrences(s.drop_last());
        if d.contains(s.last()) {
            d
        } else {
            d.push(s.last())
        }
    }
}

/// The names separated by `, `.
pub open spec fn joined(s: Seq<Seq<char>>) -> Seq<char>
    decreases s.len(),
{
    if s.len() == 0 {
        Seq::empty()
    } else if s.len() == 1 {
        s[0]
    } else {
        joined(s.drop_last()) + ", "@ + s.last()
    }
}

/// A roster as shown to the operator: `—` when it is empty.
pub open spec fn roster_text(s: Seq<Seq<char>>) -> Seq<char> {
    if s.len() == 0 {
        "—"@
    } else {
        joined(s)
    }
}

/// Removing repeats leaves no name twice, and keeps only names of the input.
pub proof fn lemma_first_occurrences_distinct(s: Seq<Seq<char>>)
    ensures
        distinct_names(first_occurrences(s)),
        forall|x: Seq<char>| #[trigger] first_occurrences(s).contains(x) ==> s.contains(x),
    decreases s.len(),
{
    if s.len() > 0 {
        lemma_first_occurrences_distinct(s.drop_last());
        let d = first_occurrences(s.drop_last());
        assert forall|x: Seq<char>| #[trigger] first_occurrences(s).contains(x) implies s.contains(
            x,
        ) by {
            if d.contains(x) {
                let k = choose|k: int| 0 <= k < d.len() && d[k] == x;
                assert(s.drop_last().contains(x));
                let m = choose|m: int| 0 <= m < s.drop_last().len() && s.drop_last()[m] == x;
                assert(s[m] == x);
            } else {
                assert(x == s.last());
                assert(s[s.len() - 1] == x);
            }
        }
        if !d.contains(s.last()) {
            let e = d.push(s.last());
            assert forall|i: int, j: int| 0 <= i < j < e.len() implies e[i] != e[j] by {
                if j == e.len() - 1 {
                    assert(d[i] == e[i]);
                }
            }
        }
    }
}

/// Whether `v` holds the name `s`.
pub fn contains_name(v: &Vec<String>, s: &str) -> (r: bool)
    ensures
        r == names_of(v@).contains(s@),
{
    let mut i: usize = 0;
    while i < v.len()
        invariant
            0 <= i <= v@.len(),
            forall|j: int| 0 <= j < i ==> v@[j]@ != s@,
        decreases v@.len() - i,
    {
        if same_text(v[i].as_str(), s) {
            assert(names_of(v@)[i as int] == s@);
            return true;
        }
        i = i + 1;
    }
    assert(!names_of(v@).contains(s@)) by {
        if names_of(v@).contains(s@) {
            let k = choose|k: int| 0 <= k < names_of(v@).len() && names_of(v@)[k] == s@;
            assert(v@[k]@ == s@);
        }
    }
    false
}

/// The names of `v`, each once, where it first occurs.
pub fn unique_names(v: &Vec<String>) -> (r: Vec<String>)
    ensures
        names_of(r@) == first_occurrences(names_of(v@)),
{
    let mut out: Vec<String> = Vec::new();
    let mut i: usize = 0;
    while i < v.len()
        invariant
            0 <= i <= v@.len(),
            names_of(out@) == first_occurrences(names_of(v@).take(i as int)),
        decreases v@.len() - i,
    {
        let ghost before = names_of(v@).take(i as int);
        assert(names_of(v@).take(i as int + 1).drop_last() =~= before);
        assert(names_of(v@).take(i as int + 1).last() == v@[i as int]@);
        if !contains_name(&out, v[i].as_str()) {
            let s = v[i].clone();
            out.push(s);
            assert(names_of(out@) =~= first_occurrences(before).push(v@[i as int]@));
        }
        i = i + 1;
    }
    assert(names_of(v@).take(v@.len() as int) =~= names_of(v@));
    out
}

/// Shows a roster: the names separated by `, `, or `—` when there are none.
pub fn roster_line(v: &Vec<String>) -> (r: String)
    ensures
        r@ == roster_text(names_of(v@)),
{
    if v.len() == 0 {
        return String::from_str("—");
    }
    let mut out = v[0].clone();
    let mut i: usize = 1;
    assert(names_of(v@).take(1) =~= seq![v@[0]@]);
    while i < v.len()
        invariant
            1 <= i <= v@.len(),
            out@ == joined(names_of(v@).take(i as int)),
        decreases v@.len() - i,
    {
        let ghost before = names_of(v@).take(i as int);
        assert(names_of(v@).take(i as int + 1).drop_last() =~= before);
        assert(names_of(v@).take(i as int + 1).last() == v@[i as int]@);
        out.append(", ");
        out.append(v[i].as_str());
        i = i + 1;
    }
    assert(names_of(v@).take(v@.len() as int) =~= names_of(v@));
    out
}

} // verus!
