//! The label model shared by the playlist and the playlist view: labels are
//! unique by value, an insertion appends only when the label is new, and a
//! row is displayed under the last path component of its label.

use vstd::prelude::*;

verus! {

/// The sequence of character views of a vector of labels.
pub open spec fn label_views(v: Seq<String>) -> Seq<Seq<char>> {
    Seq::new(v.len(), |i: int| v[i]@)
}

/// What one insertion does to a label sequence: appends the label unless an
/// equal one is already present.
pub open spec fn add_label(s: Seq<Seq<char>>, l: Seq<char>) -> Seq<Seq<char>> {
    if s.contains(l) {
        s
    } else {
        s.push(l)
    }
}

/// What inserting a whole sequence of labels does, front to back.
pub open spec fn add_labels(s: Seq<Seq<char>>, ms: Seq<Seq<char>>) -> Seq<Seq<char>>
    decreases ms.len(),
{
    if ms.len() == 0 {
        s
    } else {
        add_labels(add_label(s, ms[0]), ms.drop_first())
    }
}

/// Inserting a label is idempotent: once a label is present, inserting it
/// again leaves the sequence unchanged, so a duplicate insertion never grows
/// the list.
pub proof fn lemma_add_label_idempotent(s: Seq<Seq<char>>, l: Seq<char>)
    ensures
        add_label(add_label(s, l), l) == add_label(s, l),
{
    if !s.contains(l) {
        assert(s.push(l)[s.len() as int] == l);
        assert(s.push(l).contains(l));
    }
}

/// Inserting the labels of `ms` and then one more is the same as inserting
/// `ms.push(m)` in one pass.
pub proof fn lemma_add_labels_snoc(s: Seq<Seq<char>>, ms: Seq<Seq<char>>, m: Seq<char>)
    ensures
        add_labels(s, ms.push(m)) == add_label(add_labels(s, ms), m),
    decreases ms.len(),
{
    reveal_with_fuel(add_labels, 2);
    if ms.len() == 0 {
        assert(ms.push(m)[0] == m);
        assert(ms.push(m).drop_first() =~= Seq::<Seq<char>>::empty());
    } else {
        assert(ms.push(m)[0] == ms[0]);
        assert(ms.push(m).drop_first() =~= ms.drop_first().push(m));
        lemma_add_labels_snoc(add_label(s, ms[0]), ms.drop_first(), m);
    }
}

/// Whether `v` already holds a label equal to `m`.
pub fn contains_label(v: &Vec<String>, m: &String) -> (r: bool)
    ensures
        r == label_views(v@).contains(m@),
{
    let mut i: usize = 0;
    while i < v.len()
        invariant
            i <= v@.len(),
            forall|j: int| 0 <= j < i ==> label_views(v@)[j] != m@,
        decreases v@.len() - i,
    {
        if v[i].eq(m) {
            assert(label_views(v@)[i as int] == m@);
            return true;
        }
        i += 1;
    }
    false
}

/// The characters of `t` that follow its last `'/'`; all of `t` when it has
/// none. A trailing `'/'` makes it empty.
pub open spec fn suffix_after_slash(t: Seq<char>) -> Seq<char>
    decreases t.len(),
{
    if t.len() == 0 {
        Seq::empty()
    } else if t.last() == '/' {
        Seq::empty()
    } else {
        suffix_after_slash(t.drop_last()).push(t.last())
    }
}

/// A label stripped of at most one trailing `'/'`.
pub open spec fn trim_slash(s: Seq<char>) -> Seq<char> {
    if s.len() > 0 && s.last() == '/' {
        s.drop_last()
    } else {
        s
    }
}

/// The display name of a label: the last path component, ignoring one
/// trailing separator.
pub open spec fn basename(s: Seq<char>) -> Seq<char> {
    suffix_after_slash(trim_slash(s))
}

/// When no `'/'` stands at or after position `cut` and position `cut - 1`
/// (if any) holds one, the suffix after the last slash is exactly the tail
/// from `cut`.
proof fn lemma_suffix_is_tail(t: Seq<char>, cut: int)
    requires
        0 <= cut <= t.len(),
        forall|j: int| cut <= j < t.len() ==> t[j] != '/',
        cut > 0 ==> t[cut - 1] == '/',
    ensures
        suffix_after_slash(t) == t.subrange(cut, t.len() as int),
    decreases t.len(),
{
    if cut == t.len() {
        if t.len() > 0 {
            assert(t.last() == '/');
        }
        assert(t.subrange(cut, t.len() as int) =~= Seq::<char>::empty());
    } else {
        assert(t[t.len() - 1] != '/');
        lemma_suffix_is_tail(t.drop_last(), cut);
        assert(t.drop_last().subrange(cut, t.len() - 1) =~=
            t.subrange(cut, t.len() as int).drop_last());
        assert(t.subrange(cut, t.len() as int).drop_last().push(t.last()) =~=
            t.subrange(cut, t.len() as int));
    }
}

/// Computes the display name of a label.
pub fn display_name(s: &String) -> (r: String)
    ensures
        r@ == basename(s@),
{
    let sref: &str = s.as_str();
    let n: usize = sref.unicode_len();
    let end: usize = if n > 0 && sref.get_char(n - 1) == '/' {
        n - 1
    } else {
        n
    };
    let ghost t: Seq<char> = trim_slash(s@);
    assert(t =~= s@.subrange(0, end as int));
    let mut cut: usize = end;
    let mut scanning: bool = true;
    while scanning && cut > 0
        invariant
            cut <= end,
            end <= n,
            n == s@.len(),
            sref@ == s@,
            t == s@.subrange(0, end as int),
            forall|j: int| cut <= j < end ==> t[j] != '/',
            !scanning ==> cut > 0 && t[cut - 1] == '/',
        decreases cut + (if scanning { 1int } else { 0int }),
    {
        assert(t[cut - 1] == s@[cut - 1]);
        if sref.get_char(cut - 1) == '/' {
            scanning = false;
        } else {
            cut -= 1;
        }
    }
    proof {
        lemma_suffix_is_tail(t, cut as int);
    }
    let out: &str = sref.substring_char(cut, end);
    assert(out@ =~= t.subrange(cut as int, end as int));
    out.to_owned()
}

} // verus!
