//! The manifest of installed build names: one name per line.
use vstd::prelude::*;
use crate::cleanup::names_view;
use crate::resolve::first_index_where;

verus! {

/// The file in the installation root that lists the installed builds.
pub const MANIFEST_FILE: &'static str = "build-names.txt";

/// Each name followed by a line feed, in order.
pub open spec fn manifest_of(names: Seq<Seq<char>>) -> Seq<char>
    decreases names.len(),
{
    if names.len() == 0 {
        seq![]
    } else {
        manifest_of(names.drop_last()) + names.last() + seq!['\n']
    }
}

/// The lines of a text: the pieces between line feeds, where a final line
/// feed ends the last line rather than starting an empty one.
pub open spec fn lines_of(t: Seq<char>) -> Seq<Seq<char>>
    decreases t.len(),
{
    if t.len() == 0 {
        seq![]
    } else {
        let k = first_index_where(t, |c: char| c == '\n');
        if k < t.len() {
            seq![t.subrange(0, k as int)] + lines_of(t.subrange(k as int + 1, t.len() as int))
        } else {
            seq![t]
        }
    }
}

/// The manifest text of the build names.
pub fn manifest_text(names: &Vec<String>) -> (r: String)
    ensures
        r@ == manifest_of(names_view(names@)),
{
    let ghost all = names_view(names@);
    let mut out = String::new();
    let mut i: usize = 0;
    while i < names.len()
        invariant
            i <= names@.len(),
            all == names_view(names@),
            out@ == manifest_of(all.subrange(0, i as int)),
        decreases names.len() - i,
    {
        assert(all.subrange(0, i + 1).drop_last() =~= all.subrange(0, i as int));
        out.append(names[i].as_str());
        out.append("\n");
        proof {
            reveal_strlit("\n");
        }
        assert(out@ =~= manifest_of(all.subrange(0, i + 1)));
        i += 1;
    }
    assert(all.subrange(0, names@.len() as int) =~= all);
    out
}

/// The manifest of a non-empty list is its first name, a line feed, and the
/// manifest of the rest.
proof fn lemma_manifest_front(names: Seq<Seq<char>>)
    requires
        names.len() > 0,
    ensures
        manifest_of(names) == names[0] + seq!['\n'] + manifest_of(names.drop_first()),
    decreases names.len(),
{
    if names.len() > 1 {
        lemma_manifest_front(names.drop_last());
        assert(names.drop_last().drop_first() =~= names.drop_first().drop_last());
        assert(names.drop_first().last() == names.last());
        assert(manifest_of(names.drop_first()) =~= manifest_of(names.drop_first().drop_last())
            + names.last() + seq!['\n']);
        assert(manifest_of(names) =~= names[0] + seq!['\n'] + manifest_of(names.drop_first()));
    } else {
        assert(names.drop_last() =~= Seq::<Seq<char>>::empty());
        assert(names.drop_first() =~= Seq::<Seq<char>>::empty());
        assert(manifest_of(names) =~= names[0] + seq!['\n'] + manifest_of(names.drop_first()));
    }
}

/// Reading the manifest back gives the names that were written, one line
/// each and in order, as long as no name holds a line feed.
pub proof fn lemma_manifest_round_trip(names: Seq<Seq<char>>)
    requires
        forall|i: int, j: int| 0 <= i < names.len() && 0 <= j < names[i].len() ==> names[i][j]
            != '\n',
    ensures
        lines_of(manifest_of(names)) == names,
    decreases names.len(),
{
    if names.len() == 0 {
        assert(lines_of(manifest_of(names)) =~= names);
    } else {
        let t = manifest_of(names);
        let first = names[0];
        let rest = names.drop_first();
        lemma_manifest_front(names);
        assert forall|i: int, j: int| 0 <= i < rest.len() && 0 <= j < rest[i].len() implies rest[i][j]
            != '\n' by {
            assert(rest[i] == names[i + 1]);
        }
        lemma_manifest_round_trip(rest);
        let p = |c: char| c == '\n';
        assert forall|j: int| 0 <= j < first.len() implies !p(t[j]) by {
            assert(t[j] == first[j]);
        }
        assert(t[first.len() as int] == '\n');
        crate::resolve::lemma_first_index_where(t, p, first.len() as int);
        assert(t.subrange(0, first.len() as int) =~= first);
        assert(t.subrange(first.len() as int + 1, t.len() as int) =~= manifest_of(rest));
        assert(lines_of(t) =~= seq![first] + rest);
        assert(seq![first] + rest =~= names);
    }
}

} // verus!
