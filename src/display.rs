//! The display form of an image reference: the size marker that asks for the
//! small variant of the asset is taken out, so that a preview shows it whole.
use vstd::prelude::*;

verus! {

/// The marker that the profile service inserts to request the small variant.
pub open spec fn size_marker() -> Seq<char> {
    seq!['_', 'n', 'o', 'r', 'm', 'a', 'l']
}

/// Whether `s` holds the size marker at position `i`.
pub open spec fn marker_at(s: Seq<char>, i: int) -> bool {
    0 <= i && i + size_marker().len() <= s.len() && s.subrange(i, i + size_marker().len())
        == size_marker()
}

/// `s` with every occurrence of the size marker removed, scanning from the
/// left and never letting two removed occurrences overlap.
pub open spec fn strip_marker(s: Seq<char>) -> Seq<char>
    decreases s.len(),
{
    if s.len() == 0 {
        s
    } else if marker_at(s, 0) {
        strip_marker(s.subrange(size_marker().len() as int, s.len() as int))
    } else {
        seq![s[0]] + strip_marker(s.subrange(1, s.len() as int))
    }
}

/// A reference that holds the size marker nowhere is its own display form.
pub proof fn lemma_unmarked_is_unchanged(s: Seq<char>)
    requires
        forall|i: int| !marker_at(s, i),
    ensures
        strip_marker(s) == s,
    decreases s.len(),
{
    if s.len() > 0 {
        let tail = s.subrange(1, s.len() as int);
        assert forall|i: int| !marker_at(tail, i) by {
            if marker_at(tail, i) {
                assert(s.subrange(i + 1, i + 1 + size_marker().len()) =~= tail.subrange(
                    i,
                    i + size_marker().len(),
                ));
                assert(marker_at(s, i + 1));
            }
        }
        lemma_unmarked_is_unchanged(tail);
        assert(!marker_at(s, 0));
        assert(seq![s[0]] + tail =~= s);
    }
}

/// Where the first occurrence of the size marker in `p + marker + q` is the
/// one after `p`, the display form keeps `p`, drops that marker, and goes on
/// with the display form of `q`.
pub proof fn lemma_first_marker_removed(p: Seq<char>, q: Seq<char>)
    requires
        forall|i: int| 0 <= i < p.len() ==> !marker_at(p + size_marker() + q, i),
    ensures
        strip_marker(p + size_marker() + q) == p + strip_marker(q),
    decreases p.len(),
{
    let s = p + size_marker() + q;
    if p.len() == 0 {
        assert(s.subrange(0, size_marker().len() as int) =~= size_marker());
        assert(s.subrange(size_marker().len() as int, s.len() as int) =~= q);
        assert(p + strip_marker(q) =~= strip_marker(q));
    } else {
        let p1 = p.subrange(1, p.len() as int);
        let s1 = p1 + size_marker() + q;
        assert(s.subrange(1, s.len() as int) =~= s1);
        assert forall|i: int| 0 <= i < p1.len() implies !marker_at(s1, i) by {
            if marker_at(s1, i) {
                assert(s.subrange(i + 1, i + 1 + size_marker().len()) =~= s1.subrange(
                    i,
                    i + size_marker().len(),
                ));
                assert(marker_at(s, i + 1));
            }
        }
        lemma_first_marker_removed(p1, q);
        assert(!marker_at(s, 0));
        assert(seq![s[0]] + (p1 + strip_marker(q)) =~= p + strip_marker(q));
    }
}

fn marker_starts_at(s: &str, i: usize) -> (r: bool)
    requires
        i <= s@.len(),
    ensures
        r == marker_at(s@, i as int),
{
    let n = s.unicode_len();
    if n - i < 7 {
        return false;
    }
    let r = s.get_char(i) == '_' && s.get_char(i + 1) == 'n' && s.get_char(i + 2) == 'o'
        && s.get_char(i + 3) == 'r' && s.get_char(i + 4) == 'm' && s.get_char(i + 5) == 'a'
        && s.get_char(i + 6) == 'l';
    proof {
        let w = s@.subrange(i as int, i + 7);
        if r {
            assert(w =~= size_marker());
        } else if marker_at(s@, i as int) {
            assert(w[0] == size_marker()[0]);
            assert(w[1] == size_marker()[1]);
            assert(w[2] == size_marker()[2]);
            assert(w[3] == size_marker()[3]);
            assert(w[4] == size_marker()[4]);
            assert(w[5] == size_marker()[5]);
            assert(w[6] == size_marker()[6]);
        }
    }
    r
}

/// The form of `reference` that is handed on for display: the reference
/// with the size marker removed, as `strip_marker` states.
pub fn display_reference(reference: &str) -> (r: String)
    ensures
        r@ == strip_marker(reference@),
{
    let n = reference.unicode_len();
    let mut out = String::new();
    let mut i: usize = 0;
    assert(reference@.subrange(0, n as int) =~= reference@);
    assert(out@ + strip_marker(reference@) =~= strip_marker(reference@));
    while i < n
        invariant
            n == reference@.len(),
            i <= n,
            out@ + strip_marker(reference@.subrange(i as int, n as int)) == strip_marker(
                reference@,
            ),
        decreases n - i,
    {
        let ghost rest = reference@.subrange(i as int, n as int);
        if marker_starts_at(reference, i) {
            assert(rest.subrange(0, 7) =~= reference@.subrange(i as int, i + 7));
            assert(rest.subrange(7, rest.len() as int) =~= reference@.subrange(
                i + 7,
                n as int,
            ));
            i = i + 7;
        } else {
            assert(!marker_at(rest, 0)) by {
                if rest.len() >= 7 {
                    assert(rest.subrange(0, 7) =~= reference@.subrange(i as int, i + 7));
                }
            }
            assert(rest.subrange(1, rest.len() as int) =~= reference@.subrange(
                i + 1,
                n as int,
            ));
            let piece = reference.substring_char(i, i + 1);
            assert(piece@ =~= seq![rest[0]]);
            let ghost before = out@;
            out.append(piece);
            assert(out@ + strip_marker(reference@.subrange(i + 1, n as int)) =~= before
                + strip_marker(rest));
            i = i + 1;
        }
    }
    assert(reference@.subrange(n as int, n as int) =~= Seq::<char>::empty());
    assert(out@ =~= out@ + strip_marker(Seq::<char>::empty()));
    out
}

} // verus!
