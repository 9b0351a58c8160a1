//! Derivation of a replacement pod's name from the old name and the target
//! node, and the marker bookkeeping that keeps repeated relocations from
//! stacking markers.

use vstd::prelude::*;
use vstd::string::StrSliceExecFns;
use vstd::string::StringExecFns;

verus! {

/// The marker written in front of every relocated pod's name: `"movido-"`.
pub open spec fn marker() -> Seq<char> {
    seq!['m', 'o', 'v', 'i', 'd', 'o', '-']
}

/// Whether `name` begins with the relocation marker.
pub open spec fn has_marker(name: Seq<char>) -> bool {
    name.len() >= 7 && name.subrange(0, 7) == marker()
}

/// `name` with one leading marker removed; unchanged when no marker is there.
pub open spec fn strip_marker(name: Seq<char>) -> Seq<char> {
    if has_marker(name) {
        name.skip(7)
    } else {
        name
    }
}

/// The replacement pod's name: the marker, the target node, a separator, and
/// the old name with its own marker (if any) stripped. Markers never stack:
/// each derivation removes the one in front before writing its own.
pub open spec fn derive_name(name: Seq<char>, node: Seq<char>) -> Seq<char> {
    marker() + node + seq!['-'] + strip_marker(name)
}

/// How many markers stand back to back at the front of `name`.
pub open spec fn marker_count(name: Seq<char>) -> nat
    decreases name.len(),
{
    if has_marker(name) {
        1 + marker_count(name.skip(7))
    } else {
        0
    }
}

/// A node identifier that cannot recreate a marker once the separator is
/// written after it: everything but `"movido"` itself and identifiers that
/// start with the marker.
pub open spec fn node_free_of_marker(node: Seq<char>) -> bool {
    !has_marker(node + seq!['-'])
}

/// Whether `name` starts with the marker `"movido-"`.
fn starts_with_marker(name: &str) -> (r: bool)
    ensures
        r == has_marker(name@),
{
    proof {
        reveal_strlit("movido-");
    }
    let m: &str = "movido-";
    let n: usize = name.unicode_len();
    if n < 7 {
        return false;
    }
    let mut i: usize = 0;
    while i < 7
        invariant
            i <= 7,
            n == name@.len(),
            n >= 7,
            m@ =~= marker(),
            forall|j: int| 0 <= j < i ==> name@[j] == marker()[j],
        decreases 7 - i,
    {
        if name.get_char(i) != m.get_char(i) {
            proof {
                assert(name@.subrange(0, 7)[i as int] != marker()[i as int]);
            }
            return false;
        }
        i += 1;
    }
    proof {
        assert(name@.subrange(0, 7) =~= marker());
    }
    true
}

/// Derives the replacement pod's name for a relocation to `node`: strips one
/// leading `"movido-"` from `current_name` if present, then writes
/// `"movido-<node>-"` in front of what is left.
pub fn new_pod_name(current_name: &str, node: &str) -> (r: String)
    ensures
        r@ == derive_name(current_name@, node@),
{
    proof {
        reveal_strlit("movido-");
        reveal_strlit("-");
    }
    let base: &str = if starts_with_marker(current_name) {
        let n: usize = current_name.unicode_len();
        current_name.substring_char(7, n)
    } else {
        current_name
    };
    proof {
        assert(base@ =~= strip_marker(current_name@));
    }
    let mut r = String::from_str("movido-");
    r.append(node);
    r.append("-");
    r.append(base);
    proof {
        assert(r@ =~= derive_name(current_name@, node@));
    }
    r
}

/// Writing the separator and anything after it behind a node identifier
/// cannot create or destroy a leading marker: only the identifier decides.
proof fn lemma_marker_after_separator(node: Seq<char>, rest: Seq<char>)
    ensures
        has_marker(node + seq!['-'] + rest) == has_marker(node + seq!['-']),
{
    let with_rest = node + seq!['-'] + rest;
    let bare = node + seq!['-'];
    if node.len() >= 6 {
        if with_rest.len() >= 7 && bare.len() >= 7 {
            assert(with_rest.subrange(0, 7) =~= bare.subrange(0, 7));
        }
    } else {
        assert(bare.len() < 7);
        assert(!has_marker(bare));
        if with_rest.len() >= 7 {
            let i = node.len() as int;
            assert(with_rest[i] == '-');
            assert(marker()[i] != '-');
            assert(with_rest.subrange(0, 7)[i] == with_rest[i]);
            assert(!has_marker(with_rest));
        }
    }
}

/// A derived name always carries the marker in front.
proof fn lemma_derived_has_marker(name: Seq<char>, node: Seq<char>)
    ensures
        has_marker(derive_name(name, node)),
        strip_marker(derive_name(name, node)) =~= node + seq!['-'] + strip_marker(name),
{
    let d = derive_name(name, node);
    assert(d.subrange(0, 7) =~= marker());
}

/// Re-applying the derivation replaces the previous marker and node instead
/// of stacking another in front: the second derivation yields the marker,
/// the new node, the old node, and the original base name, in that order.
pub proof fn lemma_derive_name_reapplied(n: Seq<char>, t1: Seq<char>, t2: Seq<char>)
    ensures
        derive_name(derive_name(n, t1), t2) == marker() + t2 + seq!['-'] + t1 + seq!['-']
            + strip_marker(n),
{
    lemma_derived_has_marker(n, t1);
    assert(derive_name(derive_name(n, t1), t2) =~= marker() + t2 + seq!['-'] + t1 + seq!['-']
        + strip_marker(n));
}

/// However many times names are derived, exactly one marker stands in front,
/// provided the final target node cannot itself spell a marker.
pub proof fn lemma_derive_name_single_marker(n: Seq<char>, t1: Seq<char>, t2: Seq<char>)
    requires
        node_free_of_marker(t2),
    ensures
        marker_count(derive_name(derive_name(n, t1), t2)) == 1,
{
    lemma_derive_name_reapplied(n, t1, t2);
    let d = derive_name(derive_name(n, t1), t2);
    let tail = t2 + seq!['-'] + (t1 + seq!['-'] + strip_marker(n));
    assert(d.subrange(0, 7) =~= marker());
    assert(has_marker(d));
    assert(d.skip(7) =~= tail);
    lemma_marker_after_separator(t2, t1 + seq!['-'] + strip_marker(n));
    assert(!has_marker(tail));
    assert(marker_count(tail) == 0);
}

/// A derived name is strictly longer than the name it was derived from, so
/// the two are never equal.
pub proof fn lemma_derive_name_longer(name: Seq<char>, node: Seq<char>)
    ensures
        derive_name(name, node).len() > name.len(),
        derive_name(name, node) != name,
{
    assert(derive_name(name, node).len() > name.len());
}

} // verus!
