//! The canonical order of the Oracle claim set a frozen exploration authority carries.

use vstd::prelude::*;

verus! {

/// Byte-wise lexicographic order, the order of wire identity strings.
pub open spec fn lex_less(a: Seq<u8>, b: Seq<u8>) -> bool
    decreases a.len(),
{
    if a.len() == 0 {
        b.len() > 0
    } else if b.len() == 0 {
        false
    } else if a[0] != b[0] {
        a[0] < b[0]
    } else {
        lex_less(a.drop_first(), b.drop_first())
    }
}

/// A claim set is canonical when it is nonempty and its identities strictly ascend.
pub open spec fn strictly_canonical(identities: Seq<Seq<u8>>) -> bool {
    &&& identities.len() > 0
    &&& forall|i: int| 0 <= i < identities.len() - 1 ==> lex_less(#[trigger] identities[i], identities[i + 1])
}

/// Whether the first identity's wire text orders strictly before the second's.
pub fn identity_less(a: &Vec<u8>, b: &Vec<u8>) -> (r: bool)
    ensures
        r == lex_less(a@, b@),
{
    let mut k: usize = 0;
    assert(a@.skip(0) == a@ && b@.skip(0) == b@);
    while k < a.len() && k < b.len()
        invariant
            k <= a@.len(),
            k <= b@.len(),
            lex_less(a@, b@) == lex_less(a@.skip(k as int), b@.skip(k as int)),
        decreases a@.len() - k,
    {
        assert(a@.skip(k as int)[0] == a@[k as int]);
        assert(b@.skip(k as int)[0] == b@[k as int]);
        if a[k] != b[k] {
            return a[k] < b[k];
        }
        assert(a@.skip(k as int).drop_first() == a@.skip(k as int + 1));
        assert(b@.skip(k as int).drop_first() == b@.skip(k as int + 1));
        k = k + 1;
    }
    k == a.len() && k < b.len()
}

/// Checks that a frozen exploration's claim identities are nonempty and strictly ascending.
pub fn claims_strictly_canonical(identities: &Vec<Vec<u8>>) -> (r: bool)
    ensures
        r == strictly_canonical(identities@.map_values(|v: Vec<u8>| v@)),
{
    let ghost ids = identities@.map_values(|v: Vec<u8>| v@);
    if identities.len() == 0 {
        return false;
    }
    let mut i: usize = 0;
    while i < identities.len() - 1
        invariant
            ids == identities@.map_values(|v: Vec<u8>| v@),
            identities@.len() > 0,
            i < identities@.len(),
            forall|j: int| 0 <= j < i ==> lex_less(#[trigger] ids[j], ids[j + 1]),
        decreases identities@.len() - i,
    {
        if !identity_less(&identities[i], &identities[i + 1]) {
            assert(ids[i as int] == identities@[i as int]@ && ids[i as int + 1] == identities@[i as int + 1]@);
            return false;
        }
        assert(ids[i as int] == identities@[i as int]@ && ids[i as int + 1] == identities@[i as int + 1]@);
        i = i + 1;
    }
    true
}

} // verus!
