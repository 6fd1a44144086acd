//! The pool of signing identities, indexed by address.
use vstd::prelude::*;
use crate::types::Addr;
use crate::error::BroadcastError;

verus! {

/// All addresses of the sources, in source order.
pub open spec fn flatten(sources: Seq<Vec<Addr>>) -> Seq<Addr>
    decreases sources.len(),
{
    if sources.len() == 0 {
        Seq::empty()
    } else {
        flatten(sources.drop_last()) + sources.last()@
    }
}

/// Unites the identities that each key source yielded, in order. An empty
/// union is a configuration error: there is nobody to sign with.
pub fn build_identity_pool(sources: Vec<Vec<Addr>>) -> (r: Result<Vec<Addr>, BroadcastError>)
    ensures
        r is Ok <==> flatten(sources@).len() > 0,
        r is Ok ==> r->Ok_0@ == flatten(sources@),
        r is Err ==> r->Err_0 == BroadcastError::NoSigner,
{
    let mut pool: Vec<Addr> = Vec::new();
    let mut i: usize = 0;
    while i < sources.len()
        invariant
            i <= sources@.len(),
            pool@ == flatten(sources@.subrange(0, i as int)),
        decreases sources@.len() - i,
    {
        let src = &sources[i];
        let mut j: usize = 0;
        let ghost before = pool@;
        while j < src.len()
            invariant
                j <= src@.len(),
                pool@ == before + src@.subrange(0, j as int),
            decreases src@.len() - j,
        {
            pool.push(src[j]);
            j += 1;
            proof {
                assert(pool@ =~= before + src@.subrange(0, j as int));
            }
        }
        proof {
            let next = sources@.subrange(0, i + 1);
            assert(next.drop_last() =~= sources@.subrange(0, i as int));
            assert(src@.subrange(0, j as int) =~= src@);
        }
        i += 1;
    }
    proof {
        assert(sources@.subrange(0, i as int) =~= sources@);
    }
    if pool.len() == 0 {
        Err(BroadcastError::NoSigner)
    } else {
        Ok(pool)
    }
}

/// The position of the first identity with address `sender`, if any.
pub fn find_identity(pool: &Vec<Addr>, sender: Addr) -> (r: Option<usize>)
    ensures
        r is None <==> !pool@.contains(sender),
        r is Some ==> r->Some_0 < pool@.len() && pool@[r->Some_0 as int] == sender
            && forall|k: int| 0 <= k < r->Some_0 ==> pool@[k] != sender,
{
    let mut i: usize = 0;
    while i < pool.len()
        invariant
            i <= pool@.len(),
            forall|k: int| 0 <= k < i ==> pool@[k] != sender,
        decreases pool@.len() - i,
    {
        if pool[i] == sender {
            return Some(i);
        }
        i += 1;
    }
    None
}

} // verus!
