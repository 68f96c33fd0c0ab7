use vstd::prelude::*;

use crate::addr::SockAddr;

verus! {

/// The buffer size used when none is configured, in bytes.
pub const DEFAULT_BUFFER_SIZE: usize = 1024;

/// Why a proxy could not be constructed.
#[derive(Clone, Debug, PartialEq, Eq)]
pub enum BuildError {
    /// Resolving an address specification failed.
    Resolve(String),
    /// The local specifications resolved to no address.
    NoLocalAddress,
    /// The remote specifications resolved to no address.
    NoRemoteAddress,
}

/// Each lookup succeeded.
pub open spec fn all_resolved(l: Seq<Result<Vec<SockAddr>, String>>) -> bool {
    forall|i: int| 0 <= i < l.len() ==> (#[trigger] l[i]) is Ok
}

/// The addresses of the lookups, in the order of the lookups.
pub open spec fn joined(l: Seq<Result<Vec<SockAddr>, String>>) -> Seq<SockAddr>
    decreases l.len(),
{
    if l.len() == 0 {
        Seq::empty()
    } else {
        let prev = joined(l.drop_last());
        match l.last() {
            Ok(v) => prev + v@,
            Err(_) => prev,
        }
    }
}

/// Lookup `i` is the first that failed, with error `e`.
pub open spec fn first_failure(l: Seq<Result<Vec<SockAddr>, String>>, i: int, e: Seq<char>) -> bool {
    &&& 0 <= i < l.len()
    &&& l[i] is Err
    &&& l[i]->Err_0@ == e
    &&& all_resolved(l.take(i))
}

/// Joins the outcomes of resolving several address specifications: the
/// addresses of all of them in order, or the first failure.
pub fn collect_addrs(lookups: &Vec<Result<Vec<SockAddr>, String>>) -> (r: Result<Vec<SockAddr>, String>)
    ensures
        r is Ok <==> all_resolved(lookups@),
        r matches Ok(v) ==> v@ == joined(lookups@),
        r matches Err(e) ==> exists|i: int| first_failure(lookups@, i, e@),
{
    let mut out: Vec<SockAddr> = Vec::new();
    let mut i: usize = 0;
    while i < lookups.len()
        invariant
            i <= lookups@.len(),
            all_resolved(lookups@.take(i as int)),
            out@ == joined(lookups@.take(i as int)),
        decreases lookups@.len() - i,
    {
        proof {
            assert(lookups@.take(i as int + 1).drop_last() =~= lookups@.take(i as int));
        }
        match &lookups[i] {
            Ok(v) => {
                let mut j: usize = 0;
                let ghost start = out@;
                while j < v.len()
                    invariant
                        j <= v@.len(),
                        out@ == start + v@.take(j as int),
                    decreases v@.len() - j,
                {
                    out.push(v[j]);
                    proof {
                        assert(v@.take(j as int + 1) =~= v@.take(j as int).push(v@[j as int]));
                        assert(start + v@.take(j as int + 1) =~= (start + v@.take(j as int)).push(v@[j as int]));
                    }
                    j = j + 1;
                }
                proof {
                    assert(v@.take(v@.len() as int) =~= v@);
                    let t = lookups@.take(i as int + 1);
                    assert(t.last() == lookups@[i as int]);
                    assert forall|k: int| 0 <= k < t.len() implies (#[trigger] t[k]) is Ok by {
                        if k < i {
                            assert(t[k] == lookups@.take(i as int)[k]);
                        }
                    }
                }
            },
            Err(e) => {
                proof {
                    assert(first_failure(lookups@, i as int, e@));
                }
                return Err(e.clone());
            },
        }
        i = i + 1;
    }
    proof {
        assert(lookups@.take(lookups@.len() as int) =~= lookups@);
    }
    Ok(out)
}

/// The concrete addresses a proxy is built on: where it listens and where it
/// relays to, each non-empty.
pub struct Endpoints {
    pub local_addrs: Vec<SockAddr>,
    pub remote_addrs: Vec<SockAddr>,
}

/// Decides, from the outcomes of resolving the local and the remote
/// specifications, whether a proxy can be built: any failed lookup is the
/// construction's failure (local lookups first), as is a side that resolved
/// to no address. Only on success are there endpoints to start engines on.
pub fn plan_endpoints(
    local_lookups: &Vec<Result<Vec<SockAddr>, String>>,
    remote_lookups: &Vec<Result<Vec<SockAddr>, String>>,
) -> (r: Result<Endpoints, BuildError>)
    ensures
        r is Ok <==> all_resolved(local_lookups@) && all_resolved(remote_lookups@)
            && joined(local_lookups@).len() > 0 && joined(remote_lookups@).len() > 0,
        r matches Ok(ep) ==> ep.local_addrs@ == joined(local_lookups@) && ep.remote_addrs@ == joined(remote_lookups@),
        !all_resolved(local_lookups@) ==> (r matches Err(BuildError::Resolve(e))
            && exists|i: int| first_failure(local_lookups@, i, e@)),
        all_resolved(local_lookups@) && !all_resolved(remote_lookups@) ==> (r matches Err(BuildError::Resolve(e))
            && exists|i: int| first_failure(remote_lookups@, i, e@)),
        all_resolved(local_lookups@) && all_resolved(remote_lookups@) && joined(local_lookups@).len() == 0
            ==> r matches Err(BuildError::NoLocalAddress),
        all_resolved(local_lookups@) && all_resolved(remote_lookups@) && joined(local_lookups@).len() > 0
            && joined(remote_lookups@).len() == 0 ==> r matches Err(BuildError::NoRemoteAddress),
{
    let local_addrs = match collect_addrs(local_lookups) {
        Ok(v) => v,
        Err(e) => {
            let r = Err(BuildError::Resolve(e));
            assert(r matches Err(BuildError::Resolve(e2)) && e2@ == e@);
            return r;
        },
    };
    let remote_addrs = match collect_addrs(remote_lookups) {
        Ok(v) => v,
        Err(e) => {
            let r = Err(BuildError::Resolve(e));
            assert(r matches Err(BuildError::Resolve(e2)) && e2@ == e@);
            return r;
        },
    };
    if local_addrs.len() == 0 {
        return Err(BuildError::NoLocalAddress);
    }
    if remote_addrs.len() == 0 {
        return Err(BuildError::NoRemoteAddress);
    }
    Ok(Endpoints { local_addrs, remote_addrs })
}

} // verus!
