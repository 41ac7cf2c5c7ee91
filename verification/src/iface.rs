//! Selection among the machine's network interfaces. Enumerating them is
//! the capture facility's business; the rules for choosing one — loopback
//! interfaces never qualify, an explicit name must match, and an implicit
//! choice must be unambiguous — are decided here.

use vstd::prelude::*;
use crate::addr::MacAddr;

verus! {

/// A network interface as the relay sees it, resolved once at start and
/// never re-queried: its name, its hardware address, and whether it is a
/// loopback interface.
#[derive(Debug)]
pub struct Interface {
    pub name: String,
    pub hardware_addr: MacAddr,
    pub is_loopback: bool,
}

/// The interfaces that qualify for capture: every one that is not a
/// loopback interface, in their original order.
pub open spec fn available(all: Seq<Interface>) -> Seq<Interface> {
    all.filter(|i: Interface| !i.is_loopback)
}

proof fn lemma_available_push(s: Seq<Interface>, x: Interface)
    ensures
        !x.is_loopback ==> available(s + seq![x]) == available(s) + seq![x],
        x.is_loopback ==> available(s + seq![x]) == available(s),
{
    reveal(Seq::filter);
    let t = s + seq![x];
    assert(t.drop_last() =~= s);
    assert(t.last() == x);
    if !x.is_loopback {
        assert(available(t) =~= available(s) + seq![x]);
    }
}

/// Keeps the interfaces that qualify for capture, dropping every loopback
/// interface.
pub fn interfaces(all: Vec<Interface>) -> (r: Vec<Interface>)
    ensures
        r@ == available(all@),
{
    let mut rest = all;
    let ghost orig = rest@;
    let mut out: Vec<Interface> = Vec::new();
    let ghost mut k: int = 0;
    proof {
        assert(orig.take(0) =~= Seq::<Interface>::empty());
        assert(available(Seq::<Interface>::empty()) =~= Seq::<Interface>::empty()) by {
            reveal(Seq::filter);
        }
    }
    while rest.len() > 0
        invariant
            0 <= k <= orig.len(),
            rest@ == orig.skip(k),
            out@ == available(orig.take(k)),
        decreases rest.len(),
    {
        let x = rest.remove(0);
        proof {
            assert(x == orig[k]);
            assert(rest@ =~= orig.skip(k + 1));
            assert(orig.take(k + 1) =~= orig.take(k) + seq![orig[k]]);
            lemma_available_push(orig.take(k), orig[k]);
        }
        if !x.is_loopback {
            out.push(x);
        }
        proof {
            k = k + 1;
        }
    }
    proof {
        assert(orig.take(k) =~= orig);
    }
    out
}

/// Why no interface could be selected: none qualifies, several qualify and
/// no name was given to choose among them, or the given name matches none.
#[derive(Clone, Copy, PartialEq, Eq, Structural, Debug)]
pub enum SelectError {
    NoAvailable,
    Ambiguous,
    Unknown,
}

/// Selects the interface to capture on: the first qualifying interface
/// bearing the requested name, or the only qualifying one when no name was
/// requested.
pub fn interface(all: Vec<Interface>, name: Option<String>) -> (r: Result<Interface, SelectError>)
    ensures
        r == Err::<Interface, SelectError>(SelectError::NoAvailable) <==> available(
            all@,
        ).len() == 0,
        r == Err::<Interface, SelectError>(SelectError::Ambiguous) <==> (available(all@).len() > 1
            && name is None),
        name is None && available(all@).len() == 1 ==> r == Ok::<Interface, SelectError>(
            available(all@)[0],
        ),
        name matches Some(n) ==> available(all@).len() > 0 ==> {
            &&& (r == Err::<Interface, SelectError>(SelectError::Unknown) <==> (forall|j: int|
                0 <= j < available(all@).len() ==> available(all@)[j].name@ != n@))
            &&& (r matches Ok(i) ==> exists|j: int|
                {
                    &&& 0 <= j < available(all@).len()
                    &&& available(all@)[j] == i
                    &&& available(all@)[j].name@ == n@
                    &&& forall|k: int| 0 <= k < j ==> available(all@)[k].name@ != n@
                })
        },
{
    let mut avail = interfaces(all);
    if avail.len() == 0 {
        return Err(SelectError::NoAvailable);
    }
    match name {
        None => {
            if avail.len() > 1 {
                return Err(SelectError::Ambiguous);
            }
            Ok(avail.remove(0))
        },
        Some(n) => {
            let mut j: usize = 0;
            while j < avail.len()
                invariant
                    name == Some(n),
                    avail@ == available(all@),
                    0 <= j <= avail@.len(),
                    forall|k: int| 0 <= k < j ==> avail@[k].name@ != n@,
                decreases avail@.len() - j,
            {
                if avail[j].name == n {
                    let chosen = avail.remove(j);
                    proof {
                        let av = available(all@);
                        let jj = j as int;
                        assert(av[jj] == chosen);
                        assert(av[jj].name@ == n@);
                        assert(exists|x: int|
                            {
                                &&& 0 <= x < av.len()
                                &&& av[x] == chosen
                                &&& av[x].name@ == n@
                                &&& forall|k: int| 0 <= k < x ==> av[k].name@ != n@
                            });
                    }
                    return Ok(chosen);
                }
                j = j + 1;
            }
            Err(SelectError::Unknown)
        },
    }
}

} // verus!
