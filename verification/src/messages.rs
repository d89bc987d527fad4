//! The texts the plugin shows and the nick names it generates.
//!
//! Every line the plugin prints is assembled here, and each builder's
//! contract states the exact character sequence it returns.

use vstd::prelude::*;
use vstd::string::StringExecFns;

use crate::digits::dec_rep;
use crate::digits::dec_u64;
use crate::digits::lemma_dec_rep_injective;

verus! {

/// The name of the `i`-th generated nick: a fixed prefix followed by the
/// counter in decimal.
pub fn nick_name(i: u64) -> (r: String)
    ensures
        r@ == "nick_"@ + dec_rep(i as nat),
{
    let mut s = String::from_str("nick_");
    let d = dec_u64(i);
    s.append(d.as_str());
    s
}

proof fn lemma_nick_name_injective(i: nat, j: nat)
    requires
        "nick_"@ + dec_rep(i) == "nick_"@ + dec_rep(j),
    ensures
        i == j,
{
    let p = "nick_"@;
    let x = dec_rep(i);
    let y = dec_rep(j);
    assert((p + x).len() == p.len() + x.len());
    assert((p + y).len() == p.len() + y.len());
    assert(x.len() == y.len());
    assert forall|k: int| 0 <= k < x.len() implies x[k] == y[k] by {
        assert((p + x)[p.len() + k] == x[k]);
        assert((p + y)[p.len() + k] == y[k]);
    }
    assert(x =~= y);
    lemma_dec_rep_injective(i, j);
}

/// The names of the first `n` generated nicks, in counter order.  The
/// names are pairwise distinct, so each one can join the host's nick
/// list without colliding with another.
pub fn nick_names(n: u64) -> (r: Vec<String>)
    ensures
        r@.len() == n,
        forall|i: int| 0 <= i < n ==> (#[trigger] r@[i])@ == "nick_"@ + dec_rep(i as nat),
        forall|i: int, j: int| 0 <= i < j < n ==> r@[i]@ != r@[j]@,
{
    let mut r: Vec<String> = Vec::new();
    let mut k: u64 = 0;
    while k < n
        invariant
            k <= n,
            r@.len() == k,
            forall|i: int| 0 <= i < k ==> (#[trigger] r@[i])@ == "nick_"@ + dec_rep(i as nat),
        decreases n - k,
    {
        let name = nick_name(k);
        r.push(name);
        k = k + 1;
    }
    proof {
        assert forall|i: int, j: int| 0 <= i < j < n implies r@[i]@ != r@[j]@ by {
            if r@[i]@ == r@[j]@ {
                lemma_nick_name_injective(i as nat, j as nat);
            }
        }
    }
    r
}

/// The line reporting the name read back from the first nick added.
pub fn nick_report(name: &str) -> (r: String)
    ensures
        r@ == "Nick name getting test: "@ + name@,
{
    let mut s = String::from_str("Nick name getting test: ");
    s.append(name);
    s
}

/// The line reporting how long the `n` nick additions took, with the
/// elapsed time split into whole seconds and leftover milliseconds.
pub fn elapsed_report(n: u64, secs: u64, millis: u32) -> (r: String)
    ensures
        r@ == "Elapsed time for "@ + dec_rep(n as nat) + " nick additions: "@ + dec_rep(
            secs as nat,
        ) + "."@ + dec_rep(millis as nat) + "s."@,
{
    let mut s = String::from_str("Elapsed time for ");
    let dn = dec_u64(n);
    s.append(dn.as_str());
    s.append(" nick additions: ");
    let ds = dec_u64(secs);
    s.append(ds.as_str());
    s.append(".");
    let dm = dec_u64(millis as u64);
    s.append(dm.as_str());
    s.append("s.");
    s
}

} // verus!
