//! The name under which a singleton's probe is exported.

use vstd::prelude::*;

verus! {

/// The bytes of `__xsync_`, which every probe symbol starts with.
pub open spec fn probe_prefix() -> Seq<u8> {
    seq![95u8, 95u8, 120u8, 115u8, 121u8, 110u8, 99u8, 95u8]
}

/// The probe symbol of the singleton called `name`: the prefix, the name, and
/// a closing NUL byte.
pub open spec fn probe_symbol_of(name: Seq<u8>) -> Seq<u8> {
    probe_prefix() + name + seq![0u8]
}

/// A symbol can be looked up if it is not empty and ends in a NUL byte.
pub open spec fn valid_symbol(symbol: Seq<u8>) -> bool {
    symbol.len() > 0 && symbol.last() == 0u8
}

/// Whether `symbol` can be looked up.
pub fn is_valid_symbol(symbol: &[u8]) -> (valid: bool)
    ensures
        valid == valid_symbol(symbol@),
{
    let len = symbol.len();
    len > 0 && symbol[len - 1] == 0u8
}

/// Builds the probe symbol of the singleton called `name`.
pub fn probe_symbol(name: &[u8]) -> (symbol: Vec<u8>)
    ensures
        symbol@ == probe_symbol_of(name@),
        valid_symbol(symbol@),
{
    let mut symbol: Vec<u8> = Vec::new();
    symbol.push(95u8);
    symbol.push(95u8);
    symbol.push(120u8);
    symbol.push(115u8);
    symbol.push(121u8);
    symbol.push(110u8);
    symbol.push(99u8);
    symbol.push(95u8);
    assert(symbol@ =~= probe_prefix());
    let mut i: usize = 0;
    while i < name.len()
        invariant
            i <= name.len(),
            symbol@ == probe_prefix() + name@.take(i as int),
        decreases name.len() - i,
    {
        symbol.push(name[i]);
        assert(name@.take(i as int + 1) =~= name@.take(i as int).push(name@[i as int]));
        assert(symbol@ =~= probe_prefix() + name@.take(i as int + 1));
        i += 1;
    }
    assert(name@.take(name.len() as int) =~= name@);
    symbol.push(0u8);
    assert(symbol@ =~= probe_symbol_of(name@));
    symbol
}

} // verus!
