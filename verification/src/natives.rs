//! Native-callback registration and the plugin-call argument convention.
//!
//! Registration hands the host an array of (name, callback) pairs ended by
//! an entry with neither; the host keeps calling into that array for as
//! long as the extension stays loaded, so the caller that registers it must
//! keep it alive for that whole time (the surrounding lifecycle leaks it on
//! purpose).  A registered callback receives its arguments as a contiguous
//! run of cells whose first cell holds the argument count.

use vstd::prelude::*;
use crate::cell::cell_t;

verus! {

/// One entry of a host-registered native table: the name bytes handed to
/// the host (terminator included) and the callback value — or the pair of
/// nothings that ends the table.
#[derive(Debug, Clone, PartialEq, Eq)]
pub struct NativeInfo<F> {
    pub name: Option<Vec<u8>>,
    pub func: Option<F>,
}

/// The table that registration builds for `list`: one entry per native, in
/// order, its name the native's name plus a terminator and its callback the
/// native's own; then exactly one final entry with neither.
pub open spec fn table_matches_list<F>(table: Seq<NativeInfo<F>>, list: Seq<(Vec<u8>, F)>) -> bool {
    &&& table.len() == list.len() + 1
    &&& forall|i: int|
        0 <= i < list.len() ==> ((#[trigger] table[i]).name matches Some(n) && n@ == list[i].0@
            + seq![0u8])
    &&& forall|i: int| 0 <= i < list.len() ==> (#[trigger] table[i]).func == Some(list[i].1)
    &&& table[list.len() as int].name is None
    &&& table[list.len() as int].func is None
}

/// Builds the registration array for the given natives, in the exact
/// layout the host's registration call expects.
pub fn build_native_table<F>(natives: Vec<(Vec<u8>, F)>) -> (table: Vec<NativeInfo<F>>)
    ensures
        table_matches_list(table@, natives@),
{
    let ghost orig = natives@;
    let mut rest = natives;
    let mut table: Vec<NativeInfo<F>> = Vec::new();
    while rest.len() > 0
        invariant
            table@.len() + rest@.len() == orig.len(),
            rest@ == orig.subrange(table@.len() as int, orig.len() as int),
            forall|i: int|
                0 <= i < table@.len() ==> ((#[trigger] table@[i]).name matches Some(n) && n@
                    == orig[i].0@ + seq![0u8]),
            forall|i: int| 0 <= i < table@.len() ==> (#[trigger] table@[i]).func == Some(orig[i].1),
        decreases rest@.len(),
    {
        let (mut name, func) = rest.remove(0);
        proof {
            assert(rest@ =~= orig.subrange(table@.len() as int + 1, orig.len() as int));
        }
        name.push(0u8);
        table.push(NativeInfo { name: Some(name), func: Some(func) });
    }
    table.push(NativeInfo { name: None, func: None });
    table
}

/// Two registrations stand entirely apart: a table matching a list is
/// fixed, entry by entry, by that list alone, so registering natives for
/// one extension can neither corrupt nor shadow another's table.  Any two
/// tables matching the same list agree on every entry.
pub proof fn lemma_registration_isolated<F>(
    ta: Seq<NativeInfo<F>>,
    tb: Seq<NativeInfo<F>>,
    a: Seq<(Vec<u8>, F)>,
    b: Seq<(Vec<u8>, F)>,
)
    requires
        table_matches_list(ta, a),
        table_matches_list(tb, b),
    ensures
        forall|i: int|
            0 <= i < a.len() ==> ((#[trigger] ta[i]).name matches Some(n) && n@ == a[i].0@
                + seq![0u8]) && ta[i].func == Some(a[i].1),
        forall|i: int|
            0 <= i < b.len() ==> ((#[trigger] tb[i]).name matches Some(n) && n@ == b[i].0@
                + seq![0u8]) && tb[i].func == Some(b[i].1),
        a == b ==> ta.len() == tb.len() && forall|i: int|
            0 <= i < ta.len() ==> (#[trigger] ta[i]).func == tb[i].func && (ta[i].name is Some
                <==> tb[i].name is Some) && (ta[i].name matches Some(n1) ==> tb[i].name
                matches Some(n2) && n1@ == n2@),
{
    if a == b {
        assert forall|i: int| 0 <= i < ta.len() implies (#[trigger] ta[i]).func == tb[i].func && (
        ta[i].name is Some <==> tb[i].name is Some) && (ta[i].name matches Some(n1) ==> tb[i].name
            matches Some(n2) && n1@ == n2@) by {
            if i < a.len() {
                assert(ta[i].name matches Some(n) && n@ == a[i].0@ + seq![0u8]);
                assert(tb[i].name matches Some(n) && n@ == b[i].0@ + seq![0u8]);
            } else {
                assert(i == a.len());
            }
        }
    }
}

/// Slices a native call's count-prefixed argument run: the first cell
/// holds the count, the arguments follow.  Refuses a run whose count is
/// negative or reaches past what was handed over.
pub fn native_args(args: &Vec<cell_t>) -> (r: Option<Vec<cell_t>>)
    ensures
        r is Some <==> (args@.len() > 0 && 0 <= args@[0].spec_int() && args@[0].spec_int() + 1
            <= args@.len()),
        r matches Some(v) ==> v@ == args@.subrange(1, args@[0].spec_int() + 1),
{
    if args.len() == 0 {
        return None;
    }
    let count = args[0].to_int();
    if count < 0 {
        return None;
    }
    let count = count as usize;
    if count > args.len() - 1 {
        return None;
    }
    let mut v: Vec<cell_t> = Vec::new();
    let mut i: usize = 1;
    while i < count + 1
        invariant
            1 <= i <= count + 1,
            count + 1 <= args@.len(),
            count == args@[0].spec_int(),
            v@ == args@.subrange(1, i as int),
        decreases count + 1 - i,
    {
        v.push(args[i]);
        proof {
            assert(v@ =~= args@.subrange(1, i + 1 as int));
        }
        i = i + 1;
    }
    Some(v)
}

} // verus!
