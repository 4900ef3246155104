//! Assembly of the guest's argument list.
//!
//! The host hands over one entry per argument slot. An entry is `None`
//! when the slot could not be decoded (a null pointer, or bytes that are
//! not UTF-8). Undecodable entries are skipped rather than aborting the
//! call; the decodable entries are kept in their original order.

use vstd::prelude::*;

verus! {

/// The arguments that survive decoding: every `Some` entry, in order.
pub open spec fn kept_args(raw: Seq<Option<String>>) -> Seq<String>
    decreases raw.len(),
{
    if raw.len() == 0 {
        Seq::empty()
    } else {
        let prefix = kept_args(raw.drop_last());
        match raw.last() {
            Some(s) => prefix.push(s),
            None => prefix,
        }
    }
}

/// How many entries of the sequence decoded successfully.
pub open spec fn decoded_count(raw: Seq<Option<String>>) -> int
    decreases raw.len(),
{
    if raw.len() == 0 {
        0
    } else {
        decoded_count(raw.drop_last()) + if raw.last() is Some {
            1int
        } else {
            0int
        }
    }
}

/// Collect the decodable argument entries, skipping the rest.
pub fn collect_args(raw: &Vec<Option<String>>) -> (r: Vec<String>)
    ensures
        r@ == kept_args(raw@),
{
    let mut out: Vec<String> = Vec::new();
    let mut i: usize = 0;
    while i < raw.len()
        invariant
            i <= raw.len(),
            out@ == kept_args(raw@.take(i as int)),
        decreases raw.len() - i,
    {
        proof {
            assert(raw@.take(i + 1 as int).drop_last() =~= raw@.take(i as int));
            assert(raw@.take(i + 1 as int).last() == raw@[i as int]);
        }
        match &raw[i] {
            Some(s) => {
                out.push(s.clone());
            },
            None => {},
        }
        i = i + 1;
    }
    proof {
        assert(raw@.take(raw@.len() as int) =~= raw@);
    }
    out
}

/// Law: skipping never reorders and never invents an argument — the kept
/// list is exactly as long as the number of decodable entries.
pub proof fn lemma_kept_args_len(raw: Seq<Option<String>>)
    ensures
        kept_args(raw).len() == decoded_count(raw),
        decoded_count(raw) <= raw.len(),
    decreases raw.len(),
{
    if raw.len() > 0 {
        lemma_kept_args_len(raw.drop_last());
    }
}

/// Law: when every entry decodes, nothing is dropped.
pub proof fn lemma_all_decoded_kept(raw: Seq<Option<String>>)
    requires
        forall|i: int| 0 <= i < raw.len() ==> raw[i] is Some,
    ensures
        kept_args(raw).len() == raw.len(),
        forall|i: int| 0 <= i < raw.len() ==> kept_args(raw)[i] == raw[i]->Some_0,
    decreases raw.len(),
{
    if raw.len() > 0 {
        lemma_all_decoded_kept(raw.drop_last());
    }
}

} // verus!
