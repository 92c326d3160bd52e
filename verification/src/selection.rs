//! First-match selection over capability lists: which adapter to use, and
//! which texture format to present in.

use vstd::prelude::*;
use crate::backend::{format_is_srgb, srgb_flags};

verus! {

/// `i` is the position of the first `true` in `flags`.
pub open spec fn is_first_set(flags: Seq<bool>, i: int) -> bool {
    &&& 0 <= i < flags.len()
    &&& flags[i]
    &&& forall|j: int| 0 <= j < i ==> !#[trigger] flags[j]
}

/// No entry of `flags` is `true`.
pub open spec fn none_set(flags: Seq<bool>) -> bool {
    forall|i: int| 0 <= i < flags.len() ==> !#[trigger] flags[i]
}

/// The position of the first `true` in `flags`, if there is one.
pub open spec fn first_set(flags: Seq<bool>) -> Option<int> {
    if exists|i: int| is_first_set(flags, i) {
        Some(choose|i: int| is_first_set(flags, i))
    } else {
        None
    }
}

/// The position to prefer in a list whose entries are flagged or not: the
/// first flagged entry, else the first entry, else (empty list) none.
pub open spec fn preferred_index(flags: Seq<bool>) -> Option<int> {
    if flags.len() == 0 {
        None
    } else {
        match first_set(flags) {
            Some(i) => Some(i),
            None => Some(0),
        }
    }
}

/// The gamma-correction flag of each format, in order.
pub open spec fn srgb_of(formats: Seq<wgpu::TextureFormat>) -> Seq<bool> {
    Seq::new(formats.len(), |i: int| format_is_srgb(formats[i]))
}

/// The format to present in: the first gamma-corrected one of `formats`,
/// else the first one, else (empty list) none.
pub open spec fn preferred_format(formats: Seq<wgpu::TextureFormat>) -> Option<wgpu::TextureFormat> {
    match preferred_index(srgb_of(formats)) {
        Some(i) => Some(formats[i]),
        None => None,
    }
}

/// At most one position is the first `true` of a list.
pub proof fn lemma_first_set_unique(flags: Seq<bool>, i: int, j: int)
    requires
        is_first_set(flags, i),
        is_first_set(flags, j),
    ensures
        i == j,
{
    if i < j {
        assert(!flags[i]);
    } else if j < i {
        assert(!flags[j]);
    }
}

/// `first_set` is the first `true` where there is one, and `None` exactly
/// where no entry is `true`.
pub proof fn lemma_first_set(flags: Seq<bool>)
    ensures
        match first_set(flags) {
            Some(i) => is_first_set(flags, i),
            None => none_set(flags),
        },
{
    if first_set(flags) is None {
        assert forall|k: int| 0 <= k < flags.len() implies !#[trigger] flags[k] by {
            if flags[k] {
                lemma_first_set_below(flags, k);
            }
        }
    }
}

/// A `true` at position `k` puts a first `true` at or before `k`.
proof fn lemma_first_set_below(flags: Seq<bool>, k: int)
    requires
        0 <= k < flags.len(),
        flags[k],
    ensures
        exists|i: int| is_first_set(flags, i) && i <= k,
    decreases k,
{
    if exists|j: int| 0 <= j < k && flags[j] {
        let j = choose|j: int| 0 <= j < k && flags[j];
        lemma_first_set_below(flags, j);
    } else {
        assert(is_first_set(flags, k));
    }
}

/// Adapter selection is determined by the answers it is given: two lists of
/// answers that agree position by position select the same adapter.
pub proof fn lemma_adapter_choice_determined(first: Seq<bool>, second: Seq<bool>)
    requires
        first.len() == second.len(),
        forall|i: int| 0 <= i < first.len() ==> first[i] == second[i],
    ensures
        first_set(first) == first_set(second),
{
    assert(first =~= second);
}

/// The selected adapter depends on no answer after its own: a list that
/// agrees with `flags` up to and including the selected position selects the
/// same position, whatever follows.
pub proof fn lemma_adapter_choice_ignores_later(flags: Seq<bool>, other: Seq<bool>, i: int)
    requires
        first_set(flags) == Some(i),
        i < other.len(),
        forall|j: int| 0 <= j <= i ==> flags[j] == other[j],
    ensures
        first_set(other) == Some(i),
{
    lemma_first_set(flags);
    assert(is_first_set(other, i)) by {
        assert(other[i] == flags[i]);
        assert forall|j: int| 0 <= j < i implies !#[trigger] other[j] by {
            assert(other[j] == flags[j]);
        }
    }
    lemma_first_set(other);
    lemma_first_set_unique(other, i, first_set(other).unwrap());
}

/// The format fallback. Of a non-empty list of supported formats the
/// preferred one is always an entry of the list. Where some entry is
/// gamma-corrected, it is the first such entry; where none is, it is the
/// first entry. Only an empty list has no preferred format.
pub proof fn lemma_format_fallback(formats: Seq<wgpu::TextureFormat>)
    ensures
        preferred_format(formats) is None <==> formats.len() == 0,
        preferred_format(formats) matches Some(format) ==> formats.contains(format),
        (exists|i: int| 0 <= i < formats.len() && format_is_srgb(formats[i])) ==> {
            &&& preferred_format(formats) matches Some(format)
            &&& format_is_srgb(format)
            &&& exists|k: int| is_first_set(srgb_of(formats), k) && format == formats[k]
        },
        formats.len() > 0 && (forall|i: int|
            0 <= i < formats.len() ==> !format_is_srgb(#[trigger] formats[i]))
            ==> preferred_format(formats) == Some(formats[0]),
{
    let flags = srgb_of(formats);
    lemma_first_set(flags);
    if formats.len() > 0 {
        match first_set(flags) {
            Some(k) => {
                assert(flags[k] == format_is_srgb(formats[k]));
                assert(formats.contains(formats[k]));
                assert forall|i: int| 0 <= i < formats.len() implies format_is_srgb(
                    #[trigger] formats[i],
                ) == flags[i] by {}
            },
            None => {
                assert(formats.contains(formats[0]));
                assert forall|i: int| 0 <= i < formats.len() implies !format_is_srgb(
                    formats[i],
                ) by {
                    assert(!flags[i]);
                }
            },
        }
    }
}

/// Finds the first `true` of `flags`.
pub fn first_set_position(flags: &Vec<bool>) -> (found: Option<usize>)
    ensures
        match found {
            Some(i) => is_first_set(flags@, i as int) && first_set(flags@) == Some(i as int),
            None => none_set(flags@) && first_set(flags@) is None,
        },
{
    let mut i: usize = 0;
    while i < flags.len()
        invariant
            i <= flags@.len(),
            forall|j: int| 0 <= j < i ==> !#[trigger] flags@[j],
        decreases flags@.len() - i,
    {
        if flags[i] {
            proof {
                assert(is_first_set(flags@, i as int));
                lemma_first_set(flags@);
                lemma_first_set_unique(flags@, i as int, first_set(flags@).unwrap());
            }
            return Some(i);
        }
        i += 1;
    }
    proof {
        lemma_first_set(flags@);
        if first_set(flags@) is Some {
            assert(flags@[first_set(flags@).unwrap()]);
        }
    }
    None
}

/// Chooses the adapter to use from the per-adapter answers to "can this
/// adapter present to the surface?", given in enumeration order: the first
/// adapter that can. No ranking by power or kind takes place. The choice is a
/// function of the answers alone.
pub fn select_adapter(supports_surface: &Vec<bool>) -> (chosen: Option<usize>)
    ensures
        chosen.is_some() <==> exists|i: int|
            0 <= i < supports_surface@.len() && supports_surface@[i],
        match chosen {
            Some(i) => is_first_set(supports_surface@, i as int),
            None => none_set(supports_surface@),
        },
        match chosen {
            Some(i) => first_set(supports_surface@) == Some(i as int),
            None => first_set(supports_surface@) is None,
        },
{
    first_set_position(supports_surface)
}

/// Chooses a position in a capability list from its per-entry flags: the
/// first flagged entry where there is one, else the first entry. An empty
/// list has no position to choose.
pub fn preferred_position(flags: &Vec<bool>) -> (chosen: Option<usize>)
    ensures
        chosen.is_none() <==> flags@.len() == 0,
        match chosen {
            Some(i) => {
                &&& i < flags@.len()
                &&& preferred_index(flags@) == Some(i as int)
                &&& (is_first_set(flags@, i as int) || (none_set(flags@) && i == 0))
            },
            None => preferred_index(flags@) is None,
        },
{
    if flags.len() == 0 {
        return None;
    }
    match first_set_position(flags) {
        Some(i) => Some(i),
        None => Some(0),
    }
}

/// Chooses the format to present in from the formats the surface supports, in
/// the surface's order: the first gamma-corrected format where there is one,
/// else the first format. The result is always an entry of the list; an empty
/// list has none.
pub fn select_format(formats: &Vec<wgpu::TextureFormat>) -> (chosen: Option<wgpu::TextureFormat>)
    ensures
        chosen == preferred_format(formats@),
        chosen.is_none() <==> formats@.len() == 0,
        chosen.is_some() ==> formats@.contains(chosen.unwrap()),
{
    let flags = srgb_flags(formats);
    assert(flags@ =~= srgb_of(formats@));
    match preferred_position(&flags) {
        Some(i) => Some(formats[i]),
        None => None,
    }
}

} // verus!
