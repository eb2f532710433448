//! Which memory type backs a buffer.

use vstd::prelude::*;

verus! {

/// Whether memory type `i` may back the buffer: bit `i` of the buffer's
/// memory type filter is set, and the type has every wanted property flag.
pub open spec fn memory_type_fits(type_filter: u32, type_flags: u32, properties: u32, i: u32) -> bool {
    &&& type_filter & (1u32 << i) != 0
    &&& type_flags & properties == properties
}

/// Picks the first memory type that the buffer accepts and that has every
/// flag of `properties`. `memory_type_flags` holds the property flags of the
/// device's memory types, in order (Vulkan has at most 32 of them); the
/// result is the index of the chosen type, or `None` where none fits.
pub fn find_memory_type(type_filter: u32, memory_type_flags: &Vec<u32>, properties: u32) -> (r: Option<u32>)
    requires
        memory_type_flags.len() <= 32,
    ensures
        match r {
            Some(i) => {
                &&& i < memory_type_flags.len()
                &&& memory_type_fits(type_filter, memory_type_flags@[i as int], properties, i)
                &&& forall|j: u32|
                    j < i ==> !memory_type_fits(
                        type_filter,
                        #[trigger] memory_type_flags@[j as int],
                        properties,
                        j,
                    )
            },
            None => forall|j: u32|
                j < memory_type_flags.len() ==> !memory_type_fits(
                    type_filter,
                    #[trigger] memory_type_flags@[j as int],
                    properties,
                    j,
                ),
        },
{
    let count: u32 = memory_type_flags.len() as u32;
    let mut i: u32 = 0;
    while i < count
        invariant
            i <= count,
            count == memory_type_flags.len(),
            count <= 32,
            forall|j: u32|
                j < i ==> !memory_type_fits(
                    type_filter,
                    #[trigger] memory_type_flags@[j as int],
                    properties,
                    j,
                ),
        decreases count - i,
    {
        let filter_match = type_filter & (1u32 << i) != 0;
        let flags_match = memory_type_flags[i as usize] & properties == properties;
        if filter_match && flags_match {
            return Some(i);
        }
        i = i + 1;
    }
    None
}

/// A memory type is accepted exactly when bit `i` of the filter is set
/// and its flags include every requested property: a type carrying extra
/// flags (device-local, host-cached and so on) besides the requested ones is
/// accepted as well.
pub proof fn lemma_memory_type_fit(type_filter: u32, type_flags: u32, properties: u32, i: u32)
    requires
        i < 32,
    ensures
        memory_type_fits(type_filter, type_flags, properties, i) <==> ((type_filter >> i) & 1u32
            == 1u32 && (type_flags | properties) == type_flags),
        forall|extra: u32|
            (type_filter >> i) & 1u32 == 1u32 ==> memory_type_fits(
                type_filter,
                #[trigger] (properties | extra),
                properties,
                i,
            ),
{
    assert((type_filter & (1u32 << i) != 0) == ((type_filter >> i) & 1u32 == 1u32)) by (bit_vector)
        requires
            i < 32,
    ;
    assert((type_flags & properties == properties) == ((type_flags | properties) == type_flags))
        by (bit_vector);
    assert forall|extra: u32| (type_filter >> i) & 1u32 == 1u32 implies memory_type_fits(
        type_filter,
        #[trigger] (properties | extra),
        properties,
        i,
    ) by {
        assert((properties | extra) & properties == properties) by (bit_vector);
    }
}

} // verus!
