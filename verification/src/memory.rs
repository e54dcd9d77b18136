//! Choosing a memory type for an allocation.

use vstd::prelude::*;

verus! {

/// Whether memory type `i` is allowed by `type_filter` (bit `i`) and has
/// every property in `required`.
pub open spec fn is_suitable_memory_type(type_filter: u32, required: u32, memory_types: Seq<u32>, i: int) -> bool {
    type_filter & (1u32 << (i as u32)) != 0 && memory_types[i] & required == required
}

/// Finds the first memory type that `type_filter` allows and that has every
/// property in `required`; `memory_types` holds each type's property flags
/// (at most 32 types, as Vulkan defines).
pub fn find_memory_type(type_filter: u32, required: u32, memory_types: &Vec<u32>) -> (r: Option<u32>)
    requires
        memory_types@.len() <= 32,
    ensures
        r is None <==> forall|i: int| 0 <= i < memory_types@.len()
            ==> !is_suitable_memory_type(type_filter, required, memory_types@, i),
        r matches Some(k) ==> k < memory_types@.len()
            && is_suitable_memory_type(type_filter, required, memory_types@, k as int)
            && forall|j: int| 0 <= j < k ==> !is_suitable_memory_type(type_filter, required, memory_types@, j),
{
    let mut index: u32 = 0;
    while (index as usize) < memory_types.len()
        invariant
            index <= memory_types@.len(),
            memory_types@.len() <= 32,
            forall|j: int| 0 <= j < index ==> !is_suitable_memory_type(type_filter, required, memory_types@, j),
        decreases memory_types@.len() - index,
    {
        let supported = type_filter & (1u32 << index) != 0;
        if supported {
            let flags = memory_types[index as usize];
            if flags & required == required {
                assert(is_suitable_memory_type(type_filter, required, memory_types@, index as int));
                return Some(index);
            }
        }
        assert(!is_suitable_memory_type(type_filter, required, memory_types@, index as int));
        index = index + 1;
    }
    None
}

/// A memory type is suitable exactly when bit `i` of the filter is set and
/// its property flags include every required flag.
pub proof fn law_suitable_memory_type(type_filter: u32, required: u32, memory_types: Seq<u32>, i: u32)
    requires
        i < 32,
        i < memory_types.len(),
    ensures
        is_suitable_memory_type(type_filter, required, memory_types, i as int)
            <==> (type_filter >> i) & 1u32 == 1u32 && memory_types[i as int] & required == required,
{
    assert(type_filter & (1u32 << i) != 0 <==> (type_filter >> i) & 1u32 == 1u32) by (bit_vector)
        requires
            i < 32,
    ;
}

} // verus!
