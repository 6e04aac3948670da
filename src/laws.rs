//! Facts about the code table as a whole.

use vstd::prelude::*;
use crate::error_code::{
    code_of, description_of, name_of, unknown_description, unknown_name, valid_code, variant_of,
    ErrorCode, ERROR_CODE_COUNT,
};

verus! {

/// Every code in `0..=7` converts to a category whose code is that same number.
pub proof fn lemma_code_round_trip(n: u32)
    requires
        n <= 7,
    ensures
        valid_code(n),
        code_of(variant_of(n)) == n,
{
}

/// Every category's code is valid and converts back to that category.
pub proof fn lemma_variant_round_trip(e: ErrorCode)
    ensures
        valid_code(code_of(e)),
        variant_of(code_of(e)) == e,
{
}

/// Every integer above 7, up to `u32::MAX`, is an invalid code.
pub proof fn lemma_out_of_range_invalid(n: u32)
    requires
        n > 7,
    ensures
        !valid_code(n),
{
}

/// Every category has a non-empty name and description, and no two categories
/// share a name or a description.
pub proof fn lemma_names_nonempty_and_distinct(a: ErrorCode, b: ErrorCode)
    ensures
        name_of(a).len() > 0,
        description_of(a).len() > 0,
        a != b ==> name_of(a) != name_of(b),
        a != b ==> description_of(a) != description_of(b),
{
    reveal_strlit("validation");
    reveal_strlit("parsing");
    reveal_strlit("ocr");
    reveal_strlit("missing_dependency");
    reveal_strlit("io");
    reveal_strlit("plugin");
    reveal_strlit("unsupported_format");
    reveal_strlit("internal");
    reveal_strlit("Input validation error");
    reveal_strlit("Document parsing error");
    reveal_strlit("OCR processing error");
    reveal_strlit("Missing system dependency");
    reveal_strlit("File system I/O error");
    reveal_strlit("Plugin error");
    reveal_strlit("Unsupported format");
    reveal_strlit("Internal library error");
    if a != b {
        if name_of(a).len() == name_of(b).len() {
            assert(name_of(a)[0] != name_of(b)[0]);
        }
        if description_of(a).len() == description_of(b).len() {
            assert(description_of(a)[0] != description_of(b)[0] || description_of(a)[2]
                != description_of(b)[2]);
        }
    }
}

/// The fallback name and description for invalid codes are never empty.
pub proof fn lemma_fallbacks_nonempty()
    ensures
        unknown_name().len() > 0,
        unknown_description().len() > 0,
{
    reveal_strlit("unknown");
    reveal_strlit("Unknown error code");
}

/// The number of defined codes is exactly the number of integers that are
/// valid codes, and those integers are exactly the codes of the categories.
pub proof fn lemma_count_matches_valid()
    ensures
        Set::new(|n: u32| valid_code(n)) == Set::new(|n: u32| exists|e: ErrorCode| code_of(e) == n),
        Set::new(|n: u32| valid_code(n)).finite(),
        Set::new(|n: u32| valid_code(n)).len() == ERROR_CODE_COUNT,
{
    let valid = Set::new(|n: u32| valid_code(n));
    let listed = set![0u32, 1u32, 2u32, 3u32, 4u32, 5u32, 6u32, 7u32];
    assert forall|n: u32| valid.contains(n) implies listed.contains(n) by {
        assert(n == 0 || n == 1 || n == 2 || n == 3 || n == 4 || n == 5 || n == 6 || n == 7);
    }
    assert(valid =~= listed);
    assert forall|n: u32| valid_code(n) implies exists|e: ErrorCode| code_of(e) == n by {
        lemma_code_round_trip(n);
    }
    assert(valid =~= Set::new(|n: u32| exists|e: ErrorCode| code_of(e) == n));
    assert(listed.len() == 8) by {
        let s0 = Set::<u32>::empty();
        assert(s0.insert(0u32).len() == 1);
        assert(s0.insert(0u32).insert(1u32).len() == 2);
        assert(s0.insert(0u32).insert(1u32).insert(2u32).len() == 3);
        assert(s0.insert(0u32).insert(1u32).insert(2u32).insert(3u32).len() == 4);
        assert(s0.insert(0u32).insert(1u32).insert(2u32).insert(3u32).insert(4u32).len() == 5);
        assert(s0.insert(0u32).insert(1u32).insert(2u32).insert(3u32).insert(4u32).insert(5u32).len() == 6);
        assert(s0.insert(0u32).insert(1u32).insert(2u32).insert(3u32).insert(4u32).insert(5u32).insert(6u32).len() == 7);
    }
}

} // verus!
