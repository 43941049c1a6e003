use system_mimalloc::{BlockLayout, EntryCall, MiMalloc};

#[test]
fn allocate_forwards_size_and_alignment() {
    let layout = BlockLayout { size: 24, align: 8 };
    assert_eq!(
        MiMalloc.allocate(layout),
        EntryCall::MallocAligned { size: 24, align: 8 }
    );
}

#[test]
fn allocate_zeroed_forwards_size_and_alignment() {
    let layout = BlockLayout { size: 128, align: 64 };
    assert_eq!(
        MiMalloc.allocate_zeroed(layout),
        EntryCall::ZallocAligned {
            size: 128,
            align: 64
        }
    );
}

#[test]
fn allocate_passes_zero_size_through_unchanged() {
    let layout = BlockLayout { size: 0, align: 1 };
    let first = MiMalloc.allocate(layout);
    let second = MiMalloc.allocate(layout);
    assert_eq!(first, EntryCall::MallocAligned { size: 0, align: 1 });
    assert_eq!(first, second, "the same request maps to the same call");
}

#[test]
fn reallocate_keeps_the_original_alignment() {
    let original = BlockLayout { size: 24, align: 8 };
    assert_eq!(
        MiMalloc.reallocate(0x1000, original, 64),
        EntryCall::ReallocAligned {
            addr: 0x1000,
            new_size: 64,
            align: 8
        }
    );
}

#[test]
fn reallocate_may_shrink() {
    let original = BlockLayout { size: 4096, align: 4096 };
    assert_eq!(
        MiMalloc.reallocate(0x2000, original, 16),
        EntryCall::ReallocAligned {
            addr: 0x2000,
            new_size: 16,
            align: 4096
        }
    );
}

#[test]
fn deallocate_forwards_the_address_alone() {
    let obtained_with = BlockLayout { size: 24, align: 8 };
    let another = BlockLayout { size: 999, align: 32 };
    let call = MiMalloc.deallocate(0x3000, obtained_with);
    assert_eq!(call, EntryCall::Free { addr: 0x3000 });
    assert_eq!(
        call,
        MiMalloc.deallocate(0x3000, another),
        "the layout plays no part in a deallocation"
    );
}

#[test]
fn adapter_values_are_interchangeable() {
    let a = MiMalloc;
    let b = a; // copies: MiMalloc is `Copy`
    assert_eq!(a, b);
    assert_eq!(a, MiMalloc);
    let layout = BlockLayout { size: 24, align: 8 };
    assert_eq!(a.allocate(layout), b.allocate(layout));
}

#[test]
fn allocate_then_deallocate_round_trip_uses_matching_calls() {
    // The scenario of one allocation: request 24 bytes at alignment 8,
    // then release the block the external library handed back.
    let layout = match BlockLayout::from_size_align(24, 8) {
        Some(layout) => layout,
        None => panic!("8 is a power of two"),
    };
    let addr: usize = 0x4000; // stands for the address the entry point returned
    assert_eq!(
        MiMalloc.allocate(layout),
        EntryCall::MallocAligned { size: 24, align: 8 }
    );
    assert_eq!(
        MiMalloc.deallocate(addr, layout),
        EntryCall::Free { addr: 0x4000 }
    );
}
