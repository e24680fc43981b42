use shmem_arena::address::{RawSharedAddress, SharedAddress, ShmemId};
use shmem_arena::bootstrap::{bootstrap, ArenaChoice, ArenaConfig};
use shmem_arena::bump::{cursor_after, decide, first_allocation, BumpCursors, Reservation};
use shmem_arena::cursor::{decode_reserved, failure_ordering, offset_delta, AtomicSharedAddress};
use shmem_arena::name::ShmemName;
use shmem_arena::registry::{claim_slot, name_index, probe_index, probe_step, ProbeStep, MAX_SHMEMS};
use shmem_arena::shared_box::SharedBox;
use shmem_arena::size_class::{ObjectOffset, ObjectSize};
use std::sync::atomic::{AtomicBool, Ordering};

fn class(e: u8) -> ObjectSize {
    ObjectSize::from_exponent(e).unwrap()
}

#[test]
fn test_setup() {
    let mut config = ArenaConfig::new();
    bootstrap(&mut config, "/shmem_5A17".to_string());
    match config.start() {
        ArenaChoice::Open(name) => assert_eq!(name, "/shmem_5A17"),
        ArenaChoice::Create => panic!("a configured arena must be opened"),
    }
    assert!(config.started());
}

#[test]
fn test_setup_failure() {
    let mut config = ArenaConfig::new();
    assert!(matches!(config.start(), ArenaChoice::Create));
    bootstrap(&mut config, "/shmem_late".to_string());
    assert!(matches!(config.start(), ArenaChoice::Create));
}

#[test]
fn size_class_rounds_up_to_power_of_two() {
    assert_eq!(ObjectSize::ceil(0).exponent(), 3);
    assert_eq!(ObjectSize::ceil(1).exponent(), 3);
    assert_eq!(ObjectSize::ceil(8).exponent(), 3);
    assert_eq!(ObjectSize::ceil(9).exponent(), 4);
    assert_eq!(ObjectSize::ceil(16).exponent(), 4);
    assert_eq!(ObjectSize::ceil(17).exponent(), 5);
    assert_eq!(ObjectSize::ceil(4096).exponent(), 12);
    assert_eq!(ObjectSize::ceil(4097).exponent(), 13);
    assert_eq!(ObjectSize::ceil(1usize << 63).exponent(), 63);
}

#[test]
fn one_and_nine_bytes_round_to_different_classes() {
    assert_eq!(ObjectSize::ceil(1), ObjectSize::ceil(8));
    assert_eq!(ObjectSize::ceil(1).bytes(), 8);
    assert_ne!(ObjectSize::ceil(1), ObjectSize::ceil(9));
    assert_eq!(ObjectSize::ceil(9).bytes(), 16);
}

#[test]
fn size_class_is_monotonic() {
    let mut last = 0u8;
    for r in 1usize..5000 {
        let e = ObjectSize::ceil(r).exponent();
        assert!(e >= last);
        assert!(ObjectSize::ceil(r).bytes() >= r.max(8) as u64);
        last = e;
    }
}

#[test]
fn class_span_and_offset() {
    assert_eq!(class(1).bytes(), 2);
    assert_eq!(class(63).bytes(), 1u64 << 63);
    assert_eq!(class(31).as_offset(), Some(ObjectOffset(1u32 << 31)));
    assert_eq!(class(32).as_offset(), None);
    assert!(ObjectSize::from_exponent(0).is_none());
    assert!(ObjectSize::from_exponent(64).is_none());
}

#[test]
fn offset_conversions() {
    let o = ObjectOffset(0xdead_beef);
    assert_eq!(o.as_u64(), 0xdead_beef);
    assert_eq!(o.as_usize(), 0xdead_beef);
    assert_eq!(o.as_isize(), 0xdead_beef);
}

#[test]
fn address_wire_format() {
    let a = SharedAddress::new(ShmemId(0x1234), class(4), ObjectOffset(0xdead_beef));
    assert_eq!(a.to_bits(), 0xdead_beef_0004_1234);
    assert_eq!(a.shmem_id(), ShmemId(0x1234));
    assert_eq!(a.object_size(), Some(class(4)));
    assert_eq!(a.object_offset(), ObjectOffset(0xdead_beef));
    assert_eq!(a.object_end(), Some(0xdead_beef + 16));
    let raw = a.as_raw();
    assert_eq!(
        raw,
        RawSharedAddress { shmem_id: 0x1234, object_size: 4, padding: 0, object_offset: 0xdead_beef }
    );
    assert_eq!(raw.to_u64(), 0xdead_beef_0004_1234);
    assert_eq!(RawSharedAddress::from_u64(0xdead_beef_0004_1234), raw);
}

#[test]
fn address_round_trip() {
    for (s, c, o) in [(0u16, 1u8, 0u32), (7, 3, 8), (u16::MAX, 63, u32::MAX), (9999, 12, 4096)] {
        let a = SharedAddress::new(ShmemId(s), class(c), ObjectOffset(o));
        assert_ne!(a.to_bits(), 0);
        let b = SharedAddress::from_bits(a.to_bits()).unwrap();
        assert_eq!(b, a);
        assert_eq!((b.shmem_id().0, b.object_size().unwrap().exponent(), b.object_offset().0), (s, c, o));
        assert_eq!(SharedAddress::from_raw(a.as_raw()), Some(a));
    }
}

#[test]
fn address_validity() {
    assert_eq!(SharedAddress::from_bits(0), None);
    assert_eq!(SharedAddress::from_bits(0x0000_0010_0000_0001), None);
    assert_eq!(SharedAddress::from_bits(0x0000_0000_0103_0000), None);
    let wide = SharedAddress::from_bits(0x0000_0000_0040_0000).unwrap();
    assert_eq!(wide.as_raw().object_size, 64);
    assert_eq!(wide.object_size(), None);
    assert_eq!(wide.object_end(), None);
    assert!(SharedAddress::from_bits(0x0000_0000_003f_0000).is_some());
    let raw = RawSharedAddress { shmem_id: 1, object_size: 0, padding: 0, object_offset: 8 };
    assert!(!raw.is_valid());
    assert_eq!(SharedAddress::from_raw(raw), None);
    let raw = RawSharedAddress { shmem_id: 1, object_size: 3, padding: 1, object_offset: 8 };
    assert!(!raw.is_valid());
    let raw = RawSharedAddress { shmem_id: 1, object_size: 200, padding: 0, object_offset: 8 };
    assert!(raw.is_valid());
    let a = SharedAddress::from_raw(raw).unwrap();
    assert_eq!(a.as_raw(), raw);
    assert_eq!(a.object_size(), None);
}

#[test]
fn exported_address_resolves_to_same_fields() {
    let a = SharedAddress::new(ShmemId(2), ObjectSize::ceil(std::mem::size_of::<u64>()), ObjectOffset(37 * 8));
    let bytes = a.to_bits().to_le_bytes();
    let b = SharedAddress::from_bits(u64::from_le_bytes(bytes)).unwrap();
    assert_eq!(b.shmem_id(), ShmemId(2));
    assert_eq!(b.object_size().unwrap().exponent(), 3);
    assert_eq!(b.object_offset().as_u64(), 296);
}

#[test]
fn decide_ready_when_range_fits() {
    let a = SharedAddress::new(ShmemId(1), class(3), ObjectOffset(4088));
    assert_eq!(decide(8, Some(a), Some(4096)), Reservation::Ready(a));
    let b = SharedAddress::new(ShmemId(1), class(3), ObjectOffset(4096));
    assert_eq!(decide(8, Some(b), Some(4096)), Reservation::Grow(8192));
}

#[test]
fn decide_grows() {
    assert_eq!(decide(1, None, None), Reservation::Grow(1));
    assert_eq!(decide(4000, None, None), Reservation::Grow(4000));
    let a = SharedAddress::new(ShmemId(1), class(12), ObjectOffset(8192));
    assert_eq!(decide(4000, Some(a), None), Reservation::Grow(4000));
    assert_eq!(decide(4000, Some(a), Some(1000)), Reservation::Grow(4000));
    assert_eq!(decide(4000, Some(a), Some(3000)), Reservation::Grow(6000));
    let huge = SharedAddress::new(ShmemId(1), class(63), ObjectOffset(8));
    assert_eq!(decide(1usize << 63, Some(huge), Some(usize::MAX / 2 + 1)), Reservation::Exhausted);
    assert_eq!(decide(1usize << 63, Some(huge), Some(usize::MAX / 2)), Reservation::Grow(usize::MAX - 1));
}

#[test]
fn fresh_segment_layout() {
    let (first, next) = first_allocation(ShmemId(5), class(4));
    assert_eq!(first, SharedAddress::new(ShmemId(5), class(4), ObjectOffset(0)));
    assert_eq!(next, Some(SharedAddress::new(ShmemId(5), class(4), ObjectOffset(16))));
    let (first, next) = first_allocation(ShmemId(5), class(40));
    assert_eq!(first.object_offset(), ObjectOffset(0));
    assert_eq!(next, None);
}

#[test]
fn bump_cursor_hands_out_disjoint_slots() {
    let cursors = BumpCursors::new();
    let c = class(3);
    assert_eq!(cursors.reserve(c), None);
    let first = cursors.publish(c, None, ShmemId(9)).unwrap();
    assert_eq!(first.object_offset().0, 0);
    let mut offsets = vec![first.object_offset().0];
    for _ in 0..10 {
        let a = cursors.reserve(c).unwrap();
        assert_eq!(a.shmem_id(), ShmemId(9));
        offsets.push(a.object_offset().0);
    }
    assert_eq!(offsets, vec![0, 8, 16, 24, 32, 40, 48, 56, 64, 72, 80]);
    assert_eq!(cursors.reserve(class(4)), None);
}

#[test]
fn stale_publish_loses() {
    let cursors = BumpCursors::new();
    let c = class(5);
    assert!(cursors.publish(c, None, ShmemId(1)).is_some());
    assert_eq!(cursors.publish(c, None, ShmemId(2)), None);
    let a = cursors.reserve(c).unwrap();
    assert_eq!((a.shmem_id(), a.object_offset().0), (ShmemId(1), 32));
}

#[test]
fn atomic_address_exchange() {
    let a = SharedAddress::new(ShmemId(3), class(3), ObjectOffset(8));
    let b = SharedAddress::new(ShmemId(4), class(3), ObjectOffset(0));
    let cell = AtomicSharedAddress::new(None);
    assert_eq!(cell.compare_and_swap(None, Some(a), Ordering::SeqCst), None);
    assert_eq!(cell.load(Ordering::SeqCst), Some(a));
    assert_eq!(cell.compare_and_swap(None, Some(b), Ordering::SeqCst), Some(a));
    assert_eq!(cell.load(Ordering::SeqCst), Some(a));
    assert_eq!(cell.exchange(Some(b), None, Ordering::SeqCst), Err(Some(a)));
    assert_eq!(cell.exchange(Some(a), Some(b), Ordering::AcqRel), Ok(()));
    assert_eq!(cell.load(Ordering::SeqCst), Some(b));
}

#[test]
fn atomic_address_fetch_add() {
    let cell = AtomicSharedAddress::new(None);
    assert_eq!(cell.fetch_add(ObjectOffset(8), Ordering::SeqCst), None);
    assert_eq!(cell.load(Ordering::SeqCst), None);
    let a = SharedAddress::new(ShmemId(3), class(3), ObjectOffset(8));
    let cell = AtomicSharedAddress::new(Some(a));
    assert_eq!(cell.fetch_add(ObjectOffset(8), Ordering::SeqCst), Some(a));
    let b = cell.load(Ordering::SeqCst).unwrap();
    assert_eq!((b.shmem_id(), b.object_size(), b.object_offset()), (ShmemId(3), Some(class(3)), ObjectOffset(16)));
}

#[test]
fn claim_slot_probes_from_hint_and_wraps() {
    let flags: Vec<AtomicBool> = (0..4).map(|_| AtomicBool::new(false)).collect();
    assert_eq!(claim_slot(&flags, 2), Some(2));
    assert_eq!(claim_slot(&flags, 2), Some(3));
    assert_eq!(claim_slot(&flags, 2), Some(0));
    assert_eq!(claim_slot(&flags, 6), Some(1));
    assert_eq!(claim_slot(&flags, 0), None);
    assert_eq!(claim_slot(&[], 0), None);
}

#[test]
fn registry_exhausts_after_max_segments() {
    let flags: Vec<AtomicBool> = (0..MAX_SHMEMS).map(|_| AtomicBool::new(false)).collect();
    for i in 0..MAX_SHMEMS {
        assert_eq!(claim_slot(&flags, i), Some(i));
    }
    assert_eq!(claim_slot(&flags, MAX_SHMEMS), None);
    assert_eq!(claim_slot(&flags, 0), None);
}

#[test]
fn name_lookup_bounds() {
    assert_eq!(name_index(ShmemId(0), 0), Some(0));
    assert_eq!(name_index(ShmemId(5), 5), Some(5));
    assert_eq!(name_index(ShmemId(6), 5), None);
    assert_eq!(name_index(ShmemId(10_000), 20_000), None);
    assert_eq!(name_index(ShmemId(9_999), 20_000), Some(9_999));
}

#[test]
fn segment_names() {
    let n = ShmemName::from_str("/shmem_0123456789ABCDEF").unwrap();
    assert_eq!(n.as_str(), "/shmem_0123456789ABCDEF");
    let exact = "a".repeat(32);
    assert_eq!(ShmemName::from_str(&exact).unwrap().as_str(), exact);
    assert!(ShmemName::from_str(&"a".repeat(33)).is_none());
    assert!(ShmemName::from_str(&"é".repeat(17)).is_none());
    assert_eq!(ShmemName::from_str(&"é".repeat(16)).unwrap().as_str(), "é".repeat(16));
    assert_eq!(ShmemName::from_str("").unwrap().as_str(), "");
}

#[test]
fn shared_box_keeps_its_address() {
    let a = SharedAddress::new(ShmemId(1), ObjectSize::ceil(8), ObjectOffset(37 * 8));
    let b: SharedBox<u64> = SharedBox::from_address(a);
    assert_eq!(b.address(), a);
}

#[test]
fn offset_delta_lands_in_offset_field() {
    assert_eq!(offset_delta(ObjectOffset(8)), 8u64 << 32);
    assert_eq!(offset_delta(ObjectOffset(0)), 0);
    let a = SharedAddress::new(ShmemId(0x1234), class(3), ObjectOffset(16));
    let b = SharedAddress::from_bits(a.to_bits() + offset_delta(ObjectOffset(8))).unwrap();
    assert_eq!((b.shmem_id(), b.object_size(), b.object_offset()), (ShmemId(0x1234), Some(class(3)), ObjectOffset(24)));
}

#[test]
fn decode_reserved_undoes_on_empty() {
    assert_eq!(decode_reserved(0), (None, true));
    assert_eq!(decode_reserved(8u64 << 32), (None, true));
    let a = SharedAddress::new(ShmemId(1), class(3), ObjectOffset(8));
    assert_eq!(decode_reserved(a.to_bits()), (Some(a), false));
}

#[test]
fn advance_moves_only_the_offset() {
    let a = SharedAddress::new(ShmemId(7), class(4), ObjectOffset(32));
    assert_eq!(a.advance(ObjectOffset(16)), SharedAddress::new(ShmemId(7), class(4), ObjectOffset(48)));
    let top = SharedAddress::new(ShmemId(7), class(4), ObjectOffset(u32::MAX - 15));
    assert_eq!(top.advance(ObjectOffset(16)), SharedAddress::new(ShmemId(7), class(4), ObjectOffset(0)));
}

#[test]
fn cursor_after_reservation() {
    let a = SharedAddress::new(ShmemId(7), class(4), ObjectOffset(32));
    assert_eq!(cursor_after(class(4), Some(a)), Some(SharedAddress::new(ShmemId(7), class(4), ObjectOffset(48))));
    assert_eq!(cursor_after(class(4), None), None);
    let big = SharedAddress::new(ShmemId(7), class(40), ObjectOffset(0));
    assert_eq!(cursor_after(class(40), Some(big)), Some(big));
}

#[test]
fn full_segment_is_replaced_by_one_new_segment() {
    let cursors = BumpCursors::new();
    let c = class(3);
    let first = cursors.publish(c, cursor_after(c, None), ShmemId(1)).unwrap();
    assert_eq!(first.object_offset().0, 0);
    let reserved = cursors.reserve(c);
    assert_eq!(reserved.unwrap().object_offset().0, 8);
    assert_eq!(decide(8, reserved, Some(8)), Reservation::Grow(16));
    let next = cursors.publish(c, cursor_after(c, reserved), ShmemId(2)).unwrap();
    assert_eq!((next.shmem_id(), next.object_offset().0), (ShmemId(2), 0));
    let after = cursors.reserve(c).unwrap();
    assert_eq!((after.shmem_id(), after.object_offset().0), (ShmemId(2), 8));
    assert_eq!(cursors.publish(c, reserved, ShmemId(3)), None);
}

#[test]
fn probe_order_and_steps() {
    assert_eq!(probe_index(6, 0, 4), 2);
    assert_eq!(probe_index(6, 1, 4), 3);
    assert_eq!(probe_index(6, 2, 4), 0);
    assert_eq!(probe_index(6, 3, 4), 1);
    assert_eq!(probe_index(usize::MAX, 5, 10), (usize::MAX % 10 + 5) % 10);
    assert_eq!(probe_step(6, 2, 4, false), ProbeStep::Claimed(0));
    assert_eq!(probe_step(6, 2, 4, true), ProbeStep::Next);
    assert_eq!(probe_step(6, 3, 4, true), ProbeStep::Exhausted);
}

#[test]
fn wide_exponent_never_fits() {
    let wide = SharedAddress::from_bits(0x0000_0000_00ff_0001).unwrap();
    assert_eq!(decide(8, Some(wide), Some(usize::MAX)), Reservation::Exhausted);
    assert_eq!(decide(8, Some(wide), Some(4096)), Reservation::Grow(8192));
}

#[test]
fn failure_orderings() {
    assert_eq!(failure_ordering(Ordering::SeqCst), Ordering::SeqCst);
    assert_eq!(failure_ordering(Ordering::AcqRel), Ordering::Acquire);
    assert_eq!(failure_ordering(Ordering::Acquire), Ordering::Acquire);
    assert_eq!(failure_ordering(Ordering::Release), Ordering::Relaxed);
    assert_eq!(failure_ordering(Ordering::Relaxed), Ordering::Relaxed);
}
