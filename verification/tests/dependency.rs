use atomic_utilities::ArchClass;
use atomic_utilities::BuildConfig;
use atomic_utilities::artificial_dep::dep_ord;
use atomic_utilities::artificial_dep::dependently;
use atomic_utilities::artificial_dep::false_dep;
use atomic_utilities::artificial_dep::xor_transform;
use std::sync::atomic::AtomicUsize;
use std::sync::atomic::Ordering;

#[test]
fn false_dep_is_the_identity() {
    let x: u64 = 0xdead_beef;
    assert_eq!(*false_dep(&x, 0), 0xdead_beef);
    assert_eq!(*false_dep(&x, usize::MAX), 0xdead_beef);
    assert_eq!(*false_dep(&x, 0x1234_5678), 0xdead_beef);
    let s = String::from("pointee stays untouched");
    assert_eq!(false_dep(&s, 42), "pointee stays untouched");
}

#[test]
fn dependently_applies_the_continuation() {
    let target: u64 = 77;
    let got = dependently(123, &target, |r: &u64| *r + 1);
    assert_eq!(got, 78);
}

#[test]
fn dependently_after_a_controlling_load() {
    let cfg = BuildConfig { arch: ArchClass::X86Family, asm_enabled: false };
    let controlling = AtomicUsize::new(5);
    let observed = AtomicUsize::new(9);
    let loaded = controlling.load(dep_ord(cfg));
    let seen = dependently(loaded, &observed, |r: &AtomicUsize| r.load(Ordering::Relaxed));
    assert_eq!(loaded, 5);
    assert_eq!(seen, 9);
}

#[test]
fn xor_round_trip_restores_every_word() {
    let pairs: [(usize, usize); 6] = [
        (0, 0),
        (0, usize::MAX),
        (usize::MAX, usize::MAX),
        (0x0123_4567, 0x89ab_cdef),
        (1, 2),
        (usize::MAX - 1, 1),
    ];
    for (x, v) in pairs {
        assert_eq!(xor_transform(xor_transform(x, v), v), x);
    }
}

#[test]
fn xor_transform_single_step() {
    assert_eq!(xor_transform(0b1100, 0b1010), 0b0110);
    assert_eq!(xor_transform(0, 0), 0);
    assert_eq!(xor_transform(usize::MAX, 0), usize::MAX);
    assert_eq!(xor_transform(usize::MAX, usize::MAX), 0);
}
