use mediadecode::packet::PacketFlags;

#[test]
fn flag_bits_are_stable() {
    assert_eq!(PacketFlags::key().bits(), 0b001);
    assert_eq!(PacketFlags::corrupt().bits(), 0b010);
    assert_eq!(PacketFlags::discard().bits(), 0b100);
}

#[test]
fn flags_combine() {
    let f = PacketFlags::key() | PacketFlags::corrupt();
    assert!(f.contains(PacketFlags::key()));
    assert!(f.contains(PacketFlags::corrupt()));
    assert!(!f.contains(PacketFlags::discard()));
}

#[test]
fn empty_default() {
    assert_eq!(PacketFlags::default(), PacketFlags::empty());
}

#[test]
fn insert_remove_toggle() {
    let mut f = PacketFlags::empty();
    f.insert(PacketFlags::discard());
    assert!(f.contains(PacketFlags::discard()));
    assert_eq!(f.bits(), 0b100);
    f.toggle(PacketFlags::key());
    assert_eq!(f.bits(), 0b101);
    f.toggle(PacketFlags::key());
    assert_eq!(f.bits(), 0b100);
    f.remove(PacketFlags::discard());
    assert!(f.is_empty());
    f.set(PacketFlags::corrupt(), true);
    assert_eq!(f, PacketFlags::corrupt());
    f.set(PacketFlags::corrupt(), false);
    assert!(f.is_empty());
}

#[test]
fn set_operations() {
    let a = PacketFlags::key() | PacketFlags::corrupt();
    let b = PacketFlags::corrupt() | PacketFlags::discard();
    assert_eq!((a & b).bits(), 0b010);
    assert_eq!((a ^ b).bits(), 0b101);
    assert_eq!((a - b).bits(), 0b001);
    assert_eq!(a.union(b), PacketFlags::all());
    assert_eq!(a.intersection(b), PacketFlags::corrupt());
    assert_eq!(a.difference(b), PacketFlags::key());
    assert_eq!(a.symmetric_difference(b).bits(), 0b101);
    assert!(a.intersects(b));
    assert!(!PacketFlags::key().intersects(PacketFlags::discard()));
    assert_eq!((!a).bits(), 0b100);
    assert_eq!(a.complement(), PacketFlags::discard());
    assert!(PacketFlags::all().is_all());
    assert!(!a.is_all());
}

#[test]
fn from_bits_variants() {
    assert_eq!(PacketFlags::from_bits(0b011), Some(PacketFlags::key() | PacketFlags::corrupt()));
    assert_eq!(PacketFlags::from_bits(0b1000), None);
    assert_eq!(PacketFlags::from_bits_truncate(0b1101).bits(), 0b101);
    assert_eq!(PacketFlags::from_bits_retain(0b1101).bits(), 0b1101);
    assert!(PacketFlags::from_bits_retain(0xff).is_all());
    assert_eq!(PacketFlags::from_bits_retain(0xff).complement(), PacketFlags::empty());
}
