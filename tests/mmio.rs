use rumio::mmio::{Lit, Register, VolAddr, Volatile};
use rumio::perm::{ReadOnly, ReadWrite};
use rumio::register::{BitField, EnumField, FlagsField};
use std::sync::atomic::{AtomicU8, Ordering};

// Simulated device memory: one block of bytes per test, at address `BASE`.
const BASE: usize = 0x1000;
const SIZE: usize = 64;
const ZERO: AtomicU8 = AtomicU8::new(0);
const BLOCK: [AtomicU8; SIZE] = [ZERO; SIZE];
static MEMORY: [[AtomicU8; SIZE]; 5] = [BLOCK; 5];

struct Memory<const N: usize>;

struct MmioRegion<const N: usize>;

impl<const N: usize> MmioRegion<N> {
    // A zeroed region of `size` bytes, and its address.
    fn new(size: usize) -> (MmioRegion<N>, usize) {
        assert!(size <= SIZE);
        for byte in &MEMORY[N][..size] {
            byte.store(0, Ordering::SeqCst);
        }
        (MmioRegion, BASE)
    }
}

impl<const N: usize> Memory<N> {
    fn byte(addr: usize) -> &'static AtomicU8 {
        &MEMORY[N][addr - BASE]
    }

    fn load(addr: usize, len: usize) -> u64 {
        (0..len).fold(0, |acc, i| acc | (Self::byte(addr + i).load(Ordering::SeqCst) as u64) << (8 * i))
    }

    fn store(addr: usize, len: usize, val: u64) {
        for i in 0..len {
            Self::byte(addr + i).store((val >> (8 * i)) as u8, Ordering::SeqCst);
        }
    }
}

impl<const N: usize> Volatile<u8> for Memory<N> {
    fn read_volatile(addr: VolAddr<u8>) -> u8 {
        Self::load(addr.addr(), 1) as u8
    }

    fn write_volatile(addr: VolAddr<u8>, val: u8) {
        Self::store(addr.addr(), 1, val as u64)
    }
}

impl<const N: usize> Volatile<u16> for Memory<N> {
    fn read_volatile(addr: VolAddr<u16>) -> u16 {
        Self::load(addr.addr(), 2) as u16
    }

    fn write_volatile(addr: VolAddr<u16>, val: u16) {
        Self::store(addr.addr(), 2, val as u64)
    }
}

impl<const N: usize> Volatile<u32> for Memory<N> {
    fn read_volatile(addr: VolAddr<u32>) -> u32 {
        Self::load(addr.addr(), 4) as u32
    }

    fn write_volatile(addr: VolAddr<u32>, val: u32) {
        Self::store(addr.addr(), 4, val as u64)
    }
}

// The device: registers `one` at 0x00 and `two` at 0x08, plain values
// `lit1: u32` at 0x0A, `lit2: u8` at 0x0E and `lit3: [u8; 32]` at 0x0F.
struct Device<const N: usize>(VolAddr<u8>);

impl<const N: usize> Device<N> {
    fn new(addr: usize) -> Self {
        Device(VolAddr::new(addr))
    }

    fn one(&self) -> Register<u16, Memory<N>> {
        Register::new(self.0.offset(0x00).cast())
    }

    fn two(&self) -> Register<u16, Memory<N>> {
        Register::new(self.0.offset(0x08).cast())
    }

    fn lit1(&self) -> Lit<u32> {
        Lit::new(self.0.offset(0x0A).cast())
    }

    fn lit2(&self) -> Lit<u8> {
        Lit::new(self.0.offset(0x0E).cast())
    }

    fn lit3(&self, idx: usize) -> Lit<u8> {
        Lit::new(self.0.offset(0x0F + idx as isize).cast())
    }
}

const MODE_A: usize = 0;
const MODE_D: usize = 3;

fn mode() -> EnumField<u16, ReadWrite> {
    EnumField::new((0, 1), vec![0b00, 0b01, 0b10, 0b11])
}

fn foo() -> BitField<u16, ReadOnly> {
    BitField::new(2)
}

fn bar() -> BitField<u16, ReadWrite> {
    BitField::new(3)
}

fn baz() -> BitField<u16, ReadWrite> {
    BitField::new(4)
}

const A: u16 = 0b0001;
const B: u16 = 0b0010;
const C: u16 = 0b0100;
const D: u16 = 0b1000;

fn flags() -> FlagsField<u16, ReadWrite> {
    FlagsField::new((5, 8), 0b1111)
}

#[test]
fn mmio_read_write_single_bit() {
    let (_guard, addr) = MmioRegion::<0>::new(16);
    let mmio = Device::<0>::new(addr);

    assert!(!foo().get(&mmio.one()));
    assert!(!baz().get(&mmio.one()));
    assert!(!bar().get(&mmio.one()));

    VolAddr::<u8>::new(addr).write::<Memory<0>>(0b00010100);

    assert!(foo().get(&mmio.one()));
    assert!(baz().get(&mmio.one()));
    assert!(!bar().get(&mmio.one()));

    bar().set(&mmio.two(), true);
    assert!(bar().get(&mmio.two()));
}

#[test]
fn mmio_read_write_enum() {
    let (_guard, addr) = MmioRegion::<1>::new(16);
    let mmio = Device::<1>::new(addr);
    VolAddr::<u8>::new(addr).write::<Memory<1>>(0b11);

    assert_eq!(mode().get(&mmio.one()), Some(MODE_D));

    mode().set(&mmio.one(), MODE_A);
    assert_eq!(mode().get(&mmio.one()), Some(MODE_A));
}

#[test]
fn mmio_read_write_flags() {
    let (_guard, addr) = MmioRegion::<2>::new(16);
    let mmio = Device::<2>::new(addr);
    VolAddr::<u16>::new(addr).write::<Memory<2>>(0b111000000);

    assert_eq!(flags().get(&mmio.one()), B | C | D);

    flags().set(&mmio.one(), B | C);
    assert_eq!(flags().get(&mmio.one()), B | C);

    flags().set(&mmio.two(), A | C);
    assert_eq!(flags().get(&mmio.two()), A | C);
}

#[test]
fn read_write_lit() {
    let (_guard, addr) = MmioRegion::<3>::new(16);
    let mmio = Device::<3>::new(addr);

    assert_eq!(mmio.lit1().read::<Memory<3>>(), 0);
    assert_eq!(mmio.lit2().read::<Memory<3>>(), 0);

    mmio.lit1().write::<Memory<3>>(0xF00D_BABE);
    mmio.lit2().write::<Memory<3>>(0xAB);

    assert_eq!(mmio.lit1().read::<Memory<3>>(), 0xF00D_BABE);
    assert_eq!(mmio.lit2().read::<Memory<3>>(), 0xAB);
}

#[test]
fn read_write_array() {
    let (_guard, addr) = MmioRegion::<4>::new(48);
    let mmio = Device::<4>::new(addr);

    for idx in 0..32 {
        mmio.lit3(idx).write::<Memory<4>>(idx as u8);
    }

    for idx in 0..32 {
        assert_eq!(mmio.lit3(idx).read::<Memory<4>>(), idx as u8);
    }
}

#[test]
fn lit_address() {
    let base = VolAddr::<u8>::new(BASE);
    let lit = Lit::<u32>::new(base.offset(0x0A).cast());
    assert_eq!(lit.addr().addr(), BASE + 0x0A);
}
