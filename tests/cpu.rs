use rumio::cpu::{clear_by_read_write, set_by_read_write, Cpu, RegisterRead, RegisterWrite};
use rumio::perm::{ReadOnly, ReadWrite};
use rumio::register::{self, BitField, EnumField, FlagsField};
use std::sync::atomic::{AtomicU64, Ordering};

const DEFAULT_REG_VALUE: u64 = 0b101;

// One register per test, so that tests running side by side do not meet.
static REGISTERS: [AtomicU64; 5] = [
    AtomicU64::new(DEFAULT_REG_VALUE),
    AtomicU64::new(DEFAULT_REG_VALUE),
    AtomicU64::new(DEFAULT_REG_VALUE),
    AtomicU64::new(DEFAULT_REG_VALUE),
    AtomicU64::new(DEFAULT_REG_VALUE),
];

struct CpuRegister<const N: usize>;

impl<const N: usize> RegisterRead<u64> for CpuRegister<N> {
    fn read() -> u64 {
        REGISTERS[N].load(Ordering::SeqCst)
    }
}

impl<const N: usize> RegisterWrite<u64> for CpuRegister<N> {
    fn write(val: u64) {
        REGISTERS[N].store(val, Ordering::SeqCst)
    }

    fn set(mask: u64) {
        set_by_read_write::<u64, Self>(mask);
    }

    fn clear(mask: u64) {
        clear_by_read_write::<u64, Self>(mask);
    }
}

fn reset_register<const N: usize>() -> Cpu<CpuRegister<N>> {
    REGISTERS[N].store(DEFAULT_REG_VALUE, Ordering::SeqCst);
    Cpu::new()
}

fn assert_reg_eq<const N: usize>(val: u64) {
    assert_eq!(val, REGISTERS[N].load(Ordering::SeqCst));
}

const MODE_B: usize = 1;
const MODE_C: usize = 2;

fn mode() -> EnumField<u64, ReadWrite> {
    EnumField::new((0, 1), vec![0b00, 0b01, 0b10, 0b11])
}

fn foo() -> BitField<u64, ReadOnly> {
    BitField::new(2)
}

fn bar() -> BitField<u64, ReadWrite> {
    BitField::new(3)
}

fn baz() -> BitField<u64, ReadWrite> {
    BitField::new(4)
}

const A: u64 = 0b0001;
const B: u64 = 0b0010;
const C: u64 = 0b0100;

fn flags() -> FlagsField<u64, ReadWrite> {
    FlagsField::new((5, 8), 0b1111)
}

#[test]
fn cpu_read_write_single_bit() {
    let reg = reset_register::<0>();
    assert_reg_eq::<0>(DEFAULT_REG_VALUE);

    assert!(foo().get(&reg));

    assert!(!bar().get(&reg));
    assert!(!baz().get(&reg));

    bar().set(&reg, true);
    assert_reg_eq::<0>(0b1101);
    assert!(bar().get(&reg));
    assert!(!baz().get(&reg));

    baz().set(&reg, true);
    assert_reg_eq::<0>(0b11101);
    assert!(baz().get(&reg));
}

#[test]
fn cpu_read_write_enum() {
    let reg = reset_register::<1>();
    assert_reg_eq::<1>(DEFAULT_REG_VALUE);

    assert_eq!(mode().get(&reg), Some(MODE_B));

    mode().set(&reg, MODE_C);
    assert_reg_eq::<1>(0b110);
    assert_eq!(mode().get(&reg), Some(MODE_C));
}

#[test]
fn cpu_read_write_flags() {
    let reg = reset_register::<2>();
    assert_reg_eq::<2>(DEFAULT_REG_VALUE);

    assert_eq!(flags().get(&reg), 0);

    flags().set(&reg, A | C);
    assert_reg_eq::<2>(0b10100101);
    assert_eq!(flags().get(&reg), A | C);

    flags().set(&reg, B | C);
    assert_reg_eq::<2>(0b11000101);
    assert_eq!(flags().get(&reg), B | C);
}

#[test]
fn modify_values() {
    let reg = reset_register::<3>();
    assert_reg_eq::<3>(DEFAULT_REG_VALUE);

    let val = mode().value(MODE_B) | baz().value(true) | flags().value(A | B);
    println!("{:x?}", val);
    register::modify(&reg, val);

    assert_eq!(flags().get(&reg), A | B);
    assert_eq!(mode().get(&reg), Some(MODE_B));
    assert!(baz().get(&reg));
}

#[test]
fn register_read_write_and_is_set() {
    let reg = reset_register::<4>();

    assert_eq!(register::read(&reg, mode().field()), 0b01);
    assert_eq!(register::read(&reg, foo().field() | mode().field()), 0b101);
    assert_eq!(register::read(&reg, bar().field()), 0);
    assert!(register::is_set(&reg, foo().field()));
    assert!(!register::is_set(&reg, bar().field() | baz().field()));

    register::write(&reg, baz().value(true));
    assert_reg_eq::<4>(0b1_0000);
    assert!(!register::is_set(&reg, foo().field()));

    bar().set(&reg, true);
    bar().set(&reg, false);
    assert_reg_eq::<4>(0b1_0000);
}
