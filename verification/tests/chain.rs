use pvz_demo::address::Address;
use pvz_demo::chain::{resolve, Resolution, Step};
use pvz_demo::error::{Error, ErrorKind};

fn read(location: isize) -> Result<Address, Error> {
    Ok(Address::new(location))
}

fn failed_read(message: &str) -> Result<Address, Error> {
    Err(Error::new(ErrorKind::ReadFailed, message.to_string()))
}

fn asked(resolution: &Resolution<Address>) -> Option<Address> {
    match resolution {
        Resolution::Read(address) => Some(*address),
        _ => None,
    }
}

fn done(resolution: &Resolution<Address>) -> Option<Address> {
    match resolution {
        Resolution::Done(address) => Some(*address),
        _ => None,
    }
}

fn failure(resolution: &Resolution<Address>) -> Option<(ErrorKind, String)> {
    match resolution {
        Resolution::Failed(error) => Some((error.kind, error.message.clone())),
        _ => None,
    }
}

const NOT_LOADED: &str = "目标结构尚未加载";
const OUT_OF_RANGE: &str = "地址超出范围";

#[test]
fn a_chain_without_steps_ends_at_its_root() {
    assert_eq!(done(&resolve(Address::new(0x1000), &[], &[])), Some(Address::new(0x1000)));
    assert_eq!(done(&resolve(Address::new(0), &[], &[])), Some(Address::new(0)));
}

#[test]
fn offsets_are_added_from_left_to_right() {
    let steps = [Step::Offset(0x768), Step::Offset(-0x8), Step::Offset(0x10)];
    assert_eq!(done(&resolve(Address::new(0x1000), &steps, &[])), Some(Address::new(0x1770)));
}

#[test]
fn a_dereference_asks_for_the_address_it_stands_at() {
    let steps = [Step::Offset(0x20), Step::Dereference, Step::Offset(0x8)];
    assert_eq!(asked(&resolve(Address::new(0x1000), &steps, &[])), Some(Address::new(0x1020)));
}

#[test]
fn an_answer_lets_the_walk_go_on() {
    let steps = [Step::Offset(0x20), Step::Dereference, Step::Offset(0x8)];
    let reads = [read(0x5000)];
    assert_eq!(done(&resolve(Address::new(0x1000), &steps, &reads)), Some(Address::new(0x5008)));
}

#[test]
fn each_dereference_takes_the_next_answer() {
    let steps = [Step::Dereference, Step::Offset(0x768), Step::Dereference, Step::Offset(0x5560)];
    let root = Address::new(0x6A9EC0);
    assert_eq!(asked(&resolve(root, &steps, &[])), Some(Address::new(0x6A9EC0)));
    let one = [read(0x1000_0000)];
    assert_eq!(asked(&resolve(root, &steps, &one)), Some(Address::new(0x1000_0768)));
    let two = [read(0x1000_0000), read(0x2000_0000)];
    assert_eq!(done(&resolve(root, &steps, &two)), Some(Address::new(0x2000_5560)));
}

#[test]
fn answers_beyond_the_chain_are_left_alone() {
    let steps = [Step::Dereference];
    let reads = [read(0x40), read(0), failed_read("unused")];
    assert_eq!(done(&resolve(Address::new(0x10), &steps, &reads)), Some(Address::new(0x40)));
}

#[test]
fn a_null_answer_stops_the_walk() {
    let steps = [Step::Dereference, Step::Offset(0x768), Step::Dereference, Step::Offset(0x5560)];
    let root = Address::new(0x6A9EC0);
    let first_null = [read(0)];
    assert_eq!(
        failure(&resolve(root, &steps, &first_null)),
        Some((ErrorKind::NotLoaded, NOT_LOADED.to_string()))
    );
    let second_null = [read(0x1000_0000), read(0)];
    assert_eq!(
        failure(&resolve(root, &steps, &second_null)),
        Some((ErrorKind::NotLoaded, NOT_LOADED.to_string()))
    );
}

#[test]
fn after_a_null_answer_nothing_more_is_asked_for() {
    let steps = [Step::Dereference, Step::Dereference, Step::Dereference];
    let root = Address::new(0x100);
    let reads = [read(0), read(0x300), read(0x400)];
    let resolution = resolve(root, &steps, &reads);
    assert_eq!(asked(&resolution), None);
    assert_eq!(done(&resolution), None);
    assert_eq!(failure(&resolution), Some((ErrorKind::NotLoaded, NOT_LOADED.to_string())));
}

#[test]
fn a_null_address_is_not_dereferenced() {
    let steps = [Step::Dereference];
    assert_eq!(
        failure(&resolve(Address::new(0), &steps, &[])),
        Some((ErrorKind::NotLoaded, NOT_LOADED.to_string()))
    );
    let back_to_null = [Step::Offset(0x10), Step::Offset(-0x10), Step::Dereference];
    assert_eq!(
        failure(&resolve(Address::new(0), &back_to_null, &[read(0x500)])),
        Some((ErrorKind::NotLoaded, NOT_LOADED.to_string()))
    );
}

#[test]
fn a_failed_read_is_the_failure_of_the_chain() {
    let steps = [Step::Dereference, Step::Offset(0x768), Step::Dereference];
    let reads = [read(0x1000), failed_read("access is denied")];
    assert_eq!(
        failure(&resolve(Address::new(0x6A9EC0), &steps, &reads)),
        Some((ErrorKind::ReadFailed, "access is denied".to_string()))
    );
    let first = [failed_read("gone"), read(0x2000)];
    assert_eq!(
        failure(&resolve(Address::new(0x6A9EC0), &steps, &first)),
        Some((ErrorKind::ReadFailed, "gone".to_string()))
    );
}

#[test]
fn an_offset_out_of_the_address_space_stops_the_walk() {
    let up = [Step::Offset(1)];
    assert_eq!(
        failure(&resolve(Address::new(isize::MAX), &up, &[])),
        Some((ErrorKind::NotLoaded, OUT_OF_RANGE.to_string()))
    );
    let down = [Step::Dereference, Step::Offset(-2), Step::Dereference];
    assert_eq!(
        failure(&resolve(Address::new(0x10), &down, &[read(isize::MIN + 1)])),
        Some((ErrorKind::NotLoaded, OUT_OF_RANGE.to_string()))
    );
    let edge = [Step::Offset(1)];
    assert_eq!(done(&resolve(Address::new(isize::MAX - 1), &edge, &[])), Some(Address::new(isize::MAX)));
}

#[test]
fn a_negative_address_is_an_address() {
    let steps = [Step::Dereference, Step::Offset(4)];
    assert_eq!(done(&resolve(Address::new(0x10), &steps, &[read(-0x100)])), Some(Address::new(-0xFC)));
}
