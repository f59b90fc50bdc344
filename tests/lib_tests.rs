use dune_sys::lg_align;

#[test]
fn it_works() {
    let result = dune_sys::add(2, 2);
    assert_eq!(result, 4);
}

#[test]
fn lg_align_rounds_up_to_a_gigabyte() {
    assert_eq!(lg_align(0), 0);
    assert_eq!(lg_align(1), 0x4000_0000);
    assert_eq!(lg_align(0x4000_0000), 0x4000_0000);
    assert_eq!(lg_align(0x4000_0001), 0x8000_0000);
    assert_eq!(lg_align(0x1234_5678_9abc), 0x1234_8000_0000);
}
