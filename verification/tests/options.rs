use binwrite::{Endian, WriterOption};

#[test]
fn default_order_is_native() {
    assert_eq!(Endian::default(), Endian::Native);
    assert_eq!(WriterOption::default().endian, Endian::Native);
}

#[test]
fn an_order_can_be_chosen() {
    let options = WriterOption::default().with_endian(Endian::Big);
    assert_eq!(options.endian, Endian::Big);
    assert!(options.big_first());
    let options = options.with_endian(Endian::Little);
    assert_eq!(options.endian, Endian::Little);
    assert!(!options.big_first());
    let options = options.with_endian(Endian::Native);
    assert_eq!(options.big_first(), options.host.big_first());
}

#[test]
fn the_field_can_be_set() {
    let mut options = WriterOption::default();
    options.endian = Endian::Big;
    assert!(options.big_first());
    let copy = options.clone();
    assert_eq!(copy.endian, Endian::Big);
}

#[test]
fn orders_have_names() {
    assert_eq!(Endian::Big.name(), "Big");
    assert_eq!(Endian::Little.name(), "Little");
    assert_eq!(Endian::Native.name(), "Native");
    let name: String = (&Endian::Big).into();
    assert_eq!(name, "Big");
    let name: String = (&Endian::Little).into();
    assert_eq!(name, "Little");
    let name: String = (&Endian::Native).into();
    assert_eq!(name, "Native");
}
