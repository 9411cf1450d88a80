use usb_device::{BosWriter, DescriptorWriter, UsbError};

#[test]
fn writer_starts_empty() {
    let w = DescriptorWriter::new(10);
    assert!(w.as_bytes().is_empty());
    assert_eq!(w.position(), 0);
    assert_eq!(w.remaining(), 10);
    assert!(!w.overflowed());
}

#[test]
fn writer_appends_in_order() {
    let mut w = DescriptorWriter::new(10);
    assert_eq!(w.write(&[9, 4, 0]), Ok(()));
    assert_eq!(w.write(&[7, 5]), Ok(()));
    assert_eq!(w.write(&[]), Ok(()));
    assert_eq!(w.as_bytes(), &[9, 4, 0, 7, 5]);
    assert_eq!(w.position(), 5);
    assert_eq!(w.remaining(), 5);
    assert!(!w.overflowed());
}

#[test]
fn writer_takes_exactly_its_capacity() {
    let mut w = DescriptorWriter::new(4);
    assert_eq!(w.write(&[1, 2, 3, 4]), Ok(()));
    assert_eq!(w.remaining(), 0);
    assert!(!w.overflowed());
    assert_eq!(w.write(&[]), Ok(()));
    assert_eq!(w.write(&[5]), Err(UsbError::BufferOverflow));
    assert_eq!(w.as_bytes(), &[1, 2, 3, 4]);
}

#[test]
fn refused_write_writes_nothing_and_marks_the_writer() {
    let mut w = DescriptorWriter::new(4);
    assert_eq!(w.write(&[1, 2, 3]), Ok(()));
    assert_eq!(w.write(&[4, 5]), Err(UsbError::BufferOverflow));
    assert_eq!(w.as_bytes(), &[1, 2, 3]);
    assert_eq!(w.remaining(), 1);
    assert!(w.overflowed());
    assert_eq!(w.write(&[4]), Ok(()));
    assert_eq!(w.as_bytes(), &[1, 2, 3, 4]);
    assert!(w.overflowed());
}

#[test]
fn bos_writer_appends_and_refuses() {
    let mut w = BosWriter::new(5);
    assert!(w.as_bytes().is_empty());
    assert!(!w.overflowed());
    assert_eq!(w.write(&[3, 16, 2]), Ok(()));
    assert_eq!(w.write(&[3, 16, 5]), Err(UsbError::BufferOverflow));
    assert_eq!(w.as_bytes(), &[3, 16, 2]);
    assert!(w.overflowed());
    assert_eq!(w.write(&[0, 0]), Ok(()));
    assert_eq!(w.as_bytes(), &[3, 16, 2, 0, 0]);
}
