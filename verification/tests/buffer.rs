use three_d::buffer::UniformBuffer;
use three_d::error::Error;

#[test]
fn new_buffer_is_zeroed_and_laid_out_in_order() {
    let buffer = UniformBuffer::new(&[3, 1, 3, 1, 16]).unwrap();
    assert_eq!(buffer.slot_count(), 5);
    assert_eq!(buffer.data().len(), 24);
    assert!(buffer.data().iter().all(|w| *w == 0));
    assert_eq!(buffer.get(0).unwrap(), &[0, 0, 0][..]);
    assert_eq!(buffer.get(1).unwrap(), &[0][..]);
    assert_eq!(buffer.get(4).unwrap().len(), 16);
}

#[test]
fn buffer_without_slots() {
    let mut buffer = UniformBuffer::new(&[]).unwrap();
    assert_eq!(buffer.slot_count(), 0);
    assert_eq!(buffer.data().len(), 0);
    assert_eq!(buffer.get(0), Err(Error::Buffer));
    assert_eq!(buffer.update(0, &[]), Err(Error::Buffer));
}

#[test]
fn slot_of_no_words() {
    let mut buffer = UniformBuffer::new(&[2, 0, 1]).unwrap();
    assert_eq!(buffer.update(1, &[]), Ok(()));
    assert_eq!(buffer.update(2, &[7]), Ok(()));
    assert_eq!(buffer.get(1).unwrap(), &[][..]);
    assert_eq!(buffer.data(), &[0, 0, 7][..]);
}

#[test]
fn update_writes_its_slot_and_no_other() {
    let mut buffer = UniformBuffer::new(&[3, 1, 3, 1, 16]).unwrap();
    assert_eq!(buffer.update(2, &[7, 8, 9]), Ok(()));
    assert_eq!(buffer.update(0, &[1, 2, 3]), Ok(()));
    assert_eq!(buffer.get(0).unwrap(), &[1, 2, 3][..]);
    assert_eq!(buffer.get(1).unwrap(), &[0][..]);
    assert_eq!(buffer.get(2).unwrap(), &[7, 8, 9][..]);
    assert_eq!(buffer.get(3).unwrap(), &[0][..]);
    assert_eq!(buffer.get(4).unwrap(), &[0; 16][..]);
    assert_eq!(&buffer.data()[..8], &[1, 2, 3, 0, 7, 8, 9, 0][..]);
}

#[test]
fn update_of_the_last_slot_reaches_the_end() {
    let mut buffer = UniformBuffer::new(&[1, 2]).unwrap();
    assert_eq!(buffer.update(1, &[5, 6]), Ok(()));
    assert_eq!(buffer.data(), &[0, 5, 6][..]);
}

#[test]
fn update_is_refused_for_a_wrong_length_or_slot() {
    let mut buffer = UniformBuffer::new(&[3, 1]).unwrap();
    assert_eq!(buffer.update(0, &[1, 2, 3]), Ok(()));
    assert_eq!(buffer.update(0, &[9, 9]), Err(Error::Buffer));
    assert_eq!(buffer.update(0, &[9, 9, 9, 9]), Err(Error::Buffer));
    assert_eq!(buffer.update(2, &[9]), Err(Error::Buffer));
    assert_eq!(buffer.data(), &[1, 2, 3, 0][..]);
    assert_eq!(buffer.get(2), Err(Error::Buffer));
}

#[test]
fn buffer_too_large_to_count_is_refused() {
    let words = u32::MAX as u128;
    let slots = (usize::MAX as u128) / words + 1;
    if slots <= 8 {
        let sizes = vec![u32::MAX; slots as usize];
        assert!(matches!(UniformBuffer::new(&sizes), Err(Error::Allocation)));
    }
}
