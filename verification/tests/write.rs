use swap_buffer_queue::write::{BytesSlice, WriteArrayBuffer, WriteVecBuffer};
use swap_buffer_queue::write_vectored::{FrameBound, WriteVectoredArrayBuffer, WriteVectoredVecBuffer};
use swap_buffer_queue::Queue;

#[test]
fn bytes_slice_frame() {
    let mut queue: Queue<WriteVecBuffer<2, 4>> = Queue::with_capacity(42);
    queue.try_enqueue(vec![2u8, 3, 4, 5]).unwrap();
    let mut slice = queue.try_dequeue().unwrap();
    let mut bytes = slice.bytes_slice();
    assert_eq!(bytes.payload(), &[2, 3, 4, 5]);
    bytes.header().copy_from_slice(&[0, 1]);
    bytes.trailer().copy_from_slice(&[6, 7, 8, 9]);
    assert_eq!(bytes.frame(), &[0, 1, 2, 3, 4, 5, 6, 7, 8, 9]);
    bytes.frame_mut()[2] = 20;
    assert_eq!(bytes.frame(), &[0, 1, 20, 3, 4, 5, 6, 7, 8, 9]);
    slice.release(&mut queue);
}

#[test]
fn write_buffer_with_length_header() {
    // Creates a WriteVecBuffer queue with a 2-bytes header
    let mut queue: Queue<WriteVecBuffer<2, 0>> = Queue::with_capacity((1 << 16) - 1);
    queue.try_enqueue(vec![0u8; 256]).unwrap();
    queue.try_enqueue(vec![42u8; 42]).unwrap();
    let mut slice = queue.try_dequeue().unwrap();
    let mut bytes = slice.bytes_slice();
    // Adds a header with the len of the buffer
    let len = (bytes.payload().len() as u16).to_be_bytes();
    bytes.header().copy_from_slice(&len);
    let mut writer: Vec<u8> = Vec::new();
    std::io::Write::write_all(&mut writer, bytes.frame()).unwrap();
    assert_eq!(writer.len(), 300);
    assert_eq!(&writer[..2], &[1, 42]);
}

#[test]
fn write_array_buffer() {
    let mut queue: Queue<WriteArrayBuffer<4, 1, 1>> = Queue::new();
    assert_eq!(queue.capacity(), 4);
    queue.try_enqueue(vec![1u8, 2]).unwrap();
    queue.try_enqueue(vec![3u8]).unwrap();
    assert!(queue.try_enqueue(vec![4u8, 5]).is_err());
    let mut slice = queue.try_dequeue().unwrap();
    let mut bytes = slice.bytes_slice();
    bytes.header()[0] = 9;
    bytes.trailer()[0] = 8;
    assert_eq!(bytes.frame(), &[9, 1, 2, 3, 8]);
}

#[test]
fn bytes_slice_over_any_frame() {
    let mut frame = [0u8, 1, 2, 3, 4, 5];
    let mut bytes: BytesSlice<2, 1> = BytesSlice(&mut frame);
    assert_eq!(bytes.payload(), &[2, 3, 4]);
    assert_eq!(bytes.header(), &[0, 1]);
    assert_eq!(bytes.trailer(), &[5]);
}

fn to_vec(slices: &[&[u8]]) -> Vec<Vec<u8>> {
    slices.iter().map(|s| s.to_vec()).collect()
}

#[test]
fn vectored_slice_frame() {
    let mut queue: Queue<WriteVectoredVecBuffer<Vec<u8>>> = Queue::with_capacity(42);
    queue.try_enqueue(vec![2u8, 3, 4, 5]).unwrap();
    let slice = queue.try_dequeue().unwrap();
    let vectored = slice.vectored();
    assert_eq!(to_vec(vectored.slices()), vec![vec![2u8, 3, 4, 5]]);
    assert_eq!(vectored.total_size(), 4);
    let header = vec![0u8, 1];
    let trailer = vec![6u8, 7, 8, 9];
    let frame = vectored.frame(
        FrameBound::Unbounded,
        FrameBound::Unbounded,
        Some(&header),
        Some(&trailer),
    );
    assert_eq!(
        to_vec(frame.as_slices()),
        vec![vec![0u8, 1], vec![2, 3, 4, 5], vec![6, 7, 8, 9]]
    );
}

#[test]
fn vectored_write_with_total_size_header() {
    let mut queue: Queue<WriteVectoredVecBuffer<Vec<u8>>> = Queue::with_capacity(100);
    queue.try_enqueue(vec![0u8; 256]).unwrap();
    queue.try_enqueue(vec![42u8; 42]).unwrap();
    let slice = queue.try_dequeue().unwrap();
    let vectored = slice.vectored();
    // Adds a header with the total size of the slices
    let total_size = (vectored.total_size() as u16).to_be_bytes();
    let frame = vectored.frame(FrameBound::Unbounded, FrameBound::Unbounded, Some(&total_size), None);
    let io_slices: Vec<std::io::IoSlice> = frame.as_slices().iter().map(|s| std::io::IoSlice::new(s)).collect();
    let mut writer: Vec<u8> = Vec::new();
    assert_eq!(std::io::Write::write_vectored(&mut writer, &io_slices).unwrap(), 300);
}

#[test]
fn vectored_frame_bounds() {
    let mut queue: Queue<WriteVectoredArrayBuffer<Vec<u8>, 4>> = Queue::new();
    for i in 0..4u8 {
        queue.try_enqueue(vec![i]).unwrap();
    }
    let slice = queue.try_dequeue().unwrap();
    let vectored = slice.vectored();
    let h = [9u8];
    let frame = vectored.frame(FrameBound::Included(1), FrameBound::Excluded(3), Some(&h), None);
    assert_eq!(to_vec(frame.as_slices()), vec![vec![9u8], vec![1], vec![2]]);
    let frame = vectored.frame(FrameBound::Excluded(0), FrameBound::Included(2), None, Some(&h));
    assert_eq!(to_vec(frame.as_slices()), vec![vec![1u8], vec![2], vec![9]]);
    let frame = vectored.frame(FrameBound::Included(2), FrameBound::Excluded(2), None, None);
    assert!(frame.as_slices().is_empty());
}

#[test]
fn vectored_values_are_drained() {
    let mut queue: Queue<WriteVectoredVecBuffer<Vec<u8>>> = Queue::with_capacity(2);
    queue.try_enqueue(vec![1u8]).unwrap();
    queue.try_enqueue(vec![2u8, 3]).unwrap();
    let mut iter = queue.try_dequeue().unwrap().into_iter();
    assert_eq!(iter.next(), Some(vec![1u8]));
    let slice = iter.into_slice();
    assert_eq!(slice.vectored().total_size(), 2);
}

#[test]
fn header_and_trailer_of_a_short_frame() {
    let mut frame = [0u8, 1, 2];
    let mut bytes: BytesSlice<2, 2> = BytesSlice(&mut frame);
    assert_eq!(bytes.header(), &[0, 1]);
    assert_eq!(bytes.trailer(), &[1, 2]);
}
