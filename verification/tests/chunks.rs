use depthai::bootloader::request::BootMemory;
use depthai::bootloader::XLINK_MAX_PACKET_SIZE;
use depthai::chunks::Chunks;

#[test]
fn chunks() {
    let vec = vec![1, 2, 3, 4, 5];

    let mut chunks = Chunks::new(vec, 2);

    assert_eq!(chunks.next(), Some(&[1, 2][..]));
    assert_eq!(chunks.next(), Some(&[3, 4][..]));
    assert_eq!(chunks.next(), Some(&[5][..]));
    assert_eq!(chunks.next(), None);
}

#[test]
fn chunks_of_nothing() {
    let mut chunks = Chunks::<u8>::new(vec![], 2);
    assert_eq!(chunks.next(), None);
    assert_eq!(chunks.next(), None);
}

#[test]
fn chunks_make_the_whole() {
    let data: Vec<u8> = (0..250).collect();
    for split_by in [1, 7, 249, 250, 251] {
        let mut chunks = Chunks::new(data.clone(), split_by);
        let mut whole = vec![];
        let mut count = 0;
        while let Some(piece) = chunks.next() {
            whole.extend_from_slice(piece);
            count += 1;
        }
        assert_eq!(whole, data);
        assert_eq!(count, (data.len() - 1) / split_by + 1);
    }
}

#[test]
fn as_many_packets_as_announced() {
    for len in [1, 409599, 409600, 409601, 1000000] {
        let mut chunks = Chunks::new(vec![0u8; len], XLINK_MAX_PACKET_SIZE);
        let mut count = 0;
        while chunks.next().is_some() {
            count += 1;
        }
        assert_eq!(BootMemory::for_firmware(len as u32).num_packets, count);
    }
}
