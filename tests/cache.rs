use libts::{Error, MdCache, MdHeader};

fn segment(max: u64, cnt: u64, md_len: u64, total: usize) -> Vec<u8> {
    let mut b = vec![0u8; total];
    b[0..8].copy_from_slice(&5i64.to_le_bytes());
    b[8..16].copy_from_slice(&(-6i64).to_le_bytes());
    b[16..24].copy_from_slice(&max.to_le_bytes());
    b[24..32].copy_from_slice(&cnt.to_le_bytes());
    b[32..36].copy_from_slice(&64i32.to_le_bytes());
    b[36..40].copy_from_slice(&3i32.to_le_bytes());
    b[40..48].copy_from_slice(&md_len.to_le_bytes());
    b
}

fn put_record(b: &mut [u8], i: usize, payload: &[u8], stored_len: u16) {
    let start = 64 + 64 * i;
    b[start..start + 2].copy_from_slice(&stored_len.to_le_bytes());
    b[start + 2..start + 2 + payload.len()].copy_from_slice(payload);
}

#[test]
fn cache_header_fields() {
    let b = segment(2, 1, 192, 192);
    let h = MdHeader::from_bytes(&b).unwrap();
    assert_eq!(h.init_time, 5);
    assert_eq!(h.shut_time, -6);
    assert_eq!(h.max_messages, 2);
    assert_eq!(h.cnt_messages, 1);
    assert_eq!(h.rec_size, 64);
    assert_eq!(h.session_no, 3);
    assert_eq!(h.md_len, 192);
    assert_eq!(MdHeader::from_bytes(&b[..63]).err(), Some(Error::Eof));
}

#[test]
fn cache_len_never_exceeds_cap() {
    let b = segment(2, 1, 192, 192);
    let c = MdCache::new(&b).unwrap();
    assert_eq!(c.cap(), 2);
    assert_eq!(c.len(), 1);
    assert_eq!(c.header().max_messages, 2);
    let b = segment(2, 9, 192, 192);
    let c = MdCache::new(&b).unwrap();
    assert_eq!(c.len(), 2);
    assert!(c.len() <= c.cap());
}

#[test]
fn cache_records() {
    let mut b = segment(3, 2, 256, 300);
    put_record(&mut b, 0, b"hello", 5);
    put_record(&mut b, 2, &[9u8; 62], 1000);
    let c = MdCache::new(&b).unwrap();
    assert_eq!(c.msg(0).unwrap().data(), b"hello");
    assert_eq!(c.msg(1).unwrap().len(), 0);
    assert_eq!(c.msg(2).unwrap().len(), 62);
    assert!(c.msg(3).is_none());
    let all = c.msgs();
    assert_eq!(all.len(), 3);
    assert!(all[0] == c.msg(0).unwrap());
}

#[test]
fn cache_rejects_bad_segments() {
    assert_eq!(MdCache::new(&[0u8; 10]).err(), Some(Error::Eof));
    let b = segment(4, 0, 100, 400);
    assert_eq!(MdCache::new(&b).err(), Some(Error::Syntax));
    let b = segment(1, 0, 128, 100);
    assert_eq!(MdCache::new(&b).err(), Some(Error::Eof));
}
