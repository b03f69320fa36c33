use libts::mounts::{bytes_eq, hugetlb_line, hugetlb_mounts, mount_path, select_largest, split_bytes};

#[test]
fn mounts_split_keeps_empty_pieces() {
    let f = split_bytes(b"a  b", b' ');
    assert_eq!(f, vec![b"a".to_vec(), Vec::new(), b"b".to_vec()]);
    assert_eq!(split_bytes(b"", b' '), vec![Vec::<u8>::new()]);
    assert!(bytes_eq(b"abc", b"abc"));
    assert!(!bytes_eq(b"abc", b"abd"));
}

#[test]
fn mounts_finds_hugetlbfs() {
    let table = b"proc /proc proc rw 0 0\n\
hugetlbfs /dev/hugepages hugetlbfs rw,relatime 0 0\n\
overlay / overlay rw 0 0\n\
none /mnt/huge1g hugetlbfs rw,pagesize=1024M 0 0\n\
short line hugetlbfs\n";
    let mounts = hugetlb_mounts(table);
    assert_eq!(mounts, vec![b"/dev/hugepages".to_vec(), b"/mnt/huge1g".to_vec()]);
    assert!(!hugetlb_line(b"overlay / hugetlbfs rw 0 0"));
    assert!(hugetlb_line(b"overlay /x hugetlbfs rw 0 0"));
}

#[test]
fn mounts_path_and_choice() {
    assert_eq!(mount_path(b"/dev/hugepages", b"mdseries.bin"), b"/dev/hugepages/mdseries.bin".to_vec());
    assert_eq!(select_largest(None, &[Some(5), None, Some(5)]), Some(2));
    assert_eq!(select_largest(Some(10), &[Some(5), Some(9)]), None);
    assert_eq!(select_largest(Some(10), &[Some(12), Some(11)]), Some(0));
    assert_eq!(select_largest(None, &[]), None);
}
