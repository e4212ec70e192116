use secret_box::align_region;

const PAGE: usize = 4096;

#[test]
fn test_align_exact_page_one_byte() {
    let r = align_region(PAGE, 1, PAGE);
    assert_eq!(r.start, PAGE);
    assert_eq!(r.len, PAGE);
    assert_eq!(r.page_size, PAGE);
}

#[test]
fn test_align_unaligned_address() {
    let r = align_region(PAGE + 1, 1, PAGE);
    assert_eq!(r.start, PAGE);
    assert_eq!(r.len, PAGE);
}

#[test]
fn test_align_extent_spanning_pages() {
    let r = align_region(5000, 10000, PAGE);
    assert_eq!(r.start, PAGE);
    assert_eq!(r.start + r.len, 4 * PAGE);
}

#[test]
fn test_align_end_on_boundary() {
    let r = align_region(PAGE, PAGE, PAGE);
    assert_eq!(r.start, PAGE);
    assert_eq!(r.len, PAGE);
}

#[test]
fn test_align_page_size_one() {
    let r = align_region(12345, 678, 1);
    assert_eq!(r.start, 12345);
    assert_eq!(r.len, 678);
}

#[test]
fn test_align_sweep_covers_and_lands_on_boundaries() {
    let mut addr: usize = 1;
    while addr < 5 * PAGE {
        let mut len: usize = 1;
        while len < 3 * PAGE {
            let r = align_region(addr, len, PAGE);
            assert!(r.start <= addr);
            assert!(addr + len <= r.start + r.len);
            assert_eq!(r.start % PAGE, 0);
            assert_eq!(r.len % PAGE, 0);
            assert!(r.start + r.len < addr + len + PAGE);
            len += 997;
        }
        addr += 1013;
    }
}
