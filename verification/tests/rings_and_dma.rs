use starfive2_net::defs::{BUF_SIZE, DESC_SIZE, RING_LEN, RX_BUF_PHYS, RX_DESC_PHYS, TX_DESC_PHYS};
use starfive2_net::dma::Dma;
use starfive2_net::driver::Starfive2Hal;
use starfive2_net::rings::{RxDes, RxRing, TxDes, TxRing};

struct IdentityHal;

impl Starfive2Hal for IdentityHal {
    fn dma_alloc_pages(pages: usize) -> (usize, usize) {
        (pages * 0x1000, pages * 0x1000)
    }
    fn dma_free_pages(_vaddr: usize, _pages: usize) {}
    fn mdelay(_m_times: usize) {}
    fn fence() {}
}

struct OffsetHal;

impl Starfive2Hal for OffsetHal {
    fn phys_to_virt(pa: usize) -> usize {
        pa + 0x1000_0000_0000
    }
    fn dma_alloc_pages(pages: usize) -> (usize, usize) {
        (pages, pages)
    }
    fn dma_free_pages(_vaddr: usize, _pages: usize) {}
    fn mdelay(_m_times: usize) {}
    fn fence() {}
}

fn rx(a: u32, b: u32, c: u32, d: u32) -> RxDes {
    RxDes { rdes0: a, rdes1: b, rdes2: c, rdes3: d }
}

fn tx(a: u32, b: u32, c: u32, d: u32) -> TxDes {
    TxDes { tdes0: a, tdes1: b, tdes2: c, tdes3: d }
}

#[test]
fn dma_new_fills_every_entry() {
    let d = Dma::new(0x100, 0x200, 3, rx(1, 2, 3, 4));
    assert_eq!(d.cpu_addr, 0x100);
    assert_eq!(d.phy_addr, 0x200);
    assert_eq!(d.count(), 3);
    for i in 0..3 {
        assert_eq!(d.read_volatile(i), Some(rx(1, 2, 3, 4)));
    }
    assert_eq!(d.read_volatile(3), None);
}

#[test]
fn dma_read_gives_back_what_was_written() {
    let mut d = Dma::new(0, 0, 4, tx(0, 0, 0, 0));
    assert!(d.write_volatile(2, &tx(9, 8, 7, 6)));
    assert_eq!(d.read_volatile(2), Some(tx(9, 8, 7, 6)));
    assert_eq!(d.read_volatile(1), Some(tx(0, 0, 0, 0)));
    assert_eq!(d.read_volatile(3), Some(tx(0, 0, 0, 0)));
    assert_eq!(d.count(), 4);
}

#[test]
fn dma_write_past_the_end_changes_nothing() {
    let mut d = Dma::new(0, 0, 2, tx(1, 1, 1, 1));
    assert!(!d.write_volatile(2, &tx(5, 5, 5, 5)));
    assert_eq!(d.entries, vec![tx(1, 1, 1, 1), tx(1, 1, 1, 1)]);
    assert_eq!(d.read_volatile(7), None);
}

#[test]
fn rx_ring_new_is_empty_and_zeroed() {
    let r = RxRing::<IdentityHal>::new();
    assert_eq!(r.rd.phy_addr, 0x8200_1000);
    assert_eq!(r.rd.cpu_addr, 0x8200_1000);
    assert_eq!(r.rd.count(), 64);
    assert!(r.rd.entries.iter().all(|d| *d == rx(0, 0, 0, 0)));
    assert_eq!(r.idx, 0);
    assert!(r.skbuf.is_empty());
}

#[test]
fn rings_are_mapped_by_the_platform() {
    let r = RxRing::<OffsetHal>::new();
    assert_eq!(r.rd.cpu_addr, 0x1000_8200_1000);
    assert_eq!(r.rd.phy_addr, 0x8200_1000);
    let t = TxRing::<OffsetHal>::new();
    assert_eq!(t.td.cpu_addr, 0x1000_8200_2000);
    assert_eq!(t.td.phy_addr, 0x8200_2000);
    let m = RxRing::<OffsetHal>::mapped_at(0x42);
    assert_eq!(m.rd.cpu_addr, 0x42);
}

#[test]
fn init_rx_desc_points_at_the_buffer() {
    let mut r = RxRing::<IdentityHal>::new();
    r.init_rx_desc(5, 0x8201_5000);
    assert_eq!(r.rd.read_volatile(5), Some(rx(0x8201_5000, 0, 0, 0x8100_0000)));
    assert_eq!(r.rd.read_volatile(4), Some(rx(0, 0, 0, 0)));
    assert_eq!(r.idx, 0);
}

#[test]
fn init_rx_desc_keeps_the_low_32_bits_of_the_address() {
    let mut r = RxRing::<IdentityHal>::new();
    r.init_rx_desc(0, 0x1_2345_6789);
    assert_eq!(r.rd.read_volatile(0), Some(rx(0x2345_6789, 0, 0, 0x8100_0000)));
}

#[test]
fn init_rx_desc_past_the_end_changes_nothing() {
    let mut r = RxRing::<IdentityHal>::new();
    r.init_rx_desc(64, 0x8201_0000);
    assert!(r.rd.entries.iter().all(|d| *d == rx(0, 0, 0, 0)));
}

#[test]
fn tx_ring_new_is_zeroed() {
    let t = TxRing::<IdentityHal>::new();
    assert_eq!(t.td.phy_addr, 0x8200_2000);
    assert_eq!(t.td.count(), 64);
    assert!(t.td.entries.iter().all(|d| *d == tx(0, 0, 0, 0)));
    assert_eq!(t.idx, 0);
}

#[test]
fn init_tx_desc_clears_the_descriptor() {
    let mut t = TxRing::<IdentityHal>::new();
    t.td.write_volatile(3, &tx(1, 2, 3, 4));
    t.init_tx_desc(3, true);
    assert_eq!(t.td.read_volatile(3), Some(tx(0, 0, 0, 0)));
}

#[test]
fn set_transmit_des_fills_and_hands_over() {
    let mut t = TxRing::<IdentityHal>::new();
    t.set_transmit_des(7, 0x8202_0000, 1514);
    assert_eq!(t.td.read_volatile(7), Some(tx(0x8202_0000, 0, 1514, 0xB000_0000)));
    assert_eq!(t.td.read_volatile(6), Some(tx(0, 0, 0, 0)));
}

#[test]
fn set_transmit_des_keeps_other_bits() {
    let mut t = TxRing::<IdentityHal>::new();
    t.td.write_volatile(1, &tx(0xffff_ffff, 0x1234, 0xffff_ffff, 0x0000_00ff));
    t.set_transmit_des(1, 0x1_0000_0010, 0x1_0000_0040);
    assert_eq!(t.td.read_volatile(1), Some(tx(0x10, 0x1234, 0x40, 0xB000_00ff)));
}

#[test]
fn default_mapping_is_one_to_one() {
    assert_eq!(IdentityHal::phys_to_virt(0x8200_1000), 0x8200_1000);
    assert_eq!(IdentityHal::virt_to_phys(0x8200_1000), 0x8200_1000);
    assert_eq!(OffsetHal::phys_to_virt(0x10), 0x1000_0000_0010);
}

#[test]
fn descriptor_areas_do_not_overlap() {
    assert!(RX_DESC_PHYS + RING_LEN * DESC_SIZE <= TX_DESC_PHYS);
    assert!(TX_DESC_PHYS + RING_LEN * DESC_SIZE <= RX_BUF_PHYS);
    let r = RxRing::<IdentityHal>::new();
    let t = TxRing::<IdentityHal>::new();
    assert!(r.rd.phy_addr + r.rd.count() * DESC_SIZE <= t.td.phy_addr);
    assert_eq!(RX_BUF_PHYS + RING_LEN * BUF_SIZE, 0x8205_0000);
}
