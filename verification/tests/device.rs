use starfive2_net::driver::{
    set_bits, stmmac_set_mac, tx_desc_released, MdioAction, MdioPhase, MdioWrite,
    Starfive2Hal, Starfive2NetDevice,
};
use starfive2_net::ops::HwOp;
use starfive2_net::rings::{RxDes, TxDes};

struct Hal;

impl Starfive2Hal for Hal {
    fn phys_to_virt(pa: usize) -> usize {
        pa + 0x10_0000_0000
    }
    fn dma_alloc_pages(pages: usize) -> (usize, usize) {
        (pages, pages)
    }
    fn dma_free_pages(_vaddr: usize, _pages: usize) {}
    fn mdelay(_m_times: usize) {}
    fn fence() {}
}

const G: usize = 0x16040000;

fn rx(a: u32, b: u32, c: u32, d: u32) -> RxDes {
    RxDes { rdes0: a, rdes1: b, rdes2: c, rdes3: d }
}

fn tx(a: u32, b: u32, c: u32, d: u32) -> TxDes {
    TxDes { tdes0: a, tdes1: b, tdes2: c, tdes3: d }
}

#[test]
fn bring_up_sets_up_rings() {
    let (dev, _ops) = Starfive2NetDevice::<Hal>::new();
    assert_eq!(dev.rx_ring.idx, 0);
    assert_eq!(dev.tx_ring.idx, 0);
    assert_eq!(dev.rx_ring.rd.count(), 64);
    assert_eq!(dev.tx_ring.td.count(), 64);
    assert_eq!(dev.rx_ring.skbuf.len(), 64);
    for i in 0..64usize {
        let pa = 0x8201_0000 + 0x1000 * i;
        assert_eq!(dev.rx_ring.rd.read_volatile(i), Some(rx(pa as u32, 0, 0, 0x8100_0000)));
        assert_eq!(dev.rx_ring.skbuf[i], pa + 0x10_0000_0000);
        assert_eq!(dev.tx_ring.td.read_volatile(i), Some(tx(0, 0, 0, 0)));
    }
    assert_eq!(dev.rx_ring.rd.cpu_addr, 0x10_8200_1000);
    assert_eq!(dev.tx_ring.td.cpu_addr, 0x10_8200_2000);
}

#[test]
fn bring_up_programme_in_order() {
    let (_dev, ops) = Starfive2NetDevice::<Hal>::new();
    assert_eq!(ops.len(), 22 + 3 + 8 + 1 + 64 + 64 + 27);
    assert_eq!(ops[0], HwOp::Write { base: 0x13020000 + 97 * 4, offset: 0, value: 0x8000_0000 });
    assert_eq!(ops[14], HwOp::Write { base: 0x13020000 + 111 * 4, offset: 0, value: 0x8000_0000 });
    assert_eq!(ops[15], HwOp::Write { base: 0x17000008, offset: 0, value: 0x8000_0000 });
    assert_eq!(ops[21], HwOp::Write { base: 0x17000020, offset: 0, value: 0x8000_0000 });
    assert_eq!(ops[22], HwOp::Mdio { base: G, data: 0xa001, value: 0x8020 });
    assert_eq!(ops[24], HwOp::Mdio { base: G, data: 0xa003, value: 0x850 });
    assert_eq!(ops[25], HwOp::Write { base: 0x13020300, offset: 0, value: 0xffe5afc4 });
    assert_eq!(ops[32], HwOp::Write { base: 0x13020194, offset: 0, value: 0x1 });
    assert_eq!(ops[33], HwOp::Mdio { base: G, data: 0x1de1, value: 0x300 });
    assert_eq!(
        ops[34],
        HwOp::StoreRxDesc { index: 0, desc: rx(0x8201_0000, 0, 0, 0x8100_0000) }
    );
    assert_eq!(
        ops[97],
        HwOp::StoreRxDesc { index: 63, desc: rx(0x8204_f000, 0, 0, 0x8100_0000) }
    );
    assert_eq!(ops[98], HwOp::StoreTxDesc { index: 0, desc: tx(0, 0, 0, 0) });
    assert_eq!(ops[161], HwOp::StoreTxDesc { index: 63, desc: tx(0, 0, 0, 0) });
    assert_eq!(ops[162], HwOp::SetBits { base: G, offset: 0x1000, bits: 1 });
    assert_eq!(ops[167], HwOp::Write { base: G, offset: 0x111c, value: 0x8200_1000 });
    assert_eq!(ops[168], HwOp::Write { base: G, offset: 0x1128, value: 0x8200_1400 });
    assert_eq!(ops[170], HwOp::Write { base: G, offset: 0x1114, value: 0x8200_2000 });
    assert_eq!(ops[171], HwOp::Write { base: G, offset: 0x300, value: 0x0605 });
    assert_eq!(ops[172], HwOp::Write { base: G, offset: 0x304, value: 0xddccbbaa });
    assert_eq!(ops[182], HwOp::SetBits { base: G, offset: 0x1108, bits: 1 });
    assert_eq!(ops[185], HwOp::SetBits { base: G, offset: 0, bits: 2 });
    assert_eq!(ops[187], HwOp::SetMac { base: G, enable: true });
    assert_eq!(ops[188], HwOp::Write { base: G, offset: 0x70, value: 0xffff0002 });
}

#[test]
fn receive_waits_while_the_controller_owns_the_slot() {
    let (mut dev, _) = Starfive2NetDevice::<Hal>::new();
    dev.rx_ring.rd.write_volatile(0, &rx(0x8000_0000 | (60 << 16), 0, 0, 0));
    assert_eq!(dev.receive(), None);
    assert_eq!(dev.rx_ring.idx, 0);
}

#[test]
fn receive_returns_buffer_and_length() {
    let (mut dev, _) = Starfive2NetDevice::<Hal>::new();
    dev.rx_ring.rd.write_volatile(0, &rx(1514 << 16, 0, 0, 0));
    assert_eq!(dev.receive(), Some((0x10_8201_0000, 1514)));
    assert_eq!(dev.rx_ring.idx, 0);
}

#[test]
fn receive_length_uses_fourteen_bits() {
    let (mut dev, _) = Starfive2NetDevice::<Hal>::new();
    dev.rx_ring.rd.write_volatile(0, &rx(0x7fff_ffff, 0, 0, 0));
    assert_eq!(dev.receive(), Some((0x10_8201_0000, 0x3fff)));
}

#[test]
fn rx_clean_moves_to_the_next_slot() {
    let (mut dev, _) = Starfive2NetDevice::<Hal>::new();
    let ops = dev.rx_clean();
    assert!(ops.is_empty());
    assert_eq!(dev.rx_ring.idx, 1);
    dev.rx_ring.rd.write_volatile(1, &rx(100 << 16, 0, 0, 0));
    assert_eq!(dev.receive(), Some((0x10_8201_1000, 100)));
}

#[test]
fn rx_clean_refills_after_the_sixteenth_slot() {
    let (mut dev, _) = Starfive2NetDevice::<Hal>::new();
    for k in 1..16 {
        assert!(dev.rx_clean().is_empty());
        assert_eq!(dev.rx_ring.idx, k);
    }
    let ops = dev.rx_clean();
    assert_eq!(dev.rx_ring.idx, 0);
    assert_eq!(ops.len(), 18);
    for i in 0..16usize {
        let pa = (0x1801_0000 + 0x1000 * i) as u32;
        assert_eq!(ops[i], HwOp::StoreRxDesc { index: i, desc: rx(pa, 0, 0, 0x8100_0000) });
        assert_eq!(dev.rx_ring.rd.read_volatile(i), Some(rx(pa, 0, 0, 0x8100_0000)));
    }
    assert_eq!(ops[16], HwOp::FlushCache { start: 0x8200_1000, end: 0x8200_2000 });
    assert_eq!(ops[17], HwOp::FlushCache { start: 0x1801_0000, end: 0x1802_0000 });
    assert_eq!(
        dev.rx_ring.rd.read_volatile(16),
        Some(rx(0x8202_0000, 0, 0, 0x8100_0000))
    );
    assert_eq!(dev.rx_ring.skbuf[0], 0x10_8201_0000);
}

#[test]
fn transmit_hands_the_packet_over() {
    let (mut dev, _) = Starfive2NetDevice::<Hal>::new();
    let ops = dev.transmit(0x8202_0000, 60);
    let desc = tx(0x8202_0000, 0, 60, 0xB000_0000);
    assert_eq!(
        ops,
        vec![
            HwOp::StoreTxDesc { index: 0, desc },
            HwOp::FlushCache { start: 0x8200_2000, end: 0x8200_3000 },
            HwOp::FlushCache { start: 0x8202_0000, end: 0x8202_1000 },
            HwOp::Write { base: G, offset: 0x1120, value: 0x8200_2010 },
            HwOp::WaitTxDone { index: 0 },
        ]
    );
    assert_eq!(dev.tx_ring.td.read_volatile(0), Some(desc));
    assert_eq!(dev.tx_ring.idx, 1);
}

#[test]
fn transmit_wraps_after_the_last_slot() {
    let (mut dev, _) = Starfive2NetDevice::<Hal>::new();
    dev.tx_ring.idx = 63;
    let ops = dev.transmit(0x8202_0000, 42);
    assert_eq!(ops[3], HwOp::Write { base: G, offset: 0x1120, value: 0x8200_2400 });
    assert_eq!(ops[4], HwOp::WaitTxDone { index: 63 });
    assert_eq!(dev.tx_ring.idx, 0);
}

#[test]
fn tx_release_checks_the_own_bit() {
    assert!(tx_desc_released(&tx(0, 0, 0, 0xB000_0000)));
    assert!(tx_desc_released(&tx(0x7fff_ffff, 0, 0, 0)));
    assert!(!tx_desc_released(&tx(0x8000_0000, 0, 0, 0)));
}

#[test]
fn set_bits_sets_bits() {
    assert_eq!(set_bits(0x10, 0x1), 0x11);
    assert_eq!(set_bits(0x11, 0x1), 0x11);
}

#[test]
fn set_mac_enable_and_disable() {
    assert_eq!(stmmac_set_mac(0x0, true), Some(0xC));
    assert_eq!(stmmac_set_mac(0x8072203, true), Some(0x807220F));
    assert_eq!(stmmac_set_mac(0x807220F, true), None);
    assert_eq!(stmmac_set_mac(0xffff_ffff, false), Some(0xffff_fff3));
    assert_eq!(stmmac_set_mac(0x1, false), None);
}

#[test]
fn set_mac_twice_writes_once() {
    let first = stmmac_set_mac(0x8072203, true);
    let v = first.unwrap_or(0x8072203);
    assert_eq!(stmmac_set_mac(v, true), None);
    let off = stmmac_set_mac(v, false).unwrap();
    assert_eq!(off, 0x8072203);
    assert_eq!(stmmac_set_mac(off, false), None);
}

#[test]
fn mdio_write_waits_issues_and_finishes() {
    let mut m = MdioWrite::new(0xa001, 0x8020);
    assert_eq!(m.phase, MdioPhase::WaitIdle);
    assert_eq!(m.step(0x1), MdioAction::Delay { ms: 10 });
    assert_eq!(m.step(0x3), MdioAction::Delay { ms: 10 });
    assert_eq!(m.step(0x2), MdioAction::Issue { data: 0xa001, value: 0x8020 });
    assert_eq!(m.phase, MdioPhase::WaitDone);
    assert_eq!(m.step(0x1), MdioAction::Delay { ms: 10 });
    assert_eq!(m.step(0x0), MdioAction::Finished);
    assert_eq!(m.phase, MdioPhase::Done);
    assert_eq!(m.step(0x1), MdioAction::Finished);
}

#[test]
fn mdio_write_on_a_free_interface() {
    let mut m = MdioWrite::new(0x1de1, 0x300);
    assert_eq!(m.step(0), MdioAction::Issue { data: 0x1de1, value: 0x300 });
    assert_eq!(m.step(0), MdioAction::Finished);
}

#[test]
fn bring_up_uses_the_given_mappings() {
    let vas: Vec<usize> = (0..64).map(|i| 0x5000_0000 + 0x10 * i).collect();
    let (dev, ops) = Starfive2NetDevice::<Hal>::bring_up(0x1111, 0x2222, vas.clone());
    assert_eq!(dev.rx_ring.rd.cpu_addr, 0x1111);
    assert_eq!(dev.tx_ring.td.cpu_addr, 0x2222);
    assert_eq!(dev.rx_ring.skbuf, vas);
    assert!(dev.tx_ring.skbuf.is_empty());
    let (_, ops2) = Starfive2NetDevice::<Hal>::new();
    assert_eq!(ops, ops2);
}

#[test]
fn ring_positions_stay_in_range() {
    let (mut dev, _) = Starfive2NetDevice::<Hal>::new();
    for k in 1..=200usize {
        dev.transmit(0x8202_0000, 64);
        assert_eq!(dev.tx_ring.idx, k % 64);
        dev.rx_clean();
        assert_eq!(dev.rx_ring.idx, k % 16);
    }
    assert_eq!(dev.tx_ring.td.count(), 64);
    assert_eq!(dev.rx_ring.rd.count(), 64);
}
