//! Receive and transmit descriptor rings.
use core::marker::PhantomData;
use vstd::prelude::*;

use crate::defs::{
    BUF_SIZE, DESC_OWN, DESC_SIZE, RDES3_BUF1V, RING_LEN, RX_BUF_PHYS, RX_DESC_PHYS, TDES3_FD,
    TDES3_LD, TX_DESC_PHYS,
};
use crate::dma::{dma_write_spec, Dma};
use crate::driver::Starfive2Hal;

verus! {

/// A receive descriptor: four 32-bit words.
#[derive(Copy, Clone, Debug, PartialEq, Eq, Structural)]
pub struct RxDes {
    pub rdes0: u32,
    pub rdes1: u32,
    pub rdes2: u32,
    pub rdes3: u32,
}

/// A transmit descriptor: four 32-bit words.
#[derive(Copy, Clone, Debug, PartialEq, Eq, Structural)]
pub struct TxDes {
    pub tdes0: u32,
    pub tdes1: u32,
    pub tdes2: u32,
    pub tdes3: u32,
}

/// The receive descriptor with every word zero.
pub open spec fn rx_zero() -> RxDes {
    RxDes { rdes0: 0, rdes1: 0, rdes2: 0, rdes3: 0 }
}

/// The transmit descriptor with every word zero.
pub open spec fn tx_zero() -> TxDes {
    TxDes { tdes0: 0, tdes1: 0, tdes2: 0, tdes3: 0 }
}

/// The receive descriptor that hands the buffer at physical address
/// `skb_phys_addr` to the controller: the address (its low 32 bits) in the
/// first word, the ownership and "buffer valid" bits in the last.
pub open spec fn rx_desc_for(skb_phys_addr: usize) -> RxDes {
    RxDes { rdes0: skb_phys_addr as u32, rdes1: 0, rdes2: 0, rdes3: DESC_OWN | RDES3_BUF1V }
}

/// Descriptor `d` made ready to send `len` bytes from the buffer at
/// `skb_addr`: address and length go to the first and third words, the last
/// word gains the first-segment, last-segment and ownership bits, and the
/// second word stays as it was.
pub open spec fn tx_desc_for(d: TxDes, skb_addr: usize, len: usize) -> TxDes {
    TxDes {
        tdes0: skb_addr as u32,
        tdes1: d.tdes1,
        tdes2: len as u32,
        tdes3: d.tdes3 | TDES3_FD | TDES3_LD | DESC_OWN,
    }
}

/// The receive ring: the descriptor table, the slot the receive path looks
/// at next, and the virtual address of the buffer behind each slot.
pub struct RxRing<A> {
    pub rd: Dma<RxDes>,
    pub idx: usize,
    pub skbuf: Vec<usize>,
    pub phantom: PhantomData<A>,
}

impl<A: Starfive2Hal> RxRing<A> {
    /// The receive ring at its fixed physical address, mapped by the platform.
    pub fn new() -> (r: Self)
        ensures
            call_ensures(A::phys_to_virt, (RX_DESC_PHYS,), r.rd.cpu_addr),
            r.rd.phy_addr == RX_DESC_PHYS,
            r.rd@ == Seq::new(RING_LEN as nat, |_i: int| rx_zero()),
            r.idx == 0,
            r.skbuf@ == Seq::<usize>::empty(),
    {
        let va = A::phys_to_virt(RX_DESC_PHYS);
        Self::mapped_at(va)
    }

    /// The receive ring at its fixed physical address, seen by the processor
    /// at `va`: all descriptors zero, no buffers yet, slot 0 next.
    pub fn mapped_at(va: usize) -> (r: Self)
        ensures
            r.rd.cpu_addr == va,
            r.rd.phy_addr == RX_DESC_PHYS,
            r.rd@ == Seq::new(RING_LEN as nat, |_i: int| rx_zero()),
            r.idx == 0,
            r.skbuf@ == Seq::<usize>::empty(),
    {
        let zero = RxDes { rdes0: 0, rdes1: 0, rdes2: 0, rdes3: 0 };
        let rd_dma = Dma::new(va, RX_DESC_PHYS, RING_LEN, zero);
        let skbuf: Vec<usize> = Vec::new();
        RxRing { rd: rd_dma, idx: 0, skbuf: skbuf, phantom: PhantomData }
    }

    /// Points descriptor `idx` at the buffer at physical address
    /// `skb_phys_addr` and gives it to the controller. An index past the end
    /// of the ring changes nothing.
    pub fn init_rx_desc(&mut self, idx: usize, skb_phys_addr: usize)
        ensures
            final(self).rd@ == dma_write_spec(old(self).rd@, idx as int, rx_desc_for(skb_phys_addr)),
            idx < old(self).rd@.len() ==> final(self).rd@[idx as int] == (RxDes {
                rdes0: skb_phys_addr as u32,
                rdes1: 0,
                rdes2: 0,
                rdes3: 0x8100_0000u32,
            }),
            final(self).rd.cpu_addr == old(self).rd.cpu_addr,
            final(self).rd.phy_addr == old(self).rd.phy_addr,
            final(self).idx == old(self).idx,
            final(self).skbuf == old(self).skbuf,
    {
        let mut rd = RxDes { rdes0: 0, rdes1: 0, rdes2: 0, rdes3: 0 };
        rd.rdes0 = skb_phys_addr as u32;
        rd.rdes3 = DESC_OWN | RDES3_BUF1V;
        self.rd.write_volatile(idx, &rd);
        proof {
            lemma_rx_desc_fields(skb_phys_addr);
        }
    }
}

/// The transmit ring: the descriptor table and the slot that the next packet
/// goes to.
pub struct TxRing<A> {
    pub td: Dma<TxDes>,
    pub idx: usize,
    pub skbuf: Vec<usize>,
    pub phantom: PhantomData<A>,
}

impl<A: Starfive2Hal> TxRing<A> {
    /// The transmit ring at its fixed physical address, mapped by the platform.
    pub fn new() -> (r: Self)
        ensures
            call_ensures(A::phys_to_virt, (TX_DESC_PHYS,), r.td.cpu_addr),
            r.td.phy_addr == TX_DESC_PHYS,
            r.td@ == Seq::new(RING_LEN as nat, |_i: int| tx_zero()),
            r.idx == 0,
            r.skbuf@ == Seq::<usize>::empty(),
    {
        let va = A::phys_to_virt(TX_DESC_PHYS);
        Self::mapped_at(va)
    }

    /// The transmit ring at its fixed physical address, seen by the processor
    /// at `va`: all descriptors zero, slot 0 next.
    pub fn mapped_at(va: usize) -> (r: Self)
        ensures
            r.td.cpu_addr == va,
            r.td.phy_addr == TX_DESC_PHYS,
            r.td@ == Seq::new(RING_LEN as nat, |_i: int| tx_zero()),
            r.idx == 0,
            r.skbuf@ == Seq::<usize>::empty(),
    {
        let zero = TxDes { tdes0: 0, tdes1: 0, tdes2: 0, tdes3: 0 };
        let td_dma = Dma::new(va, TX_DESC_PHYS, RING_LEN, zero);
        let skbuf: Vec<usize> = Vec::new();
        TxRing { td: td_dma, idx: 0, skbuf: skbuf, phantom: PhantomData }
    }

    /// Clears descriptor `idx`. An index past the end of the ring changes
    /// nothing. (`end` is not used.)
    pub fn init_tx_desc(&mut self, idx: usize, end: bool)
        ensures
            final(self).td@ == dma_write_spec(old(self).td@, idx as int, tx_zero()),
            idx < old(self).td@.len() ==> final(self).td@ == old(self).td@.update(
                idx as int,
                TxDes { tdes0: 0, tdes1: 0, tdes2: 0, tdes3: 0 },
            ),
            idx >= old(self).td@.len() ==> final(self).td@ == old(self).td@,
            final(self).td.cpu_addr == old(self).td.cpu_addr,
            final(self).td.phy_addr == old(self).td.phy_addr,
            final(self).idx == old(self).idx,
            final(self).skbuf == old(self).skbuf,
    {
        let td: TxDes = TxDes { tdes0: 0, tdes1: 0, tdes2: 0, tdes3: 0 };
        self.td.write_volatile(idx, &td);
    }

    /// Fills descriptor `idx` for a packet of `len` bytes in the buffer at
    /// physical address `skb_addr` and gives it to the controller.
    pub fn set_transmit_des(&mut self, idx: usize, skb_addr: usize, len: usize)
        requires
            idx < old(self).td@.len(),
        ensures
            final(self).td@ == old(self).td@.update(
                idx as int,
                tx_desc_for(old(self).td@[idx as int], skb_addr, len),
            ),
            final(self).td@[idx as int].tdes0 == skb_addr as u32,
            final(self).td@[idx as int].tdes1 == old(self).td@[idx as int].tdes1,
            final(self).td@[idx as int].tdes2 == len as u32,
            final(self).td@[idx as int].tdes3 == old(self).td@[idx as int].tdes3 | 0xB000_0000u32,
            final(self).td.cpu_addr == old(self).td.cpu_addr,
            final(self).td.phy_addr == old(self).td.phy_addr,
            final(self).idx == old(self).idx,
            final(self).skbuf == old(self).skbuf,
    {
        let mut td = self.td.read_volatile(idx).unwrap();
        td.tdes0 = skb_addr as u32;
        td.tdes2 = len as u32;
        td.tdes3 = td.tdes3 | TDES3_FD;
        td.tdes3 = td.tdes3 | TDES3_LD;
        td.tdes3 = td.tdes3 | DESC_OWN;
        self.td.write_volatile(idx, &td);
        proof {
            lemma_tx_desc_fields(old(self).td@[idx as int], skb_addr, len);
        }
    }
}

/// Every descriptor the driver hands to the controller carries the
/// ownership bit; preparing a transmit descriptor sets exactly the
/// first-segment, last-segment and ownership bits of its last word and keeps
/// the rest of that word.
pub proof fn lemma_handed_over_descriptors(skb_phys_addr: usize, d: TxDes, skb_addr: usize, len: usize)
    ensures
        rx_desc_for(skb_phys_addr).rdes3 & DESC_OWN == DESC_OWN,
        tx_desc_for(d, skb_addr, len).tdes3 & DESC_OWN == DESC_OWN,
        tx_desc_for(d, skb_addr, len).tdes3 & (TDES3_FD | TDES3_LD) == TDES3_FD | TDES3_LD,
        tx_desc_for(d, skb_addr, len).tdes3 & !(TDES3_FD | TDES3_LD | DESC_OWN) == d.tdes3 & !(
        TDES3_FD | TDES3_LD | DESC_OWN),
{
    let t = d.tdes3;
    assert((DESC_OWN | RDES3_BUF1V) & DESC_OWN == DESC_OWN) by (bit_vector);
    assert(((t | TDES3_FD) | TDES3_LD) | DESC_OWN == t | 0xB000_0000u32) by (bit_vector);
    assert(TDES3_FD | TDES3_LD | DESC_OWN == 0xB000_0000u32) by (bit_vector);
    assert(TDES3_FD | TDES3_LD == 0x3000_0000u32) by (bit_vector);
    assert((t | 0xB000_0000u32) & DESC_OWN == DESC_OWN) by (bit_vector);
    assert((t | 0xB000_0000u32) & 0x3000_0000u32 == 0x3000_0000u32) by (bit_vector);
    assert((t | 0xB000_0000u32) & !0xB000_0000u32 == t & !0xB000_0000u32) by (bit_vector);
}

/// The receive descriptor area, the transmit descriptor area and the receive
/// buffers set up at start lie one after the other in physical memory and do
/// not overlap.
pub proof fn lemma_descriptor_areas_disjoint()
    ensures
        RX_DESC_PHYS + RING_LEN * DESC_SIZE <= TX_DESC_PHYS,
        TX_DESC_PHYS + RING_LEN * DESC_SIZE <= RX_BUF_PHYS,
        RX_BUF_PHYS + RING_LEN * BUF_SIZE <= usize::MAX,
{
}

/// A receive descriptor made for a buffer holds the low 32 bits of the
/// buffer's physical address in its first word, zero in the middle words,
/// and the ownership (31) and "buffer valid" (24) bits, nothing else, in its
/// last word.
pub proof fn lemma_rx_desc_fields(skb_phys_addr: usize)
    ensures
        rx_desc_for(skb_phys_addr).rdes0 == skb_phys_addr as u32,
        rx_desc_for(skb_phys_addr).rdes1 == 0,
        rx_desc_for(skb_phys_addr).rdes2 == 0,
        rx_desc_for(skb_phys_addr).rdes3 == 0x8100_0000u32,
{
    assert(DESC_OWN | RDES3_BUF1V == 0x8100_0000u32) by (bit_vector);
}

/// A transmit descriptor filled for a packet holds the low 32 bits of the
/// buffer address in its first word and of the length in its third, keeps
/// its second word, and gains exactly bits 28, 29 and 31 in its last word.
pub proof fn lemma_tx_desc_fields(d: TxDes, skb_addr: usize, len: usize)
    ensures
        tx_desc_for(d, skb_addr, len).tdes0 == skb_addr as u32,
        tx_desc_for(d, skb_addr, len).tdes1 == d.tdes1,
        tx_desc_for(d, skb_addr, len).tdes2 == len as u32,
        tx_desc_for(d, skb_addr, len).tdes3 == d.tdes3 | 0xB000_0000u32,
{
    let t = d.tdes3;
    assert(((t | TDES3_FD) | TDES3_LD) | DESC_OWN == t | 0xB000_0000u32) by (bit_vector);
}

} // verus!
