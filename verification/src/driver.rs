//! The network device: bring-up, receive and transmit, and the register
//! protocols (MDIO writes, MAC enable) they rely on.
use core::marker::PhantomData;
use vstd::prelude::*;

use crate::defs::{
    AON_CRG_BASE, BUF_SIZE, CLK_ENABLE, DESC_OWN, DESC_RXSTS_FRMLENMSK, DESC_RXSTS_FRMLENSHFT,
    DESC_SIZE, DMA_BUS_MODE, DMA_BUS_MODE_SFT_RESET, DMA_CHAN_BASE_ADDR, DMA_CHAN_RX_BASE_ADDR,
    DMA_CHAN_RX_CONTROL, DMA_CHAN_RX_END_ADDR, DMA_CHAN_RX_RING_LEN, DMA_CHAN_TX_BASE_ADDR,
    DMA_CHAN_TX_CONTROL, DMA_CHAN_TX_END_ADDR, DMA_CHAN_TX_RING_LEN, DMA_CONTROL_SR,
    DMA_CONTROL_ST, FLUSH_SPAN, GMAC_BASE, GMAC_CONFIG, GMAC_CONFIG_RE, GMAC_CONFIG_TE,
    GMAC_QX_TX_FLOW_CTRL, GMAC_RXQ_CTRL0, MAC_ADDR_HI, MAC_ADDR_LO, MAC_ENABLE_RX, MAC_ENABLE_TX,
    MII_BUSY, MTL_CHAN_BASE_ADDR, MTL_CHAN_RX_OP_MODE, MTL_RXQ_DMA_MAP0, RING_LEN, RX_BUF_PHYS,
    RX_CLEAN_SLOTS, RX_DESC_PHYS, RX_REFILL_PHYS, SYS_CRG_BASE, TX_DESC_PHYS,
};
use crate::ops::HwOp;
use crate::rings::{
    lemma_tx_desc_fields, rx_desc_for, tx_desc_for, tx_zero, RxDes, RxRing, TxDes, TxRing,
};

verus! {

/// What the platform provides to the driver.
pub trait Starfive2Hal {
    /// Virtual address at which physical address `pa` is mapped. Unless the
    /// platform says otherwise, memory is mapped one to one.
    fn phys_to_virt(pa: usize) -> (va: usize)
        default_ensures
            va == pa,
    {
        pa
    }

    /// Physical address behind virtual address `va`. Unless the platform
    /// says otherwise, memory is mapped one to one.
    fn virt_to_phys(va: usize) -> (pa: usize)
        default_ensures
            pa == va,
    {
        va
    }

    /// Allocates `pages` pages of DMA memory; returns their virtual and
    /// physical addresses.
    fn dma_alloc_pages(pages: usize) -> (usize, usize);

    /// Frees `pages` pages of DMA memory at `vaddr`.
    fn dma_free_pages(vaddr: usize, pages: usize);

    /// Waits `m_times` milliseconds.
    fn mdelay(m_times: usize);

    /// Orders memory accesses.
    fn fence();
}

// ------------------------------------------------------------ register updates

/// `old` with the bits of `bits` set: the value a read-modify-write that
/// sets bits writes back.
pub fn set_bits(old: u32, bits: u32) -> (r: u32)
    ensures
        r == old | bits,
{
    old | bits
}

/// The MAC configuration value with transmitter and receiver switched on
/// (`enable`) or off.
pub open spec fn mac_enable_value(old_val: u32, enable: bool) -> u32 {
    if enable {
        old_val | (MAC_ENABLE_RX | MAC_ENABLE_TX)
    } else {
        old_val & !(MAC_ENABLE_TX | MAC_ENABLE_RX)
    }
}

/// What `stmmac_set_mac` gives for a register reading `old_val`: the new
/// value when it differs from the reading, else nothing to write.
pub open spec fn set_mac_spec(old_val: u32, enable: bool) -> Option<u32> {
    if mac_enable_value(old_val, enable) != old_val {
        Some(mac_enable_value(old_val, enable))
    } else {
        None
    }
}

/// The register value once the outcome `w` of `stmmac_set_mac` on a reading
/// `old_val` is carried out.
pub open spec fn after_set_mac(old_val: u32, w: Option<u32>) -> u32 {
    match w {
        Some(v) => v,
        None => old_val,
    }
}

/// The bit facts about the MAC enable mask (bits 2 and 3) that the enable
/// update rests on: setting or clearing the mask twice is setting or clearing
/// it once, the last of set and clear decides the mask bits, and neither
/// touches any other bit.
proof fn lemma_enable_mask(v: u32)
    ensures
        MAC_ENABLE_RX | MAC_ENABLE_TX == 12u32,
        MAC_ENABLE_TX | MAC_ENABLE_RX == 12u32,
        (v | 12u32) & 12u32 == 12u32,
        (v & !12u32) & 12u32 == 0u32,
        (v | 12u32) | 12u32 == v | 12u32,
        (v & !12u32) & !12u32 == v & !12u32,
        (v | 12u32) & !12u32 == v & !12u32,
        (v & !12u32) | 12u32 == v | 12u32,
{
    assert(MAC_ENABLE_RX | MAC_ENABLE_TX == 12u32) by (bit_vector);
    assert(MAC_ENABLE_TX | MAC_ENABLE_RX == 12u32) by (bit_vector);
    assert((v | 12u32) & 12u32 == 12u32) by (bit_vector);
    assert((v & !12u32) & 12u32 == 0u32) by (bit_vector);
    assert((v | 12u32) | 12u32 == v | 12u32) by (bit_vector);
    assert((v & !12u32) & !12u32 == v & !12u32) by (bit_vector);
    assert((v | 12u32) & !12u32 == v & !12u32) by (bit_vector);
    assert((v & !12u32) | 12u32 == v | 12u32) by (bit_vector);
}

/// Switches the MAC transmitter and receiver on (`enable`) or off, given the
/// current MAC configuration register `old_val`: returns the value to write,
/// or `None` when the register already has the wanted setting.
pub fn stmmac_set_mac(old_val: u32, enable: bool) -> (r: Option<u32>)
    ensures
        r == set_mac_spec(old_val, enable),
        enable ==> after_set_mac(old_val, r) & (MAC_ENABLE_RX | MAC_ENABLE_TX) == (MAC_ENABLE_RX
            | MAC_ENABLE_TX),
        !enable ==> after_set_mac(old_val, r) & (MAC_ENABLE_RX | MAC_ENABLE_TX) == 0,
        after_set_mac(old_val, r) & !(MAC_ENABLE_RX | MAC_ENABLE_TX) == old_val & !(MAC_ENABLE_RX
            | MAC_ENABLE_TX),
{
    let old_v: u32 = old_val;
    let mut value: u32 = old_v;
    if enable {
        value = value | (MAC_ENABLE_RX | MAC_ENABLE_TX);
    } else {
        value = value & !(MAC_ENABLE_TX | MAC_ENABLE_RX);
    }
    proof {
        lemma_enable_mask(old_v);
    }
    if value != old_v {
        Some(value)
    } else {
        None
    }
}

/// Setting the MAC enable is idempotent: once the outcome of a call is
/// carried out, a second call with the same `enable` has nothing to write.
pub proof fn lemma_set_mac_idempotent(old_val: u32, enable: bool)
    ensures
        set_mac_spec(after_set_mac(old_val, set_mac_spec(old_val, enable)), enable) == None::<u32>,
{
    let v = after_set_mac(old_val, set_mac_spec(old_val, enable));
    assert(v == mac_enable_value(old_val, enable));
    lemma_enable_mask(old_val);
}

/// Switching the MAC off after switching it on gives the same register value
/// as switching it off directly, and the other way round: the last call
/// decides, whatever came before.
pub proof fn lemma_set_mac_last_wins(old_val: u32, first: bool, second: bool)
    ensures
        mac_enable_value(mac_enable_value(old_val, first), second) == mac_enable_value(
            old_val,
            second,
        ),
{
    lemma_enable_mask(old_val);
}

// ------------------------------------------------------------ MDIO writes

/// Milliseconds to wait before polling a busy MDIO interface again.
pub const MDIO_POLL_DELAY_MS: usize = 10;

/// Whether an MDIO address register reading `status` says the interface is
/// still busy.
pub open spec fn mii_busy(status: u32) -> bool {
    status & MII_BUSY == 1
}

/// Where an MDIO write stands.
#[derive(Copy, Clone, Debug, PartialEq, Eq, Structural)]
pub enum MdioPhase {
    /// Waiting for the interface to be free before writing the command.
    WaitIdle,
    /// Command written; waiting for the interface to finish it.
    WaitDone,
    /// The write is complete.
    Done,
}

/// What the caller does next for an MDIO write.
#[derive(Copy, Clone, Debug, PartialEq, Eq, Structural)]
pub enum MdioAction {
    /// Wait `ms` milliseconds, read the MDIO address register again and step
    /// with the reading.
    Delay { ms: usize },
    /// Write `data` to the MDIO data register, then `value` to the MDIO
    /// address register; then read the address register and step with it.
    Issue { data: u32, value: u32 },
    /// The write is complete.
    Finished,
}

/// A position in the order `WaitIdle`, `WaitDone`, `Done`.
pub open spec fn mdio_rank(p: MdioPhase) -> int {
    match p {
        MdioPhase::WaitIdle => 0,
        MdioPhase::WaitDone => 1,
        MdioPhase::Done => 2,
    }
}

/// One step of an MDIO write `m` on an address register reading `status`:
/// the write afterwards and what the caller does next.
///
/// The command is issued only on a reading that shows the interface free,
/// and only from `WaitIdle`, which it leaves for good; the write finishes
/// only on such a reading after the command.
pub open spec fn mdio_step_spec(m: MdioWrite, status: u32) -> (MdioWrite, MdioAction) {
    match m.phase {
        MdioPhase::WaitIdle => if mii_busy(status) {
            (m, MdioAction::Delay { ms: MDIO_POLL_DELAY_MS })
        } else {
            (
                MdioWrite { data: m.data, value: m.value, phase: MdioPhase::WaitDone },
                MdioAction::Issue { data: m.data, value: m.value },
            )
        },
        MdioPhase::WaitDone => if mii_busy(status) {
            (m, MdioAction::Delay { ms: MDIO_POLL_DELAY_MS })
        } else {
            (MdioWrite { data: m.data, value: m.value, phase: MdioPhase::Done }, MdioAction::Finished)
        },
        MdioPhase::Done => (m, MdioAction::Finished),
    }
}

/// The actions an MDIO write `m` produces on the successive readings `statuses`.
pub open spec fn mdio_actions(m: MdioWrite, statuses: Seq<u32>) -> Seq<MdioAction>
    decreases statuses.len(),
{
    if statuses.len() == 0 {
        Seq::empty()
    } else {
        let (m2, a) = mdio_step_spec(m, statuses[0]);
        seq![a] + mdio_actions(m2, statuses.drop_first())
    }
}

/// How many times the command is issued in `acts`.
pub open spec fn issue_count(acts: Seq<MdioAction>) -> nat
    decreases acts.len(),
{
    if acts.len() == 0 {
        0
    } else {
        (if acts[0] is Issue { 1nat } else { 0nat }) + issue_count(acts.drop_first())
    }
}

/// Whatever the interface reports, an MDIO write issues its command at most
/// once, and only when it starts out waiting for a free interface; and as
/// long as it has not issued it, all it asks for is to wait and poll again.
pub proof fn lemma_mdio_issues_once(m: MdioWrite, statuses: Seq<u32>)
    ensures
        issue_count(mdio_actions(m, statuses)) <= 1,
        m.phase != MdioPhase::WaitIdle ==> issue_count(mdio_actions(m, statuses)) == 0,
        m.phase == MdioPhase::WaitIdle && issue_count(mdio_actions(m, statuses)) == 0 ==> forall|k: int|
            0 <= k < mdio_actions(m, statuses).len() ==> #[trigger] mdio_actions(m, statuses)[k] is Delay,
    decreases statuses.len(),
{
    let acts = mdio_actions(m, statuses);
    if statuses.len() == 0 {
    } else {
        let (m2, a) = mdio_step_spec(m, statuses[0]);
        let rest = mdio_actions(m2, statuses.drop_first());
        lemma_mdio_issues_once(m2, statuses.drop_first());
        assert(acts == seq![a] + rest);
        assert(acts.drop_first() =~= rest);
        assert(acts[0] == a);
        if m.phase == MdioPhase::WaitIdle && issue_count(acts) == 0 {
            assert forall|k: int| 0 <= k < acts.len() implies #[trigger] acts[k] is Delay by {
                if k > 0 {
                    assert(acts[k] == rest[k - 1]);
                }
            }
        }
    }
}

/// One MDIO write of `value` (to the address register) and `data` (to the
/// data register): wait until the interface is free, write, and wait until
/// it is free again.
pub struct MdioWrite {
    pub data: u32,
    pub value: u32,
    pub phase: MdioPhase,
}

impl MdioWrite {
    /// A write that has not started. The caller reads the MDIO address
    /// register and calls `step` with the reading.
    pub fn new(data: u32, value: u32) -> (m: Self)
        ensures
            m.data == data,
            m.value == value,
            m.phase == MdioPhase::WaitIdle,
    {
        MdioWrite { data, value, phase: MdioPhase::WaitIdle }
    }

    /// Advances the write on an MDIO address register reading `status`.
    ///
    /// The command is issued only on a reading that shows the interface free,
    /// and only from `WaitIdle`, which it leaves for good; the write finishes
    /// only on such a reading after the command.
    pub fn step(&mut self, status: u32) -> (act: MdioAction)
        ensures
            (*final(self), act) == mdio_step_spec(*old(self), status),
            mdio_rank(final(self).phase) >= mdio_rank(old(self).phase),
            old(self).phase == MdioPhase::WaitIdle && status & 1u32 == 0u32 ==> act == (MdioAction::Issue {
                data: old(self).data,
                value: old(self).value,
            }) && final(self).phase == MdioPhase::WaitDone,
            old(self).phase == MdioPhase::WaitDone && status & 1u32 == 0u32 ==> act
                == MdioAction::Finished && final(self).phase == MdioPhase::Done,
            old(self).phase != MdioPhase::Done && status & 1u32 == 1u32 ==> act == (MdioAction::Delay {
                ms: 10,
            }) && final(self).phase == old(self).phase,
    {
        proof {
            lemma_mdio_busy_bit(*old(self), status);
        }
        let idle = status & MII_BUSY != 1;
        match self.phase {
            MdioPhase::WaitIdle => {
                if idle {
                    self.phase = MdioPhase::WaitDone;
                    MdioAction::Issue { data: self.data, value: self.value }
                } else {
                    MdioAction::Delay { ms: MDIO_POLL_DELAY_MS }
                }
            },
            MdioPhase::WaitDone => {
                if idle {
                    self.phase = MdioPhase::Done;
                    MdioAction::Finished
                } else {
                    MdioAction::Delay { ms: MDIO_POLL_DELAY_MS }
                }
            },
            MdioPhase::Done => MdioAction::Finished,
        }
    }
}


// ------------------------------------------------------------ bring-up programme

/// Clock gate write number `i` (97 to 111) of the system clock generator.
pub open spec fn sys_clock_op(i: int) -> HwOp {
    HwOp::Write { base: (SYS_CRG_BASE + i * 4) as usize, offset: 0, value: CLK_ENABLE }
}

/// Clock gate write number `i` (221 to 227) of the always-on clock generator.
pub open spec fn aon_clock_op(i: int) -> HwOp {
    HwOp::Write { base: (AON_CRG_BASE + (i - 219) * 4) as usize, offset: 0, value: CLK_ENABLE }
}

/// Switching on the controller's clocks.
pub open spec fn clock_gate_ops() -> Seq<HwOp> {
    Seq::new(15, |k: int| sys_clock_op(97 + k)) + Seq::new(7, |k: int| aon_clock_op(221 + k))
}

/// Setting up the PHY.
pub open spec fn phy_setup_ops() -> Seq<HwOp> {
    seq![
        HwOp::Mdio { base: GMAC_BASE, data: 0xa001, value: 0x8020 },
        HwOp::Mdio { base: GMAC_BASE, data: 0xa010, value: 0xcbff },
        HwOp::Mdio { base: GMAC_BASE, data: 0xa003, value: 0x850 },
    ]
}

/// Pulsing the controller's resets and selecting its clocks.
pub open spec fn reset_ops() -> Seq<HwOp> {
    seq![
        HwOp::Write { base: 0x13020300, offset: 0, value: 0xffe5afc4 },
        HwOp::Write { base: 0x13020300, offset: 0, value: 0xffe5afc0 },
        HwOp::Write { base: 0x17000038, offset: 0, value: 0xe1 },
        HwOp::Write { base: 0x17000038, offset: 0, value: 0xe0 },
        HwOp::Write { base: 0x17000038, offset: 0, value: 0xe2 },
        HwOp::Write { base: 0x17000038, offset: 0, value: 0xe3 },
        HwOp::Write { base: 0x13020190, offset: 0, value: 0x8 },
        HwOp::Write { base: 0x13020194, offset: 0, value: 0x1 },
    ]
}

/// Starting auto-negotiation on the PHY.
pub open spec fn autoneg_ops() -> Seq<HwOp> {
    seq![HwOp::Mdio { base: GMAC_BASE, data: 0x1de1, value: 0x300 }]
}

/// Physical address of receive buffer `i` set up at start.
pub open spec fn rx_buf(i: int) -> usize {
    (RX_BUF_PHYS + BUF_SIZE * i) as usize
}

/// The receive descriptors after start: each slot holds its own buffer.
pub open spec fn rx_ring_at_start() -> Seq<RxDes> {
    Seq::new(RING_LEN as nat, |i: int| rx_desc_for(rx_buf(i)))
}

/// Storing the receive descriptors set up at start.
pub open spec fn rx_ring_ops() -> Seq<HwOp> {
    Seq::new(RING_LEN as nat, |i: int| HwOp::StoreRxDesc { index: i as usize, desc: rx_desc_for(rx_buf(i)) })
}

/// Storing the cleared transmit descriptors.
pub open spec fn tx_ring_ops() -> Seq<HwOp> {
    Seq::new(RING_LEN as nat, |i: int| HwOp::StoreTxDesc { index: i as usize, desc: tx_zero() })
}

/// Physical address of the receive ring as the controller's 32-bit registers hold it.
pub open spec fn rx_ring_base_reg() -> u32 {
    RX_DESC_PHYS as u32
}

/// End of the receive ring, as the controller's 32-bit registers hold it.
pub open spec fn rx_ring_end_reg() -> u32 {
    (RX_DESC_PHYS as u32 + RING_LEN * DESC_SIZE) as u32
}

/// Physical address of the transmit ring as the controller's 32-bit registers hold it.
pub open spec fn tx_ring_base_reg() -> u32 {
    TX_DESC_PHYS as u32
}

/// Resetting the DMA engine, programming rings, MAC address, queues and
/// flow control, and starting reception and transmission.
pub open spec fn dma_mac_ops() -> Seq<HwOp> {
    seq![
        HwOp::SetBits { base: GMAC_BASE, offset: DMA_BUS_MODE, bits: DMA_BUS_MODE_SFT_RESET },
        HwOp::Write { base: GMAC_BASE, offset: DMA_BUS_MODE, value: 0x1 },
        HwOp::Write { base: GMAC_BASE, offset: DMA_BUS_MODE, value: 0xf0f08f1 },
        HwOp::Write { base: GMAC_BASE, offset: DMA_CHAN_BASE_ADDR, value: 0 },
        HwOp::Write { base: GMAC_BASE, offset: DMA_CHAN_BASE_ADDR, value: 0x100000 },
        HwOp::Write { base: GMAC_BASE, offset: DMA_CHAN_RX_BASE_ADDR, value: rx_ring_base_reg() },
        HwOp::Write { base: GMAC_BASE, offset: DMA_CHAN_RX_END_ADDR, value: rx_ring_end_reg() },
        HwOp::Write { base: GMAC_BASE, offset: DMA_CHAN_TX_CONTROL, value: 0x100010 },
        HwOp::Write { base: GMAC_BASE, offset: DMA_CHAN_TX_BASE_ADDR, value: tx_ring_base_reg() },
        HwOp::Write { base: GMAC_BASE, offset: MAC_ADDR_HI, value: 0x0605 },
        HwOp::Write { base: GMAC_BASE, offset: MAC_ADDR_LO, value: 0xddccbbaa },
        HwOp::Write { base: GMAC_BASE, offset: GMAC_CONFIG, value: 0x78200 },
        HwOp::Write { base: GMAC_BASE, offset: MTL_RXQ_DMA_MAP0, value: 0x0 },
        HwOp::Write { base: GMAC_BASE, offset: GMAC_RXQ_CTRL0, value: 0x2 },
        HwOp::Write { base: GMAC_BASE, offset: MTL_CHAN_RX_OP_MODE, value: 0x700000 },
        HwOp::Write { base: GMAC_BASE, offset: MTL_CHAN_BASE_ADDR, value: 0x70018 },
        HwOp::Write { base: GMAC_BASE, offset: DMA_CHAN_TX_RING_LEN, value: 64 },
        HwOp::Write { base: GMAC_BASE, offset: DMA_CHAN_RX_RING_LEN, value: 64 },
        HwOp::Write { base: GMAC_BASE, offset: GMAC_QX_TX_FLOW_CTRL, value: 0xffff0000 },
        HwOp::Write { base: GMAC_BASE, offset: GMAC_QX_TX_FLOW_CTRL, value: 0x2 },
        HwOp::SetBits { base: GMAC_BASE, offset: DMA_CHAN_RX_CONTROL, bits: DMA_CONTROL_SR },
        HwOp::SetBits { base: GMAC_BASE, offset: GMAC_CONFIG, bits: GMAC_CONFIG_RE },
        HwOp::SetBits { base: GMAC_BASE, offset: DMA_CHAN_TX_CONTROL, bits: DMA_CONTROL_ST },
        HwOp::SetBits { base: GMAC_BASE, offset: GMAC_CONFIG, bits: GMAC_CONFIG_TE },
        HwOp::Write { base: GMAC_BASE, offset: GMAC_CONFIG, value: 0x8072203 },
        HwOp::SetMac { base: GMAC_BASE, enable: true },
        HwOp::Write { base: GMAC_BASE, offset: GMAC_QX_TX_FLOW_CTRL, value: 0xffff0002 },
    ]
}

/// The whole bring-up programme, in order.
pub open spec fn init_ops() -> Seq<HwOp> {
    clock_gate_ops() + phy_setup_ops() + reset_ops() + autoneg_ops() + rx_ring_ops() + tx_ring_ops()
        + dma_mac_ops()
}

fn push_clock_gate_ops(ops: &mut Vec<HwOp>)
    ensures
        final(ops)@ == old(ops)@ + clock_gate_ops(),
{
    let ghost start = ops@;
    let mut i: usize = 97;
    while i < 112
        invariant
            97 <= i <= 112,
            ops@ == start + Seq::new((i - 97) as nat, |k: int| sys_clock_op(97 + k)),
        decreases 112 - i,
    {
        ops.push(HwOp::Write { base: SYS_CRG_BASE + i * 4, offset: 0, value: CLK_ENABLE });
        i = i + 1;
        assert(ops@ =~= start + Seq::new((i - 97) as nat, |k: int| sys_clock_op(97 + k)));
    }
    let ghost mid = ops@;
    let mut i: usize = 221;
    while i < 228
        invariant
            221 <= i <= 228,
            ops@ == mid + Seq::new((i - 221) as nat, |k: int| aon_clock_op(221 + k)),
        decreases 228 - i,
    {
        ops.push(HwOp::Write { base: AON_CRG_BASE + (i - 219) * 4, offset: 0, value: CLK_ENABLE });
        i = i + 1;
        assert(ops@ =~= mid + Seq::new((i - 221) as nat, |k: int| aon_clock_op(221 + k)));
    }
    assert(ops@ =~= start + clock_gate_ops());
}

fn push_phy_setup_ops(ops: &mut Vec<HwOp>)
    ensures
        final(ops)@ == old(ops)@ + phy_setup_ops(),
{
    ops.push(HwOp::Mdio { base: GMAC_BASE, data: 0xa001, value: 0x8020 });
    ops.push(HwOp::Mdio { base: GMAC_BASE, data: 0xa010, value: 0xcbff });
    ops.push(HwOp::Mdio { base: GMAC_BASE, data: 0xa003, value: 0x850 });
    assert(ops@ =~= old(ops)@ + phy_setup_ops());
}

fn push_reset_ops(ops: &mut Vec<HwOp>)
    ensures
        final(ops)@ == old(ops)@ + reset_ops(),
{
    ops.push(HwOp::Write { base: 0x13020300, offset: 0, value: 0xffe5afc4 });
    ops.push(HwOp::Write { base: 0x13020300, offset: 0, value: 0xffe5afc0 });
    ops.push(HwOp::Write { base: 0x17000038, offset: 0, value: 0xe1 });
    ops.push(HwOp::Write { base: 0x17000038, offset: 0, value: 0xe0 });
    ops.push(HwOp::Write { base: 0x17000038, offset: 0, value: 0xe2 });
    ops.push(HwOp::Write { base: 0x17000038, offset: 0, value: 0xe3 });
    ops.push(HwOp::Write { base: 0x13020190, offset: 0, value: 0x8 });
    ops.push(HwOp::Write { base: 0x13020194, offset: 0, value: 0x1 });
    assert(ops@ =~= old(ops)@ + reset_ops());
}

fn push_dma_mac_ops(ops: &mut Vec<HwOp>, rdes_base: u32, rdes_end: u32, tdes_base: u32)
    requires
        rdes_base == rx_ring_base_reg(),
        rdes_end == rx_ring_end_reg(),
        tdes_base == tx_ring_base_reg(),
    ensures
        final(ops)@ == old(ops)@ + dma_mac_ops(),
{
    let g = GMAC_BASE;
    ops.push(HwOp::SetBits { base: g, offset: DMA_BUS_MODE, bits: DMA_BUS_MODE_SFT_RESET });
    ops.push(HwOp::Write { base: g, offset: DMA_BUS_MODE, value: 0x1 });
    ops.push(HwOp::Write { base: g, offset: DMA_BUS_MODE, value: 0xf0f08f1 });
    ops.push(HwOp::Write { base: g, offset: DMA_CHAN_BASE_ADDR, value: 0 });
    ops.push(HwOp::Write { base: g, offset: DMA_CHAN_BASE_ADDR, value: 0x100000 });
    ops.push(HwOp::Write { base: g, offset: DMA_CHAN_RX_BASE_ADDR, value: rdes_base });
    ops.push(HwOp::Write { base: g, offset: DMA_CHAN_RX_END_ADDR, value: rdes_end });
    ops.push(HwOp::Write { base: g, offset: DMA_CHAN_TX_CONTROL, value: 0x100010 });
    ops.push(HwOp::Write { base: g, offset: DMA_CHAN_TX_BASE_ADDR, value: tdes_base });
    let macid_lo: u32 = 0xddccbbaa;
    let macid_hi: u32 = 0x0605;
    ops.push(HwOp::Write { base: g, offset: MAC_ADDR_HI, value: macid_hi });
    ops.push(HwOp::Write { base: g, offset: MAC_ADDR_LO, value: macid_lo });
    ops.push(HwOp::Write { base: g, offset: GMAC_CONFIG, value: 0x78200 });
    ops.push(HwOp::Write { base: g, offset: MTL_RXQ_DMA_MAP0, value: 0x0 });
    ops.push(HwOp::Write { base: g, offset: GMAC_RXQ_CTRL0, value: 0x2 });
    ops.push(HwOp::Write { base: g, offset: MTL_CHAN_RX_OP_MODE, value: 0x700000 });
    ops.push(HwOp::Write { base: g, offset: MTL_CHAN_BASE_ADDR, value: 0x70018 });
    ops.push(HwOp::Write { base: g, offset: DMA_CHAN_TX_RING_LEN, value: 64 });
    ops.push(HwOp::Write { base: g, offset: DMA_CHAN_RX_RING_LEN, value: 64 });
    ops.push(HwOp::Write { base: g, offset: GMAC_QX_TX_FLOW_CTRL, value: 0xffff0000 });
    ops.push(HwOp::Write { base: g, offset: GMAC_QX_TX_FLOW_CTRL, value: 0x2 });
    ops.push(HwOp::SetBits { base: g, offset: DMA_CHAN_RX_CONTROL, bits: DMA_CONTROL_SR });
    ops.push(HwOp::SetBits { base: g, offset: GMAC_CONFIG, bits: GMAC_CONFIG_RE });
    ops.push(HwOp::SetBits { base: g, offset: DMA_CHAN_TX_CONTROL, bits: DMA_CONTROL_ST });
    ops.push(HwOp::SetBits { base: g, offset: GMAC_CONFIG, bits: GMAC_CONFIG_TE });
    ops.push(HwOp::Write { base: g, offset: GMAC_CONFIG, value: 0x8072203 });
    ops.push(HwOp::SetMac { base: g, enable: true });
    ops.push(HwOp::Write { base: g, offset: GMAC_QX_TX_FLOW_CTRL, value: 0xffff0002 });
    assert(ops@ =~= old(ops)@ + dma_mac_ops());
}

// ------------------------------------------------------------ the device

/// Whether the receive ring's own-bit, as the receive path tests it, says the
/// controller still owns descriptor `d`.
pub open spec fn rx_owned_by_dma(d: RxDes) -> bool {
    (d.rdes0 & DESC_OWN) >> 31u32 == 1
}

/// Frame length recorded in receive descriptor `d`.
pub open spec fn rx_frame_len(d: RxDes) -> u32 {
    (d.rdes0 & DESC_RXSTS_FRMLENMSK) >> DESC_RXSTS_FRMLENSHFT
}

/// Whether the controller has handed transmit descriptor `d` back.
pub open spec fn tx_released(d: TxDes) -> bool {
    d.tdes0 & DESC_OWN == 0
}

/// Whether the controller has handed transmit descriptor `td` back; the
/// transmit path waits for this after each packet.
pub fn tx_desc_released(td: &TxDes) -> (b: bool)
    ensures
        b == tx_released(*td),
        b == (td.tdes0 & 0x8000_0000u32 == 0u32),
{
    proof {
        let x = td.tdes0;
        assert((x & DESC_OWN == 0u32) == (x & 0x8000_0000u32 == 0u32)) by (bit_vector);
    }
    td.tdes0 & DESC_OWN == 0
}

/// The network device: its receive and transmit rings.
pub struct Starfive2NetDevice<A: Starfive2Hal> {
    pub rx_ring: RxRing<A>,
    pub tx_ring: TxRing<A>,
    pub phantom: PhantomData<A>,
}

/// Physical address of buffer `i` that the receive path hands out again.
pub open spec fn rx_refill_buf(i: int) -> usize {
    (RX_REFILL_PHYS + BUF_SIZE * i) as usize
}

/// Number of receive descriptors that a refill rewrites in a table of `len`.
pub open spec fn refill_count(len: nat) -> nat {
    if len < RX_CLEAN_SLOTS {
        len
    } else {
        RX_CLEAN_SLOTS as nat
    }
}

/// Receive table `s` after a refill: the first slots point at the refill
/// buffers again, the others are unchanged.
pub open spec fn refilled(s: Seq<RxDes>) -> Seq<RxDes> {
    Seq::new(
        s.len(),
        |j: int|
            if j < RX_CLEAN_SLOTS {
                rx_desc_for(rx_refill_buf(j))
            } else {
                s[j]
            },
    )
}

/// What a refill of a receive table of `len` entries at physical address
/// `ring_phys` asks of the hardware: store the rewritten descriptors, then
/// flush the ring and the refill buffers out of the cache.
pub open spec fn refill_ops(len: nat, ring_phys: usize) -> Seq<HwOp> {
    let base = (ring_phys as u32) as usize;
    Seq::new(
        refill_count(len),
        |j: int| HwOp::StoreRxDesc { index: j as usize, desc: rx_desc_for(rx_refill_buf(j)) },
    ) + seq![
        HwOp::FlushCache { start: base, end: (base + FLUSH_SPAN) as usize },
        HwOp::FlushCache {
            start: RX_REFILL_PHYS,
            end: (RX_REFILL_PHYS + BUF_SIZE * RX_CLEAN_SLOTS) as usize,
        },
    ]
}

/// What sending from transmit slot `idx`, now holding `desc`, asks of the
/// hardware: store the descriptor, flush it and the packet buffer at `skb_pa`
/// out of the cache, move the controller's tail pointer past the slot, and
/// wait until the controller hands the slot back.
pub open spec fn transmit_ops(idx: usize, desc: TxDes, ring_phys: usize, skb_pa: usize) -> Seq<HwOp> {
    let base = ring_phys as u32;
    seq![
        HwOp::StoreTxDesc { index: idx, desc: desc },
        HwOp::FlushCache { start: base as usize, end: (base as usize + FLUSH_SPAN) as usize },
        HwOp::FlushCache { start: skb_pa, end: (skb_pa + FLUSH_SPAN) as usize },
        HwOp::Write {
            base: GMAC_BASE,
            offset: DMA_CHAN_TX_END_ADDR,
            value: (base + DESC_SIZE * (idx + 1)) as u32,
        },
        HwOp::WaitTxDone { index: idx },
    ]
}

impl<A: Starfive2Hal> Starfive2NetDevice<A> {
    /// The shape that bring-up establishes and every operation keeps: both
    /// rings full length, a buffer for every receive slot, and both ring
    /// positions inside the range that their paths cycle through.
    pub open spec fn wf(&self) -> bool {
        &&& self.rx_ring.rd@.len() == RING_LEN
        &&& self.rx_ring.skbuf@.len() == RING_LEN
        &&& self.rx_ring.idx < RX_CLEAN_SLOTS
        &&& self.tx_ring.td@.len() == RING_LEN
        &&& self.tx_ring.idx < RING_LEN
    }

    /// Brings the controller up. Returns the device, with its rings set up,
    /// and the hardware programme to carry out: clocks, PHY set-up, resets,
    /// auto-negotiation, storing the descriptor rings, and DMA and MAC
    /// configuration, in that order. The platform maps the rings and the
    /// receive buffers.
    pub fn new() -> (res: (Self, Vec<HwOp>))
        ensures
            res.0.wf(),
            res.0.rx_ring.rd.phy_addr == RX_DESC_PHYS,
            res.0.rx_ring.rd@ == rx_ring_at_start(),
            res.0.rx_ring.idx == 0,
            res.0.tx_ring.td.phy_addr == TX_DESC_PHYS,
            res.0.tx_ring.td@ == Seq::new(RING_LEN as nat, |_i: int| tx_zero()),
            res.0.tx_ring.idx == 0,
            res.0.tx_ring.skbuf@ == Seq::<usize>::empty(),
            res.1@ == init_ops(),
            call_ensures(A::phys_to_virt, (RX_DESC_PHYS,), res.0.rx_ring.rd.cpu_addr),
            call_ensures(A::phys_to_virt, (TX_DESC_PHYS,), res.0.tx_ring.td.cpu_addr),
            forall|i: int|
                0 <= i < RING_LEN ==> call_ensures(
                    A::phys_to_virt,
                    (rx_buf(i),),
                    #[trigger] res.0.rx_ring.skbuf@[i],
                ),
    {
        let rx_ring_va = A::phys_to_virt(RX_DESC_PHYS);
        let tx_ring_va = A::phys_to_virt(TX_DESC_PHYS);
        let mut rx_buf_vas: Vec<usize> = Vec::new();
        let mut i: usize = 0;
        while i < RING_LEN
            invariant
                i <= RING_LEN,
                rx_buf_vas@.len() == i,
                forall|j: int|
                    0 <= j < i ==> call_ensures(A::phys_to_virt, (rx_buf(j),), #[trigger] rx_buf_vas@[j]),
            decreases RING_LEN - i,
        {
            let va = A::phys_to_virt(RX_BUF_PHYS + BUF_SIZE * i);
            rx_buf_vas.push(va);
            i = i + 1;
        }
        Self::bring_up(rx_ring_va, tx_ring_va, rx_buf_vas)
    }

    /// Bring-up with the receive ring mapped at `rx_ring_va`, the transmit
    /// ring at `tx_ring_va`, and receive buffer `i` at `rx_buf_vas[i]`.
    pub fn bring_up(rx_ring_va: usize, tx_ring_va: usize, rx_buf_vas: Vec<usize>) -> (res: (
        Self,
        Vec<HwOp>,
    ))
        requires
            rx_buf_vas@.len() == RING_LEN,
        ensures
            res.0.wf(),
            res.0.rx_ring.rd.cpu_addr == rx_ring_va,
            res.0.rx_ring.rd.phy_addr == RX_DESC_PHYS,
            res.0.rx_ring.rd@ == rx_ring_at_start(),
            res.0.rx_ring.idx == 0,
            res.0.rx_ring.skbuf@ == rx_buf_vas@,
            res.0.tx_ring.td.cpu_addr == tx_ring_va,
            res.0.tx_ring.td.phy_addr == TX_DESC_PHYS,
            res.0.tx_ring.td@ == Seq::new(RING_LEN as nat, |_i: int| tx_zero()),
            res.0.tx_ring.idx == 0,
            res.0.tx_ring.skbuf@ == Seq::<usize>::empty(),
            res.1@ == init_ops(),
    {
        let mut ops: Vec<HwOp> = Vec::new();
        push_clock_gate_ops(&mut ops);
        assert(Seq::<HwOp>::empty() + clock_gate_ops() =~= clock_gate_ops());
        push_phy_setup_ops(&mut ops);
        push_reset_ops(&mut ops);
        ops.push(HwOp::Mdio { base: GMAC_BASE, data: 0x1de1, value: 0x300 });
        assert(ops@ =~= clock_gate_ops() + phy_setup_ops() + reset_ops() + autoneg_ops());

        let mut rx_ring = RxRing::<A>::mapped_at(rx_ring_va);
        let rdes_base = rx_ring.rd.phy_addr as u32;
        let rdes_end = rdes_base + (RING_LEN * DESC_SIZE) as u32;
        let skb_start = RX_BUF_PHYS;
        let ghost before_rx = ops@;
        let mut i: usize = 0;
        while i < RING_LEN
            invariant
                i <= RING_LEN,
                skb_start == RX_BUF_PHYS,
                rx_buf_vas@.len() == RING_LEN,
                rx_ring.rd.cpu_addr == rx_ring_va,
                rx_ring.rd.phy_addr == RX_DESC_PHYS,
                rx_ring.rd@ == Seq::new(
                    RING_LEN as nat,
                    |j: int|
                        if j < i {
                            rx_desc_for(rx_buf(j))
                        } else {
                            crate::rings::rx_zero()
                        },
                ),
                rx_ring.idx == 0,
                rx_ring.skbuf@ == rx_buf_vas@.take(i as int),
                ops@ == before_rx + Seq::new(
                    i as nat,
                    |j: int| HwOp::StoreRxDesc { index: j as usize, desc: rx_desc_for(rx_buf(j)) },
                ),
            decreases RING_LEN - i,
        {
            let buff_addr = skb_start + BUF_SIZE * i;
            rx_ring.init_rx_desc(i, buff_addr);
            rx_ring.skbuf.push(rx_buf_vas[i]);
            let d = rx_ring.rd.read_volatile(i).unwrap();
            ops.push(HwOp::StoreRxDesc { index: i, desc: d });
            i = i + 1;
            assert(rx_ring.skbuf@ =~= rx_buf_vas@.take(i as int));
            assert(rx_ring.rd@ =~= Seq::new(
                RING_LEN as nat,
                |j: int|
                    if j < i {
                        rx_desc_for(rx_buf(j))
                    } else {
                        crate::rings::rx_zero()
                    },
            ));
            assert(ops@ =~= before_rx + Seq::new(
                i as nat,
                |j: int| HwOp::StoreRxDesc { index: j as usize, desc: rx_desc_for(rx_buf(j)) },
            ));
        }
        assert(rx_ring.skbuf@ =~= rx_buf_vas@);
        assert(rx_ring.rd@ =~= rx_ring_at_start());
        assert(ops@ =~= before_rx + rx_ring_ops());

        let mut tx_ring = TxRing::<A>::mapped_at(tx_ring_va);
        let tdes_base = tx_ring.td.phy_addr as u32;
        let ghost before_tx = ops@;
        let mut i: usize = 0;
        while i < RING_LEN
            invariant
                i <= RING_LEN,
                tx_ring.td.cpu_addr == tx_ring_va,
                tx_ring.td.phy_addr == TX_DESC_PHYS,
                tx_ring.td@ == Seq::new(RING_LEN as nat, |_j: int| tx_zero()),
                tx_ring.idx == 0,
                tx_ring.skbuf@ == Seq::<usize>::empty(),
                ops@ == before_tx + Seq::new(
                    i as nat,
                    |j: int| HwOp::StoreTxDesc { index: j as usize, desc: tx_zero() },
                ),
            decreases RING_LEN - i,
        {
            tx_ring.init_tx_desc(i, false);
            let d = tx_ring.td.read_volatile(i).unwrap();
            ops.push(HwOp::StoreTxDesc { index: i, desc: d });
            i = i + 1;
            assert(tx_ring.td@ =~= Seq::new(RING_LEN as nat, |_j: int| tx_zero()));
            assert(ops@ =~= before_tx + Seq::new(
                i as nat,
                |j: int| HwOp::StoreTxDesc { index: j as usize, desc: tx_zero() },
            ));
        }
        assert(ops@ =~= before_tx + tx_ring_ops());

        push_dma_mac_ops(&mut ops, rdes_base, rdes_end, tdes_base);

        let nic = Starfive2NetDevice::<A> { rx_ring: rx_ring, tx_ring: tx_ring, phantom: PhantomData };
        (nic, ops)
    }

    /// Looks at the current receive slot: `None` while the controller owns
    /// it, else the virtual address of the slot's buffer and the frame
    /// length. The slot is not released; `rx_clean` does that.
    pub fn receive(&mut self) -> (r: Option<(usize, u32)>)
        requires
            old(self).rx_ring.idx < old(self).rx_ring.rd@.len(),
            !rx_owned_by_dma(old(self).rx_ring.rd@[old(self).rx_ring.idx as int])
                ==> old(self).rx_ring.idx < old(self).rx_ring.skbuf@.len(),
        ensures
            *final(self) == *old(self),
            ({
                let d = old(self).rx_ring.rd@[old(self).rx_ring.idx as int];
                r == if rx_owned_by_dma(d) {
                    None
                } else {
                    Some(
                        (old(self).rx_ring.skbuf@[old(self).rx_ring.idx as int], rx_frame_len(d)),
                    )
                }
            }),
            r matches Some((_, len)) ==> len < 0x4000,
            ({
                let d = old(self).rx_ring.rd@[old(self).rx_ring.idx as int];
                &&& (r is None <==> d.rdes0 & 0x8000_0000u32 != 0)
                &&& (r matches Some((va, len)) ==> va == old(self).rx_ring.skbuf@[old(
                    self,
                ).rx_ring.idx as int] && len == (d.rdes0 >> 16u32) & 0x3FFFu32)
            }),
    {
        proof {
            lemma_rx_status(old(self).rx_ring.rd@[old(self).rx_ring.idx as int]);
        }
        let idx = self.rx_ring.idx;
        let rd = self.rx_ring.rd.read_volatile(idx).unwrap();
        let rdes0 = rd.rdes0;
        let status = rdes0 & DESC_OWN;
        if status >> 31u32 == 1 {
            return None;
        }
        let len = (rdes0 & DESC_RXSTS_FRMLENMSK) >> DESC_RXSTS_FRMLENSHFT;
        assert((rdes0 & (0x3FFFu32 << 16u32)) >> 16u32 < 0x4000) by (bit_vector);
        let skb_va = self.rx_ring.skbuf[idx];
        Some((skb_va, len))
    }

    /// Releases the current receive slot and moves to the next one, cycling
    /// through the first 16 slots. On leaving the last of them, points those
    /// slots at the refill buffers again and returns what that asks of the
    /// hardware; otherwise returns nothing to do.
    pub fn rx_clean(&mut self) -> (ops: Vec<HwOp>)
        requires
            old(self).rx_ring.idx < usize::MAX,
            old(self).rx_ring.idx == RX_CLEAN_SLOTS - 1 ==> (old(self).rx_ring.rd.phy_addr as u32)
                + FLUSH_SPAN <= usize::MAX,
        ensures
            final(self).rx_ring.idx == (old(self).rx_ring.idx + 1) % (RX_CLEAN_SLOTS as int),
            final(self).rx_ring.rd@ == if old(self).rx_ring.idx == RX_CLEAN_SLOTS - 1 {
                refilled(old(self).rx_ring.rd@)
            } else {
                old(self).rx_ring.rd@
            },
            ops@ == if old(self).rx_ring.idx == RX_CLEAN_SLOTS - 1 {
                refill_ops(old(self).rx_ring.rd@.len(), old(self).rx_ring.rd.phy_addr)
            } else {
                Seq::<HwOp>::empty()
            },
            final(self).rx_ring.rd.cpu_addr == old(self).rx_ring.rd.cpu_addr,
            final(self).rx_ring.rd.phy_addr == old(self).rx_ring.rd.phy_addr,
            final(self).rx_ring.skbuf == old(self).rx_ring.skbuf,
            final(self).tx_ring == old(self).tx_ring,
            old(self).wf() ==> final(self).wf(),
            forall|k: int|
                #![trigger ops@[k]]
                0 <= k < ops@.len() ==> match ops@[k] {
                    HwOp::StoreRxDesc { index, desc } => index < 16 && index
                        < final(self).rx_ring.rd@.len() && desc == final(self).rx_ring.rd@[index as int],
                    HwOp::StoreTxDesc { .. } => false,
                    HwOp::WaitTxDone { .. } => false,
                    _ => true,
                },
    {
        proof {
            lemma_refill(old(self).rx_ring.rd@, old(self).rx_ring.rd.phy_addr);
        }
        let idx = self.rx_ring.idx;
        let mut ops: Vec<HwOp> = Vec::new();
        if idx == RX_CLEAN_SLOTS - 1 {
            let ghost s0 = self.rx_ring.rd@;
            let count = self.rx_ring.rd.count();
            let skb_start = RX_REFILL_PHYS;
            let mut i: usize = 0;
            while i < RX_CLEAN_SLOTS
                invariant
                    i <= RX_CLEAN_SLOTS,
                    skb_start == RX_REFILL_PHYS,
                    count == s0.len(),
                    self.rx_ring.rd@ == Seq::new(
                        s0.len(),
                        |j: int|
                            if j < i {
                                rx_desc_for(rx_refill_buf(j))
                            } else {
                                s0[j]
                            },
                    ),
                    self.rx_ring.idx == idx,
                    self.rx_ring.rd.cpu_addr == old(self).rx_ring.rd.cpu_addr,
                    self.rx_ring.rd.phy_addr == old(self).rx_ring.rd.phy_addr,
                    self.rx_ring.skbuf == old(self).rx_ring.skbuf,
                    self.tx_ring == old(self).tx_ring,
                    ops@ == Seq::new(
                        if i < count { i as nat } else { count as nat },
                        |j: int| HwOp::StoreRxDesc { index: j as usize, desc: rx_desc_for(rx_refill_buf(j)) },
                    ),
                decreases RX_CLEAN_SLOTS - i,
            {
                let buff_addr = skb_start + BUF_SIZE * i;
                self.rx_ring.init_rx_desc(i, buff_addr);
                if i < count {
                    let d = self.rx_ring.rd.read_volatile(i).unwrap();
                    ops.push(HwOp::StoreRxDesc { index: i, desc: d });
                }
                i = i + 1;
                assert(self.rx_ring.rd@ =~= Seq::new(
                    s0.len(),
                    |j: int|
                        if j < i {
                            rx_desc_for(rx_refill_buf(j))
                        } else {
                            s0[j]
                        },
                ));
                assert(ops@ =~= Seq::new(
                    if i < count { i as nat } else { count as nat },
                    |j: int| HwOp::StoreRxDesc { index: j as usize, desc: rx_desc_for(rx_refill_buf(j)) },
                ));
            }
            assert(self.rx_ring.rd@ =~= refilled(s0));
            let rdes_base = self.rx_ring.rd.phy_addr as u32;
            ops.push(HwOp::FlushCache { start: rdes_base as usize, end: rdes_base as usize + FLUSH_SPAN });
            ops.push(HwOp::FlushCache { start: RX_REFILL_PHYS, end: RX_REFILL_PHYS + BUF_SIZE * RX_CLEAN_SLOTS });
            assert(ops@ =~= refill_ops(s0.len(), old(self).rx_ring.rd.phy_addr));
        }
        self.rx_ring.idx = (idx + 1) % RX_CLEAN_SLOTS;
        ops
    }

    /// Sends `len` bytes from the buffer at physical address `skb_pa` through
    /// the current transmit slot, and moves to the next slot. Returns what
    /// this asks of the hardware, ending with the wait for the controller to
    /// hand the slot back.
    pub fn transmit(&mut self, skb_pa: usize, len: usize) -> (ops: Vec<HwOp>)
        requires
            old(self).tx_ring.idx < old(self).tx_ring.td@.len(),
            skb_pa + FLUSH_SPAN <= usize::MAX,
            (old(self).tx_ring.td.phy_addr as u32) + FLUSH_SPAN <= usize::MAX,
            (old(self).tx_ring.td.phy_addr as u32) + DESC_SIZE * (old(self).tx_ring.idx + 1)
                <= u32::MAX,
        ensures
            ({
                let idx = old(self).tx_ring.idx;
                let desc = tx_desc_for(old(self).tx_ring.td@[idx as int], skb_pa, len);
                &&& final(self).tx_ring.td@ == old(self).tx_ring.td@.update(idx as int, desc)
                &&& ops@ == transmit_ops(idx, desc, old(self).tx_ring.td.phy_addr, skb_pa)
            }),
            final(self).tx_ring.idx == (old(self).tx_ring.idx + 1) % (RING_LEN as int),
            final(self).tx_ring.td.cpu_addr == old(self).tx_ring.td.cpu_addr,
            final(self).tx_ring.td.phy_addr == old(self).tx_ring.td.phy_addr,
            final(self).tx_ring.skbuf == old(self).tx_ring.skbuf,
            final(self).rx_ring == old(self).rx_ring,
            old(self).wf() ==> final(self).wf(),
            ops@.len() == 5,
            ops@[0] == (HwOp::StoreTxDesc {
                index: old(self).tx_ring.idx,
                desc: final(self).tx_ring.td@[old(self).tx_ring.idx as int],
            }),
            ops@[4] == (HwOp::WaitTxDone { index: old(self).tx_ring.idx }),
            forall|k: int|
                #![trigger ops@[k]]
                0 <= k < ops@.len() ==> match ops@[k] {
                    HwOp::StoreTxDesc { index, desc } => index == old(self).tx_ring.idx && desc
                        == final(self).tx_ring.td@[index as int],
                    HwOp::StoreRxDesc { .. } => false,
                    HwOp::WaitTxDone { index } => index == old(self).tx_ring.idx,
                    _ => true,
                },
            final(self).tx_ring.td@[old(self).tx_ring.idx as int].tdes0 == skb_pa as u32,
            final(self).tx_ring.td@[old(self).tx_ring.idx as int].tdes2 == len as u32,
    {
        proof {
            lemma_tx_desc_fields(old(self).tx_ring.td@[old(self).tx_ring.idx as int], skb_pa, len);
            lemma_transmit_ops(
                old(self).tx_ring.idx,
                tx_desc_for(old(self).tx_ring.td@[old(self).tx_ring.idx as int], skb_pa, len),
                old(self).tx_ring.td.phy_addr,
                skb_pa,
            );
        }
        let idx: usize = self.tx_ring.idx;
        self.tx_ring.set_transmit_des(idx, skb_pa, len);
        let desc = self.tx_ring.td.read_volatile(idx).unwrap();
        let tdes_base = self.tx_ring.td.phy_addr as u32;
        let mut ops: Vec<HwOp> = Vec::new();
        ops.push(HwOp::StoreTxDesc { index: idx, desc: desc });
        ops.push(HwOp::FlushCache { start: tdes_base as usize, end: tdes_base as usize + FLUSH_SPAN });
        ops.push(HwOp::FlushCache { start: skb_pa, end: skb_pa + FLUSH_SPAN });
        let tail_ptr = tdes_base + (DESC_SIZE * (idx + 1)) as u32;
        ops.push(HwOp::Write { base: GMAC_BASE, offset: DMA_CHAN_TX_END_ADDR, value: tail_ptr });
        ops.push(HwOp::WaitTxDone { index: idx });
        self.tx_ring.idx = (idx + 1) % RING_LEN;
        assert(ops@ =~= transmit_ops(idx, desc, old(self).tx_ring.td.phy_addr, skb_pa));
        ops
    }
}

/// The receive slot after `n` calls of `rx_clean` from slot `idx`.
pub open spec fn rx_slot_after(idx: int, n: nat) -> int
    decreases n,
{
    if n == 0 {
        idx
    } else {
        (rx_slot_after(idx, (n - 1) as nat) + 1) % (RX_CLEAN_SLOTS as int)
    }
}

proof fn lemma_rx_slot_after(idx: int, n: nat)
    requires
        0 <= idx < RX_CLEAN_SLOTS,
    ensures
        rx_slot_after(idx, n) == (idx + n) % (RX_CLEAN_SLOTS as int),
    decreases n,
{
    if n > 0 {
        lemma_rx_slot_after(idx, (n - 1) as nat);
        vstd::arithmetic::div_mod::lemma_add_mod_noop(idx + (n - 1), 1, 16);
    }
}

/// Starting from a slot below 16, `rx_clean` keeps the receive slot below 16
/// and, after 16 calls, is back at the slot it started from.
pub proof fn lemma_rx_clean_cycle(idx: int, n: nat)
    requires
        0 <= idx < RX_CLEAN_SLOTS,
    ensures
        0 <= rx_slot_after(idx, n) < RX_CLEAN_SLOTS,
        rx_slot_after(idx, n) == (idx + n) % (RX_CLEAN_SLOTS as int),
        rx_slot_after(idx, RX_CLEAN_SLOTS as nat) == idx,
{
    lemma_rx_slot_after(idx, n);
    lemma_rx_slot_after(idx, RX_CLEAN_SLOTS as nat);
}

// ------------------------------------------------------------ laws on the bits

/// The receive path reads only the first descriptor word: a slot counts as
/// owned by the controller exactly when bit 31 of that word is set, and the
/// frame length is its bits 16 to 29.
pub proof fn lemma_rx_status(d: RxDes)
    ensures
        rx_owned_by_dma(d) <==> d.rdes0 & 0x8000_0000u32 != 0,
        rx_frame_len(d) == (d.rdes0 >> 16u32) & 0x3FFFu32,
        rx_frame_len(d) < 0x4000,
{
    let x = d.rdes0;
    assert(((x & DESC_OWN) >> 31u32 == 1) <==> (x & 0x8000_0000u32 != 0)) by (bit_vector);
    assert((x & DESC_RXSTS_FRMLENMSK) >> DESC_RXSTS_FRMLENSHFT == (x >> 16u32) & 0x3FFFu32)
        by (bit_vector);
    assert((x >> 16u32) & 0x3FFFu32 < 0x4000) by (bit_vector);
}

/// An MDIO write decides on bit 0 of the address register alone: with the
/// bit clear it issues its command (when waiting for a free interface) or
/// finishes (when waiting for the command to complete); with the bit set it
/// waits 10 ms and stays where it is. A finished write stays finished.
pub proof fn lemma_mdio_busy_bit(m: MdioWrite, status: u32)
    ensures
        m.phase == MdioPhase::WaitIdle && status & 1u32 == 0u32 ==> mdio_step_spec(m, status) == (
            MdioWrite { data: m.data, value: m.value, phase: MdioPhase::WaitDone },
            MdioAction::Issue { data: m.data, value: m.value },
        ),
        m.phase == MdioPhase::WaitDone && status & 1u32 == 0u32 ==> mdio_step_spec(m, status) == (
            MdioWrite { data: m.data, value: m.value, phase: MdioPhase::Done },
            MdioAction::Finished,
        ),
        m.phase != MdioPhase::Done && status & 1u32 == 1u32 ==> mdio_step_spec(m, status) == (
            m,
            MdioAction::Delay { ms: 10 },
        ),
        m.phase == MdioPhase::Done ==> mdio_step_spec(m, status) == (m, MdioAction::Finished),
{
    assert(status & 1u32 == 0u32 || status & 1u32 == 1u32) by (bit_vector);
}

/// What sending from slot `idx` asks of the hardware: store the filled
/// descriptor in slot `idx` and in no other slot, flush the ring page and
/// the packet's page, set the tail pointer to the end of slot `idx`, and wait
/// for slot `idx`.
pub proof fn lemma_transmit_ops(idx: usize, desc: TxDes, ring_phys: usize, skb_pa: usize)
    ensures
        transmit_ops(idx, desc, ring_phys, skb_pa).len() == 5,
        transmit_ops(idx, desc, ring_phys, skb_pa)[0] == (HwOp::StoreTxDesc { index: idx, desc }),
        transmit_ops(idx, desc, ring_phys, skb_pa)[1] == (HwOp::FlushCache {
            start: (ring_phys as u32) as usize,
            end: ((ring_phys as u32) + 0x1000int) as usize,
        }),
        transmit_ops(idx, desc, ring_phys, skb_pa)[2] == (HwOp::FlushCache {
            start: skb_pa,
            end: (skb_pa + 0x1000int) as usize,
        }),
        transmit_ops(idx, desc, ring_phys, skb_pa)[3] == (HwOp::Write {
            base: 0x16040000,
            offset: 0x1120,
            value: ((ring_phys as u32) + 16 * (idx + 1)) as u32,
        }),
        transmit_ops(idx, desc, ring_phys, skb_pa)[4] == (HwOp::WaitTxDone { index: idx }),
        forall|k: int|
            #![trigger transmit_ops(idx, desc, ring_phys, skb_pa)[k]]
            0 <= k < 5 ==> match transmit_ops(idx, desc, ring_phys, skb_pa)[k] {
                HwOp::StoreTxDesc { index, desc: d } => index == idx && d == desc,
                HwOp::StoreRxDesc { .. } => false,
                HwOp::WaitTxDone { index } => index == idx,
                _ => true,
            },
{
    let ops = transmit_ops(idx, desc, ring_phys, skb_pa);
    assert forall|k: int| 0 <= k < 5 implies match #[trigger] ops[k] {
        HwOp::StoreTxDesc { index, desc: d } => index == idx && d == desc,
        HwOp::StoreRxDesc { .. } => false,
        HwOp::WaitTxDone { index } => index == idx,
        _ => true,
    } by {
        if k == 0 {
        } else if k == 1 {
        } else if k == 2 {
        } else if k == 3 {
        } else {
        }
    }
}

/// The MAC enable update in plain terms: switching on gives the reading with
/// bits 2 and 3 set, and nothing to write if they already are; switching off
/// gives the reading with bits 2 and 3 cleared, and nothing to write if they
/// already are.
pub proof fn lemma_set_mac_bits(old_val: u32)
    ensures
        set_mac_spec(old_val, true) == if old_val & 0xCu32 == 0xCu32 {
            None::<u32>
        } else {
            Some(old_val | 0xCu32)
        },
        set_mac_spec(old_val, false) == if old_val & 0xCu32 == 0u32 {
            None::<u32>
        } else {
            Some(old_val & 0xFFFF_FFF3u32)
        },
{
    lemma_enable_mask(old_val);
    assert(!12u32 == 0xFFFF_FFF3u32) by (bit_vector);
    assert((old_val | 0xCu32 == old_val) <==> (old_val & 0xCu32 == 0xCu32)) by (bit_vector);
    assert((old_val & 0xFFFF_FFF3u32 == old_val) <==> (old_val & 0xCu32 == 0u32)) by (bit_vector);
}

/// The bring-up programme, entry by entry:
/// - 0..22: clock gates 97 to 111 of the system clock generator and 2 to 8 of
///   the always-on one, each set to 0x8000_0000;
/// - 22..25: the three PHY set-up writes over MDIO;
/// - 25..33: the reset and clock-select writes;
/// - 33: the auto-negotiation write over MDIO;
/// - 34..98: receive descriptor `i` pointing at buffer 0x8201_0000 + 0x1000 * i
///   and handed to the controller;
/// - 98..162: transmit descriptor `i` cleared;
/// - 162..189: DMA reset, DMA bus mode, channel set-up with the two ring
///   addresses (receive ring end 0x8200_1400), MAC address, queue and flow
///   control, then starting the receive DMA, the MAC receiver, the transmit
///   DMA and the MAC transmitter, the final MAC configuration, the MAC enable
///   and the flow control of queue 0.
pub proof fn lemma_bring_up_programme()
    ensures
        init_ops().len() == 189,
        forall|k: int|
            0 <= k < 15 ==> #[trigger] init_ops()[k] == (HwOp::Write {
                base: (0x13020000 + 4 * (97 + k)) as usize,
                offset: 0,
                value: 0x8000_0000,
            }),
        forall|k: int|
            15 <= k < 22 ==> #[trigger] init_ops()[k] == (HwOp::Write {
                base: (0x17000008 + 4 * (k - 15)) as usize,
                offset: 0,
                value: 0x8000_0000,
            }),
        init_ops()[22] == (HwOp::Mdio { base: 0x16040000, data: 0xa001, value: 0x8020 }),
        init_ops()[23] == (HwOp::Mdio { base: 0x16040000, data: 0xa010, value: 0xcbff }),
        init_ops()[24] == (HwOp::Mdio { base: 0x16040000, data: 0xa003, value: 0x850 }),
        init_ops()[25] == (HwOp::Write { base: 0x13020300, offset: 0, value: 0xffe5afc4 }),
        init_ops()[26] == (HwOp::Write { base: 0x13020300, offset: 0, value: 0xffe5afc0 }),
        init_ops()[27] == (HwOp::Write { base: 0x17000038, offset: 0, value: 0xe1 }),
        init_ops()[28] == (HwOp::Write { base: 0x17000038, offset: 0, value: 0xe0 }),
        init_ops()[29] == (HwOp::Write { base: 0x17000038, offset: 0, value: 0xe2 }),
        init_ops()[30] == (HwOp::Write { base: 0x17000038, offset: 0, value: 0xe3 }),
        init_ops()[31] == (HwOp::Write { base: 0x13020190, offset: 0, value: 0x8 }),
        init_ops()[32] == (HwOp::Write { base: 0x13020194, offset: 0, value: 0x1 }),
        init_ops()[33] == (HwOp::Mdio { base: 0x16040000, data: 0x1de1, value: 0x300 }),
        forall|i: int|
            0 <= i < 64 ==> #[trigger] init_ops()[34 + i] == (HwOp::StoreRxDesc {
                index: i as usize,
                desc: RxDes {
                    rdes0: (0x8201_0000 + 0x1000 * i) as u32,
                    rdes1: 0,
                    rdes2: 0,
                    rdes3: 0x8100_0000,
                },
            }),
        forall|i: int|
            0 <= i < 64 ==> #[trigger] init_ops()[98 + i] == (HwOp::StoreTxDesc {
                index: i as usize,
                desc: TxDes { tdes0: 0, tdes1: 0, tdes2: 0, tdes3: 0 },
            }),
        init_ops()[162] == (HwOp::SetBits { base: 0x16040000, offset: 0x1000, bits: 0x1 }),
        init_ops()[163] == (HwOp::Write { base: 0x16040000, offset: 0x1000, value: 0x1 }),
        init_ops()[164] == (HwOp::Write { base: 0x16040000, offset: 0x1000, value: 0xf0f08f1 }),
        init_ops()[165] == (HwOp::Write { base: 0x16040000, offset: 0x1100, value: 0x0 }),
        init_ops()[166] == (HwOp::Write { base: 0x16040000, offset: 0x1100, value: 0x100000 }),
        init_ops()[167] == (HwOp::Write { base: 0x16040000, offset: 0x111c, value: 0x82001000 }),
        init_ops()[168] == (HwOp::Write { base: 0x16040000, offset: 0x1128, value: 0x82001400 }),
        init_ops()[169] == (HwOp::Write { base: 0x16040000, offset: 0x1104, value: 0x100010 }),
        init_ops()[170] == (HwOp::Write { base: 0x16040000, offset: 0x1114, value: 0x82002000 }),
        init_ops()[171] == (HwOp::Write { base: 0x16040000, offset: 0x300, value: 0x605 }),
        init_ops()[172] == (HwOp::Write { base: 0x16040000, offset: 0x304, value: 0xddccbbaa }),
        init_ops()[173] == (HwOp::Write { base: 0x16040000, offset: 0x0, value: 0x78200 }),
        init_ops()[174] == (HwOp::Write { base: 0x16040000, offset: 0xc30, value: 0x0 }),
        init_ops()[175] == (HwOp::Write { base: 0x16040000, offset: 0xa0, value: 0x2 }),
        init_ops()[176] == (HwOp::Write { base: 0x16040000, offset: 0xd30, value: 0x700000 }),
        init_ops()[177] == (HwOp::Write { base: 0x16040000, offset: 0xd00, value: 0x70018 }),
        init_ops()[178] == (HwOp::Write { base: 0x16040000, offset: 0x112c, value: 0x40 }),
        init_ops()[179] == (HwOp::Write { base: 0x16040000, offset: 0x1130, value: 0x40 }),
        init_ops()[180] == (HwOp::Write { base: 0x16040000, offset: 0x70, value: 0xffff0000 }),
        init_ops()[181] == (HwOp::Write { base: 0x16040000, offset: 0x70, value: 0x2 }),
        init_ops()[182] == (HwOp::SetBits { base: 0x16040000, offset: 0x1108, bits: 0x1 }),
        init_ops()[183] == (HwOp::SetBits { base: 0x16040000, offset: 0x0, bits: 0x1 }),
        init_ops()[184] == (HwOp::SetBits { base: 0x16040000, offset: 0x1104, bits: 0x1 }),
        init_ops()[185] == (HwOp::SetBits { base: 0x16040000, offset: 0x0, bits: 0x2 }),
        init_ops()[186] == (HwOp::Write { base: 0x16040000, offset: 0x0, value: 0x8072203 }),
        init_ops()[187] == (HwOp::SetMac { base: 0x16040000, enable: true }),
        init_ops()[188] == (HwOp::Write { base: 0x16040000, offset: 0x70, value: 0xffff0002 }),
{
    let a = clock_gate_ops();
    let b = phy_setup_ops();
    let c = reset_ops();
    let d = autoneg_ops();
    let e = rx_ring_ops();
    let f = tx_ring_ops();
    let g = dma_mac_ops();
    assert(a.len() == 22);
    assert(b.len() == 3);
    assert(c.len() == 8);
    assert(d.len() == 1);
    assert(e.len() == 64);
    assert(f.len() == 64);
    assert(g.len() == 27);
    let ab = a + b;
    let abc = ab + c;
    let abcd = abc + d;
    let abcde = abcd + e;
    let abcdef = abcde + f;
    let all = abcdef + g;
    assert(all == init_ops());
    assert forall|k: int| 0 <= k < 15 implies #[trigger] init_ops()[k] == (HwOp::Write {
        base: (0x13020000 + 4 * (97 + k)) as usize,
        offset: 0,
        value: 0x8000_0000,
    }) by {
        assert(all[k] == abcdef[k]);
        assert(abcdef[k] == abcde[k]);
        assert(abcde[k] == abcd[k]);
        assert(abcd[k] == abc[k]);
        assert(abc[k] == ab[k]);
        assert(ab[k] == a[k]);
    }
    assert forall|k: int| 15 <= k < 22 implies #[trigger] init_ops()[k] == (HwOp::Write {
        base: (0x17000008 + 4 * (k - 15)) as usize,
        offset: 0,
        value: 0x8000_0000,
    }) by {
        assert(all[k] == abcdef[k]);
        assert(abcdef[k] == abcde[k]);
        assert(abcde[k] == abcd[k]);
        assert(abcd[k] == abc[k]);
        assert(abc[k] == ab[k]);
        assert(ab[k] == a[k]);
    }
    assert forall|i: int| 0 <= i < 64 implies #[trigger] init_ops()[34 + i] == (HwOp::StoreRxDesc {
        index: i as usize,
        desc: RxDes {
            rdes0: (0x8201_0000 + 0x1000 * i) as u32,
            rdes1: 0,
            rdes2: 0,
            rdes3: 0x8100_0000,
        },
    }) by {
        assert(all[34 + i] == abcdef[34 + i]);
        assert(abcdef[34 + i] == abcde[34 + i]);
        assert(abcde[34 + i] == e[i]);
        crate::rings::lemma_rx_desc_fields(rx_buf(i));
    }
    assert forall|i: int| 0 <= i < 64 implies #[trigger] init_ops()[98 + i] == (HwOp::StoreTxDesc {
        index: i as usize,
        desc: TxDes { tdes0: 0, tdes1: 0, tdes2: 0, tdes3: 0 },
    }) by {
        assert(all[98 + i] == abcdef[98 + i]);
        assert(abcdef[98 + i] == f[i]);
    }
    assert(all[22] == b[0]);
    assert(all[23] == b[1]);
    assert(all[24] == b[2]);
    assert forall|k: int| 25 <= k < 33 implies #[trigger] all[k] == c[k - 25] by {
        assert(all[k] == abcdef[k]);
        assert(abcdef[k] == abcde[k]);
        assert(abcde[k] == abcd[k]);
        assert(abcd[k] == abc[k]);
    }
    assert(all[25] == c[0]);
    assert(all[26] == c[1]);
    assert(all[27] == c[2]);
    assert(all[28] == c[3]);
    assert(all[29] == c[4]);
    assert(all[30] == c[5]);
    assert(all[31] == c[6]);
    assert(all[32] == c[7]);
    assert(all[33] == d[0]);
    assert forall|k: int| 162 <= k < 189 implies #[trigger] all[k] == g[k - 162] by {}
    assert(DMA_CONTROL_SR == 1u32) by (bit_vector);
    assert(DMA_CONTROL_ST == 1u32) by (bit_vector);
    assert(GMAC_CONFIG_RE == 1u32) by (bit_vector);
    assert(GMAC_CONFIG_TE == 2u32) by (bit_vector);
    assert(rx_ring_base_reg() == 0x8200_1000u32);
    assert(rx_ring_end_reg() == 0x8200_1400u32);
    assert(tx_ring_base_reg() == 0x8200_2000u32);
    assert(all[162] == g[0]);
    assert(all[163] == g[1]);
    assert(all[164] == g[2]);
    assert(all[165] == g[3]);
    assert(all[166] == g[4]);
    assert(all[167] == g[5]);
    assert(all[168] == g[6]);
    assert(all[169] == g[7]);
    assert(all[170] == g[8]);
    assert(all[171] == g[9]);
    assert(all[172] == g[10]);
    assert(all[173] == g[11]);
    assert(all[174] == g[12]);
    assert(all[175] == g[13]);
    assert(all[176] == g[14]);
    assert(all[177] == g[15]);
    assert(all[178] == g[16]);
    assert(all[179] == g[17]);
    assert(all[180] == g[18]);
    assert(all[181] == g[19]);
    assert(all[182] == g[20]);
    assert(all[183] == g[21]);
    assert(all[184] == g[22]);
    assert(all[185] == g[23]);
    assert(all[186] == g[24]);
    assert(all[187] == g[25]);
    assert(all[188] == g[26]);
}

/// What a refill of the receive ring does: slot `j` of the first 16 points
/// at buffer 0x1801_0000 + 0x1000 * j and is handed to the controller, the
/// other slots stay as they were; the hardware is asked to store exactly
/// those descriptors, in slot order, then to flush the ring's page and the
/// 64 KiB of refill buffers.
pub proof fn lemma_refill(s: Seq<RxDes>, ring_phys: usize)
    ensures
        refilled(s).len() == s.len(),
        forall|j: int|
            0 <= j < s.len() ==> #[trigger] refilled(s)[j] == if j < 16 {
                RxDes {
                    rdes0: (0x1801_0000 + 0x1000 * j) as u32,
                    rdes1: 0,
                    rdes2: 0,
                    rdes3: 0x8100_0000,
                }
            } else {
                s[j]
            },
        refill_ops(s.len(), ring_phys).len() == refill_count(s.len()) + 2,
        refill_count(s.len()) == if s.len() < 16 { s.len() } else { 16 },
        forall|j: int|
            0 <= j < refill_count(s.len()) ==> #[trigger] refill_ops(s.len(), ring_phys)[j]
                == (HwOp::StoreRxDesc { index: j as usize, desc: refilled(s)[j] }),
        refill_ops(s.len(), ring_phys)[refill_count(s.len()) as int] == (HwOp::FlushCache {
            start: (ring_phys as u32) as usize,
            end: ((ring_phys as u32) + 0x1000int) as usize,
        }),
        refill_ops(s.len(), ring_phys)[refill_count(s.len()) + 1int] == (HwOp::FlushCache {
            start: 0x1801_0000,
            end: 0x1802_0000,
        }),
{
    assert forall|j: int| 0 <= j < s.len() implies #[trigger] refilled(s)[j] == if j < 16 {
        RxDes {
            rdes0: (0x1801_0000 + 0x1000 * j) as u32,
            rdes1: 0,
            rdes2: 0,
            rdes3: 0x8100_0000,
        }
    } else {
        s[j]
    } by {
        crate::rings::lemma_rx_desc_fields(rx_refill_buf(j));
    }
    let n = refill_count(s.len());
    let ops = refill_ops(s.len(), ring_phys);
    assert forall|j: int| 0 <= j < n implies #[trigger] ops[j] == (HwOp::StoreRxDesc {
        index: j as usize,
        desc: refilled(s)[j],
    }) by {
        assert(j < s.len());
    }
}

} // verus!
