//! Register offsets and bit values of the StarFive JH7110 GMAC (a Synopsys
//! DesignWare "dwmac4" core) and of the platform around it.
use vstd::prelude::*;

verus! {

// ---------------------------------------------------------------- DMA block
pub const DMA_BUS_MODE: usize = 0x00001000;

/// Software reset bit of `DMA_BUS_MODE`.
pub const DMA_BUS_MODE_SFT_RESET: u32 = 0x1;

/// AXI master bus mode.
pub const DMA_AXI_BUS_MODE: usize = 0x00001028;

/// Receive list base.
pub const DMA_RCV_BASE_ADDR: usize = 0x0000100c;

/// Operational mode control.
pub const DMA_CONTROL: usize = 0x00001018;

/// Start/stop receive bit of a channel's receive control register.
pub const DMA_CONTROL_SR: u32 = 1 << 0;

/// Start/stop transmission bit of a channel's transmit control register.
pub const DMA_CONTROL_ST: u32 = 1 << 0;

/// Transmit poll demand.
pub const DMA_XMT_POLL_DEMAND: u32 = 0x00001004;

/// Receive poll demand.
pub const DMA_RCV_POLL_DEMAND: u32 = 0x00001008;

// ---------------------------------------------------------------- MAC block
/// MAC configuration register.
pub const GMAC_CONFIG: usize = 0x0;

/// Receiver enable bit of the MAC configuration register (offset 0).
pub const GMAC_CONFIG_RE: u32 = 1 << 0;

/// Transmitter enable bit of the MAC configuration register (offset 0).
pub const GMAC_CONFIG_TE: u32 = 1 << 1;

/// Transmitter enable, as `stmmac_set_mac` drives it.
pub const MAC_ENABLE_TX: u32 = 1 << 3;

/// Receiver enable, as `stmmac_set_mac` drives it.
pub const MAC_ENABLE_RX: u32 = 1 << 2;

pub const SIFIVE_CCACHE_WAY_ENABLE: usize = 0x8;

pub const MAC_ADDR_HI: usize = 0x300;
pub const MAC_ADDR_LO: usize = 0x304;

// ---------------------------------------------------------- DMA channel 0
pub const DMA_CHAN_BASE_ADDR: usize = 0x00001100;
pub const DMA_CHAN_CONTROL: usize = 0x1100;
pub const DMA_CHAN_TX_CONTROL: usize = 0x1100 + 0x4;
pub const DMA_CHAN_RX_CONTROL: usize = 0x1100 + 0x8;
pub const DMA_CHAN_TX_BASE_ADDR_HI: usize = 0x1100 + 0x10;
pub const DMA_CHAN_TX_BASE_ADDR: usize = 0x1100 + 0x14;
pub const DMA_CHAN_RX_BASE_ADDR_HI: usize = 0x1100 + 0x18;
pub const DMA_CHAN_RX_BASE_ADDR: usize = 0x1100 + 0x1c;
pub const DMA_CHAN_TX_END_ADDR: usize = 0x1100 + 0x20;
pub const DMA_CHAN_RX_END_ADDR: usize = 0x1100 + 0x28;
pub const DMA_CHAN_TX_RING_LEN: usize = 0x1100 + 0x2c;
pub const DMA_CHAN_RX_RING_LEN: usize = 0x1100 + 0x30;
pub const DMA_CHAN_INTR_ENA: usize = 0x1100 + 0x34;
pub const DMA_CHAN_RX_WATCHDOG: usize = 0x1100 + 0x38;
pub const DMA_CHAN_SLOT_CTRL_STATUS: usize = 0x1100 + 0x3c;
pub const DMA_CHAN_CUR_TX_DESC: usize = 0x1100 + 0x44;
pub const DMA_CHAN_CUR_RX_DESC: usize = 0x1100 + 0x4c;
pub const DMA_CHAN_CUR_TX_BUF_ADDR: usize = 0x1100 + 0x54;
pub const DMA_CHAN_CUR_RX_BUF_ADDR: usize = 0x1100 + 0x5c;
pub const DMA_CHAN_STATUS: usize = 0x1100 + 0x60;

// ---------------------------------------------------------------- MTL block
pub const MTL_RXQ_DMA_MAP0: usize = 0xc30;
pub const GMAC_RXQ_CTRL0: usize = 0x000000a0;
pub const MTL_CHAN_BASE_ADDR: usize = 0x00000d00;
pub const MTL_CHAN_RX_OP_MODE: usize = 0x00000d00 + 0x30;
pub const GMAC_QX_TX_FLOW_CTRL: usize = 0x70;

// ---------------------------------------------------------------- MDIO
/// MDIO address/command register.
pub const MAC_MDIO_ADDRESS: usize = 0x10;

/// MDIO data register.
pub const MAC_MDIO_DATA: usize = 0x14;

/// Busy bit of the MDIO address register.
pub const MII_BUSY: u32 = 0x00000001;

// ---------------------------------------------------------------- descriptors
/// Bits of the receive status word that hold the frame length.
pub const DESC_RXSTS_FRMLENMSK: u32 = 0x3FFF << 16;

/// Position of the frame length inside the receive status word.
pub const DESC_RXSTS_FRMLENSHFT: u32 = 16;

/// Ownership bit of a descriptor word: set while the DMA engine owns it.
pub const DESC_OWN: u32 = 1 << 31;

/// "Buffer 1 address valid" bit of the last word of a receive descriptor.
pub const RDES3_BUF1V: u32 = 1 << 24;

/// "First descriptor" bit of the last word of a transmit descriptor.
pub const TDES3_FD: u32 = 1 << 29;

/// "Last descriptor" bit of the last word of a transmit descriptor.
pub const TDES3_LD: u32 = 1 << 28;

/// Size in bytes of one DMA descriptor (four 32-bit words).
pub const DESC_SIZE: usize = 16;

// ---------------------------------------------------------------- platform
/// Physical base address of the GMAC register block.
pub const GMAC_BASE: usize = 0x16040000;

/// Physical base address of the system clock and reset generator.
pub const SYS_CRG_BASE: usize = 0x13020000;

/// Physical base address of the always-on clock and reset generator.
pub const AON_CRG_BASE: usize = 0x17000000;

/// Enable bit of a clock gate register.
pub const CLK_ENABLE: u32 = 0x80000000;

/// Number of descriptors in each ring.
pub const RING_LEN: usize = 64;

/// Physical address of the receive descriptor ring.
pub const RX_DESC_PHYS: usize = 0x8200_1000;

/// Physical address of the transmit descriptor ring.
pub const TX_DESC_PHYS: usize = 0x8200_2000;

/// Physical address of the first receive buffer set up at start.
pub const RX_BUF_PHYS: usize = 0x8201_0000;

/// Size of one packet buffer.
pub const BUF_SIZE: usize = 0x1000;

/// Number of receive slots that the receive path cycles through.
pub const RX_CLEAN_SLOTS: usize = 16;

/// Physical address of the receive buffers handed out again once the
/// receive path has gone round its slots.
pub const RX_REFILL_PHYS: usize = 0x1801_0000;

/// Extent of a cache flush for a descriptor ring or a packet buffer.
pub const FLUSH_SPAN: usize = 0x1000;

} // verus!
