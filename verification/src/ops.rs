//! Hardware operations that the driver asks its caller to carry out.
use vstd::prelude::*;

use crate::rings::{RxDes, TxDes};

verus! {

/// One step of hardware access, to be carried out in list order.
///
/// Register addresses are given as a physical `base`, which the caller maps
/// with `Starfive2Hal::phys_to_virt`, plus an `offset` added to the mapped
/// address.
#[allow(inconsistent_fields)]
#[derive(Copy, Clone, Debug, PartialEq, Eq, Structural)]
pub enum HwOp {
    /// Write `value` to the 32-bit register at `offset` from `base`.
    Write { base: usize, offset: usize, value: u32 },
    /// Read the 32-bit register at `offset` from `base` and write back
    /// `set_bits(read, bits)`.
    SetBits { base: usize, offset: usize, bits: u32 },
    /// Write `value` to the PHY through the MDIO interface of the controller
    /// at `base`, driven by `MdioWrite` with `data` and `value`.
    Mdio { base: usize, data: u32, value: u32 },
    /// Read the MAC configuration register of the controller at `base` and
    /// write back what `stmmac_set_mac` gives for it and `enable`, if anything.
    SetMac { base: usize, enable: bool },
    /// Flush the physical range `start .. end` out of the L2 cache.
    FlushCache { start: usize, end: usize },
    /// Store `desc` in entry `index` of the receive descriptor memory.
    StoreRxDesc { index: usize, desc: RxDes },
    /// Store `desc` in entry `index` of the transmit descriptor memory.
    StoreTxDesc { index: usize, desc: TxDes },
    /// Read entry `index` of the transmit descriptor memory until
    /// `tx_desc_released` holds of it, recording each reading in the
    /// transmit ring's table.
    WaitTxDone { index: usize },
}

} // verus!
