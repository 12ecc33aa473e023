//! The hypercall codes and the number that encodes each of them.

use crate::bits::{bit_range, u32_get_bits};
use vstd::arithmetic::power2::lemma2_to64;
use vstd::prelude::*;
use vstd::std_specs::convert::{FromSpec, TryFromSpec};

verus! {

/// The bits 29 to 31 of a code, which every hypercall code past the first
/// three carries.
pub const HYPER_CALL_CODE_PRIVILEGED_MASK: u32 = 0xe000_0000;

/// A hypercall that a guest or the host can issue to the hypervisor.
///
/// The variants carry no discriminants, so `HyperCallCode::HDebug as u32` is
/// the variant's position in this list, not the hypercall's code: use
/// [`HyperCallCode::code`] or `u32::from` to get the number that encodes it.
#[derive(PartialEq, Eq, Structural, Copy, Clone)]
pub enum HyperCallCode {
    /// Disable the hypervisor.
    HypervisorDisable,
    /// Prepare to disable the hypervisor, map the hypervisor memory to the guest.
    HyperVisorPrepareDisable,
    /// Only for debugging purposes.
    HyperVisorDebug,
    /// Only for debugging purposes.
    HDebug,
    /// Init ring 0 shim.
    HInitShim,
    /// Create a new instance, pass the raw binary/executable file by shared pages.
    HCreateInstance,
    /// Setup a instance, this is called by the instance when it is created and loaded.
    HSetupInstance,
    /// Exit from a insance process.
    HExitProcess,
    /// Exit from a instance, this is called by the instance when the last process in the instance exits.
    HShutdownInstance,
    /// Allocate a memory region for the instance.
    /// This is called by the instance when it needs to extends its memory region.
    HAllocMMRegion,
    /// Refer to `shmget` syscall <https://man7.org/linux/man-pages/man2/shmget.2.html>
    /// this is used to get a shared memory region.
    /// It may be used either to obtain the identifier of a previously created
    /// shared memory segment (when shmflg is zero and key does not have
    /// the value IPC_PRIVATE), or to create a new set.
    /// It will return the base address and size of the shared memory region.
    HIVCGet,
    /// Refer to `shmdt` syscall, <https://man7.org/linux/man-pages/man3/shmdt.3p.html>
    /// this is used to unsubscribe from a shared memory region.
    HIVCDt,
    /// Refer to `shmat` syscall, <https://man7.org/linux/man-pages/man2/shmat.2.html>
    /// this is used to attach a shared memory region to the current instance.
    HIVCSHMAt,
    /// Clear all guest memory areas,
    /// I know this HVC seems strange, the thing is, we prepare a early-stage `eqloader`
    /// in guest address space as a user-space executor, when the instance starts running,
    /// the pre-loader `eqloader` is useless and should be cleared, because it will take up
    /// the guest memory space and the mapping is not known by the `EqAddrSpace` in `ProcessInnerRegion`.
    /// So we use this hypercall to notify the hypervisor that the loading is done and
    /// the pre-loader should be cleared.
    /// Generally, this HVC is triggered by `shim` in the first `brk` syscall.
    HClearGuestAreas,
    /// Notify the hypervisor to boot a microVM instance.
    HMicroVMBoot,
    /// Inject an IRQ event into a running microVM from host side.
    /// arg0: instance_id, arg1: msix_index.
    HMicroVMInjectIrq,
    /// Query the host-side posted-interrupt route for a MicroVM MSI-X entry.
    /// arg0: host physical address of EqMicroVmIrqRouteQuery.
    HMicroVMQueryIrqRoute,
    /// Start a secondary vCPU inside the currently running microVM.
    /// arg0: guest vCPU id, arg1: guest physical 64-bit entry point.
    HMicroVMStartVcpu,
    /// Send a PV IPI to a vCPU inside the currently running microVM.
    /// arg0: guest vCPU id, arg1: interrupt vector.
    HMicroVMSendIpi,
    /// Set the desired online vCPU count for a MicroVM from host side.
    /// arg0: instance_id, arg1: desired vCPU count.
    HMicroVMSetVcpuCount,
    /// Query vCPU limits from inside the currently running MicroVM.
    /// Returns: low 32 bits desired vCPU count, high 32 bits max vCPU count.
    HMicroVMGetVcpuCount,
    /// Notify EqVisor that eqgate consumed a host VFIO mailbox vector in non-root.
    /// arg0: notification vector, arg1: gate-side consume count.
    HMicroVMDrainVfioMailbox,
    /// Register an eqLinux LLFree/HyperAlloc zone metadata page range.
    /// arg0: guest physical address of EqHyperAllocRegisterZoneReq.
    HMicroVMHyperAllocRegisterZone,
    /// Install a previously reclaimed 2 MiB HyperAlloc frame before guest allocation returns it.
    /// arg0: guest physical address of EqHyperAllocInstallReq.
    HMicroVMHyperAllocInstall,
    /// Notify EqVisor that eqLinux finished a pagecache drop/shrink pass.
    /// arg0: dropped huge-frame count, arg1: remaining file huge-frame count.
    HMicroVMHyperAllocNotifyPagecacheDropped,
    /// Query HyperAlloc capability/state for the current microVM.
    /// arg0: guest physical address of EqHyperAllocQuery.
    HMicroVMHyperAllocQuery,
    /// Poll a pending HyperAlloc VFIO DMA map/unmap request from host-side axcli.
    /// arg0: host physical address of EqHyperAllocVfioDmaOp.
    HMicroVMHyperAllocVfioDmaPoll,
    /// Complete a HyperAlloc VFIO DMA request after host-side axcli executed VFIO ioctl.
    /// arg0: host physical address of EqHyperAllocVfioDmaOp.
    HMicroVMHyperAllocVfioDmaComplete,
    /// Debug-only logical hard reclaim/return smoke path.
    /// arg0: frame_gpa, arg1: zone_id.
    HMicroVMHyperAllocDebugReclaim,
    /// Poll a pending EqVisor pagecache shrink request from eqLinux.
    /// arg0: guest physical address of EqHyperAllocPagecacheShrinkReq.
    HMicroVMHyperAllocPagecacheShrinkReq,
    /// Copy microVM guest RAM through EqVisor on behalf of a host-side userspace backend.
    /// arg0: host physical address of EqMicroVmGuestMemCopy.
    HMicroVMGuestMemCopy,
    /// Update EqVisor's host-side microVM guest RAM mmap diagnostic state.
    /// arg0: host physical address of EqMicroVmGuestRamMmapStateUpdate.
    HMicroVMGuestRamMmapStateUpdate,
    /// Set a host-side HyperAlloc memory target request for a microVM.
    /// arg0: instance_id, arg1: host physical address of EqHyperAllocPagecacheShrinkReq.
    HMicroVMHyperAllocMemoryTarget,
    /// Query HyperAlloc state for a microVM from host side.
    /// arg0: instance_id, arg1: host physical address of EqHyperAllocQuery.
    HMicroVMHyperAllocHostQuery,
    /// Debug-only request injection for a HyperAlloc VFIO DMA map/unmap op.
    /// arg0: instance_id, arg1: host physical address of EqHyperAllocVfioDmaOp.
    HMicroVMHyperAllocVfioDmaDebugRequest,
    /// Host-side manual drain for EqGate HyperAlloc install batches.
    /// arg0: instance_id, arg1: host physical address of EqHyperAllocEqGateDrainReq.
    HMicroVMHyperAllocEqGateDrain,
    /// Host-side debug enqueue into EqGate HyperAlloc install batches.
    /// arg0: instance_id, arg1: host physical address of EqHyperAllocEqGateDebugEnqueueReq.
    HMicroVMHyperAllocEqGateDebugEnqueue,
    /// Guest-side enqueue into EqGate HyperAlloc install batches.
    /// arg0: guest physical address of EqHyperAllocEqGateEnqueueReq.
    HMicroVMHyperAllocEqGateEnqueue,
    /// Translate current microVM guest RAM GPA to HPA for host-side mmap faults.
    /// arg0: host physical address of EqMicroVmGuestRamTranslate.
    HMicroVMGuestRamTranslate,
    /// Poll a pending host-side guest RAM VMA zap request.
    /// arg0: host physical address of EqMicroVmGuestRamMmapZapOp.
    HMicroVMGuestRamMmapZapPoll,
    /// Complete a host-side guest RAM VMA zap request.
    /// arg0: host physical address of EqMicroVmGuestRamMmapZapOp.
    HMicroVMGuestRamMmapZapComplete,
    /// Explicitly remove a stopped non-VFIO MicroVM from EqVisor host state.
    /// arg0: instance_id.
    HMicroVMRemove,
    /// Ask EqVisor to park a MicroVM in EqGate before the host removes or cleans it up.
    /// arg0: instance_id.
    HMicroVMStop,
    /// Ask the current EqGate pCPU to exit so root can synchronize its
    /// Gate EPT alias generation before the next scheduler dequeue.
    /// arg0: requested Gate EPT alias generation.
    HMicroVMGateEptSync,
    /// Batch logical HyperAlloc reclaim.  The guest supplies ranges that
    /// were aggregated from LLFree allocator metadata; EqVisor unmaps
    /// each contiguous range once and reconciles every huge frame.
    /// arg0: guest physical address of EqHyperAllocDebugReclaimBatchReq.
    HMicroVMHyperAllocDebugReclaimBatch,
    /// Debug-only deterministic two-vCPU race for one READY registry GPA.
    /// arg0: frame_gpa, arg1: barrier target (2=arm, 0=query/disarm).
    HMicroVMHyperAllocDebugRegistryRace,
    /// Synchronous host-side LLFree metadata scan/resize.
    /// arg0: guest physical address of EqHyperAllocResizeReq.
    HMicroVMHyperAllocResize,
    /// Only for debugging purposes, console read.
    HRead,
    /// Only for debugging purposes, console write.
    HWrite,
    /// Duplicate current gaddrspace to a new one, return its EPTP list index.
    HDupGas,
    /// Just a benchmark hypercall for VM call overhead measurement.
    HBenchVMCall,
    /// Just a benchmark hypercall for EPT mmap overhead measurement.
    HBenchEPTMmap,
    /// Just a benchmark hypercall for EPT munmap overhead measurement.
    HBenchEPTMUnmap,
}

impl HyperCallCode {
    /// The number that encodes the hypercall.
    pub open spec fn spec_code(self) -> u32 {
        match self {
            HyperCallCode::HypervisorDisable => 0x0000_0000,
            HyperCallCode::HyperVisorPrepareDisable => 0x0000_0001,
            HyperCallCode::HyperVisorDebug => 0x0000_0002,
            HyperCallCode::HDebug => 0xe000_0000,
            HyperCallCode::HInitShim => 0xe000_0001,
            HyperCallCode::HCreateInstance => 0xe000_0002,
            HyperCallCode::HSetupInstance => 0xe000_0004,
            HyperCallCode::HExitProcess => 0xe000_0005,
            HyperCallCode::HShutdownInstance => 0xe000_0006,
            HyperCallCode::HAllocMMRegion => 0xe000_0007,
            HyperCallCode::HIVCGet => 0xe000_0008,
            HyperCallCode::HIVCDt => 0xe000_0009,
            HyperCallCode::HIVCSHMAt => 0xe000_000a,
            HyperCallCode::HClearGuestAreas => 0xe000_000b,
            HyperCallCode::HMicroVMBoot => 0xe000_0020,
            HyperCallCode::HMicroVMInjectIrq => 0xe000_0021,
            HyperCallCode::HMicroVMQueryIrqRoute => 0xe000_0022,
            HyperCallCode::HMicroVMStartVcpu => 0xe000_0023,
            HyperCallCode::HMicroVMSendIpi => 0xe000_0024,
            HyperCallCode::HMicroVMSetVcpuCount => 0xe000_0025,
            HyperCallCode::HMicroVMGetVcpuCount => 0xe000_0026,
            HyperCallCode::HMicroVMDrainVfioMailbox => 0xe000_0027,
            HyperCallCode::HMicroVMHyperAllocRegisterZone => 0xe000_0028,
            HyperCallCode::HMicroVMHyperAllocInstall => 0xe000_0029,
            HyperCallCode::HMicroVMHyperAllocNotifyPagecacheDropped => 0xe000_002a,
            HyperCallCode::HMicroVMHyperAllocQuery => 0xe000_002b,
            HyperCallCode::HMicroVMHyperAllocVfioDmaPoll => 0xe000_002c,
            HyperCallCode::HMicroVMHyperAllocVfioDmaComplete => 0xe000_002d,
            HyperCallCode::HMicroVMHyperAllocDebugReclaim => 0xe000_002e,
            HyperCallCode::HMicroVMHyperAllocPagecacheShrinkReq => 0xe000_002f,
            HyperCallCode::HMicroVMGuestMemCopy => 0xe000_0032,
            HyperCallCode::HMicroVMGuestRamMmapStateUpdate => 0xe000_0033,
            HyperCallCode::HMicroVMHyperAllocMemoryTarget => 0xe000_0034,
            HyperCallCode::HMicroVMHyperAllocHostQuery => 0xe000_0035,
            HyperCallCode::HMicroVMHyperAllocVfioDmaDebugRequest => 0xe000_0036,
            HyperCallCode::HMicroVMHyperAllocEqGateDrain => 0xe000_0037,
            HyperCallCode::HMicroVMHyperAllocEqGateDebugEnqueue => 0xe000_0038,
            HyperCallCode::HMicroVMHyperAllocEqGateEnqueue => 0xe000_0039,
            HyperCallCode::HMicroVMGuestRamTranslate => 0xe000_003a,
            HyperCallCode::HMicroVMGuestRamMmapZapPoll => 0xe000_003b,
            HyperCallCode::HMicroVMGuestRamMmapZapComplete => 0xe000_003c,
            HyperCallCode::HMicroVMRemove => 0xe000_003d,
            HyperCallCode::HMicroVMStop => 0xe000_003e,
            HyperCallCode::HMicroVMGateEptSync => 0xe000_003f,
            HyperCallCode::HMicroVMHyperAllocDebugReclaimBatch => 0xe000_0040,
            HyperCallCode::HMicroVMHyperAllocDebugRegistryRace => 0xe000_0041,
            HyperCallCode::HMicroVMHyperAllocResize => 0xe000_0042,
            HyperCallCode::HRead => 0xe000_0011,
            HyperCallCode::HWrite => 0xe000_0012,
            HyperCallCode::HDupGas => 0xe000_0013,
            HyperCallCode::HBenchVMCall => 0xe000_00ff,
            HyperCallCode::HBenchEPTMmap => 0xe000_00fe,
            HyperCallCode::HBenchEPTMUnmap => 0xe000_00fd,
        }
    }

    /// The number that encodes the hypercall.
    #[verifier::when_used_as_spec(spec_code)]
    pub fn code(self) -> (r: u32)
        ensures
            r == self.spec_code(),
    {
        match self {
            HyperCallCode::HypervisorDisable => 0x0000_0000,
            HyperCallCode::HyperVisorPrepareDisable => 0x0000_0001,
            HyperCallCode::HyperVisorDebug => 0x0000_0002,
            HyperCallCode::HDebug => 0xe000_0000,
            HyperCallCode::HInitShim => 0xe000_0001,
            HyperCallCode::HCreateInstance => 0xe000_0002,
            HyperCallCode::HSetupInstance => 0xe000_0004,
            HyperCallCode::HExitProcess => 0xe000_0005,
            HyperCallCode::HShutdownInstance => 0xe000_0006,
            HyperCallCode::HAllocMMRegion => 0xe000_0007,
            HyperCallCode::HIVCGet => 0xe000_0008,
            HyperCallCode::HIVCDt => 0xe000_0009,
            HyperCallCode::HIVCSHMAt => 0xe000_000a,
            HyperCallCode::HClearGuestAreas => 0xe000_000b,
            HyperCallCode::HMicroVMBoot => 0xe000_0020,
            HyperCallCode::HMicroVMInjectIrq => 0xe000_0021,
            HyperCallCode::HMicroVMQueryIrqRoute => 0xe000_0022,
            HyperCallCode::HMicroVMStartVcpu => 0xe000_0023,
            HyperCallCode::HMicroVMSendIpi => 0xe000_0024,
            HyperCallCode::HMicroVMSetVcpuCount => 0xe000_0025,
            HyperCallCode::HMicroVMGetVcpuCount => 0xe000_0026,
            HyperCallCode::HMicroVMDrainVfioMailbox => 0xe000_0027,
            HyperCallCode::HMicroVMHyperAllocRegisterZone => 0xe000_0028,
            HyperCallCode::HMicroVMHyperAllocInstall => 0xe000_0029,
            HyperCallCode::HMicroVMHyperAllocNotifyPagecacheDropped => 0xe000_002a,
            HyperCallCode::HMicroVMHyperAllocQuery => 0xe000_002b,
            HyperCallCode::HMicroVMHyperAllocVfioDmaPoll => 0xe000_002c,
            HyperCallCode::HMicroVMHyperAllocVfioDmaComplete => 0xe000_002d,
            HyperCallCode::HMicroVMHyperAllocDebugReclaim => 0xe000_002e,
            HyperCallCode::HMicroVMHyperAllocPagecacheShrinkReq => 0xe000_002f,
            HyperCallCode::HMicroVMGuestMemCopy => 0xe000_0032,
            HyperCallCode::HMicroVMGuestRamMmapStateUpdate => 0xe000_0033,
            HyperCallCode::HMicroVMHyperAllocMemoryTarget => 0xe000_0034,
            HyperCallCode::HMicroVMHyperAllocHostQuery => 0xe000_0035,
            HyperCallCode::HMicroVMHyperAllocVfioDmaDebugRequest => 0xe000_0036,
            HyperCallCode::HMicroVMHyperAllocEqGateDrain => 0xe000_0037,
            HyperCallCode::HMicroVMHyperAllocEqGateDebugEnqueue => 0xe000_0038,
            HyperCallCode::HMicroVMHyperAllocEqGateEnqueue => 0xe000_0039,
            HyperCallCode::HMicroVMGuestRamTranslate => 0xe000_003a,
            HyperCallCode::HMicroVMGuestRamMmapZapPoll => 0xe000_003b,
            HyperCallCode::HMicroVMGuestRamMmapZapComplete => 0xe000_003c,
            HyperCallCode::HMicroVMRemove => 0xe000_003d,
            HyperCallCode::HMicroVMStop => 0xe000_003e,
            HyperCallCode::HMicroVMGateEptSync => 0xe000_003f,
            HyperCallCode::HMicroVMHyperAllocDebugReclaimBatch => 0xe000_0040,
            HyperCallCode::HMicroVMHyperAllocDebugRegistryRace => 0xe000_0041,
            HyperCallCode::HMicroVMHyperAllocResize => 0xe000_0042,
            HyperCallCode::HRead => 0xe000_0011,
            HyperCallCode::HWrite => 0xe000_0012,
            HyperCallCode::HDupGas => 0xe000_0013,
            HyperCallCode::HBenchVMCall => 0xe000_00ff,
            HyperCallCode::HBenchEPTMmap => 0xe000_00fe,
            HyperCallCode::HBenchEPTMUnmap => 0xe000_00fd,
        }
    }

    /// The hypercall that `value` encodes, if any does.
    pub open spec fn spec_from_code(value: u32) -> Option<HyperCallCode> {
        match value {
            0x0000_0000 => Some(HyperCallCode::HypervisorDisable),
            0x0000_0001 => Some(HyperCallCode::HyperVisorPrepareDisable),
            0x0000_0002 => Some(HyperCallCode::HyperVisorDebug),
            0xe000_0000 => Some(HyperCallCode::HDebug),
            0xe000_0001 => Some(HyperCallCode::HInitShim),
            0xe000_0002 => Some(HyperCallCode::HCreateInstance),
            0xe000_0004 => Some(HyperCallCode::HSetupInstance),
            0xe000_0005 => Some(HyperCallCode::HExitProcess),
            0xe000_0006 => Some(HyperCallCode::HShutdownInstance),
            0xe000_0007 => Some(HyperCallCode::HAllocMMRegion),
            0xe000_0008 => Some(HyperCallCode::HIVCGet),
            0xe000_0009 => Some(HyperCallCode::HIVCDt),
            0xe000_000a => Some(HyperCallCode::HIVCSHMAt),
            0xe000_000b => Some(HyperCallCode::HClearGuestAreas),
            0xe000_0020 => Some(HyperCallCode::HMicroVMBoot),
            0xe000_0021 => Some(HyperCallCode::HMicroVMInjectIrq),
            0xe000_0022 => Some(HyperCallCode::HMicroVMQueryIrqRoute),
            0xe000_0023 => Some(HyperCallCode::HMicroVMStartVcpu),
            0xe000_0024 => Some(HyperCallCode::HMicroVMSendIpi),
            0xe000_0025 => Some(HyperCallCode::HMicroVMSetVcpuCount),
            0xe000_0026 => Some(HyperCallCode::HMicroVMGetVcpuCount),
            0xe000_0027 => Some(HyperCallCode::HMicroVMDrainVfioMailbox),
            0xe000_0028 => Some(HyperCallCode::HMicroVMHyperAllocRegisterZone),
            0xe000_0029 => Some(HyperCallCode::HMicroVMHyperAllocInstall),
            0xe000_002a => Some(HyperCallCode::HMicroVMHyperAllocNotifyPagecacheDropped),
            0xe000_002b => Some(HyperCallCode::HMicroVMHyperAllocQuery),
            0xe000_002c => Some(HyperCallCode::HMicroVMHyperAllocVfioDmaPoll),
            0xe000_002d => Some(HyperCallCode::HMicroVMHyperAllocVfioDmaComplete),
            0xe000_002e => Some(HyperCallCode::HMicroVMHyperAllocDebugReclaim),
            0xe000_002f => Some(HyperCallCode::HMicroVMHyperAllocPagecacheShrinkReq),
            0xe000_0032 => Some(HyperCallCode::HMicroVMGuestMemCopy),
            0xe000_0033 => Some(HyperCallCode::HMicroVMGuestRamMmapStateUpdate),
            0xe000_0034 => Some(HyperCallCode::HMicroVMHyperAllocMemoryTarget),
            0xe000_0035 => Some(HyperCallCode::HMicroVMHyperAllocHostQuery),
            0xe000_0036 => Some(HyperCallCode::HMicroVMHyperAllocVfioDmaDebugRequest),
            0xe000_0037 => Some(HyperCallCode::HMicroVMHyperAllocEqGateDrain),
            0xe000_0038 => Some(HyperCallCode::HMicroVMHyperAllocEqGateDebugEnqueue),
            0xe000_0039 => Some(HyperCallCode::HMicroVMHyperAllocEqGateEnqueue),
            0xe000_003a => Some(HyperCallCode::HMicroVMGuestRamTranslate),
            0xe000_003b => Some(HyperCallCode::HMicroVMGuestRamMmapZapPoll),
            0xe000_003c => Some(HyperCallCode::HMicroVMGuestRamMmapZapComplete),
            0xe000_003d => Some(HyperCallCode::HMicroVMRemove),
            0xe000_003e => Some(HyperCallCode::HMicroVMStop),
            0xe000_003f => Some(HyperCallCode::HMicroVMGateEptSync),
            0xe000_0040 => Some(HyperCallCode::HMicroVMHyperAllocDebugReclaimBatch),
            0xe000_0041 => Some(HyperCallCode::HMicroVMHyperAllocDebugRegistryRace),
            0xe000_0042 => Some(HyperCallCode::HMicroVMHyperAllocResize),
            0xe000_0011 => Some(HyperCallCode::HRead),
            0xe000_0012 => Some(HyperCallCode::HWrite),
            0xe000_0013 => Some(HyperCallCode::HDupGas),
            0xe000_00ff => Some(HyperCallCode::HBenchVMCall),
            0xe000_00fe => Some(HyperCallCode::HBenchEPTMmap),
            0xe000_00fd => Some(HyperCallCode::HBenchEPTMUnmap),
            _ => None,
        }
    }

    /// Whether the hypercall is one of the privileged ones: those whose code
    /// has bits 29 to 31 all clear.
    pub fn is_privileged(self) -> (r: bool)
        ensures
            r == (bit_range(self.spec_code(), 29, 32) == 0),
            r == (self.spec_code() & HYPER_CALL_CODE_PRIVILEGED_MASK == 0),
            r == (self.spec_code() < 0x2000_0000),
    {
        let bits = u32_get_bits(self.code(), 29, 32);
        proof {
            lemma2_to64();
            let v = self.spec_code();
            assert(v & 0xe000_0000u32 == 0 <==> v < 0x2000_0000u32) by (bit_vector);
            let q: int = v as int / 0x2000_0000;
            assert(0 <= q < 8);
            assert(bit_range(v, 29, 32) == q % 8);
            assert(q % 8 == q) by (nonlinear_arith)
                requires
                    0 <= q < 8,
            ;
            assert(q == 0 <==> v < 0x2000_0000);
        }
        bits == 0
    }
}

impl core::convert::From<HyperCallCode> for u32 {
    fn from(value: HyperCallCode) -> (r: u32) {
        value.code()
    }
}

impl vstd::std_specs::convert::FromSpecImpl<HyperCallCode> for u32 {
    open spec fn obeys_from_spec() -> bool {
        true
    }

    open spec fn from_spec(v: HyperCallCode) -> u32 {
        v.spec_code()
    }
}

impl core::convert::TryFrom<u32> for HyperCallCode {
    type Error = u32;

    fn try_from(value: u32) -> (r: Result<HyperCallCode, u32>) {
        match value {
            0x0000_0000 => Ok(HyperCallCode::HypervisorDisable),
            0x0000_0001 => Ok(HyperCallCode::HyperVisorPrepareDisable),
            0x0000_0002 => Ok(HyperCallCode::HyperVisorDebug),
            0xe000_0000 => Ok(HyperCallCode::HDebug),
            0xe000_0001 => Ok(HyperCallCode::HInitShim),
            0xe000_0002 => Ok(HyperCallCode::HCreateInstance),
            0xe000_0004 => Ok(HyperCallCode::HSetupInstance),
            0xe000_0005 => Ok(HyperCallCode::HExitProcess),
            0xe000_0006 => Ok(HyperCallCode::HShutdownInstance),
            0xe000_0007 => Ok(HyperCallCode::HAllocMMRegion),
            0xe000_0008 => Ok(HyperCallCode::HIVCGet),
            0xe000_0009 => Ok(HyperCallCode::HIVCDt),
            0xe000_000a => Ok(HyperCallCode::HIVCSHMAt),
            0xe000_000b => Ok(HyperCallCode::HClearGuestAreas),
            0xe000_0020 => Ok(HyperCallCode::HMicroVMBoot),
            0xe000_0021 => Ok(HyperCallCode::HMicroVMInjectIrq),
            0xe000_0022 => Ok(HyperCallCode::HMicroVMQueryIrqRoute),
            0xe000_0023 => Ok(HyperCallCode::HMicroVMStartVcpu),
            0xe000_0024 => Ok(HyperCallCode::HMicroVMSendIpi),
            0xe000_0025 => Ok(HyperCallCode::HMicroVMSetVcpuCount),
            0xe000_0026 => Ok(HyperCallCode::HMicroVMGetVcpuCount),
            0xe000_0027 => Ok(HyperCallCode::HMicroVMDrainVfioMailbox),
            0xe000_0028 => Ok(HyperCallCode::HMicroVMHyperAllocRegisterZone),
            0xe000_0029 => Ok(HyperCallCode::HMicroVMHyperAllocInstall),
            0xe000_002a => Ok(HyperCallCode::HMicroVMHyperAllocNotifyPagecacheDropped),
            0xe000_002b => Ok(HyperCallCode::HMicroVMHyperAllocQuery),
            0xe000_002c => Ok(HyperCallCode::HMicroVMHyperAllocVfioDmaPoll),
            0xe000_002d => Ok(HyperCallCode::HMicroVMHyperAllocVfioDmaComplete),
            0xe000_002e => Ok(HyperCallCode::HMicroVMHyperAllocDebugReclaim),
            0xe000_002f => Ok(HyperCallCode::HMicroVMHyperAllocPagecacheShrinkReq),
            0xe000_0032 => Ok(HyperCallCode::HMicroVMGuestMemCopy),
            0xe000_0033 => Ok(HyperCallCode::HMicroVMGuestRamMmapStateUpdate),
            0xe000_0034 => Ok(HyperCallCode::HMicroVMHyperAllocMemoryTarget),
            0xe000_0035 => Ok(HyperCallCode::HMicroVMHyperAllocHostQuery),
            0xe000_0036 => Ok(HyperCallCode::HMicroVMHyperAllocVfioDmaDebugRequest),
            0xe000_0037 => Ok(HyperCallCode::HMicroVMHyperAllocEqGateDrain),
            0xe000_0038 => Ok(HyperCallCode::HMicroVMHyperAllocEqGateDebugEnqueue),
            0xe000_0039 => Ok(HyperCallCode::HMicroVMHyperAllocEqGateEnqueue),
            0xe000_003a => Ok(HyperCallCode::HMicroVMGuestRamTranslate),
            0xe000_003b => Ok(HyperCallCode::HMicroVMGuestRamMmapZapPoll),
            0xe000_003c => Ok(HyperCallCode::HMicroVMGuestRamMmapZapComplete),
            0xe000_003d => Ok(HyperCallCode::HMicroVMRemove),
            0xe000_003e => Ok(HyperCallCode::HMicroVMStop),
            0xe000_003f => Ok(HyperCallCode::HMicroVMGateEptSync),
            0xe000_0040 => Ok(HyperCallCode::HMicroVMHyperAllocDebugReclaimBatch),
            0xe000_0041 => Ok(HyperCallCode::HMicroVMHyperAllocDebugRegistryRace),
            0xe000_0042 => Ok(HyperCallCode::HMicroVMHyperAllocResize),
            0xe000_0011 => Ok(HyperCallCode::HRead),
            0xe000_0012 => Ok(HyperCallCode::HWrite),
            0xe000_0013 => Ok(HyperCallCode::HDupGas),
            0xe000_00ff => Ok(HyperCallCode::HBenchVMCall),
            0xe000_00fe => Ok(HyperCallCode::HBenchEPTMmap),
            0xe000_00fd => Ok(HyperCallCode::HBenchEPTMUnmap),
            _ => Err(value),
        }
    }
}

impl vstd::std_specs::convert::TryFromSpecImpl<u32> for HyperCallCode {
    open spec fn obeys_try_from_spec() -> bool {
        true
    }

    open spec fn try_from_spec(v: u32) -> Result<HyperCallCode, u32> {
        match HyperCallCode::spec_from_code(v) {
            Some(c) => Ok(c),
            None => Err(v),
        }
    }
}

/// Decoding the number of a hypercall gives that hypercall back: `try_from`
/// undoes `u32::from`.
pub proof fn lemma_code_round_trip(c: HyperCallCode)
    ensures
        HyperCallCode::spec_from_code(c.spec_code()) == Some(c),
        <HyperCallCode as TryFromSpec<u32>>::try_from_spec(
            <u32 as FromSpec<HyperCallCode>>::from_spec(c),
        ) == Ok::<HyperCallCode, u32>(c),
{
}

/// A number that decodes to a hypercall is that hypercall's code; a number
/// that decodes to none is the code of no hypercall, and comes back unchanged
/// as the error.
pub proof fn lemma_decode_matches_encode(value: u32)
    ensures
        match <HyperCallCode as TryFromSpec<u32>>::try_from_spec(value) {
            Ok(c) => <u32 as FromSpec<HyperCallCode>>::from_spec(c) == value,
            Err(e) => e == value && forall|c: HyperCallCode| #[trigger] c.spec_code() != value,
        },
{
    if HyperCallCode::spec_from_code(value) is None {
        assert forall|c: HyperCallCode| #[trigger] c.spec_code() != value by {
            lemma_code_round_trip(c);
        }
    }
}

/// Distinct hypercalls have distinct codes.
pub proof fn lemma_code_injective(a: HyperCallCode, b: HyperCallCode)
    ensures
        a.spec_code() == b.spec_code() ==> a == b,
{
    lemma_code_round_trip(a);
    lemma_code_round_trip(b);
}

/// A code carries either none of the mask bits or all of them, and only the
/// first three hypercalls carry none.
pub proof fn lemma_mask_all_or_none(c: HyperCallCode)
    ensures
        c.spec_code() & HYPER_CALL_CODE_PRIVILEGED_MASK == 0 || c.spec_code()
            & HYPER_CALL_CODE_PRIVILEGED_MASK == HYPER_CALL_CODE_PRIVILEGED_MASK,
        c.spec_code() & HYPER_CALL_CODE_PRIVILEGED_MASK == 0 <==> (c == HyperCallCode::HypervisorDisable
            || c == HyperCallCode::HyperVisorPrepareDisable || c == HyperCallCode::HyperVisorDebug),
{
    let v = c.spec_code();
    assert(v & 0xe000_0000u32 == 0 <==> v < 0x2000_0000u32) by (bit_vector);
    assert(0xe000_0000u32 <= v ==> v & 0xe000_0000u32 == 0xe000_0000u32) by (bit_vector);
}

} // verus!
