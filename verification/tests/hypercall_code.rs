use hypercall::{HyperCallCode, HYPER_CALL_CODE_PRIVILEGED_MASK};
use std::convert::TryFrom;

const ALL: [(HyperCallCode, u32, &str); 53] = [
    (HyperCallCode::HypervisorDisable, 0x0000_0000, "HypervisorDisable"),
    (HyperCallCode::HyperVisorPrepareDisable, 0x0000_0001, "HyperVisorPrepareDisable"),
    (HyperCallCode::HyperVisorDebug, 0x0000_0002, "HyperVisorDebug"),
    (HyperCallCode::HDebug, 0xe000_0000, "HDebug"),
    (HyperCallCode::HInitShim, 0xe000_0001, "HInitShim"),
    (HyperCallCode::HCreateInstance, 0xe000_0002, "HCreateInstance"),
    (HyperCallCode::HSetupInstance, 0xe000_0004, "HSetupInstance"),
    (HyperCallCode::HExitProcess, 0xe000_0005, "HExitProcess"),
    (HyperCallCode::HShutdownInstance, 0xe000_0006, "HShutdownInstance"),
    (HyperCallCode::HAllocMMRegion, 0xe000_0007, "HAllocMMRegion"),
    (HyperCallCode::HIVCGet, 0xe000_0008, "HIVCGet"),
    (HyperCallCode::HIVCDt, 0xe000_0009, "HIVCDt"),
    (HyperCallCode::HIVCSHMAt, 0xe000_000a, "HIVCSHMAt"),
    (HyperCallCode::HClearGuestAreas, 0xe000_000b, "HClearGuestAreas"),
    (HyperCallCode::HMicroVMBoot, 0xe000_0020, "HMicroVMBoot"),
    (HyperCallCode::HMicroVMInjectIrq, 0xe000_0021, "HMicroVMInjectIrq"),
    (HyperCallCode::HMicroVMQueryIrqRoute, 0xe000_0022, "HMicroVMQueryIrqRoute"),
    (HyperCallCode::HMicroVMStartVcpu, 0xe000_0023, "HMicroVMStartVcpu"),
    (HyperCallCode::HMicroVMSendIpi, 0xe000_0024, "HMicroVMSendIpi"),
    (HyperCallCode::HMicroVMSetVcpuCount, 0xe000_0025, "HMicroVMSetVcpuCount"),
    (HyperCallCode::HMicroVMGetVcpuCount, 0xe000_0026, "HMicroVMGetVcpuCount"),
    (HyperCallCode::HMicroVMDrainVfioMailbox, 0xe000_0027, "HMicroVMDrainVfioMailbox"),
    (HyperCallCode::HMicroVMHyperAllocRegisterZone, 0xe000_0028, "HMicroVMHyperAllocRegisterZone"),
    (HyperCallCode::HMicroVMHyperAllocInstall, 0xe000_0029, "HMicroVMHyperAllocInstall"),
    (HyperCallCode::HMicroVMHyperAllocNotifyPagecacheDropped, 0xe000_002a, "HMicroVMHyperAllocNotifyPagecacheDropped"),
    (HyperCallCode::HMicroVMHyperAllocQuery, 0xe000_002b, "HMicroVMHyperAllocQuery"),
    (HyperCallCode::HMicroVMHyperAllocVfioDmaPoll, 0xe000_002c, "HMicroVMHyperAllocVfioDmaPoll"),
    (HyperCallCode::HMicroVMHyperAllocVfioDmaComplete, 0xe000_002d, "HMicroVMHyperAllocVfioDmaComplete"),
    (HyperCallCode::HMicroVMHyperAllocDebugReclaim, 0xe000_002e, "HMicroVMHyperAllocDebugReclaim"),
    (HyperCallCode::HMicroVMHyperAllocPagecacheShrinkReq, 0xe000_002f, "HMicroVMHyperAllocPagecacheShrinkReq"),
    (HyperCallCode::HMicroVMGuestMemCopy, 0xe000_0032, "HMicroVMGuestMemCopy"),
    (HyperCallCode::HMicroVMGuestRamMmapStateUpdate, 0xe000_0033, "HMicroVMGuestRamMmapStateUpdate"),
    (HyperCallCode::HMicroVMHyperAllocMemoryTarget, 0xe000_0034, "HMicroVMHyperAllocMemoryTarget"),
    (HyperCallCode::HMicroVMHyperAllocHostQuery, 0xe000_0035, "HMicroVMHyperAllocHostQuery"),
    (HyperCallCode::HMicroVMHyperAllocVfioDmaDebugRequest, 0xe000_0036, "HMicroVMHyperAllocVfioDmaDebugRequest"),
    (HyperCallCode::HMicroVMHyperAllocEqGateDrain, 0xe000_0037, "HMicroVMHyperAllocEqGateDrain"),
    (HyperCallCode::HMicroVMHyperAllocEqGateDebugEnqueue, 0xe000_0038, "HMicroVMHyperAllocEqGateDebugEnqueue"),
    (HyperCallCode::HMicroVMHyperAllocEqGateEnqueue, 0xe000_0039, "HMicroVMHyperAllocEqGateEnqueue"),
    (HyperCallCode::HMicroVMGuestRamTranslate, 0xe000_003a, "HMicroVMGuestRamTranslate"),
    (HyperCallCode::HMicroVMGuestRamMmapZapPoll, 0xe000_003b, "HMicroVMGuestRamMmapZapPoll"),
    (HyperCallCode::HMicroVMGuestRamMmapZapComplete, 0xe000_003c, "HMicroVMGuestRamMmapZapComplete"),
    (HyperCallCode::HMicroVMRemove, 0xe000_003d, "HMicroVMRemove"),
    (HyperCallCode::HMicroVMStop, 0xe000_003e, "HMicroVMStop"),
    (HyperCallCode::HMicroVMGateEptSync, 0xe000_003f, "HMicroVMGateEptSync"),
    (HyperCallCode::HMicroVMHyperAllocDebugReclaimBatch, 0xe000_0040, "HMicroVMHyperAllocDebugReclaimBatch"),
    (HyperCallCode::HMicroVMHyperAllocDebugRegistryRace, 0xe000_0041, "HMicroVMHyperAllocDebugRegistryRace"),
    (HyperCallCode::HMicroVMHyperAllocResize, 0xe000_0042, "HMicroVMHyperAllocResize"),
    (HyperCallCode::HRead, 0xe000_0011, "HRead"),
    (HyperCallCode::HWrite, 0xe000_0012, "HWrite"),
    (HyperCallCode::HDupGas, 0xe000_0013, "HDupGas"),
    (HyperCallCode::HBenchVMCall, 0xe000_00ff, "HBenchVMCall"),
    (HyperCallCode::HBenchEPTMmap, 0xe000_00fe, "HBenchEPTMmap"),
    (HyperCallCode::HBenchEPTMUnmap, 0xe000_00fd, "HBenchEPTMUnmap"),
];

#[test]
fn code_of_each_hypercall() {
    for (c, v, _) in ALL.iter() {
        assert!(u32::from(*c) == *v);
        assert!(c.code() == *v);
    }
    assert_eq!(u32::from(HyperCallCode::HDebug), 0xe000_0000);
    assert_eq!(u32::from(HyperCallCode::HMicroVMHyperAllocResize), 0xe000_0042);
    assert_eq!(u32::from(HyperCallCode::HBenchVMCall), 0xe000_00ff);
}

#[test]
fn try_from_round_trip() {
    for (c, v, _) in ALL.iter() {
        assert!(HyperCallCode::try_from(*v) == Ok(*c));
        assert!(HyperCallCode::try_from(u32::from(*c)) == Ok(*c));
    }
}

#[test]
fn try_from_unknown_number_is_returned() {
    for v in [
        3u32,
        0x2000_0000,
        0xe000_0003,
        0xe000_000c,
        0xe000_0010,
        0xe000_0030,
        0xe000_0031,
        0xe000_0043,
        0xe000_00fc,
        0x6000_0000,
        0xffff_ffff,
        HYPER_CALL_CODE_PRIVILEGED_MASK | 0x100,
    ] {
        assert!(HyperCallCode::try_from(v) == Err(v));
    }
}

#[test]
fn codes_are_distinct() {
    for (i, (a, va, _)) in ALL.iter().enumerate() {
        for (j, (b, vb, _)) in ALL.iter().enumerate() {
            assert_eq!(i == j, va == vb);
            assert_eq!(i == j, a == b);
        }
    }
}

#[test]
fn privileged_hypercalls() {
    assert!(HyperCallCode::HypervisorDisable.is_privileged());
    assert!(HyperCallCode::HyperVisorPrepareDisable.is_privileged());
    assert!(HyperCallCode::HyperVisorDebug.is_privileged());
    assert!(!HyperCallCode::HDebug.is_privileged());
    assert!(!HyperCallCode::HInitShim.is_privileged());
    assert!(!HyperCallCode::HMicroVMBoot.is_privileged());
    assert!(!HyperCallCode::HBenchEPTMUnmap.is_privileged());
    for (c, v, _) in ALL.iter() {
        assert_eq!(c.is_privileged(), v & HYPER_CALL_CODE_PRIVILEGED_MASK == 0);
    }
}

#[test]
fn mask_is_all_or_none() {
    let mut without_mask = 0;
    for (_, v, _) in ALL.iter() {
        let m = v & HYPER_CALL_CODE_PRIVILEGED_MASK;
        assert!(m == 0 || m == HYPER_CALL_CODE_PRIVILEGED_MASK);
        if m == 0 {
            without_mask += 1;
        }
    }
    assert_eq!(without_mask, 3);
}

#[test]
fn names() {
    for (c, _, n) in ALL.iter() {
        assert_eq!(c.name(), *n);
    }
}

#[test]
fn debug_string_of_each_hypercall() {
    for (c, v, n) in ALL.iter() {
        assert_eq!(c.debug_string(), format!("({} {:#x})", n, v));
    }
}

#[test]
fn debug_string_examples() {
    assert_eq!(
        HyperCallCode::HypervisorDisable.debug_string(),
        "(HypervisorDisable 0x0)"
    );
    assert_eq!(
        HyperCallCode::HyperVisorDebug.debug_string(),
        "(HyperVisorDebug 0x2)"
    );
    assert_eq!(HyperCallCode::HDebug.debug_string(), "(HDebug 0xe0000000)");
    assert_eq!(
        HyperCallCode::HClearGuestAreas.debug_string(),
        "(HClearGuestAreas 0xe000000b)"
    );
    assert_eq!(
        HyperCallCode::HBenchEPTMUnmap.debug_string(),
        "(HBenchEPTMUnmap 0xe00000fd)"
    );
    assert_eq!(
        HyperCallCode::HMicroVMHyperAllocNotifyPagecacheDropped.debug_string(),
        "(HMicroVMHyperAllocNotifyPagecacheDropped 0xe000002a)"
    );
}

#[test]
fn copy_and_equality() {
    let a = HyperCallCode::HWrite;
    let b = a;
    assert!(a == b);
    assert!(a.clone() == HyperCallCode::HWrite);
    assert!(a != HyperCallCode::HRead);
}

#[test]
fn renderings_are_distinct() {
    for (i, (a, _, _)) in ALL.iter().enumerate() {
        for (j, (b, _, _)) in ALL.iter().enumerate() {
            assert_eq!(i == j, a.name() == b.name());
            assert_eq!(i == j, a.debug_string() == b.debug_string());
        }
    }
}
