//! A readable rendering of hypercall codes: the hypercall's name and its code
//! in hexadecimal, in parentheses.

use crate::code::{lemma_code_injective, HyperCallCode};
use vstd::prelude::*;

verus! {

/// The lowercase hexadecimal digit for a digit value `d` below sixteen.
pub open spec fn hex_char(d: nat) -> char {
    if d < 10 {
        (48 + d) as char
    } else {
        (87 + d) as char
    }
}

/// The lowercase hexadecimal digits of `n`, most significant first, with no
/// leading zero (zero itself is the single digit `0`).
pub open spec fn hex_digits(n: nat) -> Seq<char>
    decreases n,
{
    if n < 16 {
        seq![hex_char(n)]
    } else {
        hex_digits(n / 16) + seq![hex_char(n % 16)]
    }
}

/// `n` in the alternate lowercase hexadecimal form: `0x` and its digits.
pub open spec fn hex_alternate(n: nat) -> Seq<char> {
    seq!['0', 'x'] + hex_digits(n)
}

impl HyperCallCode {
    /// The name of the hypercall.
    pub open spec fn spec_name(self) -> Seq<char> {
        match self {
            HyperCallCode::HypervisorDisable => "HypervisorDisable"@,
            HyperCallCode::HyperVisorPrepareDisable => "HyperVisorPrepareDisable"@,
            HyperCallCode::HyperVisorDebug => "HyperVisorDebug"@,
            HyperCallCode::HDebug => "HDebug"@,
            HyperCallCode::HInitShim => "HInitShim"@,
            HyperCallCode::HCreateInstance => "HCreateInstance"@,
            HyperCallCode::HSetupInstance => "HSetupInstance"@,
            HyperCallCode::HExitProcess => "HExitProcess"@,
            HyperCallCode::HShutdownInstance => "HShutdownInstance"@,
            HyperCallCode::HAllocMMRegion => "HAllocMMRegion"@,
            HyperCallCode::HIVCGet => "HIVCGet"@,
            HyperCallCode::HIVCDt => "HIVCDt"@,
            HyperCallCode::HIVCSHMAt => "HIVCSHMAt"@,
            HyperCallCode::HClearGuestAreas => "HClearGuestAreas"@,
            HyperCallCode::HMicroVMBoot => "HMicroVMBoot"@,
            HyperCallCode::HMicroVMInjectIrq => "HMicroVMInjectIrq"@,
            HyperCallCode::HMicroVMQueryIrqRoute => "HMicroVMQueryIrqRoute"@,
            HyperCallCode::HMicroVMStartVcpu => "HMicroVMStartVcpu"@,
            HyperCallCode::HMicroVMSendIpi => "HMicroVMSendIpi"@,
            HyperCallCode::HMicroVMSetVcpuCount => "HMicroVMSetVcpuCount"@,
            HyperCallCode::HMicroVMGetVcpuCount => "HMicroVMGetVcpuCount"@,
            HyperCallCode::HMicroVMDrainVfioMailbox => "HMicroVMDrainVfioMailbox"@,
            HyperCallCode::HMicroVMHyperAllocRegisterZone => "HMicroVMHyperAllocRegisterZone"@,
            HyperCallCode::HMicroVMHyperAllocInstall => "HMicroVMHyperAllocInstall"@,
            HyperCallCode::HMicroVMHyperAllocNotifyPagecacheDropped => "HMicroVMHyperAllocNotifyPagecacheDropped"@,
            HyperCallCode::HMicroVMHyperAllocQuery => "HMicroVMHyperAllocQuery"@,
            HyperCallCode::HMicroVMHyperAllocVfioDmaPoll => "HMicroVMHyperAllocVfioDmaPoll"@,
            HyperCallCode::HMicroVMHyperAllocVfioDmaComplete => "HMicroVMHyperAllocVfioDmaComplete"@,
            HyperCallCode::HMicroVMHyperAllocDebugReclaim => "HMicroVMHyperAllocDebugReclaim"@,
            HyperCallCode::HMicroVMHyperAllocPagecacheShrinkReq => "HMicroVMHyperAllocPagecacheShrinkReq"@,
            HyperCallCode::HMicroVMGuestMemCopy => "HMicroVMGuestMemCopy"@,
            HyperCallCode::HMicroVMGuestRamMmapStateUpdate => "HMicroVMGuestRamMmapStateUpdate"@,
            HyperCallCode::HMicroVMHyperAllocMemoryTarget => "HMicroVMHyperAllocMemoryTarget"@,
            HyperCallCode::HMicroVMHyperAllocHostQuery => "HMicroVMHyperAllocHostQuery"@,
            HyperCallCode::HMicroVMHyperAllocVfioDmaDebugRequest => "HMicroVMHyperAllocVfioDmaDebugRequest"@,
            HyperCallCode::HMicroVMHyperAllocEqGateDrain => "HMicroVMHyperAllocEqGateDrain"@,
            HyperCallCode::HMicroVMHyperAllocEqGateDebugEnqueue => "HMicroVMHyperAllocEqGateDebugEnqueue"@,
            HyperCallCode::HMicroVMHyperAllocEqGateEnqueue => "HMicroVMHyperAllocEqGateEnqueue"@,
            HyperCallCode::HMicroVMGuestRamTranslate => "HMicroVMGuestRamTranslate"@,
            HyperCallCode::HMicroVMGuestRamMmapZapPoll => "HMicroVMGuestRamMmapZapPoll"@,
            HyperCallCode::HMicroVMGuestRamMmapZapComplete => "HMicroVMGuestRamMmapZapComplete"@,
            HyperCallCode::HMicroVMRemove => "HMicroVMRemove"@,
            HyperCallCode::HMicroVMStop => "HMicroVMStop"@,
            HyperCallCode::HMicroVMGateEptSync => "HMicroVMGateEptSync"@,
            HyperCallCode::HMicroVMHyperAllocDebugReclaimBatch => "HMicroVMHyperAllocDebugReclaimBatch"@,
            HyperCallCode::HMicroVMHyperAllocDebugRegistryRace => "HMicroVMHyperAllocDebugRegistryRace"@,
            HyperCallCode::HMicroVMHyperAllocResize => "HMicroVMHyperAllocResize"@,
            HyperCallCode::HRead => "HRead"@,
            HyperCallCode::HWrite => "HWrite"@,
            HyperCallCode::HDupGas => "HDupGas"@,
            HyperCallCode::HBenchVMCall => "HBenchVMCall"@,
            HyperCallCode::HBenchEPTMmap => "HBenchEPTMmap"@,
            HyperCallCode::HBenchEPTMUnmap => "HBenchEPTMUnmap"@,
        }
    }

    /// The name of the hypercall.
    pub fn name(&self) -> (r: &'static str)
        ensures
            r@ == self.spec_name(),
    {
        match self {
            HyperCallCode::HypervisorDisable => "HypervisorDisable",
            HyperCallCode::HyperVisorPrepareDisable => "HyperVisorPrepareDisable",
            HyperCallCode::HyperVisorDebug => "HyperVisorDebug",
            HyperCallCode::HDebug => "HDebug",
            HyperCallCode::HInitShim => "HInitShim",
            HyperCallCode::HCreateInstance => "HCreateInstance",
            HyperCallCode::HSetupInstance => "HSetupInstance",
            HyperCallCode::HExitProcess => "HExitProcess",
            HyperCallCode::HShutdownInstance => "HShutdownInstance",
            HyperCallCode::HAllocMMRegion => "HAllocMMRegion",
            HyperCallCode::HIVCGet => "HIVCGet",
            HyperCallCode::HIVCDt => "HIVCDt",
            HyperCallCode::HIVCSHMAt => "HIVCSHMAt",
            HyperCallCode::HClearGuestAreas => "HClearGuestAreas",
            HyperCallCode::HMicroVMBoot => "HMicroVMBoot",
            HyperCallCode::HMicroVMInjectIrq => "HMicroVMInjectIrq",
            HyperCallCode::HMicroVMQueryIrqRoute => "HMicroVMQueryIrqRoute",
            HyperCallCode::HMicroVMStartVcpu => "HMicroVMStartVcpu",
            HyperCallCode::HMicroVMSendIpi => "HMicroVMSendIpi",
            HyperCallCode::HMicroVMSetVcpuCount => "HMicroVMSetVcpuCount",
            HyperCallCode::HMicroVMGetVcpuCount => "HMicroVMGetVcpuCount",
            HyperCallCode::HMicroVMDrainVfioMailbox => "HMicroVMDrainVfioMailbox",
            HyperCallCode::HMicroVMHyperAllocRegisterZone => "HMicroVMHyperAllocRegisterZone",
            HyperCallCode::HMicroVMHyperAllocInstall => "HMicroVMHyperAllocInstall",
            HyperCallCode::HMicroVMHyperAllocNotifyPagecacheDropped => "HMicroVMHyperAllocNotifyPagecacheDropped",
            HyperCallCode::HMicroVMHyperAllocQuery => "HMicroVMHyperAllocQuery",
            HyperCallCode::HMicroVMHyperAllocVfioDmaPoll => "HMicroVMHyperAllocVfioDmaPoll",
            HyperCallCode::HMicroVMHyperAllocVfioDmaComplete => "HMicroVMHyperAllocVfioDmaComplete",
            HyperCallCode::HMicroVMHyperAllocDebugReclaim => "HMicroVMHyperAllocDebugReclaim",
            HyperCallCode::HMicroVMHyperAllocPagecacheShrinkReq => "HMicroVMHyperAllocPagecacheShrinkReq",
            HyperCallCode::HMicroVMGuestMemCopy => "HMicroVMGuestMemCopy",
            HyperCallCode::HMicroVMGuestRamMmapStateUpdate => "HMicroVMGuestRamMmapStateUpdate",
            HyperCallCode::HMicroVMHyperAllocMemoryTarget => "HMicroVMHyperAllocMemoryTarget",
            HyperCallCode::HMicroVMHyperAllocHostQuery => "HMicroVMHyperAllocHostQuery",
            HyperCallCode::HMicroVMHyperAllocVfioDmaDebugRequest => "HMicroVMHyperAllocVfioDmaDebugRequest",
            HyperCallCode::HMicroVMHyperAllocEqGateDrain => "HMicroVMHyperAllocEqGateDrain",
            HyperCallCode::HMicroVMHyperAllocEqGateDebugEnqueue => "HMicroVMHyperAllocEqGateDebugEnqueue",
            HyperCallCode::HMicroVMHyperAllocEqGateEnqueue => "HMicroVMHyperAllocEqGateEnqueue",
            HyperCallCode::HMicroVMGuestRamTranslate => "HMicroVMGuestRamTranslate",
            HyperCallCode::HMicroVMGuestRamMmapZapPoll => "HMicroVMGuestRamMmapZapPoll",
            HyperCallCode::HMicroVMGuestRamMmapZapComplete => "HMicroVMGuestRamMmapZapComplete",
            HyperCallCode::HMicroVMRemove => "HMicroVMRemove",
            HyperCallCode::HMicroVMStop => "HMicroVMStop",
            HyperCallCode::HMicroVMGateEptSync => "HMicroVMGateEptSync",
            HyperCallCode::HMicroVMHyperAllocDebugReclaimBatch => "HMicroVMHyperAllocDebugReclaimBatch",
            HyperCallCode::HMicroVMHyperAllocDebugRegistryRace => "HMicroVMHyperAllocDebugRegistryRace",
            HyperCallCode::HMicroVMHyperAllocResize => "HMicroVMHyperAllocResize",
            HyperCallCode::HRead => "HRead",
            HyperCallCode::HWrite => "HWrite",
            HyperCallCode::HDupGas => "HDupGas",
            HyperCallCode::HBenchVMCall => "HBenchVMCall",
            HyperCallCode::HBenchEPTMmap => "HBenchEPTMmap",
            HyperCallCode::HBenchEPTMUnmap => "HBenchEPTMUnmap",
        }
    }

    /// The rendering of the hypercall: an opening parenthesis, its name, a
    /// space, its code in the form `0x` and lowercase hexadecimal digits, and a
    /// closing parenthesis, such as `(HDebug 0xe0000000)`.
    pub open spec fn spec_debug_string(self) -> Seq<char> {
        seq!['('] + self.spec_name() + seq![' '] + hex_alternate(self.spec_code() as nat) + seq![')']
    }

    /// The rendering of the hypercall: an opening parenthesis, its name, a
    /// space, its code in the form `0x` and lowercase hexadecimal digits, and a
    /// closing parenthesis, such as `(HDebug 0xe0000000)`.
    pub fn debug_string(&self) -> (r: String)
        ensures
            r@ == self.spec_debug_string(),
    {
        let mut s = String::new();
        s.append("(");
        s.append(self.name());
        s.append(" 0x");
        push_hex_digits(&mut s, self.code());
        s.append(")");
        proof {
            reveal_strlit("(");
            reveal_strlit(" 0x");
            reveal_strlit(")");
        }
        assert(s@ =~= seq!['('] + self.spec_name() + seq![' '] + hex_alternate(self.spec_code() as nat)
            + seq![')']);
        s
    }
}

/// Appends to `s` the lowercase hexadecimal digits of `n`.
fn push_hex_digits(s: &mut String, n: u32)
    ensures
        final(s)@ == old(s)@ + hex_digits(n as nat),
    decreases n,
{
    if n >= 16 {
        push_hex_digits(s, n / 16);
    }
    s.append(hex_digit_str(n % 16));
    assert(s@ =~= old(s)@ + hex_digits(n as nat));
}

/// The one-character string of the lowercase hexadecimal digit `d`.
fn hex_digit_str(d: u32) -> (r: &'static str)
    requires
        d < 16,
    ensures
        r@ == seq![hex_char(d as nat)],
{
    if d == 0 {
        proof {
            reveal_strlit("0");
        }
        assert("0"@ =~= seq![hex_char(d as nat)]);
        "0"
    } else if d == 1 {
        proof {
            reveal_strlit("1");
        }
        assert("1"@ =~= seq![hex_char(d as nat)]);
        "1"
    } else if d == 2 {
        proof {
            reveal_strlit("2");
        }
        assert("2"@ =~= seq![hex_char(d as nat)]);
        "2"
    } else if d == 3 {
        proof {
            reveal_strlit("3");
        }
        assert("3"@ =~= seq![hex_char(d as nat)]);
        "3"
    } else if d == 4 {
        proof {
            reveal_strlit("4");
        }
        assert("4"@ =~= seq![hex_char(d as nat)]);
        "4"
    } else if d == 5 {
        proof {
            reveal_strlit("5");
        }
        assert("5"@ =~= seq![hex_char(d as nat)]);
        "5"
    } else if d == 6 {
        proof {
            reveal_strlit("6");
        }
        assert("6"@ =~= seq![hex_char(d as nat)]);
        "6"
    } else if d == 7 {
        proof {
            reveal_strlit("7");
        }
        assert("7"@ =~= seq![hex_char(d as nat)]);
        "7"
    } else if d == 8 {
        proof {
            reveal_strlit("8");
        }
        assert("8"@ =~= seq![hex_char(d as nat)]);
        "8"
    } else if d == 9 {
        proof {
            reveal_strlit("9");
        }
        assert("9"@ =~= seq![hex_char(d as nat)]);
        "9"
    } else if d == 10 {
        proof {
            reveal_strlit("a");
        }
        assert("a"@ =~= seq![hex_char(d as nat)]);
        "a"
    } else if d == 11 {
        proof {
            reveal_strlit("b");
        }
        assert("b"@ =~= seq![hex_char(d as nat)]);
        "b"
    } else if d == 12 {
        proof {
            reveal_strlit("c");
        }
        assert("c"@ =~= seq![hex_char(d as nat)]);
        "c"
    } else if d == 13 {
        proof {
            reveal_strlit("d");
        }
        assert("d"@ =~= seq![hex_char(d as nat)]);
        "d"
    } else if d == 14 {
        proof {
            reveal_strlit("e");
        }
        assert("e"@ =~= seq![hex_char(d as nat)]);
        "e"
    } else {
        proof {
            reveal_strlit("f");
        }
        assert("f"@ =~= seq![hex_char(d as nat)]);
        "f"
    }
}

/// The value of a lowercase hexadecimal digit character.
spec fn hex_char_value(c: char) -> nat {
    if c <= '9' {
        (c as nat - 48) as nat
    } else {
        (c as nat - 87) as nat
    }
}

/// The number that a sequence of lowercase hexadecimal digits spells, most
/// significant first.
spec fn hex_value(s: Seq<char>) -> nat
    decreases s.len(),
{
    if s.len() == 0 {
        0
    } else {
        hex_value(s.drop_last()) * 16 + hex_char_value(s.last())
    }
}

/// A digit character reads back as its value, and is no `x`.
proof fn lemma_hex_char_read_back(d: nat)
    requires
        d < 16,
    ensures
        hex_char_value(hex_char(d)) == d,
        hex_char(d) != 'x',
{
    if d < 10 {
        assert(((48 + d) as char) as nat == 48 + d);
    } else {
        assert(((87 + d) as char) as nat == 87 + d);
    }
}

/// Reading the digits of `n` back gives `n`, and none of them is an `x`.
proof fn lemma_hex_digits_read_back(n: nat)
    ensures
        hex_value(hex_digits(n)) == n,
        forall|i: int| 0 <= i < hex_digits(n).len() ==> #[trigger] hex_digits(n)[i] != 'x',
    decreases n,
{
    lemma_hex_char_read_back(n % 16);
    let s = hex_digits(n);
    assert(s.len() > 0);
    assert(hex_value(s) == hex_value(s.drop_last()) * 16 + hex_char_value(s.last()));
    if n >= 16 {
        lemma_hex_digits_read_back(n / 16);
        assert(hex_digits(n).drop_last() =~= hex_digits(n / 16));
        assert(hex_digits(n).last() == hex_char(n % 16));
        assert(n == (n / 16) * 16 + n % 16);
    } else {
        assert(hex_digits(n).drop_last() =~= Seq::<char>::empty());
        assert(hex_value(Seq::<char>::empty()) == 0);
        assert(n % 16 == n);
    }
}

/// Distinct numbers have distinct hexadecimal digits.
pub proof fn lemma_hex_digits_injective(n: nat, m: nat)
    ensures
        n != m ==> hex_digits(n) != hex_digits(m),
{
    lemma_hex_digits_read_back(n);
    lemma_hex_digits_read_back(m);
}

/// Two sequences that end in an `x` followed by a tail without `x` are equal
/// only if the tails are.
proof fn lemma_tail_after_x(p1: Seq<char>, t1: Seq<char>, p2: Seq<char>, t2: Seq<char>)
    requires
        p1 + seq!['x'] + t1 == p2 + seq!['x'] + t2,
        forall|i: int| 0 <= i < t1.len() ==> #[trigger] t1[i] != 'x',
        forall|i: int| 0 <= i < t2.len() ==> #[trigger] t2[i] != 'x',
    ensures
        t1 == t2,
{
    let q1 = p1 + seq!['x'];
    let q2 = p2 + seq!['x'];
    let s1 = q1 + t1;
    let s2 = q2 + t2;
    assert(q1.len() == p1.len() + 1 && q2.len() == p2.len() + 1);
    assert(s1.len() == s2.len());
    assert(q1[p1.len() as int] == 'x' && q2[p2.len() as int] == 'x');
    if t1.len() < t2.len() {
        let k = p1.len() as int;
        assert(s1[k] == q1[k]);
        assert(s2[k] == t2[k - q2.len()]);
    } else if t2.len() < t1.len() {
        let k = p2.len() as int;
        assert(s2[k] == q2[k]);
        assert(s1[k] == t1[k - q1.len()]);
    }
    assert(q1.len() == q2.len());
    assert forall|i: int| 0 <= i < t1.len() implies t1[i] == t2[i] by {
        assert(s1[q1.len() + i] == t1[i]);
        assert(s2[q2.len() + i] == t2[i]);
    }
    assert(t1 =~= t2);
}

/// The length of a name, its fourth character from the end, and its ninth
/// character where it has one: together these tell the names apart.
spec fn name_key(s: Seq<char>) -> (u32, char, char) {
    (s.len() as u32, s[s.len() - 4], if s.len() > 8 { s[8] } else { ' ' })
}

/// The hypercall whose name has the given key.
spec fn hypercall_of_name_key(k: (u32, char, char)) -> Option<HyperCallCode> {
    match k {
        (17, 'a', 'o') => Some(HyperCallCode::HypervisorDisable),
        (24, 'a', 'o') => Some(HyperCallCode::HyperVisorPrepareDisable),
        (15, 'e', 'o') => Some(HyperCallCode::HyperVisorDebug),
        (6, 'e', ' ') => Some(HyperCallCode::HDebug),
        (9, 'S', 'm') => Some(HyperCallCode::HInitShim),
        (15, 'a', 'n') => Some(HyperCallCode::HCreateInstance),
        (14, 'a', 's') => Some(HyperCallCode::HSetupInstance),
        (12, 'c', 'c') => Some(HyperCallCode::HExitProcess),
        (17, 'a', 'n') => Some(HyperCallCode::HShutdownInstance),
        (14, 'g', 'R') => Some(HyperCallCode::HAllocMMRegion),
        (7, 'C', ' ') => Some(HyperCallCode::HIVCGet),
        (6, 'V', ' ') => Some(HyperCallCode::HIVCDt),
        (9, 'H', 't') => Some(HyperCallCode::HIVCSHMAt),
        (16, 'r', 'e') => Some(HyperCallCode::HClearGuestAreas),
        (12, 'B', 'B') => Some(HyperCallCode::HMicroVMBoot),
        (17, 't', 'I') => Some(HyperCallCode::HMicroVMInjectIrq),
        (21, 'o', 'Q') => Some(HyperCallCode::HMicroVMQueryIrqRoute),
        (17, 'V', 'S') => Some(HyperCallCode::HMicroVMStartVcpu),
        (15, 'd', 'S') => Some(HyperCallCode::HMicroVMSendIpi),
        (20, 'o', 'S') => Some(HyperCallCode::HMicroVMSetVcpuCount),
        (20, 'o', 'G') => Some(HyperCallCode::HMicroVMGetVcpuCount),
        (24, 'l', 'D') => Some(HyperCallCode::HMicroVMDrainVfioMailbox),
        (30, 'Z', 'H') => Some(HyperCallCode::HMicroVMHyperAllocRegisterZone),
        (25, 't', 'H') => Some(HyperCallCode::HMicroVMHyperAllocInstall),
        (40, 'p', 'H') => Some(HyperCallCode::HMicroVMHyperAllocNotifyPagecacheDropped),
        (23, 'u', 'H') => Some(HyperCallCode::HMicroVMHyperAllocQuery),
        (29, 'P', 'H') => Some(HyperCallCode::HMicroVMHyperAllocVfioDmaPoll),
        (33, 'l', 'H') => Some(HyperCallCode::HMicroVMHyperAllocVfioDmaComplete),
        (30, 'l', 'H') => Some(HyperCallCode::HMicroVMHyperAllocDebugReclaim),
        (36, 'k', 'H') => Some(HyperCallCode::HMicroVMHyperAllocPagecacheShrinkReq),
        (20, 'C', 'G') => Some(HyperCallCode::HMicroVMGuestMemCopy),
        (31, 'd', 'G') => Some(HyperCallCode::HMicroVMGuestRamMmapStateUpdate),
        (30, 'r', 'H') => Some(HyperCallCode::HMicroVMHyperAllocMemoryTarget),
        (27, 'u', 'H') => Some(HyperCallCode::HMicroVMHyperAllocHostQuery),
        (37, 'u', 'H') => Some(HyperCallCode::HMicroVMHyperAllocVfioDmaDebugRequest),
        (29, 'r', 'H') => Some(HyperCallCode::HMicroVMHyperAllocEqGateDrain),
        (36, 'u', 'H') => Some(HyperCallCode::HMicroVMHyperAllocEqGateDebugEnqueue),
        (31, 'u', 'H') => Some(HyperCallCode::HMicroVMHyperAllocEqGateEnqueue),
        (25, 'l', 'G') => Some(HyperCallCode::HMicroVMGuestRamTranslate),
        (27, 'P', 'G') => Some(HyperCallCode::HMicroVMGuestRamMmapZapPoll),
        (31, 'l', 'G') => Some(HyperCallCode::HMicroVMGuestRamMmapZapComplete),
        (14, 'm', 'R') => Some(HyperCallCode::HMicroVMRemove),
        (12, 'S', 'S') => Some(HyperCallCode::HMicroVMStop),
        (19, 'S', 'G') => Some(HyperCallCode::HMicroVMGateEptSync),
        (35, 'a', 'H') => Some(HyperCallCode::HMicroVMHyperAllocDebugReclaimBatch),
        (35, 'R', 'H') => Some(HyperCallCode::HMicroVMHyperAllocDebugRegistryRace),
        (24, 's', 'H') => Some(HyperCallCode::HMicroVMHyperAllocResize),
        (5, 'R', ' ') => Some(HyperCallCode::HRead),
        (6, 'r', ' ') => Some(HyperCallCode::HWrite),
        (7, 'p', ' ') => Some(HyperCallCode::HDupGas),
        (12, 'C', 'C') => Some(HyperCallCode::HBenchVMCall),
        (13, 'M', 'T') => Some(HyperCallCode::HBenchEPTMmap),
        (15, 'n', 'T') => Some(HyperCallCode::HBenchEPTMUnmap),
        _ => None,
    }
}

/// The key of a hypercall's name leads back to that hypercall.
proof fn lemma_name_key(c: HyperCallCode)
    ensures
        hypercall_of_name_key(name_key(c.spec_name())) == Some(c),
{
    match c {
        HyperCallCode::HypervisorDisable => {
            reveal_strlit("HypervisorDisable");
        },
        HyperCallCode::HyperVisorPrepareDisable => {
            reveal_strlit("HyperVisorPrepareDisable");
        },
        HyperCallCode::HyperVisorDebug => {
            reveal_strlit("HyperVisorDebug");
        },
        HyperCallCode::HDebug => {
            reveal_strlit("HDebug");
        },
        HyperCallCode::HInitShim => {
            reveal_strlit("HInitShim");
        },
        HyperCallCode::HCreateInstance => {
            reveal_strlit("HCreateInstance");
        },
        HyperCallCode::HSetupInstance => {
            reveal_strlit("HSetupInstance");
        },
        HyperCallCode::HExitProcess => {
            reveal_strlit("HExitProcess");
        },
        HyperCallCode::HShutdownInstance => {
            reveal_strlit("HShutdownInstance");
        },
        HyperCallCode::HAllocMMRegion => {
            reveal_strlit("HAllocMMRegion");
        },
        HyperCallCode::HIVCGet => {
            reveal_strlit("HIVCGet");
        },
        HyperCallCode::HIVCDt => {
            reveal_strlit("HIVCDt");
        },
        HyperCallCode::HIVCSHMAt => {
            reveal_strlit("HIVCSHMAt");
        },
        HyperCallCode::HClearGuestAreas => {
            reveal_strlit("HClearGuestAreas");
        },
        HyperCallCode::HMicroVMBoot => {
            reveal_strlit("HMicroVMBoot");
        },
        HyperCallCode::HMicroVMInjectIrq => {
            reveal_strlit("HMicroVMInjectIrq");
        },
        HyperCallCode::HMicroVMQueryIrqRoute => {
            reveal_strlit("HMicroVMQueryIrqRoute");
        },
        HyperCallCode::HMicroVMStartVcpu => {
            reveal_strlit("HMicroVMStartVcpu");
        },
        HyperCallCode::HMicroVMSendIpi => {
            reveal_strlit("HMicroVMSendIpi");
        },
        HyperCallCode::HMicroVMSetVcpuCount => {
            reveal_strlit("HMicroVMSetVcpuCount");
        },
        HyperCallCode::HMicroVMGetVcpuCount => {
            reveal_strlit("HMicroVMGetVcpuCount");
        },
        HyperCallCode::HMicroVMDrainVfioMailbox => {
            reveal_strlit("HMicroVMDrainVfioMailbox");
        },
        HyperCallCode::HMicroVMHyperAllocRegisterZone => {
            reveal_strlit("HMicroVMHyperAllocRegisterZone");
        },
        HyperCallCode::HMicroVMHyperAllocInstall => {
            reveal_strlit("HMicroVMHyperAllocInstall");
        },
        HyperCallCode::HMicroVMHyperAllocNotifyPagecacheDropped => {
            reveal_strlit("HMicroVMHyperAllocNotifyPagecacheDropped");
        },
        HyperCallCode::HMicroVMHyperAllocQuery => {
            reveal_strlit("HMicroVMHyperAllocQuery");
        },
        HyperCallCode::HMicroVMHyperAllocVfioDmaPoll => {
            reveal_strlit("HMicroVMHyperAllocVfioDmaPoll");
        },
        HyperCallCode::HMicroVMHyperAllocVfioDmaComplete => {
            reveal_strlit("HMicroVMHyperAllocVfioDmaComplete");
        },
        HyperCallCode::HMicroVMHyperAllocDebugReclaim => {
            reveal_strlit("HMicroVMHyperAllocDebugReclaim");
        },
        HyperCallCode::HMicroVMHyperAllocPagecacheShrinkReq => {
            reveal_strlit("HMicroVMHyperAllocPagecacheShrinkReq");
        },
        HyperCallCode::HMicroVMGuestMemCopy => {
            reveal_strlit("HMicroVMGuestMemCopy");
        },
        HyperCallCode::HMicroVMGuestRamMmapStateUpdate => {
            reveal_strlit("HMicroVMGuestRamMmapStateUpdate");
        },
        HyperCallCode::HMicroVMHyperAllocMemoryTarget => {
            reveal_strlit("HMicroVMHyperAllocMemoryTarget");
        },
        HyperCallCode::HMicroVMHyperAllocHostQuery => {
            reveal_strlit("HMicroVMHyperAllocHostQuery");
        },
        HyperCallCode::HMicroVMHyperAllocVfioDmaDebugRequest => {
            reveal_strlit("HMicroVMHyperAllocVfioDmaDebugRequest");
        },
        HyperCallCode::HMicroVMHyperAllocEqGateDrain => {
            reveal_strlit("HMicroVMHyperAllocEqGateDrain");
        },
        HyperCallCode::HMicroVMHyperAllocEqGateDebugEnqueue => {
            reveal_strlit("HMicroVMHyperAllocEqGateDebugEnqueue");
        },
        HyperCallCode::HMicroVMHyperAllocEqGateEnqueue => {
            reveal_strlit("HMicroVMHyperAllocEqGateEnqueue");
        },
        HyperCallCode::HMicroVMGuestRamTranslate => {
            reveal_strlit("HMicroVMGuestRamTranslate");
        },
        HyperCallCode::HMicroVMGuestRamMmapZapPoll => {
            reveal_strlit("HMicroVMGuestRamMmapZapPoll");
        },
        HyperCallCode::HMicroVMGuestRamMmapZapComplete => {
            reveal_strlit("HMicroVMGuestRamMmapZapComplete");
        },
        HyperCallCode::HMicroVMRemove => {
            reveal_strlit("HMicroVMRemove");
        },
        HyperCallCode::HMicroVMStop => {
            reveal_strlit("HMicroVMStop");
        },
        HyperCallCode::HMicroVMGateEptSync => {
            reveal_strlit("HMicroVMGateEptSync");
        },
        HyperCallCode::HMicroVMHyperAllocDebugReclaimBatch => {
            reveal_strlit("HMicroVMHyperAllocDebugReclaimBatch");
        },
        HyperCallCode::HMicroVMHyperAllocDebugRegistryRace => {
            reveal_strlit("HMicroVMHyperAllocDebugRegistryRace");
        },
        HyperCallCode::HMicroVMHyperAllocResize => {
            reveal_strlit("HMicroVMHyperAllocResize");
        },
        HyperCallCode::HRead => {
            reveal_strlit("HRead");
        },
        HyperCallCode::HWrite => {
            reveal_strlit("HWrite");
        },
        HyperCallCode::HDupGas => {
            reveal_strlit("HDupGas");
        },
        HyperCallCode::HBenchVMCall => {
            reveal_strlit("HBenchVMCall");
        },
        HyperCallCode::HBenchEPTMmap => {
            reveal_strlit("HBenchEPTMmap");
        },
        HyperCallCode::HBenchEPTMUnmap => {
            reveal_strlit("HBenchEPTMUnmap");
        },
    }
}

/// Distinct hypercalls have distinct names, distinct hexadecimal parts and
/// so distinct renderings.
pub proof fn lemma_renderings_distinct(a: HyperCallCode, b: HyperCallCode)
    requires
        a != b,
    ensures
        a.spec_name() != b.spec_name(),
        hex_alternate(a.spec_code() as nat) != hex_alternate(b.spec_code() as nat),
        a.spec_debug_string() != b.spec_debug_string(),
{
    lemma_name_key(a);
    lemma_name_key(b);
    lemma_code_injective(a, b);
    let na = a.spec_code() as nat;
    let nb = b.spec_code() as nat;
    lemma_hex_digits_injective(na, nb);
    lemma_hex_digits_read_back(na);
    lemma_hex_digits_read_back(nb);
    assert(hex_alternate(na).subrange(2, hex_alternate(na).len() as int) =~= hex_digits(na));
    assert(hex_alternate(nb).subrange(2, hex_alternate(nb).len() as int) =~= hex_digits(nb));
    let ta = hex_digits(na) + seq![')'];
    let tb = hex_digits(nb) + seq![')'];
    let pa = seq!['('] + a.spec_name() + seq![' ', '0'];
    let pb = seq!['('] + b.spec_name() + seq![' ', '0'];
    assert(a.spec_debug_string() =~= pa + seq!['x'] + ta);
    assert(b.spec_debug_string() =~= pb + seq!['x'] + tb);
    assert forall|i: int| 0 <= i < ta.len() implies #[trigger] ta[i] != 'x' by {
        if i < hex_digits(na).len() {
            assert(ta[i] == hex_digits(na)[i]);
        }
    }
    assert forall|i: int| 0 <= i < tb.len() implies #[trigger] tb[i] != 'x' by {
        if i < hex_digits(nb).len() {
            assert(tb[i] == hex_digits(nb)[i]);
        }
    }
    if a.spec_debug_string() == b.spec_debug_string() {
        lemma_tail_after_x(pa, ta, pb, tb);
        assert(ta.drop_last() =~= hex_digits(na));
        assert(tb.drop_last() =~= hex_digits(nb));
    }
}

} // verus!
