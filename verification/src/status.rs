//! Result codes combining a severity, a facility and a facility-local code,
//! together with their textual rendering.

use vstd::prelude::*;

verus! {

/// Severity of a [`Status`], stored in its two topmost bits.
pub enum Severity {
    Success,
    Info,
    Warning,
    Error,
    UnknownSeverity,
}

/// Facility of a [`Status`], stored in bits 24 to 29.
pub enum Facility {
    Xpf,
    Intel,
    AMD,
    Emulator,
    UnknownFacility,
}

/// A result code: severity in bits 30..32, facility in bits 24..30 and a
/// facility-local code in the low 24 bits.
#[derive(Clone, Copy, PartialEq, Eq, Structural, Debug)]
pub struct Status(pub u32);

/// Numeric value of a [`Severity`] as encoded in a [`Status`].
pub open spec fn severity_value(s: Severity) -> u32 {
    match s {
        Severity::Success => 0,
        Severity::Info => 1,
        Severity::Warning => 2,
        Severity::Error => 3,
        Severity::UnknownSeverity => 4,
    }
}

/// Numeric value of a [`Facility`] as encoded in a [`Status`].
pub open spec fn facility_value(f: Facility) -> u32 {
    match f {
        Facility::Xpf => 0,
        Facility::Intel => 1,
        Facility::AMD => 2,
        Facility::Emulator => 3,
        Facility::UnknownFacility => 4,
    }
}

pub const NOIR_SUCCESS: u32 = 0;
pub const NOIR_ALREADY_RESCINDED: u32 = 0x40000001;
pub const NOIR_UNSUCCESSFUL: u32 = 0xC0000000;
pub const NOIR_INSUFFICIENT_RESOURCES: u32 = 0xC0000001;
pub const NOIR_NOT_IMPLEMENTED: u32 = 0xC0000002;
pub const NOIR_UNKNOWN_PROCESSOR: u32 = 0xC0000003;
pub const NOIR_INVALID_PARAMETER: u32 = 0xC0000004;
pub const NOIR_HYPERVISION_ABSENT: u32 = 0xC0000005;
pub const NOIR_VCPU_ALREADY_CREATED: u32 = 0xC0000006;
pub const NOIR_BUFFER_TOO_SMALL: u32 = 0xC0000007;
pub const NOIR_VCPU_NOT_EXIST: u32 = 0xC0000008;
pub const NOIR_USER_PAGE_VIOLATION: u32 = 0xC0000009;
pub const NOIR_GUEST_PAGE_ABSENT: u32 = 0xC000000A;
pub const NOIR_ACCESS_DENIED: u32 = 0xC000000B;
pub const NOIR_HARDWARE_ERROR: u32 = 0xC000000C;
pub const NOIR_UNINITIALIZED: u32 = 0xC000000D;
pub const NOIR_NSV_VIOLATION: u32 = 0xC000000E;
pub const NOIR_ACPI_NO_SUCH_TABLE: u32 = 0xC000000F;
pub const NOIR_NOT_INTEL: u32 = 0xC1000000;
pub const NOIR_VMX_NOT_SUPPORTED: u32 = 0xC1000001;
pub const NOIR_EPT_NOT_SUPPORTED: u32 = 0xC1000002;
pub const NOIR_DMAR_NOT_SUPPORTED: u32 = 0xC1000003;
pub const NOIR_NOT_AMD: u32 = 0xC2000000;
pub const NOIR_SVM_NOT_SUPPORTED: u32 = 0xC2000001;
pub const NOIR_NPT_NOT_SUPPORTED: u32 = 0xC2000002;
pub const NOIR_IVRS_NOT_SUPPROTED: u32 = 0xC2000003;
pub const NOIR_EMU_NOT_EMULATABLE: u32 = 0xC3000000;
pub const NOIR_EMU_UNKNOWN_INSTRUCTION: u32 = 0xC3000001;

impl Status {
    /// Builds a status word from its three components.
    pub fn new(severity: Severity, facility: Facility, code: u32) -> (r: Self)
        ensures
            r.0 == (severity_value(severity) << 30) | (facility_value(facility) << 24) | code,
    {
        let s: u32 = match severity {
            Severity::Success => 0,
            Severity::Info => 1,
            Severity::Warning => 2,
            Severity::Error => 3,
            Severity::UnknownSeverity => 4,
        };
        let f: u32 = match facility {
            Facility::Xpf => 0,
            Facility::Intel => 1,
            Facility::AMD => 2,
            Facility::Emulator => 3,
            Facility::UnknownFacility => 4,
        };
        Status((s << 30) | (f << 24) | code)
    }

    /// Extracts the severity stored in the two topmost bits.
    pub fn get_severity(st: Self) -> (r: Severity)
        ensures
            st.0 >> 30 == 0 ==> r is Success,
            st.0 >> 30 == 1 ==> r is Info,
            st.0 >> 30 == 2 ==> r is Warning,
            st.0 >> 30 == 3 ==> r is Error,
            st.0 >> 30 > 3 ==> r is UnknownSeverity,
    {
        let s: u32 = st.0 >> 30;
        match s {
            0 => Severity::Success,
            1 => Severity::Info,
            2 => Severity::Warning,
            3 => Severity::Error,
            _ => Severity::UnknownSeverity,
        }
    }

    /// Extracts the facility stored in bits 24 to 29.
    pub fn get_facility(st: Self) -> (r: Facility)
        ensures
            (st.0 >> 24) & 0x3F == 0 ==> r is Xpf,
            (st.0 >> 24) & 0x3F == 1 ==> r is Intel,
            (st.0 >> 24) & 0x3F == 2 ==> r is AMD,
            (st.0 >> 24) & 0x3F == 3 ==> r is Emulator,
            (st.0 >> 24) & 0x3F > 3 ==> r is UnknownFacility,
    {
        let f: u32 = (st.0 >> 24) & 0x3F;
        match f {
            0 => Facility::Xpf,
            1 => Facility::Intel,
            2 => Facility::AMD,
            3 => Facility::Emulator,
            _ => Facility::UnknownFacility,
        }
    }

    /// The textual rendering of this status: a closed lookup over the known
    /// codes, with an unknown-status fallback for anything unrecognized.
    pub fn describe(&self) -> (r: &'static str)
        ensures
            r@ == spec_status_text(self.0),
    {
        match self.0 {
            NOIR_SUCCESS => "Operation is successfully completed",
            NOIR_ALREADY_RESCINDED => "vCPU is already rescinded",
            NOIR_UNSUCCESSFUL => "Operation is unsuccessful with unspecified error",
            NOIR_INSUFFICIENT_RESOURCES => "Resource is insufficient",
            NOIR_NOT_IMPLEMENTED => "This operation is not implemented",
            NOIR_UNKNOWN_PROCESSOR => "This processor is unknown",
            NOIR_INVALID_PARAMETER => "One or more parameters are invalid",
            NOIR_HYPERVISION_ABSENT => "NoirVisor has not subverted the system yet",
            NOIR_VCPU_ALREADY_CREATED => "The vCPU is already created in the VM",
            NOIR_BUFFER_TOO_SMALL => "The buffer is too small",
            NOIR_VCPU_NOT_EXIST => "The vCPU does not exist in this VM",
            NOIR_GUEST_PAGE_ABSENT => "The guest page is absent",
            NOIR_ACCESS_DENIED => "Access is denied",
            NOIR_HARDWARE_ERROR => "Hardware error",
            NOIR_UNINITIALIZED => "Uninitialized",
            NOIR_NSV_VIOLATION => "NoirVisor Secure Virtualization policy violated",
            NOIR_ACPI_NO_SUCH_TABLE => "The specified ACPI table can't be found",
            NOIR_NOT_INTEL => "This CPU is not manufactured by Intel",
            NOIR_VMX_NOT_SUPPORTED => "This CPU does not support Intel VT-x",
            NOIR_EPT_NOT_SUPPORTED => "This CPU does not support Extended Page Tables",
            NOIR_DMAR_NOT_SUPPORTED => "This system does not support Intel VT-d",
            NOIR_NOT_AMD => "This CPU is not manufactured by AMD",
            NOIR_SVM_NOT_SUPPORTED => "This CPU does not support AMD-V",
            NOIR_NPT_NOT_SUPPORTED => "This CPU does not support Nested Paging",
            NOIR_IVRS_NOT_SUPPROTED => "This system does not support AMD-Vi",
            NOIR_EMU_NOT_EMULATABLE => "This instruction cannot be emulated",
            NOIR_EMU_UNKNOWN_INSTRUCTION => "This instruction is not recognized by the emulator",
            _ => "Unknown Status",
        }
    }
}

/// What [`Status::describe`] returns for each status word.
pub open spec fn spec_status_text(code: u32) -> Seq<char> {
    if code == NOIR_SUCCESS {
        "Operation is successfully completed"@
    } else if code == NOIR_ALREADY_RESCINDED {
        "vCPU is already rescinded"@
    } else if code == NOIR_UNSUCCESSFUL {
        "Operation is unsuccessful with unspecified error"@
    } else if code == NOIR_INSUFFICIENT_RESOURCES {
        "Resource is insufficient"@
    } else if code == NOIR_NOT_IMPLEMENTED {
        "This operation is not implemented"@
    } else if code == NOIR_UNKNOWN_PROCESSOR {
        "This processor is unknown"@
    } else if code == NOIR_INVALID_PARAMETER {
        "One or more parameters are invalid"@
    } else if code == NOIR_HYPERVISION_ABSENT {
        "NoirVisor has not subverted the system yet"@
    } else if code == NOIR_VCPU_ALREADY_CREATED {
        "The vCPU is already created in the VM"@
    } else if code == NOIR_BUFFER_TOO_SMALL {
        "The buffer is too small"@
    } else if code == NOIR_VCPU_NOT_EXIST {
        "The vCPU does not exist in this VM"@
    } else if code == NOIR_GUEST_PAGE_ABSENT {
        "The guest page is absent"@
    } else if code == NOIR_ACCESS_DENIED {
        "Access is denied"@
    } else if code == NOIR_HARDWARE_ERROR {
        "Hardware error"@
    } else if code == NOIR_UNINITIALIZED {
        "Uninitialized"@
    } else if code == NOIR_NSV_VIOLATION {
        "NoirVisor Secure Virtualization policy violated"@
    } else if code == NOIR_ACPI_NO_SUCH_TABLE {
        "The specified ACPI table can't be found"@
    } else if code == NOIR_NOT_INTEL {
        "This CPU is not manufactured by Intel"@
    } else if code == NOIR_VMX_NOT_SUPPORTED {
        "This CPU does not support Intel VT-x"@
    } else if code == NOIR_EPT_NOT_SUPPORTED {
        "This CPU does not support Extended Page Tables"@
    } else if code == NOIR_DMAR_NOT_SUPPORTED {
        "This system does not support Intel VT-d"@
    } else if code == NOIR_NOT_AMD {
        "This CPU is not manufactured by AMD"@
    } else if code == NOIR_SVM_NOT_SUPPORTED {
        "This CPU does not support AMD-V"@
    } else if code == NOIR_NPT_NOT_SUPPORTED {
        "This CPU does not support Nested Paging"@
    } else if code == NOIR_IVRS_NOT_SUPPROTED {
        "This system does not support AMD-Vi"@
    } else if code == NOIR_EMU_NOT_EMULATABLE {
        "This instruction cannot be emulated"@
    } else if code == NOIR_EMU_UNKNOWN_INSTRUCTION {
        "This instruction is not recognized by the emulator"@
    } else {
        "Unknown Status"@
    }
}

} // verus!
