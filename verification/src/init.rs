//! The failure taxonomy of context initialization. Every failure is fatal at
//! this layer and carries the stage it arose in, so that startup can abort
//! with a message naming that stage.

use vstd::prelude::*;

verus! {

/// The stage of initialization a failure arose in.
#[derive(Clone, Copy, PartialEq, Eq, Structural, Debug)]
pub enum InitStage {
    AdapterSelection,
    DeviceCreation,
    PipelineAssembly,
}

/// Why context initialization failed. None of these is recoverable at this
/// layer: no partial context is handed out.
#[derive(Debug)]
pub enum InitError {
    /// No adapter compatible with the surface was found.
    NoCompatibleAdapter,
    /// The adapter rejected the device request, with the driver's reason.
    DeviceRequestRejected(String),
    /// A shader blob cannot be shader bytecode at all: it is empty, not a
    /// whole number of 32-bit words, or missing the bytecode magic number.
    ShaderNotSpirv,
    /// The device rejected a shader blob, with the driver's reason.
    ShaderRejected(String),
    /// The device rejected the assembled pipeline, with the driver's reason.
    PipelineRejected(String),
}

impl InitError {
    /// The stage of this failure, as a spec-level map.
    pub open spec fn spec_stage(self) -> InitStage {
        match self {
            InitError::NoCompatibleAdapter => InitStage::AdapterSelection,
            InitError::DeviceRequestRejected(_) => InitStage::DeviceCreation,
            InitError::ShaderNotSpirv => InitStage::PipelineAssembly,
            InitError::ShaderRejected(_) => InitStage::PipelineAssembly,
            InitError::PipelineRejected(_) => InitStage::PipelineAssembly,
        }
    }

    /// Which stage of initialization failed.
    pub fn stage(&self) -> (s: InitStage)
        ensures
            s == self.spec_stage(),
    {
        match self {
            InitError::NoCompatibleAdapter => InitStage::AdapterSelection,
            InitError::DeviceRequestRejected(_) => InitStage::DeviceCreation,
            InitError::ShaderNotSpirv => InitStage::PipelineAssembly,
            InitError::ShaderRejected(_) => InitStage::PipelineAssembly,
            InitError::PipelineRejected(_) => InitStage::PipelineAssembly,
        }
    }

    /// A description of the failing stage, for the startup abort message.
    pub fn describe(&self) -> (s: &'static str)
        ensures
            self.spec_stage() == InitStage::AdapterSelection ==> s@
                == "adapter selection failed: no compatible adapter"@,
            self.spec_stage() == InitStage::DeviceCreation ==> s@
                == "device creation failed"@,
            self.spec_stage() == InitStage::PipelineAssembly ==> s@
                == "pipeline assembly failed"@,
    {
        match self {
            InitError::NoCompatibleAdapter => "adapter selection failed: no compatible adapter",
            InitError::DeviceRequestRejected(_) => "device creation failed",
            InitError::ShaderNotSpirv => "pipeline assembly failed",
            InitError::ShaderRejected(_) => "pipeline assembly failed",
            InitError::PipelineRejected(_) => "pipeline assembly failed",
        }
    }

    /// The driver's own reason, where the failure carries one.
    pub fn driver_reason(&self) -> (r: Option<&String>)
        ensures
            match *self {
                InitError::DeviceRequestRejected(ref m) => r == Some(m),
                InitError::ShaderRejected(ref m) => r == Some(m),
                InitError::PipelineRejected(ref m) => r == Some(m),
                _ => r is None,
            },
    {
        match self {
            InitError::DeviceRequestRejected(m) => Some(m),
            InitError::ShaderRejected(m) => Some(m),
            InitError::PipelineRejected(m) => Some(m),
            _ => None,
        }
    }
}

/// First byte of the SPIR-V magic number as stored by a little-endian
/// module, last byte of one stored big-endian.
pub const SPIRV_MAGIC_LOW: u8 = 0x03;

/// Second byte of a little-endian module, third of a big-endian one.
pub const SPIRV_MAGIC_MIDLOW: u8 = 0x02;

/// Third byte of a little-endian module, second of a big-endian one.
pub const SPIRV_MAGIC_MIDHIGH: u8 = 0x23;

/// Last byte of a little-endian module, first byte of a big-endian one.
pub const SPIRV_MAGIC_HIGH: u8 = 0x07;

/// Whether a byte blob begins with the SPIR-V magic number, in either byte
/// order.
pub open spec fn spec_blob_has_magic(b: Seq<u8>) -> bool {
    b.len() >= 4 && ((b[0] == SPIRV_MAGIC_LOW && b[1] == SPIRV_MAGIC_MIDLOW && b[2]
        == SPIRV_MAGIC_MIDHIGH && b[3] == SPIRV_MAGIC_HIGH) || (b[0] == SPIRV_MAGIC_HIGH && b[1]
        == SPIRV_MAGIC_MIDHIGH && b[2] == SPIRV_MAGIC_MIDLOW && b[3] == SPIRV_MAGIC_LOW))
}

/// Whether a byte blob is shaped like shader bytecode at all: nonempty, a
/// whole number of 32-bit words, and starting with the magic number. This
/// does not say the bytecode is valid; only the device can decide that.
pub open spec fn spec_blob_spirv_shaped(b: Seq<u8>) -> bool {
    b.len() > 0 && b.len() % 4 == 0 && spec_blob_has_magic(b)
}

/// Checks that a shader blob is shaped like shader bytecode: nonempty, a
/// whole number of 32-bit words, and starting with the magic number in
/// either byte order. Blobs that are not are rejected before the device ever
/// sees them.
pub fn blob_spirv_shaped(b: &Vec<u8>) -> (r: bool)
    ensures
        r == spec_blob_spirv_shaped(b@),
{
    b.len() > 0 && b.len() % 4 == 0 && ((b[0] == SPIRV_MAGIC_LOW && b[1] == SPIRV_MAGIC_MIDLOW
        && b[2] == SPIRV_MAGIC_MIDHIGH && b[3] == SPIRV_MAGIC_HIGH) || (b[0] == SPIRV_MAGIC_HIGH
        && b[1] == SPIRV_MAGIC_MIDHIGH && b[2] == SPIRV_MAGIC_MIDLOW && b[3] == SPIRV_MAGIC_LOW))
}

} // verus!
