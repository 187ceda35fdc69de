use vstd::prelude::*;

verus! {

/// Opcodes a plugin sends to its host.
#[derive(Clone, Copy, Debug, PartialEq, Eq, Structural)]
pub enum OpCode {
    /// [index]: parameter index
    /// [opt]: parameter value
    Automate,
    /// [return]: host vst version (e.g. 2400 for VST 2.4)
    Version,
    /// [return]: current plugin ID (useful for shell plugins to figure out which plugin to load in
    ///           `VSTPluginMain()`).
    CurrentId,
    /// No arguments. Give idle time to Host application, e.g. if plug-in editor is doing mouse
    /// tracking in a modal loop.
    Idle,
    /// Deprecated.
    PinConnected,
    /// Deprecated.
    WantMidi,
    /// [value]: request mask. see `VstTimeInfoFlags`
    /// [return]: `VstTimeInfo` pointer or null if not supported.
    GetTime,
    /// Deprecated.
    SetTime,
    /// Deprecated.
    TempoAt,
    /// Deprecated.
    GetNumAutomatableParameters,
    /// Deprecated.
    GetParameterQuantization,
    /// Notifies the host that the input/output setup has changed. This can allow the host to check
    /// numInputs/numOutputs or call `getSpeakerArrangement()`
    /// [return]: 1 if supported.
    IOChanged,
    /// Deprecated.
    NeedIdle,
}

/// The protocol's integer code of each host opcode (5 is unassigned).
pub open spec fn code_of(op: OpCode) -> i32 {
    match op {
        OpCode::Automate => 0,
        OpCode::Version => 1,
        OpCode::CurrentId => 2,
        OpCode::Idle => 3,
        OpCode::PinConnected => 4,
        OpCode::WantMidi => 6,
        OpCode::GetTime => 7,
        OpCode::SetTime => 8,
        OpCode::TempoAt => 9,
        OpCode::GetNumAutomatableParameters => 10,
        OpCode::GetParameterQuantization => 11,
        OpCode::IOChanged => 12,
        OpCode::NeedIdle => 13,
    }
}

/// The host opcode with the given integer code, if there is one.
pub open spec fn opcode_of(code: i32) -> Option<OpCode> {
    if code == 0 {
        Some(OpCode::Automate)
    } else if code == 1 {
        Some(OpCode::Version)
    } else if code == 2 {
        Some(OpCode::CurrentId)
    } else if code == 3 {
        Some(OpCode::Idle)
    } else if code == 4 {
        Some(OpCode::PinConnected)
    } else if code == 6 {
        Some(OpCode::WantMidi)
    } else if code == 7 {
        Some(OpCode::GetTime)
    } else if code == 8 {
        Some(OpCode::SetTime)
    } else if code == 9 {
        Some(OpCode::TempoAt)
    } else if code == 10 {
        Some(OpCode::GetNumAutomatableParameters)
    } else if code == 11 {
        Some(OpCode::GetParameterQuantization)
    } else if code == 12 {
        Some(OpCode::IOChanged)
    } else if code == 13 {
        Some(OpCode::NeedIdle)
    } else {
        None
    }
}

impl OpCode {
    /// The integer code sent over the protocol.
    pub fn code(&self) -> (r: i32)
        ensures
            r == code_of(*self),
            opcode_of(r) == Some(*self),
    {
        match self {
            OpCode::Automate => 0,
            OpCode::Version => 1,
            OpCode::CurrentId => 2,
            OpCode::Idle => 3,
            OpCode::PinConnected => 4,
            OpCode::WantMidi => 6,
            OpCode::GetTime => 7,
            OpCode::SetTime => 8,
            OpCode::TempoAt => 9,
            OpCode::GetNumAutomatableParameters => 10,
            OpCode::GetParameterQuantization => 11,
            OpCode::IOChanged => 12,
            OpCode::NeedIdle => 13,
        }
    }

    /// The opcode with the given integer code; `None` for a code the protocol does not assign.
    pub fn from_code(code: i32) -> (r: Option<OpCode>)
        ensures
            r == opcode_of(code),
            r matches Some(op) ==> code_of(op) == code,
    {
        match code {
            0 => Some(OpCode::Automate),
            1 => Some(OpCode::Version),
            2 => Some(OpCode::CurrentId),
            3 => Some(OpCode::Idle),
            4 => Some(OpCode::PinConnected),
            6 => Some(OpCode::WantMidi),
            7 => Some(OpCode::GetTime),
            8 => Some(OpCode::SetTime),
            9 => Some(OpCode::TempoAt),
            10 => Some(OpCode::GetNumAutomatableParameters),
            11 => Some(OpCode::GetParameterQuantization),
            12 => Some(OpCode::IOChanged),
            13 => Some(OpCode::NeedIdle),
            _ => None,
        }
    }
}

/// Plugin opcode: initialise the plugin (`effOpen`).
pub const PLUGIN_INITIALIZE: i32 = 0;

/// Plugin opcode: shut the plugin down and let it release its descriptor (`effClose`).
pub const PLUGIN_SHUTDOWN: i32 = 1;

/// Plugin opcode: [return]: the plugin's category code (`effGetPlugCategory`).
pub const PLUGIN_GET_CATEGORY: i32 = 35;

/// Plugin opcode: [ptr]: buffer the vendor name is written to (`effGetVendorString`).
pub const PLUGIN_GET_VENDOR_NAME: i32 = 47;

/// Plugin opcode: [ptr]: buffer the product name is written to (`effGetProductString`).
pub const PLUGIN_GET_PRODUCT_NAME: i32 = 48;

/// The protocol version this host reports: 2400 for VST 2.4.
pub const HOST_VERSION: isize = 2400;

/// What a plugin-to-host call asks of the host.
#[derive(Clone, Copy, Debug, PartialEq, Eq, Structural)]
pub enum HostRequest {
    /// A parameter was changed by the plugin; the new value travels in the call's `opt`.
    Automate { index: i32 },
    /// The host's protocol version.
    Version,
    /// The id of the plugin being loaded.
    CurrentId,
    /// Idle time for the host.
    Idle,
    /// Anything else: deprecated, unsupported or unknown codes, answered with zero.
    Ignored,
}

/// The request that a call with this opcode and index makes.
pub open spec fn request_of(opcode: i32, index: i32) -> HostRequest {
    match opcode_of(opcode) {
        Some(OpCode::Automate) => HostRequest::Automate { index },
        Some(OpCode::Version) => HostRequest::Version,
        Some(OpCode::CurrentId) => HostRequest::CurrentId,
        Some(OpCode::Idle) => HostRequest::Idle,
        _ => HostRequest::Ignored,
    }
}

/// The reply the host gives to a request, given the plugin id its host object reports.
pub open spec fn reply_of(request: HostRequest, plugin_id: i32) -> isize {
    match request {
        HostRequest::Version => HOST_VERSION,
        HostRequest::CurrentId => plugin_id as isize,
        _ => 0,
    }
}

impl HostRequest {
    /// Translates a plugin-to-host call into the request it makes of the host.
    /// Deprecated and unknown opcodes are accepted and become `Ignored`.
    pub fn decode(opcode: i32, index: i32) -> (r: HostRequest)
        ensures
            r == request_of(opcode, index),
    {
        match OpCode::from_code(opcode) {
            Some(OpCode::Automate) => HostRequest::Automate { index },
            Some(OpCode::Version) => HostRequest::Version,
            Some(OpCode::CurrentId) => HostRequest::CurrentId,
            Some(OpCode::Idle) => HostRequest::Idle,
            _ => HostRequest::Ignored,
        }
    }

    /// Whether answering needs the host object's plugin id.
    pub fn needs_plugin_id(&self) -> (r: bool)
        ensures
            r == (*self == HostRequest::CurrentId),
    {
        match self {
            HostRequest::CurrentId => true,
            _ => false,
        }
    }

    /// The value returned to the plugin for this request.
    pub fn reply(&self, plugin_id: i32) -> (r: isize)
        ensures
            r == reply_of(*self, plugin_id),
    {
        match self {
            HostRequest::Version => HOST_VERSION,
            HostRequest::CurrentId => plugin_id as isize,
            _ => 0,
        }
    }
}

/// Asking for the host version yields the same number whatever the host object
/// reports otherwise, and on every call.
pub proof fn lemma_version_reply_is_stable(index_a: i32, index_b: i32, id_a: i32, id_b: i32)
    ensures
        reply_of(request_of(code_of(OpCode::Version), index_a), id_a) == HOST_VERSION,
        reply_of(request_of(code_of(OpCode::Version), index_a), id_a) == reply_of(
            request_of(code_of(OpCode::Version), index_b),
            id_b,
        ),
{
}
} // verus!
