//! Host side of the VST 2.4 plugin protocol: the decisions of loading a plugin library,
//! bridging its callbacks to the right host, reading its descriptor and running its lifecycle.
//!
//! The native side (mapping the library, calling its entry point and its dispatcher) is
//! performed by the embedding application; this crate states and proves what is decided
//! around each of those calls.

mod error;
mod info;
mod instance;
mod opcode;
mod registry;

pub use error::PluginLoadError;
pub use info::{
    category_of, has_flag, is_text_before_nul, lossy_text, read_text, text_before_nul, Category,
    Descriptor, Info, CAN_DOUBLE_REPLACING, MAX_PRODUCT_STR_LEN, MAX_VENDOR_STR_LEN,
    NO_SOUND_IN_STOP, PROGRAM_CHUNKS,
};
pub use instance::{count_of, lemma_dispatch_order, Message, PluginInstance, PluginLoader};
pub use opcode::{
    code_of, lemma_version_reply_is_stable, opcode_of, reply_of, request_of, HostRequest, OpCode,
    HOST_VERSION, PLUGIN_GET_CATEGORY, PLUGIN_GET_PRODUCT_NAME, PLUGIN_GET_VENDOR_NAME,
    PLUGIN_INITIALIZE, PLUGIN_SHUTDOWN,
};
pub use registry::{lemma_callback_resolution, HostRegistry, RegistryView};
