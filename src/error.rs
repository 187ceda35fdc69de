use vstd::prelude::*;

verus! {

/// All possible errors that can occur when loading a plugin.
#[derive(Clone, Copy, Debug, PartialEq, Eq, Structural)]
pub enum PluginLoadError {
    /// Could not load given path.
    InvalidPath,
    /// Given path is not a VST plugin.
    NotAPlugin,
    /// Failed to create an instance of this plugin.
    ///
    /// This can happen for many reasons, such as if the plugin requires a different version of
    /// the VST API to be used, or due to improper licensing.
    InstanceFailed,
}

impl PluginLoadError {
    /// The message shown to a user for this error.
    pub open spec fn message(self) -> Seq<char> {
        match self {
            PluginLoadError::InvalidPath => "Could not open the requested path"@,
            PluginLoadError::NotAPlugin => "The given path does not contain a VST2.4 compatible library"@,
            PluginLoadError::InstanceFailed => "Failed to create a plugin instance"@,
        }
    }

    /// A human readable description of the error.
    pub fn description(&self) -> (r: &'static str)
        ensures
            r@ == self.message(),
    {
        match self {
            PluginLoadError::InvalidPath => "Could not open the requested path",
            PluginLoadError::NotAPlugin => "The given path does not contain a VST2.4 compatible library",
            PluginLoadError::InstanceFailed => "Failed to create a plugin instance",
        }
    }
}

} // verus!
