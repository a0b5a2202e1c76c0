use vstd::prelude::*;

verus! {

/// The declaration of the configuration of a context. It is the same for
/// every library.
pub const CONFIG: &'static str =
    "/// Configuration for the [`Context`] struct.\n///\n/// Any changes to the configuration must be made before calling [`Context::new`].\n///\n/// The type parameter `B` specifies which backend to use.\n/// You can find the list of all compiled backends in the [`backends`] module.\npub struct Config<B: Backend> {\n    _phantom: PhantomData<B>,\n    pub(crate) inner: *mut types::futhark_context_config,\n}\n\nimpl<B: Backend> Config<B> {\n    /// Create a new configuration with default settings.\n    ///\n    /// The default values are:\n    /// - `debugging = false`\n    /// - `profiling = false`\n    /// - `logging = false`\n    /// - `tuning_params = None`\n    /// - `cache_file = None`\n    pub fn new() -> Self {\n        let inner = unsafe { B::futhark_context_config_new() };\n        assert!(!inner.is_null());\n        Config {\n            _phantom: PhantomData,\n            inner,\n        }\n    }\n}\n\nimpl<B: Backend> Default for Config<B> {\n    fn default() -> Self {\n        Self::new()\n    }\n}\n\nimpl<B: Backend> Drop for Config<B> {\n    fn drop(&mut self) {\n        unsafe {\n            B::futhark_context_config_free(self.inner);\n        }\n    }\n}\n\n";

/// Declares the configuration of a context: a type that every backend can
/// stand in, that owns one configuration of Futhark, makes it when it is
/// made, stops where Futhark hands out none, and frees it when it is
/// dropped.
pub fn template() -> (text: String)
    ensures
        text@ == CONFIG@,
{
    CONFIG.to_owned()
}

} // verus!
